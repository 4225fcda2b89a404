//! The machine as mathematics: its whole state as one value, and what each
//! instruction, each burst of instructions and each event from the host makes
//! of it.

use vstd::prelude::*;
use crate::display::blank;
use crate::display::collides;
use crate::display::drawn;
use crate::instruction::decoded;
use crate::instruction::Instruction;
use crate::keyboard::KeyboardInput;
use crate::keyboard::KeypadState;
use crate::memory::initial_memory;
use crate::memory::with_rom;
use crate::registers::wrap16;
use crate::registers::wrap8;
use crate::timers::ticked;

verus! {

/// Instruction slots in one cycle.
pub const INSTRUCTIONS_PER_CYCLE: usize = 10;

/// Something that an instruction could not do. A fault stops nothing: the
/// instruction is left undone and the next one runs.
#[derive(Clone, Copy, Debug, PartialEq, Eq)]
pub enum Fault {
    /// The word is not an instruction.
    InvalidOpcode { instruction: u16 },
    /// A call with sixteen return addresses already on the stack.
    StackOverflow,
    /// A return with no return address on the stack.
    StackUnderflow,
}

/// What the interpreter is doing.
#[derive(Clone, Copy, Debug, PartialEq, Eq)]
pub enum State {
    /// Executing instructions.
    Running,
    /// Halted: by a jump to itself, or by the host.
    Paused,
    /// Kept at a key-wait instruction until a key is released.
    WaitingForKey,
}

/// The whole state of the machine.
pub ghost struct Machine {
    /// The 4096 bytes of memory.
    pub memory: Seq<u8>,
    /// The sixteen registers `V0` to `VF`.
    pub v: Seq<u8>,
    /// The index register `I`.
    pub i: u16,
    /// The program counter: the address of the next instruction to fetch.
    pub pc: u16,
    /// The return addresses, the most recent one last.
    pub stack: Seq<u16>,
    /// The delay timer.
    pub delay: u8,
    /// The sound timer.
    pub sound: u8,
    /// The keypad.
    pub keypad: KeypadState,
    /// The screen: `screen[x][y]` says whether pixel `(x, y)` is lit.
    pub screen: Seq<Seq<bool>>,
    /// Whether the interpreter is halted.
    pub paused: bool,
    /// Whether the last key-wait instruction found no released key.
    pub waiting_for_key: bool,
    /// The most recent fault that nobody has cleared.
    pub fault: Option<Fault>,
    /// Whether storing and loading registers (`Fx55`, `Fx65`) moves `I` past
    /// what was stored or loaded.
    pub index_increment: bool,
}

/// 1 for `true`, 0 for `false`: what an instruction stores in `VF`.
pub open spec fn flag(condition: bool) -> u8 {
    if condition {
        1
    } else {
        0
    }
}

impl Machine {
    /// Whether the machine has the shape of one: 4096 bytes, sixteen
    /// registers, sixteen keys and 64 by 32 pixels.
    pub open spec fn wf(self) -> bool {
        &&& self.memory.len() == 4096
        &&& self.v.len() == 16
        &&& self.keypad.keys.len() == 16
        &&& self.screen.len() == 64
        &&& forall|x: int| 0 <= x < 64 ==> (#[trigger] self.screen[x]).len() == 32
    }

    /// The machine when it is switched on: the font in memory, everything
    /// else zero, the screen dark, no key down, and the program counter at
    /// `0x200`.
    pub open spec fn initial() -> Machine {
        Machine {
            memory: initial_memory(),
            v: Seq::new(16, |x: int| 0u8),
            i: 0,
            pc: 0x200,
            stack: Seq::empty(),
            delay: 0,
            sound: 0,
            keypad: KeypadState { keys: Seq::new(16, |k: int| false), released: None },
            screen: blank(),
            paused: false,
            waiting_for_key: false,
            fault: None,
            index_increment: true,
        }
    }

    /// What the interpreter is doing. A halt hides a wait.
    pub open spec fn state(self) -> State {
        if self.paused {
            State::Paused
        } else if self.waiting_for_key {
            State::WaitingForKey
        } else {
            State::Running
        }
    }

    /// The byte at `address`, which wraps around the end of memory.
    pub open spec fn byte_at(self, address: int) -> u8 {
        self.memory[address % 4096]
    }

    /// The instruction word at the program counter: two bytes, the high one
    /// first.
    pub open spec fn next_instruction(self) -> u16 {
        (self.byte_at(self.pc as int) * 0x100 + self.byte_at(self.pc + 1)) as u16
    }

    /// The program counter moved on by one instruction.
    pub open spec fn advanced(self) -> Machine {
        Machine { pc: wrap16(self.pc + 2), ..self }
    }

    /// The program counter moved back by one instruction.
    pub open spec fn rewound(self) -> Machine {
        Machine { pc: wrap16(self.pc - 2), ..self }
    }

    /// The next instruction skipped, if `condition` holds.
    pub open spec fn skip_if(self, condition: bool) -> Machine {
        if condition {
            self.advanced()
        } else {
            self
        }
    }

    /// Register `Vx` set to `value`.
    pub open spec fn with_v(self, x: u8, value: u8) -> Machine {
        Machine { v: self.v.update(x as int, value), ..self }
    }

    /// The flag register `VF` set to `value`.
    pub open spec fn with_flag(self, value: u8) -> Machine {
        self.with_v(15, value)
    }

    /// `fault` recorded.
    pub open spec fn faulted(self, fault: Fault) -> Machine {
        Machine { fault: Some(fault), ..self }
    }

    /// Whether keypad key `key` is down. A key that the keypad does not have
    /// is never down.
    pub open spec fn key_down(self, key: u8) -> bool {
        key < 16 && self.keypad.keys[key as int]
    }

    /// The `n` bytes of memory from `I` on: the sprite that a draw
    /// instruction draws.
    pub open spec fn sprite(self, n: u8) -> Seq<u8> {
        Seq::new(n as nat, |k: int| self.byte_at(self.i + k))
    }

    /// `I` after registers `V0..=Vx` were stored or loaded.
    pub open spec fn index_after(self, x: u8) -> u16 {
        if self.index_increment {
            wrap16(self.i + x + 1)
        } else {
            self.i
        }
    }

    // The instructions. Each says what the instruction makes of the machine,
    // the program counter having moved past it already.

    /// `00E0`: every pixel off.
    pub open spec fn cls(self) -> Machine {
        Machine { screen: blank(), ..self }
    }

    /// `00EE`: the program counter is the most recent return address, which
    /// leaves the stack. With an empty stack it is a fault.
    pub open spec fn ret(self) -> Machine {
        if self.stack.len() > 0 {
            Machine { pc: self.stack.last(), stack: self.stack.drop_last(), ..self }
        } else {
            self.faulted(Fault::StackUnderflow)
        }
    }

    /// `1nnn`: the program counter is `addr`. A jump to the jump itself halts
    /// the interpreter.
    pub open spec fn jp(self, addr: u16) -> Machine {
        Machine { pc: addr, paused: self.paused || addr == wrap16(self.pc - 2), ..self }
    }

    /// `2nnn`: the program counter goes onto the stack and is then `addr`.
    /// With a full stack it is a fault.
    pub open spec fn call(self, addr: u16) -> Machine {
        if self.stack.len() < 16 {
            Machine { pc: addr, stack: self.stack.push(self.pc), ..self }
        } else {
            self.faulted(Fault::StackOverflow)
        }
    }

    /// `3xkk`: skip if `Vx == byte`.
    pub open spec fn se_byte(self, x: u8, byte: u8) -> Machine {
        self.skip_if(self.v[x as int] == byte)
    }

    /// `4xkk`: skip if `Vx != byte`.
    pub open spec fn sne_byte(self, x: u8, byte: u8) -> Machine {
        self.skip_if(self.v[x as int] != byte)
    }

    /// `5xy0`: skip if `Vx == Vy`.
    pub open spec fn se_reg(self, x: u8, y: u8) -> Machine {
        self.skip_if(self.v[x as int] == self.v[y as int])
    }

    /// `6xkk`: `Vx = byte`.
    pub open spec fn ld_byte(self, x: u8, byte: u8) -> Machine {
        self.with_v(x, byte)
    }

    /// `7xkk`: `Vx = (Vx + byte) mod 256`. No flag is touched.
    pub open spec fn add_byte(self, x: u8, byte: u8) -> Machine {
        self.with_v(x, wrap8(self.v[x as int] + byte))
    }

    /// `8xy0`: `Vx = Vy`.
    pub open spec fn ld_reg(self, x: u8, y: u8) -> Machine {
        self.with_v(x, self.v[y as int])
    }

    /// `8xy1`: `Vx = Vx | Vy`, then `VF = 0`.
    pub open spec fn or(self, x: u8, y: u8) -> Machine {
        self.with_v(x, self.v[x as int] | self.v[y as int]).with_flag(0)
    }

    /// `8xy2`: `Vx = Vx & Vy`, then `VF = 0`.
    pub open spec fn and(self, x: u8, y: u8) -> Machine {
        self.with_v(x, self.v[x as int] & self.v[y as int]).with_flag(0)
    }

    /// `8xy3`: `Vx = Vx ^ Vy`, then `VF = 0`.
    pub open spec fn xor(self, x: u8, y: u8) -> Machine {
        self.with_v(x, self.v[x as int] ^ self.v[y as int]).with_flag(0)
    }

    /// `8xy4`: `Vx = (Vx + Vy) mod 256`, then `VF` = whether the sum passed
    /// 255.
    pub open spec fn add_reg(self, x: u8, y: u8) -> Machine {
        let sum = self.v[x as int] + self.v[y as int];
        self.with_v(x, wrap8(sum)).with_flag(flag(sum > 255))
    }

    /// `8xy5`: `Vx = (Vx - Vy) mod 256`, then `VF` = whether `Vx >= Vy` held.
    pub open spec fn sub(self, x: u8, y: u8) -> Machine {
        let vx = self.v[x as int];
        let vy = self.v[y as int];
        self.with_v(x, wrap8(vx - vy)).with_flag(flag(vx >= vy))
    }

    /// `8xy6`: `Vx = Vy / 2`, then `VF` = the lowest bit that `Vy` had.
    pub open spec fn shr(self, x: u8, y: u8) -> Machine {
        let vy = self.v[y as int];
        self.with_v(x, vy / 2).with_flag(vy % 2)
    }

    /// `8xy7`: `Vx = (Vy - Vx) mod 256`, then `VF` = whether `Vy >= Vx` held.
    pub open spec fn subn(self, x: u8, y: u8) -> Machine {
        let vx = self.v[x as int];
        let vy = self.v[y as int];
        self.with_v(x, wrap8(vy - vx)).with_flag(flag(vy >= vx))
    }

    /// `8xyE`: `Vx = (Vy * 2) mod 256`, then `VF` = the highest bit that `Vy`
    /// had.
    pub open spec fn shl(self, x: u8, y: u8) -> Machine {
        let vy = self.v[y as int];
        self.with_v(x, wrap8(vy * 2)).with_flag(vy / 128)
    }

    /// `9xy0`: skip if `Vx != Vy`.
    pub open spec fn sne_reg(self, x: u8, y: u8) -> Machine {
        self.skip_if(self.v[x as int] != self.v[y as int])
    }

    /// `Annn`: `I = addr`.
    pub open spec fn ld_i(self, addr: u16) -> Machine {
        Machine { i: addr, ..self }
    }

    /// `Bnnn`: the program counter is `(addr + V0) mod 65536`.
    pub open spec fn jp_v0(self, addr: u16) -> Machine {
        Machine { pc: wrap16(addr + self.v[0]), ..self }
    }

    /// `Cxkk`: `Vx = random & byte`, for the random byte that was drawn.
    pub open spec fn rnd(self, x: u8, byte: u8, random: u8) -> Machine {
        self.with_v(x, random & byte)
    }

    /// `Dxyn`: in the draw slot, the sprite of `n` rows at `I` is drawn at
    /// `(Vx, Vy)`, and `VF` says whether that turned a lit pixel off. Outside
    /// the draw slot the instruction only moves the program counter back
    /// onto itself, to run again.
    pub open spec fn drw(self, x: u8, y: u8, n: u8, draw_slot: bool) -> Machine {
        if draw_slot {
            let vx = self.v[x as int];
            let vy = self.v[y as int];
            let sprite = self.sprite(n);
            Machine { screen: drawn(self.screen, vx, vy, sprite), ..self }.with_flag(
                flag(collides(self.screen, vx, vy, sprite)),
            )
        } else {
            self.rewound()
        }
    }

    /// `Ex9E`: skip if key `Vx` is down.
    pub open spec fn skp(self, x: u8) -> Machine {
        self.skip_if(self.key_down(self.v[x as int]))
    }

    /// `ExA1`: skip if key `Vx` is up.
    pub open spec fn sknp(self, x: u8) -> Machine {
        self.skip_if(!self.key_down(self.v[x as int]))
    }

    /// `Fx07`: `Vx` = delay timer.
    pub open spec fn ld_vx_dt(self, x: u8) -> Machine {
        self.with_v(x, self.delay)
    }

    /// `Fx0A`: if a key was released, it goes into `Vx` and the release is
    /// used up. If none was, the interpreter waits: the program counter moves
    /// back onto the instruction, to run again.
    pub open spec fn ld_vx_k(self, x: u8) -> Machine {
        match self.keypad.released {
            Some(key) => Machine {
                keypad: self.keypad.settled(),
                waiting_for_key: false,
                ..self
            }.with_v(x, key),
            None => Machine { waiting_for_key: true, ..self }.rewound(),
        }
    }

    /// `Fx15`: delay timer = `Vx`.
    pub open spec fn ld_dt_vx(self, x: u8) -> Machine {
        Machine { delay: self.v[x as int], ..self }
    }

    /// `Fx18`: sound timer = `Vx`.
    pub open spec fn ld_st_vx(self, x: u8) -> Machine {
        Machine { sound: self.v[x as int], ..self }
    }

    /// `Fx1E`: `I = (I + Vx) mod 65536`.
    pub open spec fn add_i_vx(self, x: u8) -> Machine {
        Machine { i: wrap16(self.i + self.v[x as int]), ..self }
    }

    /// `Fx29`: `I = Vx * 5`, where the font sprite for digit `Vx` lies.
    pub open spec fn ld_f_vx(self, x: u8) -> Machine {
        Machine { i: (self.v[x as int] * 5) as u16, ..self }
    }

    /// `Fx33`: the hundreds, tens and ones of `Vx` go to memory at `I`,
    /// `I + 1` and `I + 2`.
    pub open spec fn ld_b_vx(self, x: u8) -> Machine {
        let value = self.v[x as int];
        Machine {
            memory: self.memory.update(self.i as int % 4096, value / 100).update(
                (self.i + 1) % 4096,
                (value / 10) % 10,
            ).update((self.i + 2) % 4096, value % 10),
            ..self
        }
    }

    /// `Fx55`: `V0..=Vx` go to memory from `I` on, `Vk` to address `I + k`.
    pub open spec fn ld_i_vx(self, x: u8) -> Machine {
        Machine {
            memory: Seq::new(
                4096,
                |a: int|
                    if (a - self.i) % 4096 <= x {
                        self.v[(a - self.i) % 4096]
                    } else {
                        self.memory[a]
                    },
            ),
            i: self.index_after(x),
            ..self
        }
    }

    /// `Fx65`: `V0..=Vx` come from memory from `I` on, `Vk` from address
    /// `I + k`.
    pub open spec fn ld_vx_i(self, x: u8) -> Machine {
        Machine {
            v: Seq::new(16, |k: int| if k <= x { self.byte_at(self.i + k) } else { self.v[k] }),
            i: self.index_after(x),
            ..self
        }
    }

    /// What instruction `op` makes of the machine, the program counter
    /// having moved past it already. `draw_slot` says whether the
    /// instruction may draw, and `random` is the byte that a random
    /// instruction uses.
    pub open spec fn execute(self, op: Instruction, draw_slot: bool, random: u8) -> Machine {
        match op {
            Instruction::Cls => self.cls(),
            Instruction::Ret => self.ret(),
            Instruction::Jp { addr } => self.jp(addr),
            Instruction::Call { addr } => self.call(addr),
            Instruction::SeByte { x, byte } => self.se_byte(x, byte),
            Instruction::SneByte { x, byte } => self.sne_byte(x, byte),
            Instruction::SeReg { x, y } => self.se_reg(x, y),
            Instruction::LdByte { x, byte } => self.ld_byte(x, byte),
            Instruction::AddByte { x, byte } => self.add_byte(x, byte),
            Instruction::LdReg { x, y } => self.ld_reg(x, y),
            Instruction::Or { x, y } => self.or(x, y),
            Instruction::And { x, y } => self.and(x, y),
            Instruction::Xor { x, y } => self.xor(x, y),
            Instruction::AddReg { x, y } => self.add_reg(x, y),
            Instruction::Sub { x, y } => self.sub(x, y),
            Instruction::Shr { x, y } => self.shr(x, y),
            Instruction::Subn { x, y } => self.subn(x, y),
            Instruction::Shl { x, y } => self.shl(x, y),
            Instruction::SneReg { x, y } => self.sne_reg(x, y),
            Instruction::LdI { addr } => self.ld_i(addr),
            Instruction::JpV0 { addr } => self.jp_v0(addr),
            Instruction::Rnd { x, byte } => self.rnd(x, byte, random),
            Instruction::Drw { x, y, n } => self.drw(x, y, n, draw_slot),
            Instruction::Skp { x } => self.skp(x),
            Instruction::Sknp { x } => self.sknp(x),
            Instruction::LdVxDt { x } => self.ld_vx_dt(x),
            Instruction::LdVxK { x } => self.ld_vx_k(x),
            Instruction::LdDtVx { x } => self.ld_dt_vx(x),
            Instruction::LdStVx { x } => self.ld_st_vx(x),
            Instruction::AddIVx { x } => self.add_i_vx(x),
            Instruction::LdFVx { x } => self.ld_f_vx(x),
            Instruction::LdBVx { x } => self.ld_b_vx(x),
            Instruction::LdIVx { x } => self.ld_i_vx(x),
            Instruction::LdVxI { x } => self.ld_vx_i(x),
            Instruction::Invalid { instruction } => self.faulted(Fault::InvalidOpcode { instruction }),
        }
    }

    /// One instruction: it is fetched at the program counter, the program
    /// counter moves past it, and it is executed.
    pub open spec fn step(self, draw_slot: bool, random: u8) -> Machine {
        self.advanced().execute(decoded(self.next_instruction()), draw_slot, random)
    }

    /// The machine after the first `slots` instruction slots of a cycle. A
    /// slot executes one instruction unless the interpreter is halted. Only
    /// the first slot is a draw slot. `randoms[k]` is the random byte for
    /// slot `k`.
    pub open spec fn after_slots(self, randoms: Seq<u8>, slots: nat) -> Machine
        decreases slots,
    {
        if slots == 0 {
            self
        } else {
            let before = self.after_slots(randoms, (slots - 1) as nat);
            if before.paused {
                before
            } else {
                before.step(slots == 1, randoms[slots - 1])
            }
        }
    }

    /// The first `slots` slots use only the first `slots` random bytes.
    pub proof fn lemma_after_slots_push(self, randoms: Seq<u8>, random: u8, slots: nat)
        requires
            slots <= randoms.len(),
        ensures
            self.after_slots(randoms.push(random), slots) == self.after_slots(randoms, slots),
        decreases slots,
    {
        if slots > 0 {
            self.lemma_after_slots_push(randoms, random, (slots - 1) as nat);
        }
    }

    /// One tick of the timers and of the keypad: each timer that is not zero
    /// loses one, and a release that nothing took is forgotten.
    pub open spec fn ticked(self) -> Machine {
        Machine {
            delay: ticked(self.delay),
            sound: ticked(self.sound),
            keypad: self.keypad.settled(),
            ..self
        }
    }

    /// One cycle: ten instruction slots, and then, unless the interpreter is
    /// halted by now, one tick.
    pub open spec fn cycle(self, randoms: Seq<u8>) -> Machine {
        let after = self.after_slots(randoms, INSTRUCTIONS_PER_CYCLE as nat);
        if after.paused {
            after
        } else {
            after.ticked()
        }
    }

    /// The machine after the host reported that keypad key `key` went down
    /// (`pressed`) or up.
    pub open spec fn key_event(self, key: u8, pressed: bool) -> Machine {
        Machine { keypad: self.keypad.after_event(key, pressed), ..self }
    }

    /// The machine after an event of the host's keyboard.
    pub open spec fn host_input(self, input: KeyboardInput) -> Machine {
        Machine { keypad: self.keypad.after_input(input), ..self }
    }

    /// The machine with `rom` in memory from `0x200` on.
    pub open spec fn loaded(self, rom: Seq<u8>) -> Machine {
        Machine { memory: with_rom(self.memory, rom), ..self }
    }
}

} // verus!
