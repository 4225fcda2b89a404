//! The interpreter: it owns the machine's parts, fetches, decodes and
//! executes instructions, and ticks the timers and the keypad once per cycle.

use rand::Rng;
use vstd::prelude::*;
use crate::display::unpacked;
use crate::display::Display;
use crate::instruction::decode;
use crate::instruction::decoded;
use crate::instruction::Instruction;
use crate::laws::lemma_paused_cycle;
use crate::keyboard::Keyboard;
use crate::keyboard::KeyboardInput;
use crate::machine::Fault;
use crate::machine::Machine;
use crate::machine::INSTRUCTIONS_PER_CYCLE;
use crate::machine::State;
use crate::memory::Memory;
use crate::memory::RomError;
use crate::memory::MAX_ROM_SIZE;
use crate::registers::Registers;
use crate::timers::Timers;

verus! {

/// What the host should do with the buzzer.
#[derive(Clone, Copy, Debug, PartialEq, Eq)]
pub enum SoundAction {
    /// Start the tone.
    Start,
    /// Stop the tone.
    Stop,
    /// Leave the buzzer as it is.
    Keep,
}

/// What the buzzer should do, given the sound timer and whether the tone is
/// playing: it starts when the timer is not zero and it is silent, and stops
/// when the timer is zero and it sounds.
pub open spec fn sound_action_for(sound: u8, playing: bool) -> SoundAction {
    if sound > 0 && !playing {
        SoundAction::Start
    } else if sound == 0 && playing {
        SoundAction::Stop
    } else {
        SoundAction::Keep
    }
}

/// One byte from `rand::thread_rng()`, drawn with `Rng::gen`. The generator
/// is seeded by the system, so nothing is claimed of the byte: it may be any
/// of the 256.
#[verifier::external_body]
fn random_byte() -> (byte: u8) {
    rand::thread_rng().gen()
}

/// The interpreter and the machine that it runs.
///
/// Its view is the whole machine as one value, a `Machine`, and the
/// contracts say what each operation makes of that value.
pub struct Chip {
    memory: Memory,
    registers: Registers,
    keyboard: Keyboard,
    display: Display,
    timers: Timers,
    paused: bool,
    waiting_for_key: bool,
    fault: Option<Fault>,
    index_increment: bool,
}

impl View for Chip {
    type V = Machine;

    closed spec fn view(&self) -> Machine {
        Machine {
            memory: self.memory@,
            v: self.registers@.v,
            i: self.registers@.i,
            pc: self.registers@.pc,
            stack: self.registers@.stack,
            delay: self.timers.spec_delay(),
            sound: self.timers.spec_sound(),
            keypad: self.keyboard@,
            screen: self.display@,
            paused: self.paused,
            waiting_for_key: self.waiting_for_key,
            fault: self.fault,
            index_increment: self.index_increment,
        }
    }
}

#[allow(non_snake_case)]
impl Chip {
    /// The machine of an interpreter always has the shape of one.
    pub proof fn lemma_wf(&self)
        ensures
            self@.wf(),
    {
        self.memory.lemma_size();
        self.registers.lemma_sixteen();
        self.keyboard.lemma_sixteen();
        self.display.lemma_dimensions();
    }

    /// A machine that was just switched on.
    pub fn new() -> (chip: Self)
        ensures
            chip@ == Machine::initial(),
    {
        Self {
            memory: Memory::new(),
            registers: Registers::new(),
            keyboard: Keyboard::new(),
            display: Display::new(),
            timers: Timers::new(),
            paused: false,
            waiting_for_key: false,
            fault: None,
            index_increment: true,
        }
    }

    /// Loads a program at `0x200`. A program of more than 3584 bytes does not
    /// fit: it is refused and the machine stays as it was.
    pub fn load_rom(&mut self, rom_data: &[u8]) -> (result: Result<(), RomError>)
        ensures
            rom_data@.len() <= MAX_ROM_SIZE ==> result is Ok && final(self)@ == old(self)@.loaded(
                rom_data@,
            ),
            rom_data@.len() > MAX_ROM_SIZE ==> result == Err::<(), RomError>(RomError::RomTooLarge)
                && final(self)@ == old(self)@,
    {
        self.memory.load_rom(rom_data)
    }

    /// Takes in the event that keypad key `hex_key` went down (`pressed`) or
    /// up. A key that the keypad does not have is ignored.
    pub fn process_key_event(&mut self, hex_key: u8, pressed: bool)
        ensures
            final(self)@ == old(self)@.key_event(hex_key, pressed),
    {
        self.keyboard.process_input(hex_key, pressed);
    }

    /// Takes in an event of the host's keyboard. A key that stands for no
    /// keypad key, or that the host could not name, is ignored.
    pub fn process_input(&mut self, input: KeyboardInput)
        ensures
            final(self)@ == old(self)@.host_input(input),
    {
        self.keyboard.process_keyboard_input(input);
    }

    /// The display.
    pub fn display(&self) -> (display: &Display)
        ensures
            display@ == self@.screen,
    {
        &self.display
    }

    /// A copy of the screen as 64 packed columns, one 32-bit word each, the
    /// highest bit for the top row.
    pub fn display_snapshot(&self) -> (columns: [u32; 64])
        ensures
            unpacked(columns@) == self@.screen,
    {
        self.display.pixels()
    }

    /// Whether the buzzer should sound: the sound timer is not zero.
    pub fn is_sound_active(&self) -> (active: bool)
        ensures
            active == (self@.sound > 0),
    {
        self.timers.sound() > 0
    }

    /// What the host should do with the buzzer, given whether the tone is
    /// playing now.
    pub fn sound_action(&self, playing: bool) -> (action: SoundAction)
        ensures
            action == sound_action_for(self@.sound, playing),
    {
        let sound = self.timers.sound();
        if sound > 0 && !playing {
            SoundAction::Start
        } else if sound == 0 && playing {
            SoundAction::Stop
        } else {
            SoundAction::Keep
        }
    }

    /// Whether the interpreter is halted.
    pub fn paused(&self) -> (paused: bool)
        ensures
            paused == self@.paused,
    {
        self.paused
    }

    /// Whether the interpreter is halted.
    pub fn is_paused(&self) -> (paused: bool)
        ensures
            paused == self@.paused,
    {
        self.paused
    }

    /// Halts the interpreter or lets it run again.
    pub fn set_paused(&mut self, paused: bool)
        ensures
            final(self)@ == (Machine { paused, ..old(self)@ }),
    {
        self.paused = paused;
    }

    /// What the interpreter is doing.
    pub fn state(&self) -> (state: State)
        ensures
            state == self@.state(),
    {
        if self.paused {
            State::Paused
        } else if self.waiting_for_key {
            State::WaitingForKey
        } else {
            State::Running
        }
    }

    /// The most recent fault that was not cleared, if any.
    pub fn last_fault(&self) -> (fault: Option<Fault>)
        ensures
            fault == self@.fault,
    {
        self.fault
    }

    /// Forgets the recorded fault.
    pub fn clear_fault(&mut self)
        ensures
            final(self)@ == (Machine { fault: None, ..old(self)@ }),
    {
        self.fault = None;
    }

    /// Chooses whether storing and loading registers (`Fx55`, `Fx65`) moves
    /// `I` past what was stored or loaded. A new machine does.
    pub fn set_index_increment(&mut self, index_increment: bool)
        ensures
            final(self)@ == (Machine { index_increment, ..old(self)@ }),
    {
        self.index_increment = index_increment;
    }

    /// The value of register `Vx`.
    pub fn register(&self, x: u8) -> (value: u8)
        requires
            x < 16,
        ensures
            value == self@.v[x as int],
    {
        self.registers.v(x)
    }

    /// The registers.
    pub fn registers(&self) -> (registers: &Registers)
        ensures
            registers@.v == self@.v,
            registers@.i == self@.i,
            registers@.pc == self@.pc,
            registers@.stack == self@.stack,
    {
        &self.registers
    }

    /// The memory.
    pub fn memory(&self) -> (memory: &Memory)
        ensures
            memory@ == self@.memory,
    {
        &self.memory
    }

    /// The timers.
    pub fn timers(&self) -> (timers: &Timers)
        ensures
            timers.spec_delay() == self@.delay,
            timers.spec_sound() == self@.sound,
    {
        &self.timers
    }

    /// The keypad.
    pub fn keyboard(&self) -> (keyboard: &Keyboard)
        ensures
            keyboard@ == self@.keypad,
    {
        &self.keyboard
    }

    /// Fetches the instruction word at the program counter, high byte first,
    /// and moves the program counter past it.
    pub fn fetch_instruction(&mut self) -> (instruction: u16)
        ensures
            instruction == old(self)@.next_instruction(),
            final(self)@ == old(self)@.advanced(),
    {
        let pc = self.registers.pc();
        let left = self.memory.read(pc) as u16;
        let right = self.memory.read(pc.wrapping_add(1)) as u16;

        self.registers.increment_pc();

        left * 0x100 + right
    }

    /// Decodes and executes one instruction word, the program counter being
    /// past it already. `draw_slot` says whether the instruction may draw: in
    /// a cycle only the first one may. A word that is no instruction is
    /// recorded as a fault and changes nothing else.
    ///
    /// A random instruction draws its byte here, so the contract says that
    /// the machine is what the instruction makes of it for some random
    /// byte. For every other instruction the byte does not matter.
    pub fn execute_instruction(&mut self, instruction: u16, draw_slot: bool)
        ensures
            exists|random: u8| final(self)@ == #[trigger] old(self)@.execute(
                decoded(instruction),
                draw_slot,
                random,
            ),
    {
        let op = decode(instruction);
        let random = match op {
            Instruction::Rnd { .. } => random_byte(),
            _ => 0,
        };
        self.execute_decoded(op, draw_slot, random);
    }

    /// Executes one decoded instruction, the program counter being past it
    /// already. `draw_slot` says whether the instruction may draw, and
    /// `random` is the byte that a random instruction uses.
    pub fn execute_decoded(&mut self, op: Instruction, draw_slot: bool, random: u8)
        requires
            op.wf(),
        ensures
            final(self)@ == old(self)@.execute(op, draw_slot, random),
    {
        match op {
            Instruction::Cls => self.CLS(),
            Instruction::Ret => self.RET(),
            Instruction::Jp { addr } => self.JP_addr(addr),
            Instruction::Call { addr } => self.CALL_addr(addr),
            Instruction::SeByte { x, byte } => self.SE_Vx_byte(x, byte),
            Instruction::SneByte { x, byte } => self.SNE_Vx_byte(x, byte),
            Instruction::SeReg { x, y } => self.SE_Vx_Vy(x, y),
            Instruction::LdByte { x, byte } => self.LD_Vx_byte(x, byte),
            Instruction::AddByte { x, byte } => self.ADD_Vx_byte(x, byte),
            Instruction::LdReg { x, y } => self.LD_Vx_Vy(x, y),
            Instruction::Or { x, y } => self.OR_Vx_Vy(x, y),
            Instruction::And { x, y } => self.AND_Vx_Vy(x, y),
            Instruction::Xor { x, y } => self.XOR_Vx_Vy(x, y),
            Instruction::AddReg { x, y } => self.ADD_Vx_Vy(x, y),
            Instruction::Sub { x, y } => self.SUB_Vx_Vy(x, y),
            Instruction::Shr { x, y } => self.SHR_Vx_Vy(x, y),
            Instruction::Subn { x, y } => self.SUBN_Vx_Vy(x, y),
            Instruction::Shl { x, y } => self.SHL_Vx_Vy(x, y),
            Instruction::SneReg { x, y } => self.SNE_Vx_Vy(x, y),
            Instruction::LdI { addr } => self.LD_I_addr(addr),
            Instruction::JpV0 { addr } => self.JP_V0_addr(addr),
            Instruction::Rnd { x, byte } => self.RND_Vx_byte(x, byte, random),
            Instruction::Drw { x, y, n } => self.DRW_Vx_Vy_n(x, y, n, draw_slot),
            Instruction::Skp { x } => self.SKP_Vx(x),
            Instruction::Sknp { x } => self.SKNP_Vx(x),
            Instruction::LdVxDt { x } => self.LD_Vx_DT(x),
            Instruction::LdVxK { x } => self.LD_Vx_K(x),
            Instruction::LdDtVx { x } => self.LD_DT_Vx(x),
            Instruction::LdStVx { x } => self.LD_ST_Vx(x),
            Instruction::AddIVx { x } => self.ADD_I_Vx(x),
            Instruction::LdFVx { x } => self.LD_F_Vx(x),
            Instruction::LdBVx { x } => self.LD_B_Vx(x),
            Instruction::LdIVx { x } => self.LD_I_Vx(x),
            Instruction::LdVxI { x } => self.LD_Vx_I(x),
            Instruction::Invalid { instruction } => {
                self.fault = Some(Fault::InvalidOpcode { instruction });
            },
        }
    }

    /// One cycle: ten instruction slots, then one tick of the timers and of
    /// the keypad.
    ///
    /// Each slot fetches and executes one instruction, unless the interpreter
    /// is halted. Only the first slot may draw. The tick is left out if the
    /// interpreter is halted by then, so a halted machine is left exactly as
    /// it is. The contract speaks of the ten random bytes that the slots may
    /// have drawn.
    pub fn cpu_cycle(&mut self)
        ensures
            exists|randoms: Seq<u8>|
                randoms.len() == INSTRUCTIONS_PER_CYCLE && final(self)@ == #[trigger] old(
                    self,
                )@.cycle(randoms),
            old(self)@.paused ==> final(self)@ == old(self)@,
    {
        let ghost mut randoms: Seq<u8> = Seq::empty();
        let mut slot: usize = 0;
        while slot < INSTRUCTIONS_PER_CYCLE
            invariant
                slot <= INSTRUCTIONS_PER_CYCLE,
                randoms.len() == slot,
                self@ == old(self)@.after_slots(randoms, slot as nat),
            decreases INSTRUCTIONS_PER_CYCLE - slot,
        {
            let ghost before = self@;
            let ghost mut random: u8 = 0;
            if !self.paused() {
                let draw_slot = slot == 0;
                let instruction = self.fetch_instruction();
                let ghost fetched = self@;
                self.execute_instruction(instruction, draw_slot);
                proof {
                    random = choose|random: u8|
                        self@ == #[trigger] fetched.execute(
                            decoded(instruction),
                            draw_slot,
                            random,
                        );
                }
            }
            proof {
                old(self)@.lemma_after_slots_push(randoms, random, slot as nat);
                randoms = randoms.push(random);
            }
            slot += 1;
        }

        if !self.paused() {
            self.timers.update();
            self.keyboard.update();
        }
        assert(self@ == old(self)@.cycle(randoms));
        proof {
            if old(self)@.paused {
                lemma_paused_cycle(old(self)@, randoms);
            }
        }
    }

    // --- Instructions ---
    // Each runs with the program counter past the instruction already.

    /// 00E0 - CLS
    /// Clear the display.
    fn CLS(&mut self)
        ensures
            final(self)@ == old(self)@.cls(),
    {
        self.display.clear();
    }

    /// 00EE - RET
    /// Return from a subroutine.
    ///
    /// The program counter is set to the address on top of the stack, which
    /// leaves the stack. With an empty stack the instruction is a fault.
    fn RET(&mut self)
        ensures
            final(self)@ == old(self)@.ret(),
    {
        match self.registers.pop_stack() {
            Ok(pc) => self.registers.set_pc(pc),
            Err(_) => {
                self.fault = Some(Fault::StackUnderflow);
            },
        }
    }

    /// 1nnn - JP addr
    /// Jump to location nnn.
    ///
    /// A jump to the address of the jump itself would spin forever: it halts
    /// the interpreter.
    fn JP_addr(&mut self, addr: u16)
        ensures
            final(self)@ == old(self)@.jp(addr),
    {
        if addr == self.registers.pc().wrapping_sub(2) {
            self.set_paused(true);
        }
        self.registers.set_pc(addr);
    }

    /// 2nnn - CALL addr
    /// Call subroutine at nnn.
    ///
    /// The program counter goes onto the stack and is then set to nnn. With
    /// a full stack the instruction is a fault.
    fn CALL_addr(&mut self, addr: u16)
        ensures
            final(self)@ == old(self)@.call(addr),
    {
        let pc = self.registers.pc();
        match self.registers.push_stack(pc) {
            Ok(_) => self.registers.set_pc(addr),
            Err(_) => {
                self.fault = Some(Fault::StackOverflow);
            },
        }
    }

    /// 3xkk - SE Vx, byte
    /// Skip next instruction if Vx = kk.
    fn SE_Vx_byte(&mut self, x: u8, byte: u8)
        requires
            x < 16,
        ensures
            final(self)@ == old(self)@.se_byte(x, byte),
    {
        if self.registers.v(x) == byte {
            self.registers.increment_pc();
        }
    }

    /// 4xkk - SNE Vx, byte
    /// Skip next instruction if Vx != kk.
    fn SNE_Vx_byte(&mut self, x: u8, byte: u8)
        requires
            x < 16,
        ensures
            final(self)@ == old(self)@.sne_byte(x, byte),
    {
        if self.registers.v(x) != byte {
            self.registers.increment_pc();
        }
    }

    /// 5xy0 - SE Vx, Vy
    /// Skip next instruction if Vx = Vy.
    fn SE_Vx_Vy(&mut self, x: u8, y: u8)
        requires
            x < 16,
            y < 16,
        ensures
            final(self)@ == old(self)@.se_reg(x, y),
    {
        if self.registers.v(x) == self.registers.v(y) {
            self.registers.increment_pc();
        }
    }

    /// 6xkk - LD Vx, byte
    /// Set Vx = kk.
    fn LD_Vx_byte(&mut self, x: u8, byte: u8)
        requires
            x < 16,
        ensures
            final(self)@ == old(self)@.ld_byte(x, byte),
    {
        self.registers.set_v(x, byte);
    }

    /// 7xkk - ADD Vx, byte
    /// Set Vx = Vx + kk.
    ///
    /// The sum wraps around 255 and no flag is set.
    fn ADD_Vx_byte(&mut self, x: u8, byte: u8)
        requires
            x < 16,
        ensures
            final(self)@ == old(self)@.add_byte(x, byte),
    {
        let sum = self.registers.v(x).wrapping_add(byte);
        self.registers.set_v(x, sum);
    }

    /// 8xy0 - LD Vx, Vy
    /// Set Vx = Vy.
    fn LD_Vx_Vy(&mut self, x: u8, y: u8)
        requires
            x < 16,
            y < 16,
        ensures
            final(self)@ == old(self)@.ld_reg(x, y),
    {
        let value = self.registers.v(y);
        self.registers.set_v(x, value);
    }

    /// 8xy1 - OR Vx, Vy
    /// Set Vx = Vx OR Vy, then VF = 0.
    fn OR_Vx_Vy(&mut self, x: u8, y: u8)
        requires
            x < 16,
            y < 16,
        ensures
            final(self)@ == old(self)@.or(x, y),
    {
        let value = self.registers.v(x) | self.registers.v(y);
        self.registers.set_v(x, value);
        self.registers.set_vf(0);
    }

    /// 8xy2 - AND Vx, Vy
    /// Set Vx = Vx AND Vy, then VF = 0.
    fn AND_Vx_Vy(&mut self, x: u8, y: u8)
        requires
            x < 16,
            y < 16,
        ensures
            final(self)@ == old(self)@.and(x, y),
    {
        let value = self.registers.v(x) & self.registers.v(y);
        self.registers.set_v(x, value);
        self.registers.set_vf(0);
    }

    /// 8xy3 - XOR Vx, Vy
    /// Set Vx = Vx XOR Vy, then VF = 0.
    fn XOR_Vx_Vy(&mut self, x: u8, y: u8)
        requires
            x < 16,
            y < 16,
        ensures
            final(self)@ == old(self)@.xor(x, y),
    {
        let value = self.registers.v(x) ^ self.registers.v(y);
        self.registers.set_v(x, value);
        self.registers.set_vf(0);
    }

    /// 8xy4 - ADD Vx, Vy
    /// Set Vx = Vx + Vy, set VF = carry.
    ///
    /// Only the lowest 8 bits of the sum are kept in Vx. VF is 1 if the sum
    /// is greater than 255, otherwise 0.
    fn ADD_Vx_Vy(&mut self, x: u8, y: u8)
        requires
            x < 16,
            y < 16,
        ensures
            final(self)@ == old(self)@.add_reg(x, y),
    {
        let sum = self.registers.v(x) as u16 + self.registers.v(y) as u16;

        self.registers.set_v(x, (sum % 0x100) as u8);

        self.registers.set_vf(if sum > 255 { 1 } else { 0 });
    }

    /// 8xy5 - SUB Vx, Vy
    /// Set Vx = Vx - Vy, set VF = NOT borrow.
    ///
    /// VF is 1 if Vx >= Vy, otherwise 0.
    fn SUB_Vx_Vy(&mut self, x: u8, y: u8)
        requires
            x < 16,
            y < 16,
        ensures
            final(self)@ == old(self)@.sub(x, y),
    {
        let v_x = self.registers.v(x);
        let v_y = self.registers.v(y);
        let not_borrow = v_x >= v_y;

        self.registers.set_v(x, v_x.wrapping_sub(v_y));

        self.registers.set_vf(if not_borrow { 1 } else { 0 });
    }

    /// 8xy6 - SHR Vx {, Vy}
    /// Set Vx = Vy SHR 1, VF = the bit shifted out.
    fn SHR_Vx_Vy(&mut self, x: u8, y: u8)
        requires
            x < 16,
            y < 16,
        ensures
            final(self)@ == old(self)@.shr(x, y),
    {
        let v_y = self.registers.v(y);
        self.registers.set_v(x, v_y / 2);

        self.registers.set_vf(v_y % 2);
    }

    /// 8xy7 - SUBN Vx, Vy
    /// Set Vx = Vy - Vx, set VF = NOT borrow.
    ///
    /// VF is 1 if Vy >= Vx, otherwise 0.
    fn SUBN_Vx_Vy(&mut self, x: u8, y: u8)
        requires
            x < 16,
            y < 16,
        ensures
            final(self)@ == old(self)@.subn(x, y),
    {
        let v_x = self.registers.v(x);
        let v_y = self.registers.v(y);
        let not_borrow = v_y >= v_x;

        self.registers.set_v(x, v_y.wrapping_sub(v_x));
        self.registers.set_vf(if not_borrow { 1 } else { 0 });
    }

    /// 8xyE - SHL Vx {, Vy}
    /// Set Vx = Vy SHL 1, VF = the bit shifted out.
    fn SHL_Vx_Vy(&mut self, x: u8, y: u8)
        requires
            x < 16,
            y < 16,
        ensures
            final(self)@ == old(self)@.shl(x, y),
    {
        let v_y = self.registers.v(y);
        self.registers.set_v(x, (v_y % 128) * 2);

        self.registers.set_vf(v_y / 128);
    }

    /// 9xy0 - SNE Vx, Vy
    /// Skip next instruction if Vx != Vy.
    fn SNE_Vx_Vy(&mut self, x: u8, y: u8)
        requires
            x < 16,
            y < 16,
        ensures
            final(self)@ == old(self)@.sne_reg(x, y),
    {
        if self.registers.v(x) != self.registers.v(y) {
            self.registers.increment_pc();
        }
    }

    /// Annn - LD I, addr
    /// Set I = nnn.
    fn LD_I_addr(&mut self, addr: u16)
        ensures
            final(self)@ == old(self)@.ld_i(addr),
    {
        self.registers.set_i(addr);
    }

    /// Bnnn - JP V0, addr
    /// Jump to location nnn + V0.
    fn JP_V0_addr(&mut self, addr: u16)
        ensures
            final(self)@ == old(self)@.jp_v0(addr),
    {
        let target = (self.registers.v(0) as u16).wrapping_add(addr);
        self.registers.set_pc(target);
    }

    /// Cxkk - RND Vx, byte
    /// Set Vx = random byte AND kk.
    ///
    /// `random` is the random byte, which the caller has drawn.
    fn RND_Vx_byte(&mut self, x: u8, byte: u8, random: u8)
        requires
            x < 16,
        ensures
            final(self)@ == old(self)@.rnd(x, byte, random),
    {
        self.registers.set_v(x, random & byte);
    }

    /// Dxyn - DRW Vx, Vy, nibble
    /// Display n-byte sprite starting at memory location I at (Vx, Vy),
    /// set VF = collision.
    ///
    /// The sprite is XORed onto the screen, and what would fall off an edge
    /// comes back in at the opposite edge. VF is 1 if that turned a lit pixel
    /// off, otherwise 0. Only the first instruction of a cycle may draw: any
    /// other moves the program counter back onto itself and so waits for the
    /// next cycle.
    fn DRW_Vx_Vy_n(&mut self, x: u8, y: u8, nibble: u8, draw_slot: bool)
        requires
            x < 16,
            y < 16,
            nibble < 16,
        ensures
            final(self)@ == old(self)@.drw(x, y, nibble, draw_slot),
    {
        if !draw_slot {
            let pc = self.registers.pc().wrapping_sub(2);
            self.registers.set_pc(pc);
            return ;
        }
        let mut sprite: Vec<u8> = Vec::new();
        let base = self.registers.i();

        let mut k: u8 = 0;
        while k < nibble
            invariant
                k <= nibble,
                nibble < 16,
                self@ == old(self)@,
                base == self@.i,
                sprite@.len() == k,
                forall|j: int| 0 <= j < k ==> #[trigger] sprite@[j] == self@.byte_at(base + j),
            decreases nibble - k,
        {
            sprite.push(self.memory.read(base.wrapping_add(k as u16)));
            k += 1;
        }
        assert(sprite@ =~= old(self)@.sprite(nibble));

        let v_x = self.registers.v(x);
        let v_y = self.registers.v(y);
        let collision = self.display.draw_sprite(v_x, v_y, sprite.as_slice());

        self.registers.set_vf(if collision { 1 } else { 0 });
    }

    /// Ex9E - SKP Vx
    /// Skip next instruction if key with the value of Vx is pressed.
    fn SKP_Vx(&mut self, x: u8)
        requires
            x < 16,
        ensures
            final(self)@ == old(self)@.skp(x),
    {
        if self.keyboard.is_pressed(self.registers.v(x)) {
            self.registers.increment_pc();
        }
    }

    /// ExA1 - SKNP Vx
    /// Skip next instruction if key with the value of Vx is not pressed.
    fn SKNP_Vx(&mut self, x: u8)
        requires
            x < 16,
        ensures
            final(self)@ == old(self)@.sknp(x),
    {
        if !self.keyboard.is_pressed(self.registers.v(x)) {
            self.registers.increment_pc();
        }
    }

    /// Fx07 - LD Vx, DT
    /// Set Vx = delay timer value.
    fn LD_Vx_DT(&mut self, x: u8)
        requires
            x < 16,
        ensures
            final(self)@ == old(self)@.ld_vx_dt(x),
    {
        let delay = self.timers.delay();
        self.registers.set_v(x, delay);
    }

    /// Fx0A - LD Vx, K
    /// Wait for a key, store the value of the key in Vx.
    ///
    /// The key is one that was released since the last tick. While there is
    /// none, the program counter moves back onto this instruction, so that it
    /// runs again.
    fn LD_Vx_K(&mut self, x: u8)
        requires
            x < 16,
        ensures
            final(self)@ == old(self)@.ld_vx_k(x),
    {
        match self.keyboard.just_released() {
            Some(key) => {
                self.waiting_for_key = false;
                self.registers.set_v(x, key)
            },
            None => {
                self.waiting_for_key = true;
                // If no key was released, jump back to this instruction.
                let pc = self.registers.pc().wrapping_sub(2);
                self.registers.set_pc(pc);
            },
        }
    }

    /// Fx15 - LD DT, Vx
    /// Set delay timer = Vx.
    fn LD_DT_Vx(&mut self, x: u8)
        requires
            x < 16,
        ensures
            final(self)@ == old(self)@.ld_dt_vx(x),
    {
        self.timers.set_delay(self.registers.v(x));
    }

    /// Fx18 - LD ST, Vx
    /// Set sound timer = Vx.
    fn LD_ST_Vx(&mut self, x: u8)
        requires
            x < 16,
        ensures
            final(self)@ == old(self)@.ld_st_vx(x),
    {
        self.timers.set_sound(self.registers.v(x));
    }

    /// Fx1E - ADD I, Vx
    /// Set I = I + Vx.
    fn ADD_I_Vx(&mut self, x: u8)
        requires
            x < 16,
        ensures
            final(self)@ == old(self)@.add_i_vx(x),
    {
        let sum = self.registers.i().wrapping_add(self.registers.v(x) as u16);
        self.registers.set_i(sum);
    }

    /// Fx29 - LD F, Vx
    /// Set I = location of sprite for digit Vx.
    fn LD_F_Vx(&mut self, x: u8)
        requires
            x < 16,
        ensures
            final(self)@ == old(self)@.ld_f_vx(x),
    {
        let location = self.registers.v(x) as u16 * 5;
        self.registers.set_i(location);
    }

    /// Fx33 - LD B, Vx
    /// Store BCD representation of Vx in memory locations I, I+1, and I+2.
    ///
    /// The hundreds digit goes to I, the tens digit to I+1 and the ones digit
    /// to I+2.
    fn LD_B_Vx(&mut self, x: u8)
        requires
            x < 16,
        ensures
            final(self)@ == old(self)@.ld_b_vx(x),
    {
        let value = self.registers.v(x);
        let hundreds = value / 100;
        let tens = (value / 10) % 10;
        let ones = value % 10;
        let i = self.registers.i();

        self.memory.write(i, hundreds);
        self.memory.write(i.wrapping_add(1), tens);
        self.memory.write(i.wrapping_add(2), ones);
    }

    /// Fx55 - LD [I], Vx
    /// Store registers V0 through Vx in memory starting at location I.
    ///
    /// Afterwards I is I + x + 1, unless the machine was told to leave it.
    fn LD_I_Vx(&mut self, x: u8)
        requires
            x < 16,
        ensures
            final(self)@ == old(self)@.ld_i_vx(x),
    {
        let base = self.registers.i();
        proof {
            self.lemma_wf();
        }
        let mut k: u8 = 0;
        while k <= x
            invariant
                k <= x + 1,
                x < 16,
                base == old(self)@.i,
                self@.memory.len() == 4096,
                old(self)@.memory.len() == 4096,
                self@ == (Machine { memory: self@.memory, ..old(self)@ }),
                forall|a: int|
                    0 <= a < 4096 ==> #[trigger] self@.memory[a] == (if (a - base) % 4096 < k {
                        old(self)@.v[(a - base) % 4096]
                    } else {
                        old(self)@.memory[a]
                    }),
            decreases x + 1 - k,
        {
            let value = self.registers.v(k);
            self.memory.write(base.wrapping_add(k as u16), value);
            k += 1;
        }
        if self.index_increment {
            self.registers.set_i(base.wrapping_add(x as u16 + 1));
        }
        assert(self@.memory =~= old(self)@.ld_i_vx(x).memory);
    }

    /// Fx65 - LD Vx, [I]
    /// Read registers V0 through Vx from memory starting at location I.
    ///
    /// Afterwards I is I + x + 1, unless the machine was told to leave it.
    fn LD_Vx_I(&mut self, x: u8)
        requires
            x < 16,
        ensures
            final(self)@ == old(self)@.ld_vx_i(x),
    {
        let base = self.registers.i();
        proof {
            self.lemma_wf();
        }
        let mut k: u8 = 0;
        while k <= x
            invariant
                k <= x + 1,
                x < 16,
                base == old(self)@.i,
                self@.v.len() == 16,
                self@ == (Machine { v: self@.v, ..old(self)@ }),
                forall|j: int|
                    0 <= j < 16 ==> #[trigger] self@.v[j] == (if j < k {
                        old(self)@.byte_at(base + j)
                    } else {
                        old(self)@.v[j]
                    }),
            decreases x + 1 - k,
        {
            let value = self.memory.read(base.wrapping_add(k as u16));
            self.registers.set_v(k, value);
            k += 1;
        }
        if self.index_increment {
            self.registers.set_i(base.wrapping_add(x as u16 + 1));
        }
        assert(self@.v =~= old(self)@.ld_vx_i(x).v);
    }
}

} // verus!
