//! The register file: sixteen byte registers, the index register, the
//! program counter and the call stack.

use vstd::prelude::*;

verus! {

/// Width of one instruction in bytes.
pub const INSTRUCTION_WIDTH: u16 = 2;

/// The most return addresses that the call stack holds.
pub const STACK_DEPTH: usize = 16;

/// Index of `VF`, the register that instructions use as their flag.
pub const FLAG_REGISTER: u8 = 0x0F;

/// Why a stack operation was refused.
#[derive(Clone, Copy, Debug, PartialEq, Eq)]
pub enum StackError {
    /// A push onto a stack that already holds `STACK_DEPTH` addresses.
    StackOverflow,
    /// A pop from an empty stack.
    StackUnderflow,
}

/// A 16-bit sum: what is left of `value` after it wraps around `0xFFFF`.
pub open spec fn wrap16(value: int) -> u16 {
    (value % 0x1_0000) as u16
}

/// An 8-bit sum or difference: what is left of `value` after it wraps around
/// `0xFF`.
pub open spec fn wrap8(value: int) -> u8 {
    (value % 0x100) as u8
}

/// The register file as its contracts see it.
pub ghost struct RegisterState {
    /// `V0` to `VF`, sixteen of them.
    pub v: Seq<u8>,
    /// The index register `I`.
    pub i: u16,
    /// The program counter: the address of the next instruction to fetch.
    pub pc: u16,
    /// The return addresses, the most recent one last.
    pub stack: Seq<u16>,
}

/// Sixteen general purpose 8-bit registers `V0` to `VF`, the 16-bit index
/// register `I`, the program counter and the call stack.
///
/// `VF` doubles as the flag of several instructions, so programs should not
/// keep data in it.
pub struct Registers {
    v: [u8; 16],
    i: u16,
    pc: u16,  // program counter
    sp: u8,  // stack pointer: how many return addresses are held
    stack: [u16; 16],
}

impl View for Registers {
    type V = RegisterState;

    closed spec fn view(&self) -> RegisterState {
        RegisterState {
            v: self.v@,
            i: self.i,
            pc: self.pc,
            stack: self.stack@.subrange(0, self.sp as int),
        }
    }
}

impl Registers {
    #[verifier::type_invariant]
    spec fn held_in_bounds(&self) -> bool {
        self.sp <= 16
    }

    /// There are always sixteen registers.
    pub proof fn lemma_sixteen(&self)
        ensures
            self@.v.len() == 16,
    {
    }

    /// All registers zero, the stack empty, and the program counter at
    /// `0x200`, where programs start.
    pub fn new() -> (registers: Self)
        ensures
            registers@.v == Seq::new(16, |x: int| 0u8),
            registers@.i == 0,
            registers@.pc == 0x200,
            registers@.stack == Seq::<u16>::empty(),
    {
        let registers = Self { v: [0; 16], i: 0, pc: 0x200, sp: 0, stack: [0; 16] };
        assert(registers@.v =~= Seq::new(16, |x: int| 0u8));
        assert(registers@.stack =~= Seq::<u16>::empty());
        registers
    }

    /// The value of register `Vx`.
    pub fn v(&self, x: u8) -> (value: u8)
        requires
            x < 16,
        ensures
            value == self@.v[x as int],
    {
        self.v[x as usize]
    }

    /// Sets register `Vx`.
    pub fn set_v(&mut self, x: u8, value: u8)
        requires
            x < 16,
        ensures
            final(self)@ == (RegisterState { v: old(self)@.v.update(x as int, value), ..old(self)@ }),
    {
        proof {
            use_type_invariant(&*self);
        }
        self.v[x as usize] = value;
    }

    /// The value of the flag register `VF`.
    pub fn vf(&self) -> (value: u8)
        ensures
            value == self@.v[15],
    {
        self.v(FLAG_REGISTER)
    }

    /// Sets the flag register `VF`.
    pub fn set_vf(&mut self, value: u8)
        ensures
            final(self)@ == (RegisterState { v: old(self)@.v.update(15, value), ..old(self)@ }),
    {
        self.set_v(FLAG_REGISTER, value);
    }

    /// The value of the index register `I`.
    pub fn i(&self) -> (value: u16)
        ensures
            value == self@.i,
    {
        self.i
    }

    /// Sets the index register `I`.
    pub fn set_i(&mut self, value: u16)
        ensures
            final(self)@ == (RegisterState { i: value, ..old(self)@ }),
    {
        proof {
            use_type_invariant(&*self);
        }
        self.i = value;
    }

    /// The program counter.
    pub fn pc(&self) -> (value: u16)
        ensures
            value == self@.pc,
    {
        self.pc
    }

    /// Sets the program counter.
    pub fn set_pc(&mut self, value: u16)
        ensures
            final(self)@ == (RegisterState { pc: value, ..old(self)@ }),
    {
        proof {
            use_type_invariant(&*self);
        }
        self.pc = value;
    }

    /// Moves the program counter on by one instruction. It wraps around
    /// `0xFFFF`.
    pub fn increment_pc(&mut self)
        ensures
            final(self)@ == (RegisterState { pc: wrap16(old(self)@.pc + 2), ..old(self)@ }),
    {
        proof {
            use_type_invariant(&*self);
        }
        self.pc = self.pc.wrapping_add(INSTRUCTION_WIDTH);
    }

    /// How many return addresses the stack holds: never more than sixteen.
    pub fn stack_depth(&self) -> (depth: usize)
        ensures
            depth == self@.stack.len(),
            depth <= STACK_DEPTH,
    {
        proof {
            use_type_invariant(self);
        }
        self.sp as usize
    }

    /// Pushes a return address. A full stack refuses it and stays as it is.
    pub fn push_stack(&mut self, address: u16) -> (result: Result<(), StackError>)
        ensures
            old(self)@.stack.len() < STACK_DEPTH ==> result is Ok && final(self)@ == (RegisterState {
                stack: old(self)@.stack.push(address),
                ..old(self)@
            }),
            old(self)@.stack.len() >= STACK_DEPTH ==> result == Err::<(), StackError>(
                StackError::StackOverflow,
            ) && final(self)@ == old(self)@,
    {
        proof {
            use_type_invariant(&*self);
        }
        if self.sp >= 16 {
            return Err(StackError::StackOverflow);
        }
        self.stack[self.sp as usize] = address;
        self.sp += 1;
        assert(self@.stack =~= old(self)@.stack.push(address));
        Ok(())
    }

    /// Pops the most recent return address. An empty stack has none to give
    /// and stays as it is.
    pub fn pop_stack(&mut self) -> (result: Result<u16, StackError>)
        ensures
            old(self)@.stack.len() > 0 ==> result == Ok::<u16, StackError>(old(self)@.stack.last())
                && final(self)@ == (RegisterState {
                stack: old(self)@.stack.drop_last(),
                ..old(self)@
            }),
            old(self)@.stack.len() == 0 ==> result == Err::<u16, StackError>(
                StackError::StackUnderflow,
            ) && final(self)@ == old(self)@,
    {
        proof {
            use_type_invariant(&*self);
        }
        if self.sp == 0 {
            return Err(StackError::StackUnderflow);
        }
        self.sp -= 1;
        let address = self.stack[self.sp as usize];
        assert(self@.stack =~= old(self)@.stack.drop_last());
        Ok(address)
    }
}

} // verus!
