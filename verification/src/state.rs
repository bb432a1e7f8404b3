//! The executable machine state and its invariant-preserving accessors.

use vstd::prelude::*;
use crate::isa::Chip8Error;
use crate::model::{Chip8View, spec_fetched, spec_tick};

verus! {

/// The built-in hexadecimal bitmap font: 16 glyphs of 5 bytes each,
/// glyphs 0 through F in order, pre-loaded at 0x50.
pub const FONT: [u8; 80] = [
    0xF0, 0x90, 0x90, 0x90, 0xF0,
    0x20, 0x60, 0x20, 0x20, 0x70,
    0xF0, 0x10, 0xF0, 0x80, 0xF0,
    0xF0, 0x10, 0xF0, 0x10, 0xF0,
    0x90, 0x90, 0xF0, 0x10, 0x10,
    0xF0, 0x80, 0xF0, 0x10, 0xF0,
    0xF0, 0x80, 0xF0, 0x90, 0xF0,
    0xF0, 0x10, 0x20, 0x40, 0x40,
    0xF0, 0x90, 0xF0, 0x90, 0xF0,
    0xF0, 0x90, 0xF0, 0x10, 0xF0,
    0xF0, 0x90, 0xF0, 0x90, 0x90,
    0xE0, 0x90, 0xE0, 0x90, 0xE0,
    0xF0, 0x80, 0x80, 0x80, 0xF0,
    0xE0, 0x90, 0x90, 0x90, 0xE0,
    0xF0, 0x80, 0xF0, 0x80, 0xF0,
    0xF0, 0x80, 0xF0, 0x80, 0x80,
];

/// The complete mutable state of the virtual machine.
pub struct Chip8 {
    /// Sixteen 8-bit registers; index 15 is the carry/borrow/collision flag.
    pub reg: Vec<u8>,
    /// The 4096-byte memory.
    pub mem: Vec<u8>,
    /// The call stack: at most 16 return addresses.
    pub stack: Vec<u16>,
    /// The 16-bit index register.
    pub index: u16,
    /// The 16-bit program counter.
    pub pc: u16,
    /// The delay countdown timer.
    pub delay_timer: u8,
    /// The sound countdown timer.
    pub sound_timer: u8,
    /// The 16-key input latch.
    pub keys: Vec<bool>,
    /// The 64x32 display, row-major.
    pub display: Vec<bool>,
    /// Set by every draw instruction, cleared at the start of each frame.
    pub display_changed: bool,
}

impl View for Chip8 {
    type V = Chip8View;

    open spec fn view(&self) -> Chip8View {
        Chip8View {
            regs: self.reg@,
            mem: self.mem@,
            stack: self.stack@,
            index: self.index,
            pc: self.pc,
            delay: self.delay_timer,
            sound: self.sound_timer,
            keys: self.keys@,
            display: self.display@,
            display_changed: self.display_changed,
        }
    }
}

/// A vector of `n` copies of the byte `v`.
pub(crate) fn byte_vec(n: usize, v: u8) -> (r: Vec<u8>)
    ensures
        r@ == Seq::new(n as nat, |i: int| v),
{
    let mut r: Vec<u8> = Vec::new();
    let mut k: usize = 0;
    while k < n
        invariant
            k <= n,
            r@ == Seq::new(k as nat, |i: int| v),
        decreases n - k,
    {
        r.push(v);
        k = k + 1;
        proof {
            assert(r@ =~= Seq::new(k as nat, |i: int| v));
        }
    }
    r
}

/// A vector of `n` unset pixels or keys.
pub(crate) fn bool_vec(n: usize) -> (r: Vec<bool>)
    ensures
        r@ == Seq::new(n as nat, |i: int| false),
{
    let mut r: Vec<bool> = Vec::new();
    let mut k: usize = 0;
    while k < n
        invariant
            k <= n,
            r@ == Seq::new(k as nat, |i: int| false),
        decreases n - k,
    {
        r.push(false);
        k = k + 1;
        proof {
            assert(r@ =~= Seq::new(k as nat, |i: int| false));
        }
    }
    r
}

impl Chip8 {
    /// All fixed-size parts have their fixed sizes and the stack is within
    /// capacity.
    pub open spec fn wf(self) -> bool {
        self@.wf()
    }

    /// A fresh machine: registers, timers, keys and display cleared, the
    /// program counter at 0x200, and the font installed at 0x50.
    pub fn new() -> (r: Chip8)
        ensures
            r.wf(),
            r@.regs == Seq::new(16, |i: int| 0u8),
            r@.mem.len() == 4096,
            forall|i: int| 0x50 <= i < 0xA0 ==> r@.mem[i] == FONT@[i - 0x50],
            forall|i: int| 0 <= i < 0x50 || 0xA0 <= i < 4096 ==> r@.mem[i] == 0u8,
            r@.stack == Seq::<u16>::empty(),
            r@.index == 0,
            r@.pc == 0x200,
            r@.delay == 0,
            r@.sound == 0,
            r@.keys == Seq::new(16, |i: int| false),
            r@.display == Seq::new(2048, |i: int| false),
            r@.display_changed == false,
    {
        let mut mem = byte_vec(4096, 0);
        let mut k: usize = 0;
        while k < 80
            invariant
                k <= 80,
                mem@.len() == 4096,
                forall|i: int| 0x50 <= i < 0x50 + k ==> mem@[i] == FONT@[i - 0x50],
                forall|i: int| 0 <= i < 0x50 || 0x50 + k <= i < 4096 ==> mem@[i] == 0u8,
            decreases 80 - k,
        {
            mem.set(0x50 + k, FONT[k]);
            k = k + 1;
        }
        Chip8 {
            reg: byte_vec(16, 0),
            mem,
            stack: Vec::new(),
            index: 0,
            pc: 0x200,
            delay_timer: 0,
            sound_timer: 0,
            keys: bool_vec(16),
            display: bool_vec(2048),
            display_changed: false,
        }
    }

    /// Copies `buf` into memory starting at `start`. The caller must keep
    /// the write inside the 4096-byte space.
    pub fn load(&mut self, start: u16, buf: &Vec<u8>)
        requires
            old(self).wf(),
            start + buf@.len() <= 4096,
        ensures
            final(self).wf(),
            final(self)@.mem.len() == 4096,
            forall|i: int|
                0 <= i < 4096 ==> final(self)@.mem[i] == (if start <= i < start + buf@.len() {
                    buf@[i - start]
                } else {
                    old(self)@.mem[i]
                }),
            final(self)@ == (Chip8View { mem: final(self)@.mem, ..old(self)@ }),
    {
        let n = buf.len();
        let mut j: usize = 0;
        while j < n
            invariant
                j <= n,
                n == buf@.len(),
                start + n <= 4096,
                self.mem@.len() == 4096,
                forall|i: int|
                    0 <= i < 4096 ==> self.mem@[i] == (if start <= i < start + j {
                        buf@[i - start]
                    } else {
                        old(self)@.mem[i]
                    }),
                self@ == (Chip8View { mem: self.mem@, ..old(self)@ }),
            decreases n - j,
        {
            self.mem.set(start as usize + j, buf[j]);
            j = j + 1;
        }
    }

    /// Replaces the key latch with a fresh 16-key snapshot.
    pub fn update_keys(&mut self, keys: &Vec<bool>)
        requires
            old(self).wf(),
            keys@.len() == 16,
        ensures
            final(self).wf(),
            final(self)@ == (Chip8View { keys: keys@, ..old(self)@ }),
    {
        let mut j: usize = 0;
        while j < 16
            invariant
                j <= 16,
                keys@.len() == 16,
                self.keys@.len() == 16,
                forall|i: int| 0 <= i < j ==> self.keys@[i] == keys@[i],
                forall|i: int| j <= i < 16 ==> self.keys@[i] == old(self)@.keys[i],
                self@ == (Chip8View { keys: self.keys@, ..old(self)@ }),
            decreases 16 - j,
        {
            self.keys.set(j, keys[j]);
            j = j + 1;
        }
        proof {
            assert(self.keys@ =~= keys@);
        }
    }

    /// Read-only view of the 64x32 pixel grid, row-major.
    pub fn fb(&self) -> (r: &Vec<bool>)
        ensures
            r@ == self@.display,
    {
        &self.display
    }

    /// Pushes a return address; a full 16-entry stack is a fatal overflow
    /// and leaves the machine unchanged.
    pub fn push(&mut self, v: u16) -> (r: Result<(), Chip8Error>)
        requires
            old(self).wf(),
        ensures
            final(self).wf(),
            old(self)@.stack.len() < 16 ==> r == Ok::<(), Chip8Error>(()) && final(self)@ == (
            Chip8View { stack: old(self)@.stack.push(v), ..old(self)@ }),
            old(self)@.stack.len() >= 16 ==> r == Err::<(), Chip8Error>(Chip8Error::StackOverflow)
                && final(self)@ == old(self)@,
    {
        if self.stack.len() >= 16 {
            Err(Chip8Error::StackOverflow)
        } else {
            self.stack.push(v);
            Ok(())
        }
    }

    /// Pops a return address; an empty stack is a fatal underflow and
    /// leaves the machine unchanged.
    pub fn pop(&mut self) -> (r: Result<u16, Chip8Error>)
        requires
            old(self).wf(),
        ensures
            final(self).wf(),
            old(self)@.stack.len() > 0 ==> r == Ok::<u16, Chip8Error>(old(self)@.stack.last())
                && final(self)@ == (Chip8View {
                stack: old(self)@.stack.drop_last(),
                ..old(self)@
            }),
            old(self)@.stack.len() == 0 ==> r == Err::<u16, Chip8Error>(Chip8Error::StackUnderflow)
                && final(self)@ == old(self)@,
    {
        match self.stack.pop() {
            Some(v) => Ok(v),
            None => Err(Chip8Error::StackUnderflow),
        }
    }

    /// The big-endian 16-bit opcode whose bytes sit at pc-2 and pc-1: the
    /// opcode just fetched, the counter having already been advanced.
    pub fn opcode(&self) -> (r: u16)
        requires
            self.wf(),
            2 <= self@.pc,
            self@.pc <= 4096,
        ensures
            r == spec_fetched(self@),
    {
        (self.mem[(self.pc - 2) as usize] as u16) * 256 + (self.mem[(self.pc - 1) as usize] as u16)
    }

    /// Decrements both timers by one, floored at zero: the once-per-frame
    /// tick. A timer at zero stays at zero, however many frames elapse.
    pub fn decrement_timers(&mut self)
        requires
            old(self).wf(),
        ensures
            final(self).wf(),
            final(self)@ == spec_tick(old(self)@),
    {
        if self.delay_timer > 0 {
            self.delay_timer = self.delay_timer - 1;
        }
        if self.sound_timer > 0 {
            self.sound_timer = self.sound_timer - 1;
        }
    }
}

} // verus!
