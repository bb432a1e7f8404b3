//! The execution engine: one handler per instruction, the dispatcher, and
//! the fetch/decode/dispatch step and frame drivers.

use vstd::prelude::*;
use crate::isa::{Chip8Error, Instr, decode, instr_wf};
use crate::model::{
    Chip8View, res_of, spec_add_imm, spec_add_index, spec_add_reg, spec_and, spec_call,
    spec_cls, spec_dispatch, spec_drw, spec_draw_px, spec_first_key, spec_frame, spec_jp,
    spec_jp_v0, spec_ld_bcd, spec_ld_from_delay, spec_ld_imm, spec_ld_index, spec_ld_font,
    spec_ld_key, spec_ld_reg, spec_load_regs, spec_or, spec_ret, spec_rnd, spec_run, spec_se_imm,
    spec_se_reg, spec_set_delay, spec_set_sound, spec_shl, spec_shr, spec_skp, spec_sknp,
    spec_sne_imm, spec_sne_reg, spec_step, spec_store_regs, spec_sub, spec_subn, spec_xor,
    step_err, step_ok, lemma_run_snoc,
};
use crate::state::{Chip8, bool_vec};

verus! {

/// Relies on rand::random: one byte drawn from the thread's generator.
/// Nothing is promised of the value; callers state what holds of every
/// outcome.
#[verifier::external_body]
fn random_byte() -> u8 {
    rand::random::<u8>()
}

#[allow(non_snake_case)]
impl Chip8 {
    /// `CLS`: every pixel off.
    pub fn CLS00E0(&mut self)
        requires
            old(self).wf(),
        ensures
            final(self).wf(),
            final(self)@ == spec_cls(old(self)@),
    {
        self.display = bool_vec(2048);
    }

    /// `RET`: return to the address on top of the stack.
    pub fn RET00EE(&mut self) -> (r: Result<(), Chip8Error>)
        requires
            old(self).wf(),
        ensures
            final(self).wf(),
            ({
                let out = spec_ret(old(self)@);
                final(self)@ == out.state && r == res_of(out.err)
            }),
    {
        match self.pop() {
            Ok(v) => {
                self.pc = v;
                Ok(())
            },
            Err(e) => Err(e),
        }
    }

    /// `JP nnn`.
    pub fn JP1nnn(&mut self, nnn: u16)
        requires
            old(self).wf(),
        ensures
            final(self).wf(),
            final(self)@ == spec_jp(old(self)@, nnn),
    {
        self.pc = nnn;
    }

    /// `CALL nnn`: push the address of the next instruction, then jump.
    pub fn CALL2nnn(&mut self, nnn: u16) -> (r: Result<(), Chip8Error>)
        requires
            old(self).wf(),
        ensures
            final(self).wf(),
            ({
                let out = spec_call(old(self)@, nnn);
                final(self)@ == out.state && r == res_of(out.err)
            }),
    {
        let ret = self.pc;
        match self.push(ret) {
            Ok(()) => {
                self.pc = nnn;
                Ok(())
            },
            Err(e) => Err(e),
        }
    }

    /// `SE Vx,kk`: skip the next instruction when Vx equals the immediate.
    pub fn SE3xkk(&mut self, x: u8, kk: u8)
        requires
            old(self).wf(),
            x < 16,
            old(self)@.pc <= 0xFFFD,
        ensures
            final(self).wf(),
            final(self)@ == spec_se_imm(old(self)@, x, kk),
    {
        if self.reg[x as usize] == kk {
            self.pc = self.pc + 2;
        }
    }

    /// `SNE Vx,kk`: skip when Vx differs from the immediate.
    pub fn SNE4xkk(&mut self, x: u8, kk: u8)
        requires
            old(self).wf(),
            x < 16,
            old(self)@.pc <= 0xFFFD,
        ensures
            final(self).wf(),
            final(self)@ == spec_sne_imm(old(self)@, x, kk),
    {
        if self.reg[x as usize] != kk {
            self.pc = self.pc + 2;
        }
    }

    /// `SE Vx,Vy`: skip when the two registers are equal.
    pub fn SE5xy0(&mut self, x: u8, y: u8)
        requires
            old(self).wf(),
            x < 16,
            y < 16,
            old(self)@.pc <= 0xFFFD,
        ensures
            final(self).wf(),
            final(self)@ == spec_se_reg(old(self)@, x, y),
    {
        if self.reg[x as usize] == self.reg[y as usize] {
            self.pc = self.pc + 2;
        }
    }

    /// `LD Vx,kk`.
    pub fn LD6xkk(&mut self, x: u8, kk: u8)
        requires
            old(self).wf(),
            x < 16,
        ensures
            final(self).wf(),
            final(self)@ == spec_ld_imm(old(self)@, x, kk),
    {
        self.reg.set(x as usize, kk);
    }

    /// `ADD Vx,kk`: 8-bit wraparound, no flag effect.
    pub fn ADD7xkk(&mut self, x: u8, kk: u8)
        requires
            old(self).wf(),
            x < 16,
        ensures
            final(self).wf(),
            final(self)@ == spec_add_imm(old(self)@, x, kk),
    {
        let v = self.reg[x as usize];
        self.reg.set(x as usize, v.wrapping_add(kk));
    }

    /// `LD Vx,Vy`.
    pub fn LD8xy0(&mut self, x: u8, y: u8)
        requires
            old(self).wf(),
            x < 16,
            y < 16,
        ensures
            final(self).wf(),
            final(self)@ == spec_ld_reg(old(self)@, x, y),
    {
        let v = self.reg[y as usize];
        self.reg.set(x as usize, v);
    }

    /// `OR Vx,Vy`.
    pub fn OR8xy1(&mut self, x: u8, y: u8)
        requires
            old(self).wf(),
            x < 16,
            y < 16,
        ensures
            final(self).wf(),
            final(self)@ == spec_or(old(self)@, x, y),
    {
        let v = self.reg[x as usize] | self.reg[y as usize];
        self.reg.set(x as usize, v);
    }

    /// `AND Vx,Vy`.
    pub fn AND8xy2(&mut self, x: u8, y: u8)
        requires
            old(self).wf(),
            x < 16,
            y < 16,
        ensures
            final(self).wf(),
            final(self)@ == spec_and(old(self)@, x, y),
    {
        let v = self.reg[x as usize] & self.reg[y as usize];
        self.reg.set(x as usize, v);
    }

    /// `XOR Vx,Vy`.
    pub fn XOR8xy3(&mut self, x: u8, y: u8)
        requires
            old(self).wf(),
            x < 16,
            y < 16,
        ensures
            final(self).wf(),
            final(self)@ == spec_xor(old(self)@, x, y),
    {
        let v = self.reg[x as usize] ^ self.reg[y as usize];
        self.reg.set(x as usize, v);
    }

    /// `ADD Vx,Vy`: wrapped sum into Vx, then the carry flag into VF.
    pub fn ADD8xy4(&mut self, x: u8, y: u8)
        requires
            old(self).wf(),
            x < 16,
            y < 16,
        ensures
            final(self).wf(),
            final(self)@ == spec_add_reg(old(self)@, x, y),
    {
        let vx = self.reg[x as usize];
        let vy = self.reg[y as usize];
        let carry: u8 = if vx as u16 + vy as u16 > 255 {
            1
        } else {
            0
        };
        self.reg.set(x as usize, vx.wrapping_add(vy));
        self.reg.set(15, carry);
    }

    /// `SUB Vx,Vy`: the borrow flag into VF first, then the wrapped
    /// difference into Vx, read from the registers as they then stand.
    pub fn SUB8xy5(&mut self, x: u8, y: u8)
        requires
            old(self).wf(),
            x < 16,
            y < 16,
        ensures
            final(self).wf(),
            final(self)@ == spec_sub(old(self)@, x, y),
    {
        let flag: u8 = if self.reg[x as usize] > self.reg[y as usize] {
            1
        } else {
            0
        };
        self.reg.set(15, flag);
        let a = self.reg[x as usize];
        let b = self.reg[y as usize];
        self.reg.set(x as usize, a.wrapping_sub(b));
    }

    /// `SHR Vx`: the low bit into VF first, then Vx halved.
    pub fn SHR8xy6(&mut self, x: u8)
        requires
            old(self).wf(),
            x < 16,
        ensures
            final(self).wf(),
            final(self)@ == spec_shr(old(self)@, x),
    {
        let bit = self.reg[x as usize] % 2;
        self.reg.set(15, bit);
        let v = self.reg[x as usize];
        self.reg.set(x as usize, v / 2);
    }

    /// `SUBN Vx,Vy`: the borrow flag into VF first, then the wrapped value
    /// of Vy - Vx into Vx, read from the registers as they then stand.
    pub fn SUBN8xy7(&mut self, x: u8, y: u8)
        requires
            old(self).wf(),
            x < 16,
            y < 16,
        ensures
            final(self).wf(),
            final(self)@ == spec_subn(old(self)@, x, y),
    {
        let flag: u8 = if self.reg[y as usize] > self.reg[x as usize] {
            1
        } else {
            0
        };
        self.reg.set(15, flag);
        let a = self.reg[y as usize];
        let b = self.reg[x as usize];
        self.reg.set(x as usize, a.wrapping_sub(b));
    }

    /// `SHL Vx`: the high bit into VF first, then Vx doubled with
    /// wraparound.
    pub fn SHL8xyE(&mut self, x: u8)
        requires
            old(self).wf(),
            x < 16,
        ensures
            final(self).wf(),
            final(self)@ == spec_shl(old(self)@, x),
    {
        let bit = self.reg[x as usize] / 128;
        self.reg.set(15, bit);
        let v = self.reg[x as usize];
        self.reg.set(x as usize, v.wrapping_add(v));
    }

    /// `SNE Vx,Vy`: skip when the two registers differ.
    pub fn SNE9xy0(&mut self, x: u8, y: u8)
        requires
            old(self).wf(),
            x < 16,
            y < 16,
            old(self)@.pc <= 0xFFFD,
        ensures
            final(self).wf(),
            final(self)@ == spec_sne_reg(old(self)@, x, y),
    {
        if self.reg[x as usize] != self.reg[y as usize] {
            self.pc = self.pc + 2;
        }
    }

    /// `LD I,nnn`.
    pub fn LDAnnn(&mut self, nnn: u16)
        requires
            old(self).wf(),
        ensures
            final(self).wf(),
            final(self)@ == spec_ld_index(old(self)@, nnn),
    {
        self.index = nnn;
    }

    /// `JP V0,nnn`: jump to the 12-bit address plus V0.
    pub fn JPBnnn(&mut self, nnn: u16)
        requires
            old(self).wf(),
            nnn < 4096,
        ensures
            final(self).wf(),
            final(self)@ == spec_jp_v0(old(self)@, nnn),
    {
        self.pc = nnn + self.reg[0] as u16;
    }

    /// `RND Vx,kk` applied to the drawn byte `b`: Vx becomes `kk AND b`.
    pub fn RNDCxkk(&mut self, x: u8, kk: u8, b: u8)
        requires
            old(self).wf(),
            x < 16,
        ensures
            final(self).wf(),
            final(self)@ == spec_rnd(old(self)@, x, kk, b),
    {
        self.reg.set(x as usize, kk & b);
    }

    /// `DRW Vx,Vy,n`: XOR-draw the n-row sprite at the index register at
    /// `(Vx mod 64, Vy mod 32)` with toroidal wraparound; VF records
    /// whether any pixel was turned off.
    pub fn DRWDxyn(&mut self, x: u8, y: u8, n: u8) -> (r: Result<(), Chip8Error>)
        requires
            old(self).wf(),
            x < 16,
            y < 16,
            n < 16,
        ensures
            final(self).wf(),
            ({
                let out = spec_drw(old(self)@, x, y, n);
                final(self)@ == out.state && r == res_of(out.err)
            }),
    {
        if n > 0 && self.index as usize + n as usize > 4096 {
            return Err(Chip8Error::MemoryOutOfRange { addr: self.index });
        }
        let xp = (self.reg[x as usize] % 64) as usize;
        let yp = (self.reg[y as usize] % 32) as usize;
        let idx = self.index as usize;
        let ghost d0 = self.display@;
        let mut hit = false;
        let total: usize = 8 * (n as usize);
        let mut i: usize = 0;
        while i < total
            invariant
                i <= total,
                total == 8 * n,
                n < 16,
                idx == old(self)@.index,
                n > 0 ==> idx + n <= 4096,
                xp == old(self)@.regs[x as int] % 64,
                yp == old(self)@.regs[y as int] % 32,
                x < 16,
                y < 16,
                old(self).wf(),
                d0 == old(self)@.display,
                self.display@.len() == 2048,
                (self.display@, hit) == spec_draw_px(
                    d0,
                    old(self)@.mem,
                    idx as int,
                    xp as int,
                    yp as int,
                    i as nat,
                ),
                self@ == (Chip8View { display: self.display@, ..old(self)@ }),
            decreases total - i,
        {
            let sx = i % 8;
            let sy = i / 8;
            assert(sy < n) by {
                assert(i < 8 * n);
            };
            let byte = self.mem[idx + sy];
            let on = (byte >> ((7 - sx) as u8)) & 1 == 1;
            if on {
                let pos = 64 * ((yp + sy) % 32) + (xp + sx) % 64;
                let cur = self.display[pos];
                if cur {
                    hit = true;
                }
                self.display.set(pos, !cur);
            }
            i = i + 1;
            proof {
                assert((self.display@, hit) == spec_draw_px(
                    d0,
                    old(self)@.mem,
                    idx as int,
                    xp as int,
                    yp as int,
                    i as nat,
                ));
            }
        }
        let vf: u8 = if hit {
            1
        } else {
            0
        };
        self.reg.set(15, vf);
        self.display_changed = true;
        Ok(())
    }

    /// `SKP Vx`: skip when key Vx is pressed.
    pub fn SKPEx9E(&mut self, x: u8) -> (r: Result<(), Chip8Error>)
        requires
            old(self).wf(),
            x < 16,
            old(self)@.pc <= 0xFFFD,
        ensures
            final(self).wf(),
            ({
                let out = spec_skp(old(self)@, x);
                final(self)@ == out.state && r == res_of(out.err)
            }),
    {
        let v = self.reg[x as usize];
        if v >= 16 {
            return Err(Chip8Error::KeyOutOfRange { key: v });
        }
        if self.keys[v as usize] {
            self.pc = self.pc + 2;
        }
        Ok(())
    }

    /// `SKNP Vx`: skip when key Vx is not pressed.
    pub fn SKNPExA1(&mut self, x: u8) -> (r: Result<(), Chip8Error>)
        requires
            old(self).wf(),
            x < 16,
            old(self)@.pc <= 0xFFFD,
        ensures
            final(self).wf(),
            ({
                let out = spec_sknp(old(self)@, x);
                final(self)@ == out.state && r == res_of(out.err)
            }),
    {
        let v = self.reg[x as usize];
        if v >= 16 {
            return Err(Chip8Error::KeyOutOfRange { key: v });
        }
        if !self.keys[v as usize] {
            self.pc = self.pc + 2;
        }
        Ok(())
    }

    /// `LD Vx,DT`.
    pub fn LDFx07(&mut self, x: u8)
        requires
            old(self).wf(),
            x < 16,
        ensures
            final(self).wf(),
            final(self)@ == spec_ld_from_delay(old(self)@, x),
    {
        let v = self.delay_timer;
        self.reg.set(x as usize, v);
    }

    /// `LD Vx,K`: with no key pressed the program counter is rewound by 2,
    /// so the same instruction re-executes next step; otherwise Vx receives
    /// the lowest-indexed pressed key.
    pub fn LDFx0A(&mut self, x: u8)
        requires
            old(self).wf(),
            x < 16,
            old(self)@.pc >= 2,
        ensures
            final(self).wf(),
            final(self)@ == spec_ld_key(old(self)@, x),
    {
        let mut k: usize = 0;
        while k < 16
            invariant
                k <= 16,
                x < 16,
                old(self).wf(),
                self@ == old(self)@,
                spec_first_key(old(self)@.keys, 0) == spec_first_key(old(self)@.keys, k as nat),
            decreases 16 - k,
        {
            if self.keys[k] {
                self.reg.set(x as usize, k as u8);
                return;
            }
            k = k + 1;
        }
        self.pc = self.pc - 2;
    }

    /// `LD DT,Vx`.
    pub fn LDFx15(&mut self, x: u8)
        requires
            old(self).wf(),
            x < 16,
        ensures
            final(self).wf(),
            final(self)@ == spec_set_delay(old(self)@, x),
    {
        self.delay_timer = self.reg[x as usize];
    }

    /// `LD ST,Vx`.
    pub fn LDFx18(&mut self, x: u8)
        requires
            old(self).wf(),
            x < 16,
        ensures
            final(self).wf(),
            final(self)@ == spec_set_sound(old(self)@, x),
    {
        self.sound_timer = self.reg[x as usize];
    }

    /// `ADD I,Vx`: 16-bit wraparound addition into the index register.
    pub fn ADDFx1E(&mut self, x: u8)
        requires
            old(self).wf(),
            x < 16,
        ensures
            final(self).wf(),
            final(self)@ == spec_add_index(old(self)@, x),
    {
        let v = self.reg[x as usize] as u16;
        self.index = self.index.wrapping_add(v);
    }

    /// `LD F,Vx`: point the index register at the font glyph for the low
    /// nibble of Vx.
    pub fn LDFx29(&mut self, x: u8)
        requires
            old(self).wf(),
            x < 16,
        ensures
            final(self).wf(),
            final(self)@ == spec_ld_font(old(self)@, x),
    {
        let nib = (self.reg[x as usize] % 16) as u16;
        self.index = 0x50 + 5 * nib;
    }

    /// `LD B,Vx`: store the three decimal digits of Vx at the index
    /// register and the two following bytes.
    pub fn LDFx33(&mut self, x: u8) -> (r: Result<(), Chip8Error>)
        requires
            old(self).wf(),
            x < 16,
        ensures
            final(self).wf(),
            ({
                let out = spec_ld_bcd(old(self)@, x);
                final(self)@ == out.state && r == res_of(out.err)
            }),
    {
        if self.index >= 4094 {
            return Err(Chip8Error::MemoryOutOfRange { addr: self.index });
        }
        let v = self.reg[x as usize];
        let idx = self.index as usize;
        self.mem.set(idx, (v / 100) % 10);
        self.mem.set(idx + 1, (v / 10) % 10);
        self.mem.set(idx + 2, v % 10);
        Ok(())
    }

    /// `LD [I],Vx`: store registers V0..Vx inclusive at the index register
    /// on.
    pub fn LDFx55(&mut self, x: u8) -> (r: Result<(), Chip8Error>)
        requires
            old(self).wf(),
            x < 16,
        ensures
            final(self).wf(),
            ({
                let out = spec_store_regs(old(self)@, x);
                final(self)@ == out.state && r == res_of(out.err)
            }),
    {
        if self.index as usize + x as usize >= 4096 {
            return Err(Chip8Error::MemoryOutOfRange { addr: self.index });
        }
        let idx = self.index as usize;
        let mut j: usize = 0;
        while j <= x as usize
            invariant
                j <= x + 1,
                x < 16,
                idx == old(self)@.index,
                idx + x < 4096,
                old(self).wf(),
                self.mem@.len() == 4096,
                forall|i: int|
                    0 <= i < 4096 ==> self.mem@[i] == (if idx <= i < idx + j {
                        old(self)@.regs[i - idx]
                    } else {
                        old(self)@.mem[i]
                    }),
                self@ == (Chip8View { mem: self.mem@, ..old(self)@ }),
            decreases x + 1 - j,
        {
            self.mem.set(idx + j, self.reg[j]);
            j = j + 1;
        }
        proof {
            let out = spec_store_regs(old(self)@, x);
            assert(self.mem@ =~= out.state.mem);
        }
        Ok(())
    }

    /// `LD Vx,[I]`: load registers V0..Vx inclusive from the index register
    /// on.
    pub fn LDFx65(&mut self, x: u8) -> (r: Result<(), Chip8Error>)
        requires
            old(self).wf(),
            x < 16,
        ensures
            final(self).wf(),
            ({
                let out = spec_load_regs(old(self)@, x);
                final(self)@ == out.state && r == res_of(out.err)
            }),
    {
        if self.index as usize + x as usize >= 4096 {
            return Err(Chip8Error::MemoryOutOfRange { addr: self.index });
        }
        let idx = self.index as usize;
        let mut j: usize = 0;
        while j <= x as usize
            invariant
                j <= x + 1,
                x < 16,
                idx == old(self)@.index,
                idx + x < 4096,
                old(self).wf(),
                self.reg@.len() == 16,
                forall|i: int|
                    0 <= i < 16 ==> self.reg@[i] == (if 0 <= i < j {
                        old(self)@.mem[idx + i]
                    } else {
                        old(self)@.regs[i]
                    }),
                self@ == (Chip8View { regs: self.reg@, ..old(self)@ }),
            decreases x + 1 - j,
        {
            let v = self.mem[idx + j];
            self.reg.set(j, v);
            j = j + 1;
        }
        proof {
            let out = spec_load_regs(old(self)@, x);
            assert(self.reg@ =~= out.state.regs);
        }
        Ok(())
    }

    /// Executes one decoded instruction on a machine whose program counter
    /// has already been advanced past it; `b` is the byte a random source
    /// handed the step (only `RND` reads it).
    pub fn dispatch(&mut self, i: Instr, b: u8) -> (r: Result<(), Chip8Error>)
        requires
            old(self).wf(),
            instr_wf(i),
            2 <= old(self)@.pc <= 4096,
        ensures
            final(self).wf(),
            ({
                let out = spec_dispatch(old(self)@, i, b);
                final(self)@ == out.state && r == res_of(out.err)
            }),
    {
        match i {
            Instr::Cls => {
                self.CLS00E0();
                Ok(())
            },
            Instr::Ret => self.RET00EE(),
            Instr::Jp { nnn } => {
                self.JP1nnn(nnn);
                Ok(())
            },
            Instr::Call { nnn } => self.CALL2nnn(nnn),
            Instr::SeImm { x, kk } => {
                self.SE3xkk(x, kk);
                Ok(())
            },
            Instr::SneImm { x, kk } => {
                self.SNE4xkk(x, kk);
                Ok(())
            },
            Instr::SeReg { x, y } => {
                self.SE5xy0(x, y);
                Ok(())
            },
            Instr::LdImm { x, kk } => {
                self.LD6xkk(x, kk);
                Ok(())
            },
            Instr::AddImm { x, kk } => {
                self.ADD7xkk(x, kk);
                Ok(())
            },
            Instr::LdReg { x, y } => {
                self.LD8xy0(x, y);
                Ok(())
            },
            Instr::Or { x, y } => {
                self.OR8xy1(x, y);
                Ok(())
            },
            Instr::And { x, y } => {
                self.AND8xy2(x, y);
                Ok(())
            },
            Instr::Xor { x, y } => {
                self.XOR8xy3(x, y);
                Ok(())
            },
            Instr::AddReg { x, y } => {
                self.ADD8xy4(x, y);
                Ok(())
            },
            Instr::Sub { x, y } => {
                self.SUB8xy5(x, y);
                Ok(())
            },
            Instr::Shr { x } => {
                self.SHR8xy6(x);
                Ok(())
            },
            Instr::Subn { x, y } => {
                self.SUBN8xy7(x, y);
                Ok(())
            },
            Instr::Shl { x } => {
                self.SHL8xyE(x);
                Ok(())
            },
            Instr::SneReg { x, y } => {
                self.SNE9xy0(x, y);
                Ok(())
            },
            Instr::LdIndex { nnn } => {
                self.LDAnnn(nnn);
                Ok(())
            },
            Instr::JpV0 { nnn } => {
                self.JPBnnn(nnn);
                Ok(())
            },
            Instr::Rnd { x, kk } => {
                self.RNDCxkk(x, kk, b);
                Ok(())
            },
            Instr::Drw { x, y, n } => self.DRWDxyn(x, y, n),
            Instr::Skp { x } => self.SKPEx9E(x),
            Instr::Sknp { x } => self.SKNPExA1(x),
            Instr::LdFromDelay { x } => {
                self.LDFx07(x);
                Ok(())
            },
            Instr::LdKey { x } => {
                self.LDFx0A(x);
                Ok(())
            },
            Instr::SetDelay { x } => {
                self.LDFx15(x);
                Ok(())
            },
            Instr::SetSound { x } => {
                self.LDFx18(x);
                Ok(())
            },
            Instr::AddIndex { x } => {
                self.ADDFx1E(x);
                Ok(())
            },
            Instr::LdFont { x } => {
                self.LDFx29(x);
                Ok(())
            },
            Instr::LdBcd { x } => self.LDFx33(x),
            Instr::StoreRegs { x } => self.LDFx55(x),
            Instr::LoadRegs { x } => self.LDFx65(x),
        }
    }

    /// One whole step with the random byte `b` supplied by the caller:
    /// fetch at the program counter, advance it by 2, decode, dispatch.
    pub fn step_with(&mut self, b: u8) -> (r: Result<(), Chip8Error>)
        requires
            old(self).wf(),
        ensures
            final(self).wf(),
            ({
                let out = spec_step(old(self)@, b);
                final(self)@ == out.state && r == res_of(out.err)
            }),
    {
        if self.pc > 4094 {
            return Err(Chip8Error::MemoryOutOfRange { addr: self.pc });
        }
        self.pc = self.pc + 2;
        let op = self.opcode();
        match decode(op) {
            None => Err(Chip8Error::InvalidOpcode { addr: self.pc - 2, opcode: op }),
            Some(i) => self.dispatch(i, b),
        }
    }

    /// One instruction: fetch, decode, dispatch, with the random byte drawn
    /// from the thread's generator. Some byte accounts for the outcome.
    pub fn cycle(&mut self) -> (r: Result<(), Chip8Error>)
        requires
            old(self).wf(),
        ensures
            final(self).wf(),
            exists|b: u8|
                ({
                    let out = #[trigger] spec_step(old(self)@, b);
                    final(self)@ == out.state && r == res_of(out.err)
                }),
    {
        let b = random_byte();
        let r = self.step_with(b);
        proof {
            let out = spec_step(old(self)@, b);
            assert(self@ == out.state && r == res_of(out.err));
        }
        r
    }

    /// One frame: clears the changed-display hint, runs `count`
    /// instructions, then ticks both timers once. A fatal error halts the
    /// frame at once, before the tick. Some byte sequence, one byte per
    /// step taken, accounts for the outcome.
    #[verifier::rlimit(60)]
    pub fn frame(&mut self, count: usize) -> (r: Result<(), Chip8Error>)
        requires
            old(self).wf(),
        ensures
            final(self).wf(),
            r matches Ok(()) ==> exists|bs: Seq<u8>|
                bs.len() == count && #[trigger] spec_frame(old(self)@, bs) == step_ok(
                    final(self)@,
                ),
            r matches Err(e) ==> exists|bs: Seq<u8>|
                bs.len() <= count && #[trigger] spec_frame(old(self)@, bs) == step_err(
                    final(self)@,
                    e,
                ),
    {
        self.display_changed = false;
        let ghost start = self@;
        let ghost mut bs: Seq<u8> = Seq::empty();
        proof {
            assert(start == (Chip8View { display_changed: false, ..old(self)@ }));
            assert(spec_run(start, bs) == step_ok(self@));
        }
        let mut j: usize = 0;
        while j < count
            invariant
                j <= count,
                self.wf(),
                bs.len() == j,
                spec_run(start, bs) == step_ok(self@),
                start == (Chip8View { display_changed: false, ..old(self)@ }),
            decreases count - j,
        {
            let b = random_byte();
            proof {
                lemma_run_snoc(start, bs, b);
            }
            let ghost before = self@;
            let r = self.step_with(b);
            proof {
                bs = bs.push(b);
                let out = spec_step(before, b);
                assert(spec_run(start, bs) == out);
            }
            match r {
                Err(e) => {
                    proof {
                        assert(spec_frame(old(self)@, bs) == step_err(self@, e));
                    }
                    return Err(e);
                },
                Ok(()) => {},
            }
            j = j + 1;
        }
        let ghost run_state = self@;
        self.decrement_timers();
        proof {
            assert(spec_run(start, bs) == step_ok(run_state));
            assert(spec_frame(old(self)@, bs) == step_ok(self@));
        }
        Ok(())
    }
}

} // verus!
