//! The mathematical model of the machine: an abstract state, and one total
//! transition function per instruction. Every executable function of the
//! library is specified against these.

use vstd::prelude::*;
use crate::isa::{Chip8Error, Instr};

verus! {

/// Abstract machine state: the view of the executable machine.
pub ghost struct Chip8View {
    /// The sixteen 8-bit general-purpose registers; index 15 doubles as the
    /// carry/borrow/collision flag.
    pub regs: Seq<u8>,
    /// The 4096-byte memory.
    pub mem: Seq<u8>,
    /// The call stack, at most 16 return addresses deep.
    pub stack: Seq<u16>,
    /// The 16-bit index register.
    pub index: u16,
    /// The 16-bit program counter.
    pub pc: u16,
    /// The delay countdown timer.
    pub delay: u8,
    /// The sound countdown timer.
    pub sound: u8,
    /// The 16-key input latch.
    pub keys: Seq<bool>,
    /// The 64x32 display, row-major: pixel (col, row) at `64 * row + col`.
    pub display: Seq<bool>,
    /// Set by every draw instruction, cleared at the start of each frame.
    pub display_changed: bool,
}

impl Chip8View {
    /// All fixed-size parts of the state have their fixed sizes, and the
    /// stack is within its 16-entry capacity.
    pub open spec fn wf(self) -> bool {
        &&& self.regs.len() == 16
        &&& self.mem.len() == 4096
        &&& self.stack.len() <= 16
        &&& self.keys.len() == 16
        &&& self.display.len() == 2048
    }
}

/// The outcome of an instruction or a step: the state after it, and the
/// fatal error if one occurred (the state then records how far it got).
pub ghost struct StepOut {
    pub state: Chip8View,
    pub err: Option<Chip8Error>,
}

/// A successful outcome.
pub open spec fn step_ok(s: Chip8View) -> StepOut {
    StepOut { state: s, err: None }
}

/// A failed outcome: the machine halts in state `s`.
pub open spec fn step_err(s: Chip8View, e: Chip8Error) -> StepOut {
    StepOut { state: s, err: Some(e) }
}

/// An outcome's error as the library's `Result`.
pub open spec fn res_of(e: Option<Chip8Error>) -> Result<(), Chip8Error> {
    match e {
        None => Ok(()),
        Some(er) => Err(er),
    }
}

/// 8-bit wraparound addition.
pub open spec fn wrap_add(a: u8, b: u8) -> u8 {
    if a + b > 255 {
        (a + b - 256) as u8
    } else {
        (a + b) as u8
    }
}

/// 8-bit wraparound subtraction.
pub open spec fn wrap_sub(a: u8, b: u8) -> u8 {
    if a - b < 0 {
        (a - b + 256) as u8
    } else {
        (a - b) as u8
    }
}

/// The state with the program counter advanced past one instruction.
pub open spec fn skip_next(s: Chip8View) -> Chip8View {
    Chip8View { pc: (s.pc + 2) as u16, ..s }
}

/// `CLS`: every pixel off. The changed-display hint is not touched: only
/// draw instructions set it.
pub open spec fn spec_cls(s: Chip8View) -> Chip8View {
    Chip8View { display: Seq::new(2048, |i: int| false), ..s }
}

/// `RET`: the program counter is restored from the top of the stack;
/// an empty stack is a fatal underflow.
pub open spec fn spec_ret(s: Chip8View) -> StepOut {
    if s.stack.len() == 0 {
        step_err(s, Chip8Error::StackUnderflow)
    } else {
        step_ok(Chip8View { pc: s.stack.last(), stack: s.stack.drop_last(), ..s })
    }
}

/// `JP nnn`.
pub open spec fn spec_jp(s: Chip8View, nnn: u16) -> Chip8View {
    Chip8View { pc: nnn, ..s }
}

/// `CALL nnn`: the address of the next instruction (the program counter has
/// already been advanced) is pushed; a full stack is a fatal overflow.
pub open spec fn spec_call(s: Chip8View, nnn: u16) -> StepOut {
    if s.stack.len() >= 16 {
        step_err(s, Chip8Error::StackOverflow)
    } else {
        step_ok(Chip8View { stack: s.stack.push(s.pc), pc: nnn, ..s })
    }
}

/// `SE Vx,kk`.
pub open spec fn spec_se_imm(s: Chip8View, x: u8, kk: u8) -> Chip8View {
    if s.regs[x as int] == kk {
        skip_next(s)
    } else {
        s
    }
}

/// `SNE Vx,kk`.
pub open spec fn spec_sne_imm(s: Chip8View, x: u8, kk: u8) -> Chip8View {
    if s.regs[x as int] != kk {
        skip_next(s)
    } else {
        s
    }
}

/// `SE Vx,Vy`.
pub open spec fn spec_se_reg(s: Chip8View, x: u8, y: u8) -> Chip8View {
    if s.regs[x as int] == s.regs[y as int] {
        skip_next(s)
    } else {
        s
    }
}

/// `SNE Vx,Vy`.
pub open spec fn spec_sne_reg(s: Chip8View, x: u8, y: u8) -> Chip8View {
    if s.regs[x as int] != s.regs[y as int] {
        skip_next(s)
    } else {
        s
    }
}

/// `LD Vx,kk`.
pub open spec fn spec_ld_imm(s: Chip8View, x: u8, kk: u8) -> Chip8View {
    Chip8View { regs: s.regs.update(x as int, kk), ..s }
}

/// `ADD Vx,kk`: 8-bit wraparound, no flag effect.
pub open spec fn spec_add_imm(s: Chip8View, x: u8, kk: u8) -> Chip8View {
    Chip8View { regs: s.regs.update(x as int, wrap_add(s.regs[x as int], kk)), ..s }
}

/// `LD Vx,Vy`.
pub open spec fn spec_ld_reg(s: Chip8View, x: u8, y: u8) -> Chip8View {
    Chip8View { regs: s.regs.update(x as int, s.regs[y as int]), ..s }
}

/// `OR Vx,Vy`.
pub open spec fn spec_or(s: Chip8View, x: u8, y: u8) -> Chip8View {
    Chip8View { regs: s.regs.update(x as int, s.regs[x as int] | s.regs[y as int]), ..s }
}

/// `AND Vx,Vy`.
pub open spec fn spec_and(s: Chip8View, x: u8, y: u8) -> Chip8View {
    Chip8View { regs: s.regs.update(x as int, s.regs[x as int] & s.regs[y as int]), ..s }
}

/// `XOR Vx,Vy`.
pub open spec fn spec_xor(s: Chip8View, x: u8, y: u8) -> Chip8View {
    Chip8View { regs: s.regs.update(x as int, s.regs[x as int] ^ s.regs[y as int]), ..s }
}

/// `ADD Vx,Vy`: the wrapped sum of the pre-instruction values goes to Vx,
/// then the carry flag (1 exactly when the true sum exceeds 255) to VF.
pub open spec fn spec_add_reg(s: Chip8View, x: u8, y: u8) -> Chip8View {
    let sum = s.regs[x as int] + s.regs[y as int];
    let carry: u8 = if sum > 255 {
        1
    } else {
        0
    };
    Chip8View {
        regs: s.regs.update(x as int, wrap_add(s.regs[x as int], s.regs[y as int])).update(
            15,
            carry,
        ),
        ..s
    }
}

/// `SUB Vx,Vy`: the borrow flag (1 exactly when Vx > Vy beforehand) is
/// written to VF first; the wrapped difference is then computed from the
/// registers as they stand after that write (visible when x or y is 15).
pub open spec fn spec_sub(s: Chip8View, x: u8, y: u8) -> Chip8View {
    let flag: u8 = if s.regs[x as int] > s.regs[y as int] {
        1
    } else {
        0
    };
    let r1 = s.regs.update(15, flag);
    Chip8View { regs: r1.update(x as int, wrap_sub(r1[x as int], r1[y as int])), ..s }
}

/// `SHR Vx`: the shifted-out low bit goes to VF first; Vx is then halved,
/// reading the registers as they stand after that write.
pub open spec fn spec_shr(s: Chip8View, x: u8) -> Chip8View {
    let bit = s.regs[x as int] % 2;
    let r1 = s.regs.update(15, bit);
    Chip8View { regs: r1.update(x as int, r1[x as int] / 2), ..s }
}

/// `SUBN Vx,Vy`: the borrow flag (1 exactly when Vy > Vx beforehand) is
/// written to VF first; Vx then becomes the wrapped value of Vy - Vx,
/// reading the registers as they stand after that write.
pub open spec fn spec_subn(s: Chip8View, x: u8, y: u8) -> Chip8View {
    let flag: u8 = if s.regs[y as int] > s.regs[x as int] {
        1
    } else {
        0
    };
    let r1 = s.regs.update(15, flag);
    Chip8View { regs: r1.update(x as int, wrap_sub(r1[y as int], r1[x as int])), ..s }
}

/// `SHL Vx`: the shifted-out high bit goes to VF first; Vx is then doubled
/// with 8-bit wraparound, reading the registers as they stand after that
/// write.
pub open spec fn spec_shl(s: Chip8View, x: u8) -> Chip8View {
    let bit = s.regs[x as int] / 128;
    let r1 = s.regs.update(15, bit);
    Chip8View { regs: r1.update(x as int, wrap_add(r1[x as int], r1[x as int])), ..s }
}

/// `LD I,nnn`.
pub open spec fn spec_ld_index(s: Chip8View, nnn: u16) -> Chip8View {
    Chip8View { index: nnn, ..s }
}

/// `JP V0,nnn`: the target is the 12-bit address plus V0 (at most 4350, so
/// no wraparound arises).
pub open spec fn spec_jp_v0(s: Chip8View, nnn: u16) -> Chip8View {
    Chip8View { pc: (nnn + s.regs[0]) as u16, ..s }
}

/// `RND Vx,kk` with the freshly drawn byte `b`: Vx becomes `kk AND b`.
pub open spec fn spec_rnd(s: Chip8View, x: u8, kk: u8, b: u8) -> Chip8View {
    Chip8View { regs: s.regs.update(x as int, kk & b), ..s }
}

/// Whether bit `sx` (0 = leftmost) of a sprite row byte is set.
pub open spec fn sprite_bit(byte: u8, sx: int) -> bool {
    (byte >> ((7 - sx) as u8)) & 1 == 1
}

/// The display index of sprite pixel `(sx, sy)` drawn at `(xp, yp)`, each
/// axis wrapping toroidally.
pub open spec fn pixel_pos(xp: int, yp: int, sx: int, sy: int) -> int {
    64 * ((yp + sy) % 32) + (xp + sx) % 64
}

/// The display and collision flag after the first `k` pixels of a sprite
/// draw (pixels ordered row-major, 8 per row): each set sprite bit XORs its
/// screen pixel, and the collision flag is the OR, over all set bits, of
/// the pixel's state just before that bit's own XOR.
pub open spec fn spec_draw_px(
    disp: Seq<bool>,
    mem: Seq<u8>,
    index: int,
    xp: int,
    yp: int,
    k: nat,
) -> (Seq<bool>, bool)
    decreases k,
{
    if k == 0 {
        (disp, false)
    } else {
        let prev = spec_draw_px(disp, mem, index, xp, yp, (k - 1) as nat);
        let i = k - 1;
        let sx = i % 8;
        let sy = i / 8;
        if sprite_bit(mem[index + sy], sx) {
            let pos = pixel_pos(xp, yp, sx, sy);
            (prev.0.update(pos, !prev.0[pos]), prev.1 || prev.0[pos])
        } else {
            prev
        }
    }
}

/// `DRW Vx,Vy,n`: the n-row sprite at the index register is XOR-drawn at
/// `(Vx mod 64, Vy mod 32)` with toroidal wraparound; VF records whether
/// any pixel was turned off; the changed-display hint is set. A sprite row
/// outside the 4096-byte memory is a fatal bound violation.
pub open spec fn spec_drw(s: Chip8View, x: u8, y: u8, n: u8) -> StepOut {
    if n > 0 && s.index + n > 4096 {
        step_err(s, Chip8Error::MemoryOutOfRange { addr: s.index })
    } else {
        let xp = s.regs[x as int] % 64;
        let yp = s.regs[y as int] % 32;
        let dh = spec_draw_px(s.display, s.mem, s.index as int, xp as int, yp as int, (8 * n) as nat);
        let hit: u8 = if dh.1 {
            1
        } else {
            0
        };
        step_ok(
            Chip8View {
                display: dh.0,
                regs: s.regs.update(15, hit),
                display_changed: true,
                ..s
            },
        )
    }
}

/// `SKP Vx`: skip the next instruction when key Vx is pressed; a register
/// value outside the 16-key latch is a fatal bound violation.
pub open spec fn spec_skp(s: Chip8View, x: u8) -> StepOut {
    let v = s.regs[x as int];
    if v >= 16 {
        step_err(s, Chip8Error::KeyOutOfRange { key: v })
    } else if s.keys[v as int] {
        step_ok(skip_next(s))
    } else {
        step_ok(s)
    }
}

/// `SKNP Vx`: skip the next instruction when key Vx is not pressed.
pub open spec fn spec_sknp(s: Chip8View, x: u8) -> StepOut {
    let v = s.regs[x as int];
    if v >= 16 {
        step_err(s, Chip8Error::KeyOutOfRange { key: v })
    } else if !s.keys[v as int] {
        step_ok(skip_next(s))
    } else {
        step_ok(s)
    }
}

/// `LD Vx,DT`.
pub open spec fn spec_ld_from_delay(s: Chip8View, x: u8) -> Chip8View {
    Chip8View { regs: s.regs.update(x as int, s.delay), ..s }
}

/// The lowest pressed key at or above index `i`, if any.
pub open spec fn spec_first_key(keys: Seq<bool>, i: nat) -> Option<u8>
    decreases 16 - i,
{
    if i >= 16 {
        None
    } else if keys[i as int] {
        Some(i as u8)
    } else {
        spec_first_key(keys, i + 1)
    }
}

/// `LD Vx,K`: with no key pressed the program counter is rewound by 2, so
/// the same instruction re-executes next step; once a key is pressed, Vx
/// receives the lowest-indexed pressed key and execution moves on.
pub open spec fn spec_ld_key(s: Chip8View, x: u8) -> Chip8View {
    match spec_first_key(s.keys, 0) {
        Some(k) => Chip8View { regs: s.regs.update(x as int, k), ..s },
        None => Chip8View { pc: (s.pc - 2) as u16, ..s },
    }
}

/// `LD DT,Vx`.
pub open spec fn spec_set_delay(s: Chip8View, x: u8) -> Chip8View {
    Chip8View { delay: s.regs[x as int], ..s }
}

/// `LD ST,Vx`.
pub open spec fn spec_set_sound(s: Chip8View, x: u8) -> Chip8View {
    Chip8View { sound: s.regs[x as int], ..s }
}

/// `ADD I,Vx`: 16-bit wraparound addition into the index register, no flag.
pub open spec fn spec_add_index(s: Chip8View, x: u8) -> Chip8View {
    let sum = s.index + s.regs[x as int];
    let w: u16 = if sum > 0xFFFF {
        (sum - 0x10000) as u16
    } else {
        sum as u16
    };
    Chip8View { index: w, ..s }
}

/// `LD F,Vx`: the index register points at the built-in 5-byte font glyph
/// for the low nibble of Vx (glyph base 0x50).
pub open spec fn spec_ld_font(s: Chip8View, x: u8) -> Chip8View {
    Chip8View { index: (0x50 + 5 * (s.regs[x as int] % 16)) as u16, ..s }
}

/// `LD B,Vx`: the hundreds, tens and ones digits of Vx are stored at the
/// index register and the two following bytes; out of memory bounds is a
/// fatal bound violation.
pub open spec fn spec_ld_bcd(s: Chip8View, x: u8) -> StepOut {
    if s.index + 2 >= 4096 {
        step_err(s, Chip8Error::MemoryOutOfRange { addr: s.index })
    } else {
        let v = s.regs[x as int];
        let m = s.mem.update(s.index as int, ((v / 100) % 10) as u8).update(
            s.index + 1,
            ((v / 10) % 10) as u8,
        ).update(s.index + 2, (v % 10) as u8);
        step_ok(Chip8View { mem: m, ..s })
    }
}

/// `LD [I],Vx`: registers V0..Vx inclusive are stored at the index
/// register on; out of memory bounds is a fatal bound violation.
pub open spec fn spec_store_regs(s: Chip8View, x: u8) -> StepOut {
    if s.index + x >= 4096 {
        step_err(s, Chip8Error::MemoryOutOfRange { addr: s.index })
    } else {
        let m = Seq::new(
            4096,
            |i: int|
                if s.index <= i <= s.index + x {
                    s.regs[i - s.index]
                } else {
                    s.mem[i]
                },
        );
        step_ok(Chip8View { mem: m, ..s })
    }
}

/// `LD Vx,[I]`: registers V0..Vx inclusive are loaded from the index
/// register on; out of memory bounds is a fatal bound violation.
pub open spec fn spec_load_regs(s: Chip8View, x: u8) -> StepOut {
    if s.index + x >= 4096 {
        step_err(s, Chip8Error::MemoryOutOfRange { addr: s.index })
    } else {
        let r = Seq::new(
            16,
            |i: int|
                if i <= x {
                    s.mem[s.index + i]
                } else {
                    s.regs[i]
                },
        );
        step_ok(Chip8View { regs: r, ..s })
    }
}

/// The effect of one decoded instruction on a state whose program counter
/// has already been advanced past it; `b` is the byte a random source
/// handed the step (only `RND` reads it).
pub open spec fn spec_dispatch(s: Chip8View, i: Instr, b: u8) -> StepOut {
    match i {
        Instr::Cls => step_ok(spec_cls(s)),
        Instr::Ret => spec_ret(s),
        Instr::Jp { nnn } => step_ok(spec_jp(s, nnn)),
        Instr::Call { nnn } => spec_call(s, nnn),
        Instr::SeImm { x, kk } => step_ok(spec_se_imm(s, x, kk)),
        Instr::SneImm { x, kk } => step_ok(spec_sne_imm(s, x, kk)),
        Instr::SeReg { x, y } => step_ok(spec_se_reg(s, x, y)),
        Instr::LdImm { x, kk } => step_ok(spec_ld_imm(s, x, kk)),
        Instr::AddImm { x, kk } => step_ok(spec_add_imm(s, x, kk)),
        Instr::LdReg { x, y } => step_ok(spec_ld_reg(s, x, y)),
        Instr::Or { x, y } => step_ok(spec_or(s, x, y)),
        Instr::And { x, y } => step_ok(spec_and(s, x, y)),
        Instr::Xor { x, y } => step_ok(spec_xor(s, x, y)),
        Instr::AddReg { x, y } => step_ok(spec_add_reg(s, x, y)),
        Instr::Sub { x, y } => step_ok(spec_sub(s, x, y)),
        Instr::Shr { x } => step_ok(spec_shr(s, x)),
        Instr::Subn { x, y } => step_ok(spec_subn(s, x, y)),
        Instr::Shl { x } => step_ok(spec_shl(s, x)),
        Instr::SneReg { x, y } => step_ok(spec_sne_reg(s, x, y)),
        Instr::LdIndex { nnn } => step_ok(spec_ld_index(s, nnn)),
        Instr::JpV0 { nnn } => step_ok(spec_jp_v0(s, nnn)),
        Instr::Rnd { x, kk } => step_ok(spec_rnd(s, x, kk, b)),
        Instr::Drw { x, y, n } => spec_drw(s, x, y, n),
        Instr::Skp { x } => spec_skp(s, x),
        Instr::Sknp { x } => spec_sknp(s, x),
        Instr::LdFromDelay { x } => step_ok(spec_ld_from_delay(s, x)),
        Instr::LdKey { x } => step_ok(spec_ld_key(s, x)),
        Instr::SetDelay { x } => step_ok(spec_set_delay(s, x)),
        Instr::SetSound { x } => step_ok(spec_set_sound(s, x)),
        Instr::AddIndex { x } => step_ok(spec_add_index(s, x)),
        Instr::LdFont { x } => step_ok(spec_ld_font(s, x)),
        Instr::LdBcd { x } => spec_ld_bcd(s, x),
        Instr::StoreRegs { x } => spec_store_regs(s, x),
        Instr::LoadRegs { x } => spec_load_regs(s, x),
    }
}

/// The big-endian 16-bit opcode just fetched: the program counter has
/// already been advanced, so the opcode's bytes are at pc-2 and pc-1.
pub open spec fn spec_fetched(s: Chip8View) -> u16 {
    (s.mem[s.pc - 2] * 256 + s.mem[s.pc - 1]) as u16
}

/// One whole step: fetch the opcode at the program counter (a counter past
/// 4094 cannot fetch two bytes and is a fatal bound violation), advance the
/// counter by 2 before interpretation, decode, and dispatch. `b` is the
/// byte a random source handed the step.
pub open spec fn spec_step(s: Chip8View, b: u8) -> StepOut {
    if s.pc > 4094 {
        step_err(s, Chip8Error::MemoryOutOfRange { addr: s.pc })
    } else {
        let s2 = skip_next(s);
        let op = spec_fetched(s2);
        match crate::isa::spec_decode(op) {
            None => step_err(s2, Chip8Error::InvalidOpcode { addr: s.pc, opcode: op }),
            Some(i) => spec_dispatch(s2, i, b),
        }
    }
}

/// Both timers decremented by one, floored at zero: the once-per-frame tick.
pub open spec fn spec_tick(s: Chip8View) -> Chip8View {
    Chip8View {
        delay: if s.delay > 0 {
            (s.delay - 1) as u8
        } else {
            0
        },
        sound: if s.sound > 0 {
            (s.sound - 1) as u8
        } else {
            0
        },
        ..s
    }
}

/// A run of steps, one per byte of `bs`, stopping at the first fatal error.
pub open spec fn spec_run(s: Chip8View, bs: Seq<u8>) -> StepOut
    decreases bs.len(),
{
    if bs.len() == 0 {
        step_ok(s)
    } else {
        let first = spec_step(s, bs[0]);
        if first.err is Some {
            first
        } else {
            spec_run(first.state, bs.skip(1))
        }
    }
}

/// Extending an error-free run by one byte runs one more step from the
/// state the run reached.
pub proof fn lemma_run_snoc(s: Chip8View, bs: Seq<u8>, b: u8)
    requires
        spec_run(s, bs).err is None,
    ensures
        spec_run(s, bs.push(b)) == spec_step(spec_run(s, bs).state, b),
    decreases bs.len(),
{
    if bs.len() == 0 {
        let first = spec_step(s, b);
        assert(bs.push(b)[0] == b);
        assert(bs.push(b).skip(1) =~= Seq::<u8>::empty());
        if first.err is None {
            assert(spec_run(first.state, bs.push(b).skip(1)) == step_ok(first.state));
            assert(first == step_ok(first.state));
        }
    } else {
        let first = spec_step(s, bs[0]);
        assert(bs.push(b)[0] == bs[0]);
        assert(bs.push(b).skip(1) =~= bs.skip(1).push(b));
        lemma_run_snoc(first.state, bs.skip(1), b);
    }
}

/// One frame: the changed-display hint is cleared, one step runs per byte
/// of `bs`, and on success both timers tick once. A fatal error halts the
/// frame at once, before the tick.
pub open spec fn spec_frame(s: Chip8View, bs: Seq<u8>) -> StepOut {
    let run = spec_run(Chip8View { display_changed: false, ..s }, bs);
    match run.err {
        Some(_) => run,
        None => step_ok(spec_tick(run.state)),
    }
}

} // verus!
