//! Laws of the instruction semantics: properties that hold of all inputs,
//! stated over the model and proved once and for all.

use vstd::prelude::*;
use crate::isa::{Instr, spec_decode};
use crate::model::{
    Chip8View, skip_next, spec_add_reg, spec_call, spec_cls, spec_dispatch, spec_fetched,
    spec_first_key, spec_ld_key, spec_ret, spec_shl, spec_shr, spec_step, spec_sub, spec_subn,
    spec_tick, step_ok,
};

verus! {

/// `ADD Vx,Vy` sets VF to 1 exactly when the true sum of the
/// pre-instruction values exceeds 255, and (for a target other than the
/// flag register itself, which the carry write overrides) leaves the sum
/// mod 256 in Vx.
pub proof fn lemma_add_reg_carry(s: Chip8View, x: u8, y: u8)
    requires
        s.wf(),
        x < 16,
        y < 16,
    ensures
        spec_add_reg(s, x, y).regs[15] == (if s.regs[x as int] + s.regs[y as int] > 255 {
            1u8
        } else {
            0u8
        }),
        x != 15 ==> spec_add_reg(s, x, y).regs[x as int]
            == (s.regs[x as int] + s.regs[y as int]) % 256,
{
}

/// `SUB Vx,Vy` sets VF to 1 exactly when Vx > Vy beforehand, and leaves
/// the difference mod 256 in Vx. Because VF is written before the
/// subtraction reads the registers, the flag clause asks that Vx is not
/// the flag register, and the difference clause that neither operand is.
pub proof fn lemma_sub_borrow(s: Chip8View, x: u8, y: u8)
    requires
        s.wf(),
        x < 16,
        y < 16,
    ensures
        x != 15 ==> spec_sub(s, x, y).regs[15] == (if s.regs[x as int] > s.regs[y as int] {
            1u8
        } else {
            0u8
        }),
        x != 15 && y != 15 ==> spec_sub(s, x, y).regs[x as int]
            == (s.regs[x as int] - s.regs[y as int] + 256) % 256,
{
}

/// `SUBN Vx,Vy` sets VF to 1 exactly when Vy > Vx beforehand, and leaves
/// Vy - Vx mod 256 in Vx, with the same flag-register caveats as `SUB`.
pub proof fn lemma_subn_borrow(s: Chip8View, x: u8, y: u8)
    requires
        s.wf(),
        x < 16,
        y < 16,
    ensures
        x != 15 ==> spec_subn(s, x, y).regs[15] == (if s.regs[y as int] > s.regs[x as int] {
            1u8
        } else {
            0u8
        }),
        x != 15 && y != 15 ==> spec_subn(s, x, y).regs[x as int]
            == (s.regs[y as int] - s.regs[x as int] + 256) % 256,
{
}

/// `SHR Vx` captures the shifted-out low bit into VF before Vx is halved:
/// VF holds the pre-shift low bit and Vx the pre-shift value divided by
/// two (for a target other than the flag register, which the shift would
/// then overwrite).
pub proof fn lemma_shr_captures_bit(s: Chip8View, x: u8)
    requires
        s.wf(),
        x < 16,
        x != 15,
    ensures
        spec_shr(s, x).regs[15] == s.regs[x as int] % 2,
        spec_shr(s, x).regs[x as int] == s.regs[x as int] / 2,
{
}

/// `SHL Vx` captures the shifted-out high bit into VF before Vx is
/// doubled: VF holds the pre-shift high bit and Vx the doubled value mod
/// 256 (for a target other than the flag register).
pub proof fn lemma_shl_captures_bit(s: Chip8View, x: u8)
    requires
        s.wf(),
        x < 16,
        x != 15,
    ensures
        spec_shl(s, x).regs[15] == s.regs[x as int] / 128,
        spec_shl(s, x).regs[x as int] == (2 * s.regs[x as int]) % 256,
{
}

/// `CALL` followed immediately by `RET` restores the whole machine, the
/// program counter included: the call pushes the address of the next
/// instruction, the return pops it back.
pub proof fn lemma_call_then_ret(s: Chip8View, nnn: u16)
    requires
        s.wf(),
        s.stack.len() < 16,
    ensures
        spec_call(s, nnn).err is None,
        spec_ret(spec_call(s, nnn).state) == step_ok(s),
{
    let called = spec_call(s, nnn).state;
    assert(called.stack.last() == s.pc);
    assert(called.stack.drop_last() =~= s.stack);
    assert(spec_ret(called).state == s);
}

/// `CLS` turns every pixel off.
pub proof fn lemma_cls_clears(s: Chip8View)
    ensures
        spec_cls(s).display.len() == 2048,
        forall|i: int| 0 <= i < 2048 ==> !spec_cls(s).display[i],
{
}

/// No instruction but `DRW` touches the changed-display hint.
pub proof fn lemma_dispatch_display_hint(s: Chip8View, i: Instr, b: u8)
    requires
        !(i matches Instr::Drw { .. }),
    ensures
        spec_dispatch(s, i, b).state.display_changed == s.display_changed,
{
    match i {
        Instr::Cls => {},
        Instr::Ret => {},
        Instr::Jp { nnn } => {},
        Instr::Call { nnn } => {},
        Instr::SeImm { x, kk } => {},
        Instr::SneImm { x, kk } => {},
        Instr::SeReg { x, y } => {},
        Instr::LdImm { x, kk } => {},
        Instr::AddImm { x, kk } => {},
        Instr::LdReg { x, y } => {},
        Instr::Or { x, y } => {},
        Instr::And { x, y } => {},
        Instr::Xor { x, y } => {},
        Instr::AddReg { x, y } => {},
        Instr::Sub { x, y } => {},
        Instr::Shr { x } => {},
        Instr::Subn { x, y } => {},
        Instr::Shl { x } => {},
        Instr::SneReg { x, y } => {},
        Instr::LdIndex { nnn } => {},
        Instr::JpV0 { nnn } => {},
        Instr::Rnd { x, kk } => {},
        Instr::Drw { x, y, n } => {},
        Instr::Skp { x } => {},
        Instr::Sknp { x } => {},
        Instr::LdFromDelay { x } => {},
        Instr::LdKey { x } => {},
        Instr::SetDelay { x } => {},
        Instr::SetSound { x } => {},
        Instr::AddIndex { x } => {},
        Instr::LdFont { x } => {},
        Instr::LdBcd { x } => {},
        Instr::StoreRegs { x } => {},
        Instr::LoadRegs { x } => {},
    }
}

/// The changed-display hint is raised during a step only by a draw
/// instruction: if it was down before the step and up after, the fetched
/// opcode decodes to `DRW`.
pub proof fn lemma_display_hint_only_draw(s: Chip8View, b: u8)
    requires
        s.wf(),
        !s.display_changed,
        spec_step(s, b).state.display_changed,
    ensures
        s.pc <= 4094,
        exists|x: u8, y: u8, n: u8|
            spec_decode(spec_fetched(skip_next(s))) == Some(Instr::Drw { x, y, n }),
{
    let s2 = skip_next(s);
    let op = spec_fetched(s2);
    match spec_decode(op) {
        None => {},
        Some(i) => {
            match i {
                Instr::Drw { x, y, n } => {
                    assert(spec_decode(op) == Some(Instr::Drw { x, y, n }));
                },
                _ => {
                    lemma_dispatch_display_hint(s2, i, b);
                },
            }
        },
    }
}

/// `spec_first_key` yields the lowest pressed key at or above `i`, and
/// `None` exactly when no key at or above `i` is pressed.
pub proof fn lemma_first_key_lowest(keys: Seq<bool>, i: nat)
    requires
        keys.len() == 16,
        i <= 16,
    ensures
        spec_first_key(keys, i) matches Some(k) ==> i <= k < 16 && keys[k as int]
            && (forall|j: int| i <= j < k ==> !keys[j]),
        spec_first_key(keys, i) is None ==> forall|j: int| i <= j < 16 ==> !keys[j],
    decreases 16 - i,
{
    if i < 16 {
        lemma_first_key_lowest(keys, i + 1);
    }
}

/// A blocked key-wait makes no net progress: when the fetched instruction
/// is `LD Vx,K` and no key is pressed, the step returns the machine to
/// exactly its prior state, ready to re-fetch the same instruction.
pub proof fn lemma_key_wait_blocks(s: Chip8View, b: u8, x: u8)
    requires
        s.wf(),
        s.pc <= 4094,
        spec_decode(spec_fetched(skip_next(s))) == Some(Instr::LdKey { x }),
        x < 16,
        forall|k: int| 0 <= k < 16 ==> !s.keys[k],
    ensures
        spec_step(s, b) == step_ok(s),
{
    lemma_first_key_lowest(s.keys, 0);
    let s2 = skip_next(s);
    assert(spec_first_key(s2.keys, 0) is None);
    assert(spec_ld_key(s2, x) == s);
}

/// Once a key is pressed, the next key-wait step advances the program
/// counter normally and stores the lowest-indexed pressed key in Vx.
pub proof fn lemma_key_wait_advances(s: Chip8View, b: u8, x: u8, k: u8)
    requires
        s.wf(),
        s.pc <= 4094,
        spec_decode(spec_fetched(skip_next(s))) == Some(Instr::LdKey { x }),
        x < 16,
        spec_first_key(s.keys, 0) == Some(k),
    ensures
        k < 16 && s.keys[k as int],
        forall|j: int| 0 <= j < k ==> !s.keys[j],
        spec_step(s, b) == step_ok(
            Chip8View { pc: (s.pc + 2) as u16, regs: s.regs.update(x as int, k), ..s },
        ),
{
    lemma_first_key_lowest(s.keys, 0);
    let s2 = skip_next(s);
    assert(spec_ld_key(s2, x) == (Chip8View {
        pc: (s.pc + 2) as u16,
        regs: s.regs.update(x as int, k),
        ..s
    }));
}

/// Timers never go below zero: a tick decrements by at most one, floors
/// at zero, and a timer already at zero stays there, however many frames
/// elapse.
pub proof fn lemma_timers_floor(s: Chip8View)
    ensures
        spec_tick(s).delay <= s.delay,
        spec_tick(s).sound <= s.sound,
        s.delay == 0 ==> spec_tick(s).delay == 0,
        s.sound == 0 ==> spec_tick(s).sound == 0,
{
}

} // verus!
