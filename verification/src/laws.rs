//! Properties that relate several operations of the machine, stated and
//! proved over the transition functions of `state`.

use vstd::prelude::*;

use crate::state::{
    add_xy_spec, call_spec, draw_collision, draw_pixel, drw_spec, lemma_slot_of_wrap,
    lemma_wrap_normalize, load_regs_spec, mem_idx, mem_slot, ret_spec, store_regs_spec,
    sub_xy_spec, wrap_sub8, MachineView,
};

verus! {

use vstd::arithmetic::div_mod::{lemma_mod_bound, lemma_mod_multiples_vanish, lemma_small_mod};

/// add-registers sets the flag register to 1 exactly when the 8-bit sum of
/// registers `x` and `y` overflows (their sum exceeds 255) and to 0
/// otherwise, and stores the truncated sum in register `x`. The stored-sum
/// part is stated for `x != 15`: register 15 is the flag register itself,
/// so there the flag overwrites the sum.
pub proof fn lemma_add_registers_flag(s: MachineView, x: u8, y: u8)
    requires
        s.wf(),
        x < 16,
        y < 16,
    ensures
        ({
            let t = add_xy_spec(s, x, y);
            let sum = s.regs[x as int] + s.regs[y as int];
            &&& (t.regs[15] == 1 <==> sum > 255)
            &&& (t.regs[15] == 0 <==> sum <= 255)
            &&& x != 15 ==> t.regs[x as int] == sum % 256
        }),
{
    let sum = s.regs[x as int] + s.regs[y as int];
    if sum > 255 {
        lemma_mod_multiples_vanish(1, sum - 256, 256);
        lemma_small_mod((sum - 256) as nat, 256);
    } else {
        lemma_small_mod(sum as nat, 256);
    }
}

/// subtract sets the flag register to 1 exactly when register `x` is
/// strictly greater than register `y`, and to 0 otherwise — in particular
/// equal operands give flag 0, not 1 — and stores the wrapping difference
/// in register `x`. The flag parts are stated for `x != 15`: register 15 is
/// the flag register itself, so there the difference overwrites the flag.
pub proof fn lemma_subtract_flag(s: MachineView, x: u8, y: u8)
    requires
        s.wf(),
        x < 16,
        y < 16,
    ensures
        ({
            let t = sub_xy_spec(s, x, y);
            let vx = s.regs[x as int];
            let vy = s.regs[y as int];
            &&& t.regs[x as int] == wrap_sub8(vx, vy)
            &&& x != 15 ==> (t.regs[15] == 1 <==> vx > vy)
            &&& x != 15 ==> (t.regs[15] == 0 <==> vx <= vy)
            &&& (x != 15 && vx == vy) ==> t.regs[15] == 0
        }),
{
}

/// draw-sprite is an involution on the framebuffer: drawing the same sprite
/// at the same position twice restores every cell, because XOR-compositing
/// the same bits twice is the identity. And the collision flag after one
/// draw is 1 exactly when at least one destination cell was set before the
/// draw and is touched by a set source bit.
pub proof fn lemma_draw_twice(s: MachineView, x: u8, y: u8, n: u8)
    requires
        s.wf(),
        x < 16,
        y < 16,
        n < 16,
    ensures
        ({
            let s0 = (MachineView { regs: s.regs.update(15, 0u8), ..s });
            let vx = s0.regs[x as int];
            let vy = s0.regs[y as int];
            let t = drw_spec(s, x, y, n);
            &&& drw_spec(t, x, y, n).screen =~= s.screen
            &&& (t.regs[15] == 1 <==> draw_collision(s0, vx, vy, n))
        }),
{
    let s0 = (MachineView { regs: s.regs.update(15, 0u8), ..s });
    let vx = s0.regs[x as int];
    let vy = s0.regs[y as int];
    let t = drw_spec(s, x, y, n);
    let u = drw_spec(t, x, y, n);
    assert forall|p: int| 0 <= p < 2048 implies u.screen[p] == s.screen[p] by {
        assert(t.screen[p] == draw_pixel(s0, vx, vy, n, p));
    }
}

/// store-registers followed by load-registers with the same `x` and the
/// same index register is a round trip: registers 0 through `x` are
/// restored to their pre-store values, and the higher registers were never
/// touched, whatever else memory held.
pub proof fn lemma_store_load_roundtrip(s: MachineView, x: u8)
    requires
        s.wf(),
        x < 16,
    ensures
        load_regs_spec(store_regs_spec(s, x), x).regs =~= s.regs,
{
    let t = store_regs_spec(s, x);
    assert forall|i: int| 0 <= i < 16 implies load_regs_spec(t, x).regs[i] == s.regs[i] by {
        if i <= x {
            lemma_mod_bound(s.vi as int, 4096);
            lemma_wrap_normalize(s.vi as int, i, 4096);
            lemma_slot_of_wrap((s.vi as int) % 4096, i, 4096);
            assert(mem_slot(s.vi, mem_idx(s.vi, i)) == i);
        }
    }
}

/// call then return is a round trip: the program counter comes back to the
/// address that was current immediately before the call, and the stack
/// pointer returns to its pre-call value.
pub proof fn lemma_call_ret_roundtrip(s: MachineView, addr: u16)
    requires
        s.wf(),
        s.sp < 16,
    ensures
        ret_spec(call_spec(s, addr)).pc == s.pc,
        ret_spec(call_spec(s, addr)).sp == s.sp,
{
}

} // verus!
