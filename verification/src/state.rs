//! The mathematical model of the machine: an abstract view of the whole
//! machine state, the built-in font table, and one transition function per
//! operation of the instruction set. The executable machine in `cpu` is
//! specified against these functions.

use vstd::prelude::*;

use crate::decode::{spec_decode, Instr};

verus! {

use vstd::arithmetic::div_mod::{
    lemma_add_mod_noop, lemma_mod_multiples_vanish, lemma_small_mod,
};

/// Adding an offset below the modulus commutes with first reducing the base:
/// `(base + i) % m == ((base % m) + i) % m`.
pub proof fn lemma_wrap_normalize(base: int, i: int, m: int)
    requires
        0 < m,
        0 <= base,
        0 <= i < m,
    ensures
        (base + i) % m == ((base % m) + i) % m,
{
    lemma_add_mod_noop(base, i, m);
    lemma_small_mod(i as nat, m as nat);
}

/// The slot map `r -> (r + m - base) % m` undoes the wrapping map
/// `i -> (base + i) % m`.
pub proof fn lemma_slot_of_wrap(base: int, i: int, m: int)
    requires
        0 <= base < m,
        0 <= i < m,
    ensures
        (((base + i) % m) + m - base) % m == i,
{
    lemma_small_mod(i as nat, m as nat);
    if base + i < m {
        lemma_small_mod((base + i) as nat, m as nat);
        lemma_mod_multiples_vanish(1, i, m);
    } else {
        lemma_mod_multiples_vanish(1, base + i - m, m);
        lemma_small_mod((base + i - m) as nat, m as nat);
    }
}

/// The wrapping map `i -> (base + i) % m` undoes the slot map
/// `r -> (r + m - base) % m`.
pub proof fn lemma_wrap_of_slot(base: int, r: int, m: int)
    requires
        0 <= base < m,
        0 <= r < m,
    ensures
        (base + ((r + m - base) % m)) % m == r,
{
    lemma_small_mod(r as nat, m as nat);
    if r >= base {
        lemma_mod_multiples_vanish(1, r - base, m);
        lemma_small_mod((r - base) as nat, m as nat);
    } else {
        lemma_small_mod((r + m - base) as nat, m as nat);
        lemma_mod_multiples_vanish(1, r, m);
    }
}

/// The three fatal conditions. None is recoverable: after any of them the
/// machine instance must be discarded by the host.
#[derive(Clone, Copy, Debug, PartialEq, Eq, Structural)]
pub enum Fault {
    /// A return was executed with an empty call stack.
    StackUnderflow,
    /// A call was executed with the call stack already at capacity.
    StackOverflow,
    /// The fetched instruction word matches no opcode family or sub-case.
    UnknownOpcode,
}

/// Abstract view of the machine state: 4096 bytes of memory, 16 registers,
/// a 16-slot call stack, the index register, the program counter, two
/// countdown timers, the 64x32 framebuffer (row-major, `row * 64 + col`),
/// the 16-key snapshot, and the input-wait flag.
#[verifier::ext_equal]
pub struct MachineView {
    pub mem: Seq<u8>,
    pub regs: Seq<u8>,
    pub stack: Seq<u16>,
    pub sp: nat,
    pub pc: u16,
    pub vi: u16,
    pub dt: u8,
    pub st: u8,
    pub screen: Seq<bool>,
    pub keys: Seq<bool>,
    pub waiting: bool,
}

impl MachineView {
    /// Well-formedness: the fixed sizes of the state components, and the
    /// stack pointer within its `[0, 16]` range.
    pub open spec fn wf(self) -> bool {
        &&& self.mem.len() == 4096
        &&& self.regs.len() == 16
        &&& self.stack.len() == 16
        &&& self.screen.len() == 2048
        &&& self.keys.len() == 16
        &&& self.sp <= 16
    }
}

/// The font table: 16 glyphs for the hex digits 0-F, 5 bytes each, every
/// byte one row of a 4-pixel-wide sprite.
pub open spec fn font() -> Seq<u8> {
    seq![
        0xF0u8, 0x90, 0x90, 0x90, 0xF0, // 0
        0x20, 0x60, 0x20, 0x20, 0x70, // 1
        0xF0, 0x10, 0xF0, 0x80, 0xF0, // 2
        0xF0, 0x10, 0xF0, 0x10, 0xF0, // 3
        0x90, 0x90, 0xF0, 0x10, 0x10, // 4
        0xF0, 0x80, 0xF0, 0x10, 0xF0, // 5
        0xF0, 0x80, 0xF0, 0x90, 0xF0, // 6
        0xF0, 0x10, 0x20, 0x40, 0x40, // 7
        0xF0, 0x90, 0xF0, 0x90, 0xF0, // 8
        0xF0, 0x90, 0xF0, 0x10, 0xF0, // 9
        0xF0, 0x90, 0xF0, 0x90, 0x90, // A
        0xE0, 0x90, 0xE0, 0x90, 0xE0, // B
        0xF0, 0x80, 0x80, 0x80, 0xF0, // C
        0xE0, 0x90, 0x90, 0x90, 0xE0, // D
        0xF0, 0x80, 0xF0, 0x80, 0xF0, // E
        0xF0, 0x80, 0xF0, 0x80, 0x80, // F
    ]
}

/// The freshly created machine: font in the low memory, everything else
/// zeroed, program counter at the fixed program base 0x200.
pub open spec fn initial() -> MachineView {
    MachineView {
        mem: Seq::new(4096, |i: int| if i < 80 { font()[i] } else { 0u8 }),
        regs: Seq::new(16, |i: int| 0u8),
        stack: Seq::new(16, |i: int| 0u16),
        sp: 0,
        pc: 0x200,
        vi: 0,
        dt: 0,
        st: 0,
        screen: Seq::new(2048, |i: int| false),
        keys: Seq::new(16, |i: int| false),
        waiting: false,
    }
}

/// The machine after a program image is copied in at the fixed program base
/// 0x200; the rest of the state is untouched.
pub open spec fn load_spec(s: MachineView, prog: Seq<u8>) -> MachineView {
    MachineView {
        mem: Seq::new(
            4096,
            |a: int|
                if 0x200 <= a < 0x200 + prog.len() {
                    prog[a - 0x200]
                } else {
                    s.mem[a]
                },
        ),
        ..s
    }
}

/// 16-bit wrapping addition, as performed on the program counter and the
/// index register.
pub open spec fn wrap_add16(a: u16, b: u16) -> u16 {
    if a + b > 0xFFFF {
        (a + b - 0x10000) as u16
    } else {
        (a + b) as u16
    }
}

/// 8-bit wrapping addition, as performed on the registers.
pub open spec fn wrap_add8(a: u8, b: u8) -> u8 {
    if a + b > 0xFF {
        (a + b - 0x100) as u8
    } else {
        (a + b) as u8
    }
}

/// 8-bit wrapping subtraction, as performed on the registers.
pub open spec fn wrap_sub8(a: u8, b: u8) -> u8 {
    if a - b < 0 {
        (a - b + 0x100) as u8
    } else {
        (a - b) as u8
    }
}

/// The memory cell addressed by the index register plus offset `i`:
/// 16-bit wraparound folded into the 4096-byte address space.
pub open spec fn mem_idx(vi: u16, i: int) -> int {
    (vi + i) % 4096
}

/// The instruction word at the program counter: the byte at `pc` is the high
/// byte and the byte at `pc + 1` the low byte, both addresses reduced into
/// the 4096-byte memory.
pub open spec fn fetch(s: MachineView) -> u16 {
    ((s.mem[(s.pc as int) % 4096] as u16) << 8) | (s.mem[(s.pc + 1) % 4096] as u16)
}

/// The program counter moved past one instruction.
pub open spec fn bump_pc(s: MachineView) -> MachineView {
    MachineView { pc: wrap_add16(s.pc, 2), ..s }
}

/// The pre-dispatch step: the program counter advances by 2 unless the
/// machine is blocked waiting for a key, in which case it is held so the
/// blocking instruction is re-evaluated on the next cycle.
pub open spec fn advance(s: MachineView) -> MachineView {
    if s.waiting {
        s
    } else {
        bump_pc(s)
    }
}

/// clear-screen: every framebuffer cell becomes unset.
pub open spec fn cls_spec(s: MachineView) -> MachineView {
    MachineView { screen: Seq::new(2048, |i: int| false), ..s }
}

/// return: pop one address off the stack into the program counter.
pub open spec fn ret_spec(s: MachineView) -> MachineView
    recommends
        1 <= s.sp <= 16,
{
    MachineView { sp: (s.sp - 1) as nat, pc: s.stack[s.sp - 1], ..s }
}

/// jump: the program counter becomes `addr`.
pub open spec fn jp_spec(s: MachineView, addr: u16) -> MachineView {
    MachineView { pc: addr, ..s }
}

/// call: push the current program counter, then jump to `addr`.
pub open spec fn call_spec(s: MachineView, addr: u16) -> MachineView
    recommends
        s.sp < 16,
{
    MachineView { stack: s.stack.update(s.sp as int, s.pc), sp: s.sp + 1, pc: addr, ..s }
}

/// skip-if-equal-immediate: skip one instruction if register `x` equals `kk`.
pub open spec fn se_byte_spec(s: MachineView, x: u8, kk: u8) -> MachineView {
    if s.regs[x as int] == kk {
        bump_pc(s)
    } else {
        s
    }
}

/// skip-if-not-equal-immediate.
pub open spec fn sne_byte_spec(s: MachineView, x: u8, kk: u8) -> MachineView {
    if s.regs[x as int] != kk {
        bump_pc(s)
    } else {
        s
    }
}

/// skip-if-registers-equal.
pub open spec fn se_xy_spec(s: MachineView, x: u8, y: u8) -> MachineView {
    if s.regs[x as int] == s.regs[y as int] {
        bump_pc(s)
    } else {
        s
    }
}

/// skip-if-registers-not-equal.
pub open spec fn sne_xy_spec(s: MachineView, x: u8, y: u8) -> MachineView {
    if s.regs[x as int] != s.regs[y as int] {
        bump_pc(s)
    } else {
        s
    }
}

/// load-immediate.
pub open spec fn ld_byte_spec(s: MachineView, x: u8, kk: u8) -> MachineView {
    MachineView { regs: s.regs.update(x as int, kk), ..s }
}

/// add-immediate, wrapping, with no carry flag.
pub open spec fn add_byte_spec(s: MachineView, x: u8, kk: u8) -> MachineView {
    MachineView { regs: s.regs.update(x as int, wrap_add8(s.regs[x as int], kk)), ..s }
}

/// register-to-register move.
pub open spec fn ld_xy_spec(s: MachineView, x: u8, y: u8) -> MachineView {
    MachineView { regs: s.regs.update(x as int, s.regs[y as int]), ..s }
}

/// bitwise OR into register `x`.
pub open spec fn or_xy_spec(s: MachineView, x: u8, y: u8) -> MachineView {
    MachineView { regs: s.regs.update(x as int, s.regs[x as int] | s.regs[y as int]), ..s }
}

/// bitwise AND into register `x`.
pub open spec fn and_xy_spec(s: MachineView, x: u8, y: u8) -> MachineView {
    MachineView { regs: s.regs.update(x as int, s.regs[x as int] & s.regs[y as int]), ..s }
}

/// bitwise XOR into register `x`.
pub open spec fn xor_xy_spec(s: MachineView, x: u8, y: u8) -> MachineView {
    MachineView { regs: s.regs.update(x as int, s.regs[x as int] ^ s.regs[y as int]), ..s }
}

/// add-registers: wrapping sum into register `x`; the flag register becomes 1
/// exactly when the 8-bit addition overflowed, else 0. The flag is written
/// after the sum, so with `x == 15` the flag value wins.
pub open spec fn add_xy_spec(s: MachineView, x: u8, y: u8) -> MachineView {
    let sum = s.regs[x as int] + s.regs[y as int];
    MachineView {
        regs: s.regs.update(x as int, wrap_add8(s.regs[x as int], s.regs[y as int])).update(
            15,
            if sum > 255 {
                1u8
            } else {
                0u8
            },
        ),
        ..s
    }
}

/// subtract: the flag register becomes 1 exactly when register `x` is
/// strictly greater than register `y` (equality gives 0), then register `x`
/// becomes the wrapping difference `x - y`. The flag is written before the
/// difference, so with `x == 15` the difference wins.
pub open spec fn sub_xy_spec(s: MachineView, x: u8, y: u8) -> MachineView {
    let vx = s.regs[x as int];
    let vy = s.regs[y as int];
    MachineView {
        regs: s.regs.update(
            15,
            if vx > vy {
                1u8
            } else {
                0u8
            },
        ).update(x as int, wrap_sub8(vx, vy)),
        ..s
    }
}

/// subtract-reverse: the flag register becomes 1 exactly when register `y`
/// is strictly greater than register `x`, then register `x` becomes the
/// wrapping difference `y - x`.
pub open spec fn subn_xy_spec(s: MachineView, x: u8, y: u8) -> MachineView {
    let vx = s.regs[x as int];
    let vy = s.regs[y as int];
    MachineView {
        regs: s.regs.update(
            15,
            if vy > vx {
                1u8
            } else {
                0u8
            },
        ).update(x as int, wrap_sub8(vy, vx)),
        ..s
    }
}

/// shift-right: the flag register takes the old low bit of register `x`,
/// then register `x` is shifted right by one.
pub open spec fn shr_x_spec(s: MachineView, x: u8) -> MachineView {
    let vx = s.regs[x as int];
    MachineView { regs: s.regs.update(15, vx & 1).update(x as int, vx >> 1), ..s }
}

/// shift-left: the flag register takes the old high bit of register `x`,
/// then register `x` is shifted left by one, keeping the low 8 bits.
pub open spec fn shl_x_spec(s: MachineView, x: u8) -> MachineView {
    let vx = s.regs[x as int];
    MachineView { regs: s.regs.update(15, (vx & 0x80) >> 7).update(x as int, vx << 1), ..s }
}

/// load-index: the index register becomes `addr`.
pub open spec fn ld_i_spec(s: MachineView, addr: u16) -> MachineView {
    MachineView { vi: addr, ..s }
}

/// jump-with-offset: the program counter becomes `addr` plus register 0,
/// wrapping at 16 bits.
pub open spec fn jp_v0_spec(s: MachineView, addr: u16) -> MachineView {
    MachineView { pc: wrap_add16(addr, s.regs[0] as u16), ..s }
}

/// random-and-mask: register `x` becomes the random byte `rnd` masked by `kk`.
pub open spec fn rnd_spec(s: MachineView, x: u8, kk: u8, rnd: u8) -> MachineView {
    MachineView { regs: s.regs.update(x as int, rnd & kk), ..s }
}

/// Row `i`, bit `j` of the sprite addressed by the index register: bit 7 of
/// a sprite byte is its leftmost pixel.
pub open spec fn sprite_bit(mem: Seq<u8>, vi: u16, i: int, j: int) -> bool {
    (mem[mem_idx(vi, i)] >> ((7 - j) as u8)) & 1 == 1
}

/// The framebuffer cell that sprite row `i`, bit `j` lands on when drawn at
/// origin (`vx`, `vy`): both coordinates wrap toroidally.
pub open spec fn pix_pos(vx: u8, vy: u8, i: int, j: int) -> int {
    ((vy + i) % 32) * 64 + ((vx + j) % 64)
}

/// The sprite row that covers screen row `r` when drawing at `vy`: the
/// inverse of the wrapping map `i -> (vy + i) % 32`.
pub open spec fn row_slot(vy: u8, r: int) -> int {
    (r + 32 - (vy % 32)) % 32
}

/// The sprite bit that covers screen column `c` when drawing at `vx`.
pub open spec fn col_slot(vx: u8, c: int) -> int {
    (c + 64 - (vx % 64)) % 64
}

/// One framebuffer cell after a draw: XORed with its covering sprite bit if
/// some row below `n` and some bit below 8 land on it, unchanged otherwise.
/// A sprite is at most 15 rows tall and 8 bits wide, so no cell is covered
/// twice within one draw.
pub open spec fn draw_pixel(s: MachineView, vx: u8, vy: u8, n: u8, p: int) -> bool {
    let i = row_slot(vy, p / 64);
    let j = col_slot(vx, p % 64);
    if i < n && j < 8 {
        s.screen[p] ^ sprite_bit(s.mem, s.vi, i, j)
    } else {
        s.screen[p]
    }
}

/// Collision: some sprite bit that is set lands on a framebuffer cell that
/// is already set (and is therefore toggled off by the XOR composite).
pub open spec fn draw_collision(s: MachineView, vx: u8, vy: u8, n: u8) -> bool {
    exists|i: int, j: int|
        0 <= i < n && 0 <= j < 8 && sprite_bit(s.mem, s.vi, i, j) && s.screen[pix_pos(
            vx,
            vy,
            i,
            j,
        )]
}

/// draw-sprite: the flag register is reset to 0 before the origin registers
/// are read (so with `x == 15` or `y == 15` the origin coordinate reads 0),
/// the sprite is XOR-composited onto the framebuffer, and the flag register
/// ends 1 exactly when a collision occurred.
pub open spec fn drw_spec(s: MachineView, x: u8, y: u8, n: u8) -> MachineView {
    let s0 = MachineView { regs: s.regs.update(15, 0u8), ..s };
    let vx = s0.regs[x as int];
    let vy = s0.regs[y as int];
    MachineView {
        regs: s0.regs.update(
            15,
            if draw_collision(s0, vx, vy, n) {
                1u8
            } else {
                0u8
            },
        ),
        screen: Seq::new(2048, |p: int| draw_pixel(s0, vx, vy, n, p)),
        ..s
    }
}

/// skip-if-key-pressed: the key index is the value of register `x`, reduced
/// into the 16-key range.
pub open spec fn skp_spec(s: MachineView, x: u8) -> MachineView {
    if s.keys[(s.regs[x as int] as int) % 16] {
        bump_pc(s)
    } else {
        s
    }
}

/// skip-if-key-not-pressed.
pub open spec fn sknp_spec(s: MachineView, x: u8) -> MachineView {
    if !s.keys[(s.regs[x as int] as int) % 16] {
        bump_pc(s)
    } else {
        s
    }
}

/// load-register-from-delay-timer.
pub open spec fn ld_x_dt_spec(s: MachineView, x: u8) -> MachineView {
    MachineView { regs: s.regs.update(x as int, s.dt), ..s }
}

/// The highest pressed key index among `0 .. n`, if any: a forward scan that
/// records the last pressed index, so the highest one wins.
pub open spec fn highest_pressed(keys: Seq<bool>, n: nat) -> Option<u8>
    decreases n,
{
    if n == 0 {
        None
    } else if keys[n - 1] {
        Some((n - 1) as u8)
    } else {
        highest_pressed(keys, (n - 1) as nat)
    }
}

/// wait-for-key: if some key is pressed, its highest index goes into
/// register `x` and the wait flag clears in the same step; otherwise the
/// wait flag is set so the instruction repeats on the next cycle.
pub open spec fn ld_x_k_spec(s: MachineView, x: u8) -> MachineView {
    match highest_pressed(s.keys, 16) {
        Some(k) => MachineView { regs: s.regs.update(x as int, k), waiting: false, ..s },
        None => MachineView { waiting: true, ..s },
    }
}

/// load-delay-timer-from-register.
pub open spec fn ld_dt_x_spec(s: MachineView, x: u8) -> MachineView {
    MachineView { dt: s.regs[x as int], ..s }
}

/// load-sound-timer-from-register.
pub open spec fn ld_st_x_spec(s: MachineView, x: u8) -> MachineView {
    MachineView { st: s.regs[x as int], ..s }
}

/// add-to-index: 16-bit wrapping.
pub open spec fn add_i_x_spec(s: MachineView, x: u8) -> MachineView {
    MachineView { vi: wrap_add16(s.vi, s.regs[x as int] as u16), ..s }
}

/// load-font-address: the index register points at the 5-byte glyph for the
/// value of register `x`.
pub open spec fn ld_f_x_spec(s: MachineView, x: u8) -> MachineView {
    MachineView { vi: (5 * s.regs[x as int]) as u16, ..s }
}

/// store-BCD: the hundreds, tens and units digits of register `x` go to the
/// three memory cells addressed by the index register.
pub open spec fn bcd_spec(s: MachineView, x: u8) -> MachineView {
    let v = s.regs[x as int];
    MachineView {
        mem: s.mem.update(mem_idx(s.vi, 0), (v / 100) as u8).update(
            mem_idx(s.vi, 1),
            ((v / 10) % 10) as u8,
        ).update(mem_idx(s.vi, 2), (v % 10) as u8),
        ..s
    }
}

/// The register slot that memory address `a` receives on a store-registers:
/// the inverse of the wrapping map `i -> (vi + i) % 4096`.
pub open spec fn mem_slot(vi: u16, a: int) -> int {
    (a + 4096 - ((vi as int) % 4096)) % 4096
}

/// store-registers: registers 0 through `x` go to consecutive memory cells
/// starting at the index register, which itself is unchanged.
pub open spec fn store_regs_spec(s: MachineView, x: u8) -> MachineView {
    MachineView {
        mem: Seq::new(
            4096,
            |a: int|
                if mem_slot(s.vi, a) <= x {
                    s.regs[mem_slot(s.vi, a)]
                } else {
                    s.mem[a]
                },
        ),
        ..s
    }
}

/// load-registers: registers 0 through `x` are read back from consecutive
/// memory cells starting at the index register, which itself is unchanged.
pub open spec fn load_regs_spec(s: MachineView, x: u8) -> MachineView {
    MachineView {
        regs: Seq::new(
            16,
            |i: int|
                if i <= x {
                    s.mem[mem_idx(s.vi, i)]
                } else {
                    s.regs[i]
                },
        ),
        ..s
    }
}

/// timer tick: each timer decrements by one if nonzero, independently; a
/// timer at zero stays at zero.
pub open spec fn tick_spec(s: MachineView) -> MachineView {
    MachineView {
        dt: if s.dt > 0 {
            (s.dt - 1) as u8
        } else {
            s.dt
        },
        st: if s.st > 0 {
            (s.st - 1) as u8
        } else {
            s.st
        },
        ..s
    }
}

/// One decode-and-execute step on the abstract machine. The fetched word is
/// decoded; an unknown word, a return on an empty stack and a call on a full
/// stack are the three fatal outcomes and leave no successor. Otherwise the
/// program counter advances (unless the machine is blocked waiting for a
/// key) and the operation's transition applies. `rnd` is the byte that the
/// random source hands to a random-and-mask instruction; every other
/// operation ignores it.
pub open spec fn step_spec(s: MachineView, rnd: u8) -> Result<MachineView, Fault> {
    match spec_decode(fetch(s)) {
        None => Err(Fault::UnknownOpcode),
        Some(instr) => {
            if instr is Ret && s.sp == 0 {
                Err(Fault::StackUnderflow)
            } else if instr is Call && s.sp >= 16 {
                Err(Fault::StackOverflow)
            } else {
                let t = advance(s);
                Ok(
                    match instr {
                        Instr::Cls => cls_spec(t),
                        Instr::Ret => ret_spec(t),
                        Instr::Jp { addr } => jp_spec(t, addr),
                        Instr::Call { addr } => call_spec(t, addr),
                        Instr::SeByte { x, kk } => se_byte_spec(t, x, kk),
                        Instr::SneByte { x, kk } => sne_byte_spec(t, x, kk),
                        Instr::SeXy { x, y } => se_xy_spec(t, x, y),
                        Instr::LdByte { x, kk } => ld_byte_spec(t, x, kk),
                        Instr::AddByte { x, kk } => add_byte_spec(t, x, kk),
                        Instr::LdXy { x, y } => ld_xy_spec(t, x, y),
                        Instr::OrXy { x, y } => or_xy_spec(t, x, y),
                        Instr::AndXy { x, y } => and_xy_spec(t, x, y),
                        Instr::XorXy { x, y } => xor_xy_spec(t, x, y),
                        Instr::AddXy { x, y } => add_xy_spec(t, x, y),
                        Instr::SubXy { x, y } => sub_xy_spec(t, x, y),
                        Instr::ShrX { x } => shr_x_spec(t, x),
                        Instr::SubnXy { x, y } => subn_xy_spec(t, x, y),
                        Instr::ShlX { x } => shl_x_spec(t, x),
                        Instr::SneXy { x, y } => sne_xy_spec(t, x, y),
                        Instr::LdI { addr } => ld_i_spec(t, addr),
                        Instr::JpV0 { addr } => jp_v0_spec(t, addr),
                        Instr::Rnd { x, kk } => rnd_spec(t, x, kk, rnd),
                        Instr::Drw { x, y, n } => drw_spec(t, x, y, n),
                        Instr::SkpX { x } => skp_spec(t, x),
                        Instr::SknpX { x } => sknp_spec(t, x),
                        Instr::LdXDt { x } => ld_x_dt_spec(t, x),
                        Instr::LdXK { x } => ld_x_k_spec(t, x),
                        Instr::LdDtX { x } => ld_dt_x_spec(t, x),
                        Instr::LdStX { x } => ld_st_x_spec(t, x),
                        Instr::AddIX { x } => add_i_x_spec(t, x),
                        Instr::LdFX { x } => ld_f_x_spec(t, x),
                        Instr::LdBX { x } => bcd_spec(t, x),
                        Instr::LdIX { x } => store_regs_spec(t, x),
                        Instr::LdXI { x } => load_regs_spec(t, x),
                    },
                )
            }
        },
    }
}

} // verus!
