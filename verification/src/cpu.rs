//! The executable machine: the state struct, its lifecycle, and the
//! decode-and-execute step. Every operation is specified against the
//! transition functions of `state`.

use vstd::prelude::*;

use crate::decode::{decode, lemma_fields_bounded, Instr};
use crate::state::{
    add_byte_spec, add_i_x_spec, add_xy_spec, advance, and_xy_spec, bcd_spec, call_spec, cls_spec,
    col_slot, draw_collision, draw_pixel, drw_spec, fetch, font, highest_pressed, initial, jp_spec,
    jp_v0_spec, ld_byte_spec, ld_dt_x_spec, ld_f_x_spec, ld_i_spec, ld_st_x_spec, ld_x_dt_spec,
    ld_x_k_spec, ld_xy_spec, lemma_slot_of_wrap, lemma_wrap_normalize, lemma_wrap_of_slot,
    load_regs_spec, load_spec, mem_idx, mem_slot, or_xy_spec, pix_pos, ret_spec, rnd_spec,
    row_slot, se_byte_spec, se_xy_spec, shl_x_spec, shr_x_spec, sknp_spec, skp_spec, sne_byte_spec,
    sne_xy_spec, sprite_bit, step_spec, store_regs_spec, sub_xy_spec, subn_xy_spec, tick_spec,
    xor_xy_spec, Fault, MachineView,
};

verus! {

use vstd::arithmetic::div_mod::{lemma_fundamental_div_mod, lemma_mod_bound};

/// Collision found among the sprite cells that the draw loops have already
/// processed, in their row-major order: every row before `i`, and the bits
/// before `j` of row `i`.
spec fn draw_coll_upto(s0: MachineView, vx: u8, vy: u8, i: int, j: int) -> bool {
    exists|a: int, b: int|
        0 <= a && 0 <= b < 8 && (a < i || (a == i && b < j)) && sprite_bit(s0.mem, s0.vi, a, b)
            && s0.screen[pix_pos(vx, vy, a, b)]
}

/// The machine state: memory, registers, call stack, index register,
/// program counter, the two timers, framebuffer, key snapshot and the
/// input-wait flag. The abstract view of a value of this type is a
/// `MachineView`.
pub struct CPU {
    pub registers: [u8; 16],
    pub vi: u16,
    pub pc: u16,
    pub memory: [u8; 4096],
    pub stack: [u16; 16],
    pub stack_pointer: usize,
    pub dt: u8,
    pub st: u8,
    pub screen: [bool; 2048],
    pub keyboard: [bool; 16],
    pub waiting_for_input: bool,
}

impl View for CPU {
    type V = MachineView;

    open spec fn view(&self) -> MachineView {
        MachineView {
            mem: self.memory@,
            regs: self.registers@,
            stack: self.stack@,
            sp: self.stack_pointer as nat,
            pc: self.pc,
            vi: self.vi,
            dt: self.dt,
            st: self.st,
            screen: self.screen@,
            keys: self.keyboard@,
            waiting: self.waiting_for_input,
        }
    }
}

/// Relies on rand::random: one byte from the thread-local generator.
/// Nothing is assumed of the value; callers state what holds of every
/// outcome.
#[verifier::external_body]
fn random_byte() -> u8 {
    rand::random()
}

impl CPU {
    /// A fresh machine: the font table in the low 80 bytes of memory,
    /// everything else zeroed, and the program counter at the program base.
    pub fn new() -> (cpu: CPU)
        ensures
            cpu@ == initial(),
            cpu@.wf(),
    {
        let mut cpu = CPU {
            registers: [0; 16],
            vi: 0,
            memory: [0; 4096],
            pc: 0x200,
            stack: [0; 16],
            stack_pointer: 0,
            dt: 0,
            st: 0,
            screen: [false; 2048],
            keyboard: [false; 16],
            waiting_for_input: false,
        };
        let chars: [u8; 80] = [
            0xF0, 0x90, 0x90, 0x90, 0xF0, // 0
            0x20, 0x60, 0x20, 0x20, 0x70, // 1
            0xF0, 0x10, 0xF0, 0x80, 0xF0, // 2
            0xF0, 0x10, 0xF0, 0x10, 0xF0, // 3
            0x90, 0x90, 0xF0, 0x10, 0x10, // 4
            0xF0, 0x80, 0xF0, 0x10, 0xF0, // 5
            0xF0, 0x80, 0xF0, 0x90, 0xF0, // 6
            0xF0, 0x10, 0x20, 0x40, 0x40, // 7
            0xF0, 0x90, 0xF0, 0x90, 0xF0, // 8
            0xF0, 0x90, 0xF0, 0x10, 0xF0, // 9
            0xF0, 0x90, 0xF0, 0x90, 0x90, // A
            0xE0, 0x90, 0xE0, 0x90, 0xE0, // B
            0xF0, 0x80, 0x80, 0x80, 0xF0, // C
            0xE0, 0x90, 0x90, 0x90, 0xE0, // D
            0xF0, 0x80, 0xF0, 0x80, 0xF0, // E
            0xF0, 0x80, 0xF0, 0x80, 0x80, // F
        ];
        proof {
            assert(chars@ =~= font());
        }
        let mut cursor: usize = 0;
        while cursor < 80
            invariant
                cursor <= 80,
                forall|k: int| 0 <= k < cursor ==> cpu.memory@[k] == chars@[k],
                forall|k: int| cursor <= k < 4096 ==> cpu.memory@[k] == 0u8,
                forall|k: int| 0 <= k < 16 ==> cpu.registers@[k] == 0u8,
                forall|k: int| 0 <= k < 16 ==> cpu.stack@[k] == 0u16,
                forall|k: int| 0 <= k < 2048 ==> !cpu.screen@[k],
                forall|k: int| 0 <= k < 16 ==> !cpu.keyboard@[k],
                cpu.vi == 0,
                cpu.pc == 0x200,
                cpu.stack_pointer == 0,
                cpu.dt == 0,
                cpu.st == 0,
                !cpu.waiting_for_input,
            decreases 80 - cursor,
        {
            cpu.memory[cursor] = chars[cursor];
            cursor = cursor + 1;
        }
        proof {
            assert(cpu@ =~= initial());
        }
        cpu
    }

    /// Copy a program image into memory at the fixed program base 0x200.
    /// Called before execution begins; the rest of the state is untouched.
    pub fn load(&mut self, program: &[u8])
        requires
            program@.len() <= 3584,
        ensures
            final(self)@ == load_spec(old(self)@, program@),
    {
        let mut i: usize = 0;
        while i < program.len()
            invariant
                program@.len() <= 3584,
                i <= program@.len(),
                forall|k: int| 0 <= k < i ==> self.memory@[0x200 + k] == program@[k],
                forall|k: int|
                    0 <= k < 4096 && !(0x200 <= k < 0x200 + i) ==> self.memory@[k] == old(
                        self,
                    ).memory@[k],
                self.registers == old(self).registers,
                self.stack == old(self).stack,
                self.stack_pointer == old(self).stack_pointer,
                self.pc == old(self).pc,
                self.vi == old(self).vi,
                self.dt == old(self).dt,
                self.st == old(self).st,
                self.screen == old(self).screen,
                self.keyboard == old(self).keyboard,
                self.waiting_for_input == old(self).waiting_for_input,
            decreases program@.len() - i,
        {
            self.memory[0x200 + i] = program[i];
            i = i + 1;
        }
        proof {
            assert(final(self)@ =~= load_spec(old(self)@, program@));
        }
    }

    /// Overwrite the key-state snapshot, one boolean per keypad key.
    pub fn set_keys(&mut self, keys: [bool; 16])
        ensures
            final(self)@ == (MachineView { keys: keys@, ..old(self)@ }),
    {
        self.keyboard = keys;
    }

    /// Decrement each timer by one if it is nonzero; neither goes negative.
    pub fn update_timers(&mut self)
        ensures
            final(self)@ == tick_spec(old(self)@),
    {
        if self.dt > 0 {
            self.dt = self.dt - 1;
        }
        if self.st > 0 {
            self.st = self.st - 1;
        }
    }

    fn cls(&mut self)
        ensures
            final(self)@ == cls_spec(old(self)@),
    {
        self.screen = [false; 2048];
        proof {
            assert(final(self)@.screen =~= cls_spec(old(self)@).screen);
        }
    }

    fn ret(&mut self)
        requires
            1 <= old(self).stack_pointer <= 16,
        ensures
            final(self)@ == ret_spec(old(self)@),
    {
        self.stack_pointer = self.stack_pointer - 1;
        self.pc = self.stack[self.stack_pointer];
    }

    fn jp(&mut self, addr: u16)
        ensures
            final(self)@ == jp_spec(old(self)@, addr),
    {
        self.pc = addr;
    }

    fn call(&mut self, addr: u16)
        requires
            old(self).stack_pointer < 16,
        ensures
            final(self)@ == call_spec(old(self)@, addr),
    {
        self.stack[self.stack_pointer] = self.pc;
        self.stack_pointer = self.stack_pointer + 1;
        self.pc = addr;
    }

    fn se_byte(&mut self, x: u8, kk: u8)
        requires
            x < 16,
        ensures
            final(self)@ == se_byte_spec(old(self)@, x, kk),
    {
        if self.registers[x as usize] == kk {
            self.pc = self.pc.wrapping_add(2);
        }
    }

    fn sne_byte(&mut self, x: u8, kk: u8)
        requires
            x < 16,
        ensures
            final(self)@ == sne_byte_spec(old(self)@, x, kk),
    {
        if self.registers[x as usize] != kk {
            self.pc = self.pc.wrapping_add(2);
        }
    }

    fn se_xy(&mut self, x: u8, y: u8)
        requires
            x < 16,
            y < 16,
        ensures
            final(self)@ == se_xy_spec(old(self)@, x, y),
    {
        if self.registers[x as usize] == self.registers[y as usize] {
            self.pc = self.pc.wrapping_add(2);
        }
    }

    fn sne_xy(&mut self, x: u8, y: u8)
        requires
            x < 16,
            y < 16,
        ensures
            final(self)@ == sne_xy_spec(old(self)@, x, y),
    {
        if self.registers[x as usize] != self.registers[y as usize] {
            self.pc = self.pc.wrapping_add(2);
        }
    }

    fn ld_byte(&mut self, x: u8, kk: u8)
        requires
            x < 16,
        ensures
            final(self)@ == ld_byte_spec(old(self)@, x, kk),
    {
        self.registers[x as usize] = kk;
    }

    fn add_byte(&mut self, x: u8, kk: u8)
        requires
            x < 16,
        ensures
            final(self)@ == add_byte_spec(old(self)@, x, kk),
    {
        self.registers[x as usize] = self.registers[x as usize].wrapping_add(kk);
    }

    fn ld_xy(&mut self, x: u8, y: u8)
        requires
            x < 16,
            y < 16,
        ensures
            final(self)@ == ld_xy_spec(old(self)@, x, y),
    {
        self.registers[x as usize] = self.registers[y as usize];
    }

    fn or_xy(&mut self, x: u8, y: u8)
        requires
            x < 16,
            y < 16,
        ensures
            final(self)@ == or_xy_spec(old(self)@, x, y),
    {
        let v = self.registers[x as usize] | self.registers[y as usize];
        self.registers[x as usize] = v;
    }

    fn and_xy(&mut self, x: u8, y: u8)
        requires
            x < 16,
            y < 16,
        ensures
            final(self)@ == and_xy_spec(old(self)@, x, y),
    {
        let v = self.registers[x as usize] & self.registers[y as usize];
        self.registers[x as usize] = v;
    }

    fn xor_xy(&mut self, x: u8, y: u8)
        requires
            x < 16,
            y < 16,
        ensures
            final(self)@ == xor_xy_spec(old(self)@, x, y),
    {
        let v = self.registers[x as usize] ^ self.registers[y as usize];
        self.registers[x as usize] = v;
    }

    fn add_xy(&mut self, x: u8, y: u8)
        requires
            x < 16,
            y < 16,
        ensures
            final(self)@ == add_xy_spec(old(self)@, x, y),
    {
        let vx = self.registers[x as usize];
        let vy = self.registers[y as usize];
        self.registers[x as usize] = vx.wrapping_add(vy);
        self.registers[15] = if vx as u16 + vy as u16 > 255 {
            1
        } else {
            0
        };
    }

    fn sub_xy(&mut self, x: u8, y: u8)
        requires
            x < 16,
            y < 16,
        ensures
            final(self)@ == sub_xy_spec(old(self)@, x, y),
    {
        let vx = self.registers[x as usize];
        let vy = self.registers[y as usize];
        self.registers[15] = if vx > vy {
            1
        } else {
            0
        };
        self.registers[x as usize] = vx.wrapping_sub(vy);
    }

    fn subn_xy(&mut self, x: u8, y: u8)
        requires
            x < 16,
            y < 16,
        ensures
            final(self)@ == subn_xy_spec(old(self)@, x, y),
    {
        let vx = self.registers[x as usize];
        let vy = self.registers[y as usize];
        self.registers[15] = if vy > vx {
            1
        } else {
            0
        };
        self.registers[x as usize] = vy.wrapping_sub(vx);
    }

    fn shr_x(&mut self, x: u8)
        requires
            x < 16,
        ensures
            final(self)@ == shr_x_spec(old(self)@, x),
    {
        let vx = self.registers[x as usize];
        self.registers[15] = vx & 1;
        self.registers[x as usize] = vx >> 1;
    }

    fn shl_x(&mut self, x: u8)
        requires
            x < 16,
        ensures
            final(self)@ == shl_x_spec(old(self)@, x),
    {
        let vx = self.registers[x as usize];
        self.registers[15] = (vx & 0x80) >> 7;
        self.registers[x as usize] = vx << 1;
    }

    fn ld(&mut self, addr: u16)
        ensures
            final(self)@ == ld_i_spec(old(self)@, addr),
    {
        self.vi = addr;
    }

    fn jp_v0(&mut self, addr: u16)
        ensures
            final(self)@ == jp_v0_spec(old(self)@, addr),
    {
        self.pc = addr.wrapping_add(self.registers[0] as u16);
    }

    fn rnd_byte(&mut self, x: u8, kk: u8, rnd: u8)
        requires
            x < 16,
        ensures
            final(self)@ == rnd_spec(old(self)@, x, kk, rnd),
    {
        self.registers[x as usize] = rnd & kk;
    }

    fn skp_x(&mut self, x: u8)
        requires
            x < 16,
        ensures
            final(self)@ == skp_spec(old(self)@, x),
    {
        if self.keyboard[(self.registers[x as usize] as usize) % 16] {
            self.pc = self.pc.wrapping_add(2);
        }
    }

    fn sknp_x(&mut self, x: u8)
        requires
            x < 16,
        ensures
            final(self)@ == sknp_spec(old(self)@, x),
    {
        if !self.keyboard[(self.registers[x as usize] as usize) % 16] {
            self.pc = self.pc.wrapping_add(2);
        }
    }

    fn ld_x_dt(&mut self, x: u8)
        requires
            x < 16,
        ensures
            final(self)@ == ld_x_dt_spec(old(self)@, x),
    {
        self.registers[x as usize] = self.dt;
    }

    fn ld_dt_x(&mut self, x: u8)
        requires
            x < 16,
        ensures
            final(self)@ == ld_dt_x_spec(old(self)@, x),
    {
        self.dt = self.registers[x as usize];
    }

    fn ld_st_x(&mut self, x: u8)
        requires
            x < 16,
        ensures
            final(self)@ == ld_st_x_spec(old(self)@, x),
    {
        self.st = self.registers[x as usize];
    }

    fn add_i_x(&mut self, x: u8)
        requires
            x < 16,
        ensures
            final(self)@ == add_i_x_spec(old(self)@, x),
    {
        self.vi = self.vi.wrapping_add(self.registers[x as usize] as u16);
    }

    fn ld_f_x(&mut self, x: u8)
        requires
            x < 16,
        ensures
            final(self)@ == ld_f_x_spec(old(self)@, x),
    {
        self.vi = 5 * (self.registers[x as usize] as u16);
    }

    fn ld_b_x(&mut self, x: u8)
        requires
            x < 16,
        ensures
            final(self)@ == bcd_spec(old(self)@, x),
    {
        let vx = self.registers[x as usize];
        proof {
            assert(vx / 100 <= 2) by (bit_vector);
            assert(vx / 100 * 100 <= vx) by (bit_vector);
            assert((vx - vx / 100 * 100) / 10 <= 9) by (bit_vector);
            assert((vx - vx / 100 * 100) / 10 * 10 <= vx - vx / 100 * 100) by (bit_vector);
            assert((vx - vx / 100 * 100) / 10 == (vx / 10) % 10) by (bit_vector);
            assert(vx - vx / 100 * 100 - ((vx - vx / 100 * 100) / 10) * 10 == vx % 10)
                by (bit_vector);
        }
        let hundreds = vx / 100;
        let tens = (vx - hundreds * 100) / 10;
        let units = vx - hundreds * 100 - tens * 10;
        let base = self.vi as usize;
        self.memory[base % 4096] = hundreds;
        self.memory[(base + 1) % 4096] = tens;
        self.memory[(base + 2) % 4096] = units;
    }

    /// Scan the key snapshot from index 0 upward, recording the last pressed
    /// index found, so the highest pressed key wins.
    fn scan_keys(keys: &[bool; 16]) -> (r: Option<u8>)
        ensures
            r == highest_pressed(keys@, 16),
    {
        let mut key_pressed: Option<u8> = None;
        let mut index: usize = 0;
        while index < 16
            invariant
                index <= 16,
                key_pressed == highest_pressed(keys@, index as nat),
            decreases 16 - index,
        {
            if keys[index] {
                key_pressed = Some(index as u8);
            }
            index = index + 1;
        }
        key_pressed
    }

    fn ld_x_k(&mut self, x: u8)
        requires
            x < 16,
        ensures
            final(self)@ == ld_x_k_spec(old(self)@, x),
    {
        self.waiting_for_input = true;
        let key_pressed = Self::scan_keys(&self.keyboard);
        match key_pressed {
            Some(k) => {
                self.waiting_for_input = false;
                self.registers[x as usize] = k;
            },
            None => {},
        }
    }

    /// Decode and execute exactly one instruction: fetch the word at the
    /// program counter, classify it, advance the counter (unless the machine
    /// is blocked waiting for a key), and apply the operation. The three
    /// fatal conditions are reported as errors and leave the machine
    /// untouched; after one the machine must not be stepped further.
    #[verifier::rlimit(60)]
    pub fn run(&mut self) -> (r: Result<(), Fault>)
        requires
            old(self)@.wf(),
        ensures
            final(self)@.wf(),
            match r {
                Ok(()) => exists|b: u8|
                    step_spec(old(self)@, b) == Ok::<MachineView, Fault>(final(self)@),
                Err(e) => step_spec(old(self)@, 0) == Err::<MachineView, Fault>(e) && final(self)@
                    == old(self)@,
            },
    {
        let op1 = self.memory[(self.pc as usize) % 4096] as u16;
        let op2 = self.memory[((self.pc as usize) + 1) % 4096] as u16;
        let opcode = (op1 << 8) | op2;
        proof {
            assert(opcode == fetch(old(self)@));
            lemma_fields_bounded(opcode);
        }
        let instr = match decode(opcode) {
            Some(instr) => instr,
            None => {
                return Err(Fault::UnknownOpcode);
            },
        };
        match instr {
            Instr::Ret => {
                if self.stack_pointer == 0 {
                    return Err(Fault::StackUnderflow);
                }
            },
            Instr::Call { .. } => {
                if self.stack_pointer >= 16 {
                    return Err(Fault::StackOverflow);
                }
            },
            _ => {},
        }
        if !self.waiting_for_input {
            self.pc = self.pc.wrapping_add(2);
        }
        proof {
            assert(self@ == advance(old(self)@));
        }
        let ghost witness: u8 = 0;
        match instr {
            Instr::Cls => self.cls(),
            Instr::Ret => self.ret(),
            Instr::Jp { addr } => self.jp(addr),
            Instr::Call { addr } => self.call(addr),
            Instr::SeByte { x, kk } => self.se_byte(x, kk),
            Instr::SneByte { x, kk } => self.sne_byte(x, kk),
            Instr::SeXy { x, y } => self.se_xy(x, y),
            Instr::LdByte { x, kk } => self.ld_byte(x, kk),
            Instr::AddByte { x, kk } => self.add_byte(x, kk),
            Instr::LdXy { x, y } => self.ld_xy(x, y),
            Instr::OrXy { x, y } => self.or_xy(x, y),
            Instr::AndXy { x, y } => self.and_xy(x, y),
            Instr::XorXy { x, y } => self.xor_xy(x, y),
            Instr::AddXy { x, y } => self.add_xy(x, y),
            Instr::SubXy { x, y } => self.sub_xy(x, y),
            Instr::ShrX { x } => self.shr_x(x),
            Instr::SubnXy { x, y } => self.subn_xy(x, y),
            Instr::ShlX { x } => self.shl_x(x),
            Instr::SneXy { x, y } => self.sne_xy(x, y),
            Instr::LdI { addr } => self.ld(addr),
            Instr::JpV0 { addr } => self.jp_v0(addr),
            Instr::Rnd { x, kk } => {
                let rnd = random_byte();
                self.rnd_byte(x, kk, rnd);
                proof {
                    witness = rnd;
                }
            },
            Instr::Drw { x, y, n } => self.drw_k(x, y, n),
            Instr::SkpX { x } => self.skp_x(x),
            Instr::SknpX { x } => self.sknp_x(x),
            Instr::LdXDt { x } => self.ld_x_dt(x),
            Instr::LdXK { x } => self.ld_x_k(x),
            Instr::LdDtX { x } => self.ld_dt_x(x),
            Instr::LdStX { x } => self.ld_st_x(x),
            Instr::AddIX { x } => self.add_i_x(x),
            Instr::LdFX { x } => self.ld_f_x(x),
            Instr::LdBX { x } => self.ld_b_x(x),
            Instr::LdIX { x } => self.ld_i_x(x),
            Instr::LdXI { x } => self.ld_x_i(x),
        }
        proof {
            assert(step_spec(old(self)@, witness) == Ok::<MachineView, Fault>(self@));
        }
        Ok(())
    }

    #[verifier::loop_isolation(false)]
    fn drw_k(&mut self, x: u8, y: u8, n: u8)
        requires
            x < 16,
            y < 16,
            n < 16,
        ensures
            final(self)@ == drw_spec(old(self)@, x, y, n),
    {
        self.registers[15] = 0;
        let ghost s0 = self@;
        proof {
            assert(s0 == (MachineView { regs: old(self)@.regs.update(15, 0u8), ..old(self)@ }));
        }
        let vx = self.registers[x as usize];
        let vy = self.registers[y as usize];
        let mut i: u8 = 0;
        while i < n
            invariant
                i <= n,
                self.memory == old(self).memory,
                self.stack == old(self).stack,
                self.stack_pointer == old(self).stack_pointer,
                self.pc == old(self).pc,
                self.vi == old(self).vi,
                self.dt == old(self).dt,
                self.st == old(self).st,
                self.keyboard == old(self).keyboard,
                self.waiting_for_input == old(self).waiting_for_input,
                self.registers@ == (if draw_coll_upto(s0, vx, vy, i as int, 0) {
                    s0.regs.update(15, 1u8)
                } else {
                    s0.regs
                }),
                forall|a: int, b: int|
                    #![trigger pix_pos(vx, vy, a, b)]
                    0 <= a < 32 && 0 <= b < 64 ==> self.screen@[pix_pos(vx, vy, a, b)] == (if b < 8
                        && a < i {
                        s0.screen[pix_pos(vx, vy, a, b)] ^ sprite_bit(s0.mem, s0.vi, a, b)
                    } else {
                        s0.screen[pix_pos(vx, vy, a, b)]
                    }),
            decreases n - i,
        {
            let byte = self.memory[(self.vi as usize + i as usize) % 4096];
            proof {
                assert(byte == s0.mem[mem_idx(s0.vi, i as int)]);
            }
            let mut j: u8 = 0;
            while j < 8
                invariant
                    j <= 8,
                    i < n,
                    byte == s0.mem[mem_idx(s0.vi, i as int)],
                    self.memory == old(self).memory,
                    self.stack == old(self).stack,
                    self.stack_pointer == old(self).stack_pointer,
                    self.pc == old(self).pc,
                    self.vi == old(self).vi,
                    self.dt == old(self).dt,
                    self.st == old(self).st,
                    self.keyboard == old(self).keyboard,
                    self.waiting_for_input == old(self).waiting_for_input,
                    self.registers@ == (if draw_coll_upto(s0, vx, vy, i as int, j as int) {
                        s0.regs.update(15, 1u8)
                    } else {
                        s0.regs
                    }),
                    forall|a: int, b: int|
                        #![trigger pix_pos(vx, vy, a, b)]
                        0 <= a < 32 && 0 <= b < 64 ==> self.screen@[pix_pos(vx, vy, a, b)] == (if b
                            < 8 && (a < i || (a == i && b < j)) {
                            s0.screen[pix_pos(vx, vy, a, b)] ^ sprite_bit(s0.mem, s0.vi, a, b)
                        } else {
                            s0.screen[pix_pos(vx, vy, a, b)]
                        }),
                decreases 8 - j,
            {
                let pos = ((vy as usize + i as usize) % 32) * 64 + (vx as usize + j as usize) % 64;
                proof {
                    assert(pos as int == pix_pos(vx, vy, i as int, j as int));
                    assert forall|a: int, b: int|
                        0 <= a < 32 && 0 <= b < 64 && pix_pos(vx, vy, a, b) == pix_pos(
                            vx,
                            vy,
                            i as int,
                            j as int,
                        ) implies a == i as int && b == j as int by {
                        lemma_mod_bound(vy + a, 32);
                        lemma_mod_bound(vy + i, 32);
                        lemma_mod_bound(vx + b, 64);
                        lemma_mod_bound(vx + j, 64);
                        lemma_mod_bound(vy as int, 32);
                        lemma_mod_bound(vx as int, 64);
                        lemma_wrap_normalize(vy as int, a, 32);
                        lemma_slot_of_wrap((vy as int) % 32, a, 32);
                        lemma_wrap_normalize(vy as int, i as int, 32);
                        lemma_slot_of_wrap((vy as int) % 32, i as int, 32);
                        lemma_wrap_normalize(vx as int, b, 64);
                        lemma_slot_of_wrap((vx as int) % 64, b, 64);
                        lemma_wrap_normalize(vx as int, j as int, 64);
                        lemma_slot_of_wrap((vx as int) % 64, j as int, 64);
                    }
                }
                let existing = self.screen[pos];
                let cur_bit = (byte >> (7 - j)) & 0x01 == 1;
                proof {
                    assert(existing == s0.screen[pix_pos(vx, vy, i as int, j as int)]);
                    assert(cur_bit == sprite_bit(s0.mem, s0.vi, i as int, j as int));
                }
                if cur_bit && existing {
                    self.registers[15] = 1;
                    proof {
                        assert(draw_coll_upto(s0, vx, vy, i as int, j as int + 1));
                        assert(self.registers@ =~= s0.regs.update(15, 1u8));
                    }
                } else {
                    proof {
                        if draw_coll_upto(s0, vx, vy, i as int, j as int + 1) {
                            let (a, b) = choose|a: int, b: int|
                                0 <= a && 0 <= b < 8 && (a < i as int || (a == i as int && b < j
                                    + 1)) && sprite_bit(s0.mem, s0.vi, a, b) && s0.screen[pix_pos(
                                    vx,
                                    vy,
                                    a,
                                    b,
                                )];
                            assert(a < i as int || (a == i as int && b < j as int));
                            assert(draw_coll_upto(s0, vx, vy, i as int, j as int));
                        }
                        if draw_coll_upto(s0, vx, vy, i as int, j as int) {
                            let (a, b) = choose|a: int, b: int|
                                0 <= a && 0 <= b < 8 && (a < i as int || (a == i as int && b
                                    < j as int)) && sprite_bit(s0.mem, s0.vi, a, b)
                                    && s0.screen[pix_pos(vx, vy, a, b)];
                            assert(draw_coll_upto(s0, vx, vy, i as int, j as int + 1));
                        }
                    }
                }
                self.screen[pos] = existing != cur_bit;
                j = j + 1;
            }
            proof {
                if draw_coll_upto(s0, vx, vy, i as int, 8) {
                    let (a, b) = choose|a: int, b: int|
                        0 <= a && 0 <= b < 8 && (a < i as int || (a == i as int && b < 8))
                            && sprite_bit(s0.mem, s0.vi, a, b) && s0.screen[pix_pos(vx, vy, a, b)];
                    assert(draw_coll_upto(s0, vx, vy, i as int + 1, 0));
                }
                if draw_coll_upto(s0, vx, vy, i as int + 1, 0) {
                    let (a, b) = choose|a: int, b: int|
                        0 <= a && 0 <= b < 8 && (a < i as int + 1 || (a == i as int + 1 && b < 0))
                            && sprite_bit(s0.mem, s0.vi, a, b) && s0.screen[pix_pos(vx, vy, a, b)];
                    assert(draw_coll_upto(s0, vx, vy, i as int, 8));
                }
            }
            i = i + 1;
        }
        proof {
            if draw_coll_upto(s0, vx, vy, n as int, 0) {
                let (a, b) = choose|a: int, b: int|
                    0 <= a && 0 <= b < 8 && (a < n as int || (a == n as int && b < 0))
                        && sprite_bit(s0.mem, s0.vi, a, b) && s0.screen[pix_pos(vx, vy, a, b)];
                assert(draw_collision(s0, vx, vy, n));
            }
            if draw_collision(s0, vx, vy, n) {
                let (a, b) = choose|a: int, b: int|
                    0 <= a < n && 0 <= b < 8 && sprite_bit(s0.mem, s0.vi, a, b) && s0.screen[pix_pos(
                        vx,
                        vy,
                        a,
                        b,
                    )];
                assert(draw_coll_upto(s0, vx, vy, n as int, 0));
            } else {
                assert(s0.regs =~= s0.regs.update(15, 0u8));
            }
            assert forall|p: int| 0 <= p < 2048 implies self.screen@[p] == draw_pixel(
                s0,
                vx,
                vy,
                n,
                p,
            ) by {
                let r = p / 64;
                let c = p % 64;
                lemma_fundamental_div_mod(p, 64);
                lemma_mod_bound(p, 64);
                lemma_mod_bound(vy as int, 32);
                lemma_mod_bound(vx as int, 64);
                let a = row_slot(vy, r);
                let b = col_slot(vx, c);
                lemma_mod_bound(r + 32 - (vy as int) % 32, 32);
                lemma_mod_bound(c + 64 - (vx as int) % 64, 64);
                lemma_wrap_of_slot((vy as int) % 32, r, 32);
                lemma_wrap_normalize(vy as int, a, 32);
                lemma_wrap_of_slot((vx as int) % 64, c, 64);
                lemma_wrap_normalize(vx as int, b, 64);
                assert(pix_pos(vx, vy, a, b) == p);
            }
            assert(final(self)@.screen =~= drw_spec(old(self)@, x, y, n).screen);
        }
    }

    fn ld_i_x(&mut self, x: u8)
        requires
            x < 16,
        ensures
            final(self)@ == store_regs_spec(old(self)@, x),
    {
        let ghost base = (old(self).vi as int) % 4096;
        let mut i: usize = 0;
        while i <= x as usize
            invariant
                x < 16,
                i <= x + 1,
                base == (old(self).vi as int) % 4096,
                0 <= base < 4096,
                forall|a: int|
                    0 <= a < 4096 ==> self.memory@[a] == (if mem_slot(old(self).vi, a) < i {
                        old(self).registers@[mem_slot(old(self).vi, a)]
                    } else {
                        old(self).memory@[a]
                    }),
                self.registers == old(self).registers,
                self.stack == old(self).stack,
                self.stack_pointer == old(self).stack_pointer,
                self.pc == old(self).pc,
                self.vi == old(self).vi,
                self.dt == old(self).dt,
                self.st == old(self).st,
                self.screen == old(self).screen,
                self.keyboard == old(self).keyboard,
                self.waiting_for_input == old(self).waiting_for_input,
            decreases x + 1 - i,
        {
            let addr = (self.vi as usize + i) % 4096;
            proof {
                lemma_wrap_normalize(old(self).vi as int, i as int, 4096);
                lemma_slot_of_wrap(base, i as int, 4096);
                assert(mem_slot(old(self).vi, addr as int) == i as int);
                assert forall|a: int|
                    0 <= a < 4096 && mem_slot(old(self).vi, a) == i as int implies a
                    == addr as int by {
                    lemma_wrap_of_slot(base, a, 4096);
                }
            }
            self.memory[addr] = self.registers[i];
            i = i + 1;
        }
        proof {
            assert(final(self)@.mem =~= store_regs_spec(old(self)@, x).mem);
        }
    }

    fn ld_x_i(&mut self, x: u8)
        requires
            x < 16,
        ensures
            final(self)@ == load_regs_spec(old(self)@, x),
    {
        let mut i: usize = 0;
        while i <= x as usize
            invariant
                x < 16,
                i <= x + 1,
                forall|k: int|
                    0 <= k < i ==> self.registers@[k] == old(self).memory@[mem_idx(
                        old(self).vi,
                        k,
                    )],
                forall|k: int| i <= k < 16 ==> self.registers@[k] == old(self).registers@[k],
                self.memory == old(self).memory,
                self.stack == old(self).stack,
                self.stack_pointer == old(self).stack_pointer,
                self.pc == old(self).pc,
                self.vi == old(self).vi,
                self.dt == old(self).dt,
                self.st == old(self).st,
                self.screen == old(self).screen,
                self.keyboard == old(self).keyboard,
                self.waiting_for_input == old(self).waiting_for_input,
            decreases x + 1 - i,
        {
            let addr = (self.vi as usize + i) % 4096;
            self.registers[i] = self.memory[addr];
            i = i + 1;
        }
        proof {
            assert(final(self)@.regs =~= load_regs_spec(old(self)@, x).regs);
        }
    }
}

} // verus!
