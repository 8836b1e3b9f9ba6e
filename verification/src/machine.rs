use vstd::prelude::*;
use vstd::string::StringExecFns;
use crate::listing::{lemma_listing_next, listing, push_labelled, push_register_list, register_dump};
use crate::opcode::{Instruction, Opcode};
use crate::prng::{rand, xorshift};
use crate::screen::{Render, Screen};
use crate::state::{
    access_fault, advance, block_loaded, block_stored, called, cleared, draw_fault, drawn,
    execute, fault, first_outside, initial, loaded, outcome, plot, push_base, returned,
    row_drawn, rows_on_screen, sprite_drawn, step, told, with_flag, Fault, Outcome, State,
    MEMORY_SIZE, MEMORY_START, SCREEN_MEMORY_START, STACK_MEMORY_END,
};

verus! {

/// The virtual machine: registers, memory, and the rendering backend it draws on.
pub struct Chip8<T> {
    /// 16 8-bit data registers named V0 to VF
    v: [u8; 16],
    /// Memory address register
    i: u16,
    /// Stack pointer
    sp: u16,
    /// Program counter
    pc: u16,
    /// RAM
    memory: [u8; 4096],
    /// amount of memory occupied by rom
    used_memory: usize,
    screen: T,
    /// Seed for a random number generator
    seed: u64,
    /// Log of the requests made of `screen`
    told: Ghost<Seq<Render>>,
}

impl<T: Screen> View for Chip8<T> {
    type V = State;

    closed spec fn view(&self) -> State {
        State {
            v: self.v@,
            i: self.i,
            sp: self.sp,
            pc: self.pc,
            memory: self.memory@,
            used_memory: self.used_memory,
            seed: self.seed,
            rendered: self.told@,
        }
    }
}

/// The address that an out-of-range access starting at `base` is reported with.
fn outside_address(base: usize) -> (address: usize)
    ensures
        address == first_outside(base as int),
{
    if base >= MEMORY_SIZE {
        base
    } else {
        MEMORY_SIZE
    }
}

impl<T: Screen> Chip8<T> {
    /// A machine with all registers and memory zeroed, the program counter at
    /// the start of program space, the stack pointer at the base of the call
    /// stack, and the generator seeded with `seed`.
    pub fn new(screen: T, seed: u64) -> (machine: Chip8<T>)
        ensures
            machine@ == initial(seed),
            machine@.wf(),
            machine.backend() == screen,
    {
        let machine = Chip8 {
            v: [0; 16],
            i: 0,
            sp: STACK_MEMORY_END as u16,
            pc: MEMORY_START as u16,
            memory: [0; 4096],
            used_memory: 0,
            screen: screen,
            seed: seed,
            told: Ghost(Seq::empty()),
        };
        assert(machine.v@ =~= initial(seed).v);
        assert(machine.memory@ =~= initial(seed).memory);
        machine
    }

    /// Copies `rom` to the start of program space and records its length.
    /// A program that does not fit is refused, and the machine is left as it was.
    pub fn load_rom(&mut self, rom: &[u8]) -> (r: Result<(), Fault>)
        ensures
            old(self)@.wf() ==> final(self)@.wf(),
            final(self).backend() == old(self).backend(),
            rom@.len() <= MEMORY_SIZE - MEMORY_START ==> r is Ok && final(self)@ == loaded(
                old(self)@,
                rom@,
            ),
            rom@.len() > MEMORY_SIZE - MEMORY_START ==> r == Err::<(), Fault>(
                Fault::OutOfRange { address: MEMORY_SIZE },
            ) && final(self)@ == old(self)@,
    {
        let len: usize = rom.len();
        if len > MEMORY_SIZE - MEMORY_START {
            return Err(Fault::OutOfRange { address: MEMORY_SIZE });
        }
        let ghost before = self@;
        let mut k: usize = 0;
        while k < len
            invariant
                k <= len,
                len == rom@.len(),
                len <= MEMORY_SIZE - MEMORY_START,
                self@ == (State { memory: self@.memory, ..before }),
                self.backend() == old(self).backend(),
                forall|j: int|
                    0 <= j < MEMORY_SIZE ==> self@.memory[j] == (if MEMORY_START <= j
                        < MEMORY_START + k {
                        rom@[j - MEMORY_START]
                    } else {
                        before.memory[j]
                    }),
            decreases len - k,
        {
            self.memory[MEMORY_START + k] = rom[k];
            k += 1;
        }
        self.used_memory = len;
        assert(self@.memory =~= loaded(before, rom@).memory);
        Ok(())
    }

    /// The sixteen general registers.
    pub fn registers(&self) -> (v: &[u8; 16])
        ensures
            v@ == self@.v,
    {
        &self.v
    }

    /// The address register.
    pub fn address_register(&self) -> (i: u16)
        ensures
            i == self@.i,
    {
        self.i
    }

    /// The stack pointer.
    pub fn stack_pointer(&self) -> (sp: u16)
        ensures
            sp == self@.sp,
    {
        self.sp
    }

    /// The program counter.
    pub fn program_counter(&self) -> (pc: u16)
        ensures
            pc == self@.pc,
    {
        self.pc
    }

    /// The whole memory, framebuffer included.
    pub fn memory(&self) -> (memory: &[u8; 4096])
        ensures
            memory@ == self@.memory,
    {
        &self.memory
    }

    /// Length of the loaded program.
    pub fn used_memory(&self) -> (len: usize)
        ensures
            len == self@.used_memory,
    {
        self.used_memory
    }

    /// The rendering backend that the machine draws on: the one it was built
    /// with, as the requests made of it since have left it.
    pub fn screen(&self) -> (screen: &T)
        ensures
            *screen == self.backend(),
    {
        &self.screen
    }

    /// The rendering backend held by the machine. It is no part of the
    /// machine's state: only the requests made of it are, as `rendered`.
    pub closed spec fn backend(&self) -> T {
        self.screen
    }

    /// Dump all Chip8 registers, but not memory
    pub fn dump_registers(&self) -> (text: String)
        ensures
            text@ == register_dump(self@),
    {
        let mut text = String::from_str("REGISTERS:\nV = [");
        push_register_list(&mut text, &self.v);
        push_labelled(&mut text, "]\nI  = ", self.i);
        push_labelled(&mut text, "\nSP = ", self.sp);
        push_labelled(&mut text, "\nPC = ", self.pc);
        text.append("\n");
        text
    }

    /// The listing of the loaded program, one line for every two bytes; a
    /// program of odd length is listed with the byte that follows it.
    pub fn dump_memory(&self) -> (text: String)
        requires
            self@.wf(),
        ensures
            text@ == listing(self@.memory, (self@.used_memory + 1) / 2),
    {
        let mut pc: usize = MEMORY_START;
        let mut memory_end: usize = MEMORY_START + self.used_memory;
        // ensure that we are 2 bytes aligned
        if memory_end % 2 != 0 {
            memory_end += 1;
        }
        let mut text = String::new();
        let ghost mut count: int = 0;
        while pc < memory_end
            invariant
                count >= 0,
                pc == MEMORY_START + 2 * count,
                pc <= memory_end <= MEMORY_SIZE,
                memory_end % 2 == 0,
                text@ == listing(self@.memory, count),
            decreases memory_end - pc,
        {
            let opcode = Opcode(self.memory[pc], self.memory[pc + 1]);
            let line = opcode.disassemble(pc as u16);
            text.append(line.as_str());
            pc += 2;
            proof {
                lemma_listing_next(self@.memory, count);
                count = count + 1;
            }
        }
        text
    }

    /// Makes one request of the backend and enters it in the log. Every
    /// request that the machine makes goes through here.
    fn tell(&mut self, request: Render)
        requires
            request.on_screen(),
        ensures
            final(self)@ == told(old(self)@, request),
    {
        match request {
            Render::Clear => self.screen.clear(),
            Render::DrawPx { x, y } => self.screen.draw_px(x, y),
            Render::ClearPx { x, y } => self.screen.clear_px(x, y),
            Render::Present => self.screen.present(),
        }
        self.told = Ghost(self.told@.push(request));
    }

    fn inc_pc(&mut self)
        requires
            old(self)@.pc + 2 <= u16::MAX,
        ensures
            final(self)@ == advance(old(self)@),
    {
        self.pc += 2;
    }

    /// Clears the screen
    pub fn op_disp_clear(&mut self)
        ensures
            final(self)@ == cleared(old(self)@),
            old(self)@.wf() ==> final(self)@.wf(),
    {
        let ghost before = self@;
        let mut k: usize = SCREEN_MEMORY_START;
        while k < MEMORY_SIZE
            invariant
                SCREEN_MEMORY_START <= k <= MEMORY_SIZE,
                self@ == (State { memory: self@.memory, ..before }),
                forall|j: int|
                    0 <= j < MEMORY_SIZE ==> self@.memory[j] == (if SCREEN_MEMORY_START <= j < k {
                        0u8
                    } else {
                        before.memory[j]
                    }),
            decreases MEMORY_SIZE - k,
        {
            self.memory[k] = 0;
            k += 1;
        }
        assert(self@.memory =~= cleared(before).memory);
        self.tell(Render::Clear);
        self.tell(Render::Present);
    }

    /// Toggles the pixel at `(cx, cy)` in the framebuffer, raises the flag
    /// if it was lit, and tells the backend what the pixel has become.
    fn toggle_px(&mut self, cx: usize, cy: usize)
        requires
            cx < 64,
            cy < 32,
        ensures
            final(self)@ == plot(old(self)@, cx as int, cy as int),
    {
        // Determine the address of the affected byte on the screen
        let idx: usize = SCREEN_MEMORY_START + cy * 8 + cx / 8;
        // Determine the affected bit in the byte
        let mask: u8 = 1u8 << ((cx % 8) as u8);
        let lit: bool = self.memory[idx] & mask != 0;
        if lit {
            self.v[0xf] = 1;
        }
        self.memory[idx] ^= mask;
        if lit {
            self.tell(Render::ClearPx { x: cx as i32, y: cy as i32 });
        } else {
            self.tell(Render::DrawPx { x: cx as i32, y: cy as i32 });
        }
    }

    /// Draw the sprite of `len` rows found at the address register, with its
    /// upper left corner at `(x, y)`. Rows are eight pixels wide, the most
    /// significant bit leftmost. Set pixels toggle the screen; the flag
    /// register becomes 1 when a lit pixel is turned off and is left alone
    /// otherwise. Drawing stops at the bottom edge, and pixels beyond the
    /// right edge are skipped.
    pub fn op_draw(&mut self, x: usize, y: usize, len: u8) -> (r: Result<(), Fault>)
        ensures
            match draw_fault(old(self)@, y as int, len as int) {
                Some(f) => r == Err::<(), Fault>(f) && final(self)@ == old(self)@,
                None => r is Ok && final(self)@ == drawn(old(self)@, x as int, y as int, len as int),
            },
            final(self)@.used_memory == old(self)@.used_memory,
            final(self)@.pc == old(self)@.pc,
            old(self)@.wf() ==> final(self)@.wf(),
    {
        let rows: usize = if y >= 32 {
            0
        } else if len as usize > 32 - y {
            32 - y
        } else {
            len as usize
        };
        if rows > 0 && self.i as usize + rows > MEMORY_SIZE {
            return Err(Fault::OutOfRange { address: outside_address(self.i as usize) });
        }
        let ghost before = self@;
        let mut r: usize = 0;
        while r < rows
            invariant
                r <= rows,
                rows == rows_on_screen(y as int, len as int),
                rows > 0 ==> before.i + rows <= MEMORY_SIZE,
                self@ == sprite_drawn(before, x as int, y as int, r as int),
                self@.i == before.i,
                self@.used_memory == before.used_memory,
                self@.pc == before.pc,
            decreases rows - r,
        {
            let cy: usize = y + r;
            let sprite_line: u8 = self.memory[self.i as usize + r];
            let ghost row_start = self@;
            let mut b: u8 = 0;
            while b < 8
                invariant
                    b <= 8,
                    cy < 32,
                    self@ == row_drawn(row_start, x as int, cy as int, sprite_line, b as int),
                    self@.i == row_start.i,
                    self@.used_memory == row_start.used_memory,
                    self@.pc == row_start.pc,
                decreases 8 - b,
            {
                if sprite_line & (0x80u8 >> b) != 0 && x < 64 && x + (b as usize) < 64 {
                    self.toggle_px(x + b as usize, cy);
                }
                b += 1;
            }
            r += 1;
        }
        self.tell(Render::Present);
        Ok(())
    }

    fn rand_gen(&mut self) -> (number: u64)
        ensures
            number == xorshift(old(self)@.seed),
            final(self)@ == (State { seed: number, ..old(self)@ }),
    {
        let number: u64 = rand(self.seed);
        self.seed = number;
        number
    }

    /// Pops the return address into the program counter.
    fn op_return(&mut self) -> (r: Result<(), Fault>)
        ensures
            match access_fault(old(self)@.sp as int, 2) {
                Some(f) => r == Err::<(), Fault>(f) && final(self)@ == old(self)@,
                None => r is Ok && final(self)@ == returned(old(self)@),
            },
    {
        let sp: usize = self.sp as usize;
        if sp + 2 > MEMORY_SIZE {
            return Err(Fault::OutOfRange { address: outside_address(sp) });
        }
        let hi: u16 = self.memory[sp] as u16;
        let lo: u16 = self.memory[sp + 1] as u16;
        // restore pc from the stack memory
        self.pc = hi * 256 + lo;
        // increase stack size back
        self.sp += 2;
        Ok(())
    }

    /// Pushes the address of the following instruction and jumps to `target`.
    fn op_call(&mut self, target: u16) -> (r: Result<(), Fault>)
        requires
            old(self)@.pc + 2 <= MEMORY_SIZE,
        ensures
            match access_fault(push_base(old(self)@.sp), 2) {
                Some(f) => r == Err::<(), Fault>(f) && final(self)@ == old(self)@,
                None => r is Ok && final(self)@ == called(old(self)@, target),
            },
    {
        let base: usize = if self.sp >= 2 {
            (self.sp - 2) as usize
        } else {
            self.sp as usize + 0x1_0000 - 2
        };
        if base + 2 > MEMORY_SIZE {
            return Err(Fault::OutOfRange { address: outside_address(base) });
        }
        let next: u16 = self.pc + 2;
        // store the address of the next instruction on the stack
        self.sp -= 2;
        self.memory[base] = (next / 256) as u8;
        self.memory[base + 1] = (next % 256) as u8;
        self.pc = target;
        Ok(())
    }

    /// Stores V0 to VX (including VX) in memory starting at address I,
    /// then moves I past the block.
    fn op_store(&mut self, x: usize) -> (r: Result<(), Fault>)
        requires
            x < 16,
        ensures
            match access_fault(old(self)@.i as int, x + 1) {
                Some(f) => r == Err::<(), Fault>(f) && final(self)@ == old(self)@,
                None => r is Ok && final(self)@ == block_stored(old(self)@, x as int),
            },
    {
        let base: usize = self.i as usize;
        if base + x + 1 > MEMORY_SIZE {
            return Err(Fault::OutOfRange { address: outside_address(base) });
        }
        let ghost before = self@;
        let mut k: usize = 0;
        while k <= x
            invariant
                k <= x + 1,
                x < 16,
                base == before.i,
                base + x + 1 <= MEMORY_SIZE,
                self@ == (State { memory: self@.memory, ..before }),
                forall|j: int|
                    0 <= j < MEMORY_SIZE ==> self@.memory[j] == (if base <= j < base + k {
                        before.v[j - base]
                    } else {
                        before.memory[j]
                    }),
            decreases x + 1 - k,
        {
            self.memory[base + k] = self.v[k];
            k += 1;
        }
        self.i += x as u16 + 1;
        assert(self@.memory =~= block_stored(before, x as int).memory);
        Ok(())
    }

    /// Fills V0 to VX (including VX) with values from memory starting at
    /// address I, then moves I past the block.
    fn op_load(&mut self, x: usize) -> (r: Result<(), Fault>)
        requires
            x < 16,
        ensures
            match access_fault(old(self)@.i as int, x + 1) {
                Some(f) => r == Err::<(), Fault>(f) && final(self)@ == old(self)@,
                None => r is Ok && final(self)@ == block_loaded(old(self)@, x as int),
            },
    {
        let base: usize = self.i as usize;
        if base + x + 1 > MEMORY_SIZE {
            return Err(Fault::OutOfRange { address: outside_address(base) });
        }
        let ghost before = self@;
        let mut k: usize = 0;
        while k <= x
            invariant
                k <= x + 1,
                x < 16,
                base == before.i,
                base + x + 1 <= MEMORY_SIZE,
                self@ == (State { v: self@.v, ..before }),
                forall|j: int|
                    0 <= j < 16 ==> self@.v[j] == (if j < k {
                        before.memory[base + j]
                    } else {
                        before.v[j]
                    }),
            decreases x + 1 - k,
        {
            self.v[k] = self.memory[base + k];
            k += 1;
        }
        self.i += x as u16 + 1;
        assert(self@.v =~= block_loaded(before, x as int).v);
        Ok(())
    }

    /// Register `x` receives `value`, then the flag register receives `flag`.
    fn set_with_flag(&mut self, x: usize, value: u8, flag: u8)
        requires
            x < 16,
        ensures
            final(self)@ == with_flag(old(self)@, x as int, value, flag),
    {
        self.v[x] = value;
        self.v[0xf] = flag;
    }

    /// Executes a decoded instruction that the machine does not refuse, up to
    /// but not including the move of the program counter to the following
    /// instruction.
    fn apply(&mut self, ins: Instruction) -> (r: Result<bool, Fault>)
        requires
            ins.wf(),
            old(self)@.pc + 2 <= MEMORY_SIZE,
        ensures
            final(self)@.used_memory == old(self)@.used_memory,
            match fault(old(self)@, ins) {
                Some(f) => r == Err::<bool, Fault>(f) && final(self)@ == old(self)@,
                None => match r {
                    Ok(jumped) => if jumped {
                        final(self)@ == execute(old(self)@, ins)
                    } else {
                        advance(final(self)@) == execute(old(self)@, ins) && final(self)@.pc
                            <= MEMORY_SIZE
                    },
                    Err(_) => false,
                },
            },
    {
        match ins {
            Instruction::ClearDisplay => {
                self.op_disp_clear();
            },
            Instruction::Return => {
                return match self.op_return() {
                    Ok(()) => Ok(true),
                    Err(f) => Err(f),
                };
            },
            Instruction::Jump { target } => {
                self.pc = target;
                return Ok(true);
            },
            Instruction::Call { target } => {
                return match self.op_call(target) {
                    Ok(()) => Ok(true),
                    Err(f) => Err(f),
                };
            },
            Instruction::SkipEqImm { x, nn } => {
                if self.v[x] == nn {
                    self.inc_pc();
                }
            },
            Instruction::SkipNeImm { x, nn } => {
                if self.v[x] != nn {
                    self.inc_pc();
                }
            },
            Instruction::SkipEqReg { x, y } => {
                if self.v[x] == self.v[y] {
                    self.inc_pc();
                }
            },
            Instruction::LoadImm { x, nn } => {
                self.v[x] = nn;
            },
            Instruction::AddImm { x, nn } => {
                self.v[x] = self.v[x].wrapping_add(nn);
            },
            Instruction::Assign { x, y } => {
                self.v[x] = self.v[y];
            },
            Instruction::Or { x, y } => {
                self.v[x] = self.v[x] | self.v[y];
            },
            Instruction::And { x, y } => {
                self.v[x] = self.v[x] & self.v[y];
            },
            Instruction::Xor { x, y } => {
                self.v[x] = self.v[x] ^ self.v[y];
            },
            Instruction::AddCarry { x, y } => {
                let a: u8 = self.v[x];
                let b: u8 = self.v[y];
                let carry: u8 = if b > u8::MAX - a {
                    1
                } else {
                    0
                };
                self.set_with_flag(x, a.wrapping_add(b), carry);
            },
            Instruction::SubBorrow { x, y } => {
                let a: u8 = self.v[x];
                let b: u8 = self.v[y];
                let flag: u8 = if a < b {
                    0
                } else {
                    1
                };
                self.set_with_flag(x, a.wrapping_sub(b), flag);
            },
            Instruction::ShiftRight { x } => {
                let a: u8 = self.v[x];
                assert(a >> 1 == a / 2 && a & 1 == a % 2) by (bit_vector);
                self.set_with_flag(x, a >> 1, a & 0x1);
            },
            Instruction::ReverseSub { x, y } => {
                let a: u8 = self.v[x];
                let b: u8 = self.v[y];
                let flag: u8 = if b < a {
                    0
                } else {
                    1
                };
                self.set_with_flag(x, b.wrapping_sub(a), flag);
            },
            Instruction::ShiftLeft { x } => {
                let a: u8 = self.v[x];
                assert(a << 1 == (a * 2) % 256 && a >> 7 == a / 128) by (bit_vector);
                self.set_with_flag(x, a << 1, a >> 7);
            },
            Instruction::SetAddress { target } => {
                self.i = target;
            },
            Instruction::Random { x, nn } => {
                let number: u64 = self.rand_gen();
                self.v[x] = (#[verifier::truncate] (number as u8)) & nn;
            },
            Instruction::Draw { x, y, rows } => {
                let px: usize = self.v[x] as usize;
                let py: usize = self.v[y] as usize;
                match self.op_draw(px, py, rows) {
                    Ok(()) => {},
                    Err(f) => {
                        return Err(f);
                    },
                }
            },
            Instruction::AddAddress { x } => {
                self.i = self.i.wrapping_add(self.v[x] as u16);
            },
            Instruction::StoreBlock { x } => {
                match self.op_store(x) {
                    Ok(()) => {},
                    Err(f) => {
                        return Err(f);
                    },
                }
            },
            Instruction::LoadBlock { x } => {
                match self.op_load(x) {
                    Ok(()) => {},
                    Err(f) => {
                        return Err(f);
                    },
                }
            },
            Instruction::Unknown { hi, lo } => {
                return Err(Fault::Unimplemented { pc: self.pc, hi, lo });
            },
        }
        Ok(false)
    }

    /// Fetches, decodes and executes the instruction at the program counter.
    ///
    /// A jump to its own address halts: the machine reports it and stays as
    /// it is. A fault leaves the machine as it was before the call.
    pub fn emulate_op(&mut self) -> (r: Result<Outcome, Fault>)
        ensures
            r == outcome(old(self)@),
            final(self)@ == step(old(self)@),
            old(self)@.wf() ==> final(self)@.wf(),
    {
        let pc: usize = self.pc as usize;
        if pc + 2 > MEMORY_SIZE {
            return Err(Fault::OutOfRange { address: outside_address(pc) });
        }
        let opcode = Opcode(self.memory[pc], self.memory[pc + 1]);
        let ins = opcode.decode();
        match ins {
            Instruction::Jump { target } => {
                if target == self.pc {
                    return Ok(Outcome::Halt);
                }
            },
            _ => {},
        }
        match self.apply(ins) {
            Ok(jumped) => {
                // a jump changes the program counter by itself; any other
                // instruction moves forward to the next one
                if !jumped {
                    self.inc_pc();
                }
                Ok(Outcome::Next)
            },
            Err(f) => Err(f),
        }
    }
}

} // verus!
