use crate::error::InstructionError;
use crate::instruction::Instruction;
use crate::rng::EntropySource;
use crate::state::{first_pressed, first_pressed_from, MachineState};
use vstd::prelude::*;

verus! {

/// Bytes of addressable memory.
pub const MEMORY_SIZE: usize = 4096;

/// General-purpose registers, `V0` to `VF`.
pub const NUM_REGISTERS: usize = 16;

/// Return addresses the call stack can hold.
pub const STACK_SIZE: usize = 16;

/// Where execution starts.
pub const PROGRAM_START: u16 = 0x200;

/// Where a program image is loaded.
pub const ROM_START: usize = 512;

/// Where the glyph table is loaded.
pub const FONTSET_START: usize = 0;

/// Bytes in the glyph table: 16 glyphs of 5 rows each.
pub const FONTSET_SIZE: usize = 80;

/// Bytes in one glyph, a row to a byte.
pub const GLYPH_SIZE: usize = 5;

/// Keys on the keypad.
pub const KEYPAD_SIZE: usize = 16;

/// Screen width in pixels.
pub const SCREEN_WIDTH: usize = 64;

/// Screen height in pixels.
pub const SCREEN_HEIGHT: usize = 32;

/// Pixels on the screen.
pub const SCREEN_SIZE: usize = 2048;

/// The built-in glyphs for the hexadecimal digits `0` to `F`. Each row is one
/// byte, of which only the high four bits are used.
pub const FONTSET: [u8; FONTSET_SIZE] = [
    0xF0, 0x90, 0x90, 0x90, 0xF0,
    0x20, 0x60, 0x20, 0x20, 0x70,
    0xF0, 0x10, 0xF0, 0x80, 0xF0,
    0xF0, 0x10, 0xF0, 0x10, 0xF0,
    0x90, 0x90, 0xF0, 0x10, 0x10,
    0xF0, 0x80, 0xF0, 0x10, 0xF0,
    0xF0, 0x80, 0xF0, 0x90, 0xF0,
    0xF0, 0x10, 0x20, 0x40, 0x40,
    0xF0, 0x90, 0xF0, 0x90, 0xF0,
    0xF0, 0x90, 0xF0, 0x10, 0xF0,
    0xF0, 0x90, 0xF0, 0x90, 0x90,
    0xE0, 0x90, 0xE0, 0x90, 0xE0,
    0xF0, 0x80, 0x80, 0x80, 0xF0,
    0xE0, 0x90, 0x90, 0x90, 0xE0,
    0xF0, 0x80, 0xF0, 0x80, 0xF0,
    0xF0, 0x80, 0xF0, 0x80, 0x80,
];

/// The CHIP-8 virtual machine: memory, registers, timers, call stack, keypad
/// and screen, around the entropy source `R` that feeds the random-byte
/// instruction.
pub struct Chip8<R: EntropySource> {
    /// Addressable memory: the glyph table at the bottom, the program from
    /// [`ROM_START`] on.
    pub memory: [u8; MEMORY_SIZE],
    /// Address of the next opcode to fetch.
    pub pc: u16,
    /// The registers `V0` to `VF`; `VF` doubles as the flag register.
    pub v_reg: [u8; NUM_REGISTERS],
    /// The index register `I`, which addresses memory for sprites and for
    /// the memory instructions.
    pub i_reg: u16,
    /// Counts down on [`Chip8::tick_timer`].
    pub delay_timer: u8,
    /// Counts down on [`Chip8::tick_timer`]; the host sounds a tone while it
    /// is not zero.
    pub sound_timer: u8,
    /// Return addresses of the calls in progress, oldest first.
    pub stack: [u16; STACK_SIZE],
    /// How many return addresses the stack holds.
    pub stack_pointer: u16,
    /// Which keys are pressed.
    pub keypad: [bool; KEYPAD_SIZE],
    /// The pixels, row by row from the top: the cell of column `x` and row
    /// `y` is number `x + 64 * y`.
    pub screen: [bool; SCREEN_SIZE],
    /// Set whenever the screen is drawn to or cleared; the host clears it
    /// once it has shown the frame.
    pub draw_flag: bool,
    /// Where the random-byte instruction draws from.
    pub rng: R,
    /// The key that the last completed key wait took.
    pub wait_for_key_release: Option<usize>,
}

impl<R: EntropySource> View for Chip8<R> {
    type V = MachineState<R>;

    open spec fn view(&self) -> MachineState<R> {
        MachineState {
            memory: self.memory@,
            pc: self.pc,
            v_reg: self.v_reg@,
            i_reg: self.i_reg,
            delay_timer: self.delay_timer,
            sound_timer: self.sound_timer,
            stack: self.stack@,
            stack_pointer: self.stack_pointer,
            keypad: self.keypad@,
            screen: self.screen@,
            draw_flag: self.draw_flag,
            rng: self.rng,
            wait_for_key_release: self.wait_for_key_release,
        }
    }
}

/// Whether a draw that works through the screen row by row, and through each
/// row from the left, has dealt with `cell` by the time it stands at `column`
/// of `row`.
spec fn drawn_before(cell: int, row: int, column: int) -> bool {
    let width = SCREEN_WIDTH as int;
    cell / width < row || (cell / width == row && cell % width < column)
}

/// Wrapping addition of bytes is addition modulo 256.
proof fn lemma_wrapping_add_u8(a: u8, b: u8)
    ensures
        a.wrapping_add(b) == ((a + b) % 0x100) as u8,
{
}

/// Wrapping subtraction of bytes is subtraction modulo 256.
proof fn lemma_wrapping_sub_u8(a: u8, b: u8)
    ensures
        a.wrapping_sub(b) == ((a - b) % 0x100) as u8,
{
}

/// Wrapping addition of 16-bit words is addition modulo 65536.
proof fn lemma_wrapping_add_u16(a: u16, b: u16)
    ensures
        a.wrapping_add(b) == ((a + b) % 0x10000) as u16,
{
}

/// Whether a skip on `taken` from `pc` keeps the program counter in its 16
/// bits.
fn can_skip_from(pc: u16, taken: bool) -> (ok: bool)
    ensures
        ok == (taken ==> pc + 2 <= u16::MAX),
{
    !taken || pc <= u16::MAX - 2
}

impl<R: EntropySource> Chip8<R> {
    /// The view of a machine has every part at its size.
    pub proof fn lemma_view_well_formed(self)
        ensures
            self@.well_formed(),
    {
    }

    /// Builds a machine around `rng`, with empty memory: the glyph table and
    /// the program are loaded separately.
    pub fn new(rng: R) -> (out: Self)
        ensures
            out@ == MachineState::initial(rng),
    {
        let out = Self {
            memory: [0; MEMORY_SIZE],
            pc: PROGRAM_START,
            v_reg: [0; NUM_REGISTERS],
            i_reg: 0,
            delay_timer: 0,
            sound_timer: 0,
            stack: [0; STACK_SIZE],
            stack_pointer: 0,
            keypad: [false; KEYPAD_SIZE],
            screen: [false; SCREEN_SIZE],
            draw_flag: false,
            rng,
            wait_for_key_release: None,
        };
        out
    }

    /// Copies the glyph table to the bottom of memory.
    pub fn load_fontset(&mut self)
        ensures
            final(self)@ == old(self)@.with_font(),
    {
        let mut at: usize = 0;
        while at < FONTSET_SIZE
            invariant
                at <= FONTSET_SIZE,
                forall|a: int| 0 <= a < at ==> self.memory@[a] == FONTSET@[a],
                forall|a: int| at <= a < MEMORY_SIZE ==> self.memory@[a] == old(self).memory@[a],
                self@ == (MachineState { memory: self.memory@, ..old(self)@ }),
            decreases FONTSET_SIZE - at,
        {
            self.memory[at] = FONTSET[at];
            at += 1;
        }
    }

    /// Copies a program image into memory from the program's entry point on.
    /// The image must fit below the top of memory.
    pub fn load_rom(&mut self, buf: &[u8])
        requires
            ROM_START + buf@.len() <= MEMORY_SIZE,
        ensures
            final(self)@ == old(self)@.with_program(buf@),
    {
        let mut at: usize = 0;
        while at < buf.len()
            invariant
                at <= buf@.len(),
                ROM_START + buf@.len() <= MEMORY_SIZE,
                forall|a: int|
                    ROM_START <= a < ROM_START + at ==> self.memory@[a] == buf@[a - ROM_START],
                forall|a: int|
                    0 <= a < MEMORY_SIZE && !(ROM_START <= a < ROM_START + at) ==> self.memory@[a]
                        == old(self).memory@[a],
                self@ == (MachineState { memory: self.memory@, ..old(self)@ }),
            decreases buf@.len() - at,
        {
            self.memory[ROM_START + at] = buf[at];
            at += 1;
        }
    }

    /// Runs one cycle: fetches the opcode at the program counter, decodes it
    /// and executes the instruction. An opcode that does not decode is
    /// reported, with the program counter already past it and nothing else
    /// changed.
    pub fn tick(&mut self) -> (out: Result<(), InstructionError>)
        requires
            old(self)@.can_step(),
        ensures
            final(self)@ == old(self)@.step(),
            out == old(self)@.step_result(),
    {
        let opcode = self.fetch_opcode();
        let instruction = Instruction::try_from(opcode)?;
        self.execute_instruction(&instruction);
        Ok(())
    }

    /// Counts both timers down by one; a timer at zero stays at zero.
    pub fn tick_timer(&mut self)
        ensures
            final(self)@ == old(self)@.tick_timer(),
    {
        self.delay_timer = self.delay_timer.saturating_sub(1);
        self.sound_timer = self.sound_timer.saturating_sub(1);
    }

    /// Records that key `idx` is pressed or released.
    pub fn keypress(&mut self, idx: usize, pressed: bool)
        requires
            idx < KEYPAD_SIZE,
        ensures
            final(self)@ == old(self)@.with_key(idx as int, pressed),
    {
        self.keypad[idx] = pressed;
    }

    /// Reads the big-endian opcode at the program counter and moves the
    /// program counter past it.
    pub fn fetch_opcode(&mut self) -> (opcode: u16)
        requires
            old(self)@.can_fetch(),
        ensures
            opcode == old(self)@.opcode(),
            final(self)@ == old(self)@.after_fetch(),
    {
        let opcode = self.peek_opcode();
        self.pc += 2;
        opcode
    }

    /// Reads the big-endian opcode at the program counter.
    fn peek_opcode(&self) -> (opcode: u16)
        requires
            self@.can_fetch(),
        ensures
            opcode == self@.opcode(),
    {
        let high_byte: u8 = self.memory[self.pc as usize];
        let low_byte: u8 = self.memory[self.pc as usize + 1];
        assert((high_byte as u16) << 8 | (low_byte as u16) == 0x100 * high_byte + low_byte)
            by (bit_vector);
        ((high_byte as u16) << 8) | (low_byte as u16)
    }

    /// Whether [`Chip8::tick`] can run a cycle from here: the opcode at the
    /// program counter can be read, and the instruction it decodes to, if
    /// any, can be executed.
    pub fn can_tick(&self) -> (ok: bool)
        ensures
            ok == self@.can_step(),
    {
        if self.pc as usize + 1 >= MEMORY_SIZE {
            return false;
        }
        match Instruction::try_from(self.peek_opcode()) {
            Ok(instruction) => {
                self.can_execute_from(self.pc + 2, &instruction)
            },
            Err(_) => true,
        }
    }

    /// Whether [`Chip8::execute_instruction`] can execute `instruction` from
    /// here.
    pub fn can_execute(&self, instruction: &Instruction) -> (ok: bool)
        ensures
            ok == self@.can_execute(*instruction),
    {
        self.can_execute_from(self.pc, instruction)
    }

    /// Whether `instruction` could be executed if the program counter stood
    /// at `pc`.
    fn can_execute_from(&self, pc: u16, instruction: &Instruction) -> (ok: bool)
        ensures
            ok == (MachineState { pc, ..self@ }).can_execute(*instruction),
    {
        match *instruction {
            Instruction::Ins00E0 | Instruction::Ins1NNN(_) | Instruction::InsANNN(_) => true,
            Instruction::Ins00EE => 1 <= self.stack_pointer && self.stack_pointer as usize
                <= STACK_SIZE,
            Instruction::Ins2NNN(_) => (self.stack_pointer as usize) < STACK_SIZE,
            Instruction::Ins3XNN(x, nn) => (x as usize) < NUM_REGISTERS && can_skip_from(
                pc,
                self.v_reg[x as usize] == nn,
            ),
            Instruction::Ins4XNN(x, nn) => (x as usize) < NUM_REGISTERS && can_skip_from(
                pc,
                self.v_reg[x as usize] != nn,
            ),
            Instruction::Ins5XY0(x, y) => (x as usize) < NUM_REGISTERS && (y as usize)
                < NUM_REGISTERS && can_skip_from(
                pc,
                self.v_reg[x as usize] == self.v_reg[y as usize],
            ),
            Instruction::Ins9XY0(x, y) => (x as usize) < NUM_REGISTERS && (y as usize)
                < NUM_REGISTERS && can_skip_from(
                pc,
                self.v_reg[x as usize] != self.v_reg[y as usize],
            ),
            Instruction::Ins6XNN(x, _)
            | Instruction::Ins7XNN(x, _)
            | Instruction::InsCXNN(x, _)
            | Instruction::InsFX07(x)
            | Instruction::InsFX15(x)
            | Instruction::InsFX18(x)
            | Instruction::InsFX1E(x)
            | Instruction::InsFX29(x) => (x as usize) < NUM_REGISTERS,
            Instruction::Ins8XY0(x, y)
            | Instruction::Ins8XY1(x, y)
            | Instruction::Ins8XY2(x, y)
            | Instruction::Ins8XY3(x, y)
            | Instruction::Ins8XY4(x, y)
            | Instruction::Ins8XY5(x, y)
            | Instruction::Ins8XY6(x, y)
            | Instruction::Ins8XY7(x, y)
            | Instruction::Ins8XYE(x, y) => (x as usize) < NUM_REGISTERS && (y as usize)
                < NUM_REGISTERS,
            Instruction::InsBNNN(nnn) => nnn <= u16::MAX - self.v_reg[0] as u16,
            Instruction::InsDXYN(x, y, n) => {
                if (x as usize) < NUM_REGISTERS && (y as usize) < NUM_REGISTERS {
                    let top: usize = self.v_reg[y as usize] as usize % SCREEN_HEIGHT;
                    let rows: usize = if top + n as usize <= SCREEN_HEIGHT {
                        n as usize
                    } else {
                        SCREEN_HEIGHT - top
                    };
                    n == 0 || self.i_reg as usize + rows <= MEMORY_SIZE
                } else {
                    false
                }
            },
            Instruction::InsEX9E(x) => (x as usize) < NUM_REGISTERS
                && (self.v_reg[x as usize] as usize) < KEYPAD_SIZE && can_skip_from(
                pc,
                self.keypad[self.v_reg[x as usize] as usize],
            ),
            Instruction::InsEXA1(x) => (x as usize) < NUM_REGISTERS
                && (self.v_reg[x as usize] as usize) < KEYPAD_SIZE && can_skip_from(
                pc,
                !self.keypad[self.v_reg[x as usize] as usize],
            ),
            Instruction::InsFX0A(x) => match self.first_pressed_key() {
                Some(_) => (x as usize) < NUM_REGISTERS,
                None => pc >= 2,
            },
            Instruction::InsFX33(x) => (x as usize) < NUM_REGISTERS && self.i_reg as usize + 2
                < MEMORY_SIZE,
            Instruction::InsFX55(x) | Instruction::InsFX65(x) => (x as usize) < NUM_REGISTERS
                && self.i_reg as usize + (x as usize) < MEMORY_SIZE,
        }
    }

    /// The lowest-numbered pressed key, if any key is pressed.
    fn first_pressed_key(&self) -> (out: Option<usize>)
        ensures
            match out {
                Some(key) => first_pressed(self.keypad@) == Some(key as int),
                None => first_pressed(self.keypad@) is None,
            },
    {
        let mut key: usize = 0;
        while key < KEYPAD_SIZE
            invariant
                key <= KEYPAD_SIZE,
                first_pressed(self.keypad@) == first_pressed_from(self.keypad@, key as int),
            decreases KEYPAD_SIZE - key,
        {
            if self.keypad[key] {
                return Some(key);
            }
            key += 1;
        }
        None
    }

    /// The screen, row by row from the top, 64 pixels to a row.
    pub fn get_display(&self) -> (out: &[bool])
        ensures
            out@ == self@.screen,
            out@.len() == SCREEN_SIZE,
    {
        &self.screen
    }

    /// Puts the machine back as it was when built, with the glyph table
    /// loaded. A program must be loaded anew; the entropy source carries on
    /// from where it stands.
    pub fn reset(&mut self)
        ensures
            final(self)@ == old(self)@.reset(),
    {
        self.pc = PROGRAM_START;
        self.memory = [0; MEMORY_SIZE];
        self.screen = [false; SCREEN_SIZE];
        self.v_reg = [0; NUM_REGISTERS];
        self.i_reg = 0;
        self.stack_pointer = 0;
        self.stack = [0; STACK_SIZE];
        self.keypad = [false; KEYPAD_SIZE];
        self.delay_timer = 0;
        self.sound_timer = 0;
        self.draw_flag = false;
        self.wait_for_key_release = None;
        self.load_fontset();
    }

    /// Moves the program counter past one more instruction if `taken` holds.
    fn skip_if(&mut self, taken: bool)
        requires
            old(self)@.can_skip_if(taken),
        ensures
            final(self)@ == old(self)@.skip_if(taken),
    {
        if taken {
            self.pc += 2;
        }
    }

    /// Sets register `x`.
    fn set_register(&mut self, x: u8, value: u8)
        requires
            x < NUM_REGISTERS,
        ensures
            final(self)@ == old(self)@.with_register(x, value),
    {
        self.v_reg[x as usize] = value;
    }

    /// Sets register `x`, then the flag register: where `x` names the flag
    /// register itself, the flag is what stays.
    fn set_register_and_flag(&mut self, x: u8, value: u8, flag: u8)
        requires
            x < NUM_REGISTERS,
        ensures
            final(self)@ == old(self)@.with_register(x, value).with_flag(flag),
    {
        self.v_reg[x as usize] = value;
        self.v_reg[0xF] = flag;
    }

    /// Stores the lowest pressed key in register `x` and latches it, or, with
    /// no key pressed, steps the program counter back onto the instruction.
    fn wait_for_key(&mut self, x: u8)
        requires
            old(self)@.can_execute(Instruction::InsFX0A(x)),
        ensures
            final(self)@ == old(self)@.wait_for_key(x),
    {
        match self.first_pressed_key() {
            Some(key) => {
                self.wait_for_key_release = Some(key);
                self.v_reg[x as usize] = key as u8;
            },
            None => {
                self.pc -= 2;
            },
        }
    }

    /// Draws the `n`-row sprite found in memory at `I` to the screen at
    /// `(VX, VY)`: each lit sprite pixel flips its screen cell, and the flag
    /// register reports whether any cell was switched off by it.
    fn draw_sprite(&mut self, x: u8, y: u8, n: u8)
        requires
            old(self)@.can_execute(Instruction::InsDXYN(x, y, n)),
        ensures
            final(self)@ == old(self)@.draw(x, y, n),
    {
        let ghost before = self@;
        let vx: u8 = self.v_reg[x as usize] % (SCREEN_WIDTH as u8);
        let vy: u8 = self.v_reg[y as usize] % (SCREEN_HEIGHT as u8);
        self.v_reg[0xF] = 0;
        let mut row: u8 = 0;
        while row < n && vy + row < SCREEN_HEIGHT as u8
            invariant
                before == old(self)@,
                vx == before.sprite_left(x),
                vy == before.sprite_top(y),
                n > 0 ==> before.i_reg + before.sprite_rows(y, n) <= MEMORY_SIZE,
                row <= n,
                vy + row <= SCREEN_HEIGHT,
                self@ == (MachineState {
                    screen: self.screen@,
                    v_reg: self.v_reg@,
                    draw_flag: self.draw_flag,
                    ..before
                }),
                self.v_reg@ == before.v_reg.update(0xF, self.v_reg@[0xF]),
                self.v_reg@[0xF] == 0 || self.v_reg@[0xF] == 1,
                self.draw_flag == (before.draw_flag || row > 0),
                self.v_reg@[0xF] == 1 <==> exists|cell: int|
                    #[trigger] before.sprite_lit(x, y, n, cell) && before.screen[cell]
                        && drawn_before(cell, vy + row, 0),
                forall|cell: int|
                    0 <= cell < SCREEN_SIZE ==> #[trigger] self.screen@[cell] == (
                    before.screen[cell] != (before.sprite_lit(x, y, n, cell) && drawn_before(
                        cell,
                        vy + row,
                        0,
                    ))),
            decreases n - row,
        {
            let screen_y: u8 = vy + row;
            let sprite_row: u8 = self.memory[(self.i_reg + row as u16) as usize];
            let mut col: u8 = 0;
            while col < 8 && vx + col < SCREEN_WIDTH as u8
                invariant
                    before == old(self)@,
                    vx == before.sprite_left(x),
                    vy == before.sprite_top(y),
                    row < n,
                    screen_y == vy + row,
                    screen_y < SCREEN_HEIGHT,
                    before.i_reg + row < MEMORY_SIZE,
                    sprite_row == before.memory[before.i_reg + row],
                    col <= 8,
                    vx + col <= SCREEN_WIDTH,
                    self@ == (MachineState {
                        screen: self.screen@,
                        v_reg: self.v_reg@,
                        draw_flag: self.draw_flag,
                        ..before
                    }),
                    self.v_reg@ == before.v_reg.update(0xF, self.v_reg@[0xF]),
                    self.v_reg@[0xF] == 0 || self.v_reg@[0xF] == 1,
                    self.draw_flag == (before.draw_flag || row > 0),
                    self.v_reg@[0xF] == 1 <==> exists|cell: int|
                        #[trigger] before.sprite_lit(x, y, n, cell) && before.screen[cell]
                            && drawn_before(cell, vy + row, vx + col),
                    forall|cell: int|
                        0 <= cell < SCREEN_SIZE ==> #[trigger] self.screen@[cell] == (
                        before.screen[cell] != (before.sprite_lit(x, y, n, cell) && drawn_before(
                            cell,
                            vy + row,
                            vx + col,
                        ))),
                decreases 8 - col,
            {
                let screen_x: u8 = vx + col;
                let sprite_pixel: bool = (sprite_row & (0b1000_0000 >> col)) != 0;
                let screen_pixel_index: usize = screen_x as usize + screen_y as usize
                    * SCREEN_WIDTH;
                let screen_pixel: bool = self.screen[screen_pixel_index];
                proof {
                    let here = screen_pixel_index as int;
                    assert(before.sprite_lit(x, y, n, here) == sprite_pixel);
                    assert forall|cell: int| #[trigger]
                        drawn_before(cell, vy + row, vx + col + 1) == (drawn_before(
                            cell,
                            vy + row,
                            vx + col as int,
                        ) || cell == here) by {}
                }
                if sprite_pixel && screen_pixel {
                    self.v_reg[0xF] = 1;
                }
                self.screen[screen_pixel_index] = screen_pixel ^ sprite_pixel;
                col += 1;
            }
            self.draw_flag = true;
            row += 1;
        }
    }

    /// Stores registers `V0..=VX` to memory at `I` and moves `I` past them.
    fn store_registers(&mut self, x: u8)
        requires
            old(self)@.can_execute(Instruction::InsFX55(x)),
        ensures
            final(self)@ == old(self)@.store_registers(x),
    {
        let mut i: u8 = 0;
        while i <= x
            invariant
                i <= x + 1,
                x < NUM_REGISTERS,
                self.i_reg + x < MEMORY_SIZE,
                self@ == (MachineState { memory: self.memory@, ..old(self)@ }),
                forall|a: int|
                    self.i_reg <= a < self.i_reg + i ==> self.memory@[a] == self.v_reg@[a
                        - self.i_reg],
                forall|a: int|
                    0 <= a < MEMORY_SIZE && !(self.i_reg <= a < self.i_reg + i) ==> self.memory@[a]
                        == old(self).memory@[a],
            decreases x + 1 - i,
        {
            self.memory[(self.i_reg + i as u16) as usize] = self.v_reg[i as usize];
            i += 1;
        }
        self.i_reg += x as u16 + 1;
    }

    /// Loads registers `V0..=VX` from memory at `I` and moves `I` past them.
    fn load_registers(&mut self, x: u8)
        requires
            old(self)@.can_execute(Instruction::InsFX65(x)),
        ensures
            final(self)@ == old(self)@.load_registers(x),
    {
        let mut i: u8 = 0;
        while i <= x
            invariant
                i <= x + 1,
                x < NUM_REGISTERS,
                self.i_reg + x < MEMORY_SIZE,
                self@ == (MachineState { v_reg: self.v_reg@, ..old(self)@ }),
                forall|r: int| 0 <= r < i ==> self.v_reg@[r] == self.memory@[self.i_reg + r],
                forall|r: int| i <= r < NUM_REGISTERS ==> self.v_reg@[r] == old(self).v_reg@[r],
            decreases x + 1 - i,
        {
            self.v_reg[i as usize] = self.memory[(self.i_reg + i as u16) as usize];
            i += 1;
        }
        self.i_reg += x as u16 + 1;
    }

    /// Executes one decoded instruction.
    pub fn execute_instruction(&mut self, instruction: &Instruction)
        requires
            old(self)@.can_execute(*instruction),
        ensures
            final(self)@ == old(self)@.execute(*instruction),
    {
        match *instruction {
            Instruction::Ins00E0 => {
                self.screen = [false; SCREEN_SIZE];
                self.draw_flag = true;
            },
            Instruction::Ins00EE => {
                self.stack_pointer -= 1;
                self.pc = self.stack[self.stack_pointer as usize];
            },
            Instruction::Ins1NNN(nnn) => {
                self.pc = nnn;
            },
            Instruction::Ins2NNN(nnn) => {
                self.stack[self.stack_pointer as usize] = self.pc;
                self.stack_pointer += 1;
                self.pc = nnn;
            },
            Instruction::Ins3XNN(x, nn) => {
                self.skip_if(self.v_reg[x as usize] == nn);
            },
            Instruction::Ins4XNN(x, nn) => {
                self.skip_if(self.v_reg[x as usize] != nn);
            },
            Instruction::Ins5XY0(x, y) => {
                self.skip_if(self.v_reg[x as usize] == self.v_reg[y as usize]);
            },
            Instruction::Ins6XNN(x, nn) => {
                self.set_register(x, nn);
            },
            Instruction::Ins7XNN(x, nn) => {
                proof {
                    lemma_wrapping_add_u8(self.v_reg[x as int], nn);
                }
                self.set_register(x, self.v_reg[x as usize].wrapping_add(nn));
            },
            Instruction::Ins8XY0(x, y) => {
                self.set_register(x, self.v_reg[y as usize]);
            },
            Instruction::Ins8XY1(x, y) => {
                let value: u8 = self.v_reg[x as usize] | self.v_reg[y as usize];
                self.set_register_and_flag(x, value, 0);
            },
            Instruction::Ins8XY2(x, y) => {
                let value: u8 = self.v_reg[x as usize] & self.v_reg[y as usize];
                self.set_register_and_flag(x, value, 0);
            },
            Instruction::Ins8XY3(x, y) => {
                let value: u8 = self.v_reg[x as usize] ^ self.v_reg[y as usize];
                self.set_register_and_flag(x, value, 0);
            },
            Instruction::Ins8XY4(x, y) => {
                let vx: u8 = self.v_reg[x as usize];
                let vy: u8 = self.v_reg[y as usize];
                let carry: u8 = if vx as u16 + vy as u16 > 0xFF {
                    1
                } else {
                    0
                };
                proof {
                    lemma_wrapping_add_u8(vx, vy);
                }
                self.set_register_and_flag(x, vx.wrapping_add(vy), carry);
            },
            Instruction::Ins8XY5(x, y) => {
                let vx: u8 = self.v_reg[x as usize];
                let vy: u8 = self.v_reg[y as usize];
                let no_borrow: u8 = if vx >= vy {
                    1
                } else {
                    0
                };
                proof {
                    lemma_wrapping_sub_u8(vx, vy);
                }
                self.set_register_and_flag(x, vx.wrapping_sub(vy), no_borrow);
            },
            Instruction::Ins8XY6(x, y) => {
                let vy: u8 = self.v_reg[y as usize];
                assert(vy >> 1 == vy / 2 && vy & 1 == vy % 2) by (bit_vector);
                self.set_register_and_flag(x, vy >> 1, vy & 1);
            },
            Instruction::Ins8XY7(x, y) => {
                let vx: u8 = self.v_reg[x as usize];
                let vy: u8 = self.v_reg[y as usize];
                let no_borrow: u8 = if vy >= vx {
                    1
                } else {
                    0
                };
                proof {
                    lemma_wrapping_sub_u8(vy, vx);
                }
                self.set_register_and_flag(x, vy.wrapping_sub(vx), no_borrow);
            },
            Instruction::Ins8XYE(x, y) => {
                let vy: u8 = self.v_reg[y as usize];
                assert(vy << 1 == (2 * vy) % 0x100 && vy >> 7 == vy / 0x80) by (bit_vector);
                self.set_register_and_flag(x, vy << 1, vy >> 7);
            },
            Instruction::Ins9XY0(x, y) => {
                self.skip_if(self.v_reg[x as usize] != self.v_reg[y as usize]);
            },
            Instruction::InsANNN(nnn) => {
                self.i_reg = nnn;
            },
            Instruction::InsBNNN(nnn) => {
                self.pc = self.v_reg[0] as u16 + nnn;
            },
            Instruction::InsCXNN(x, nn) => {
                let random: u16 = match self.rng.next() {
                    Some(value) => value,
                    None => 0,
                };
                assert(random as u8 == (random % 0x100) as u8) by (bit_vector);
                self.set_register(x, random as u8 & nn);
            },
            Instruction::InsDXYN(x, y, n) => {
                self.draw_sprite(x, y, n);
            },
            Instruction::InsEX9E(x) => {
                self.skip_if(self.keypad[self.v_reg[x as usize] as usize]);
            },
            Instruction::InsEXA1(x) => {
                self.skip_if(!self.keypad[self.v_reg[x as usize] as usize]);
            },
            Instruction::InsFX07(x) => {
                self.set_register(x, self.delay_timer);
            },
            Instruction::InsFX0A(x) => {
                self.wait_for_key(x);
            },
            Instruction::InsFX15(x) => {
                self.delay_timer = self.v_reg[x as usize];
            },
            Instruction::InsFX18(x) => {
                self.sound_timer = self.v_reg[x as usize];
            },
            Instruction::InsFX1E(x) => {
                proof {
                    lemma_wrapping_add_u16(self.i_reg, self.v_reg[x as int] as u16);
                }
                self.i_reg = self.i_reg.wrapping_add(self.v_reg[x as usize] as u16);
            },
            Instruction::InsFX29(x) => {
                let value: u8 = self.v_reg[x as usize];
                assert(value & 0x0F == value % 0x10) by (bit_vector);
                self.i_reg = FONTSET_START as u16 + (value & 0x0F) as u16 * GLYPH_SIZE as u16;
            },
            Instruction::InsFX33(x) => {
                let value: u8 = self.v_reg[x as usize];
                self.memory[self.i_reg as usize] = value / 100;
                self.memory[self.i_reg as usize + 1] = (value / 10) % 10;
                self.memory[self.i_reg as usize + 2] = value % 10;
            },
            Instruction::InsFX55(x) => {
                self.store_registers(x);
            },
            Instruction::InsFX65(x) => {
                self.load_registers(x);
            },
        }
    }
}

} // verus!
