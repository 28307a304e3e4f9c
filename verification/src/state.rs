use crate::chip8::{
    FONTSET, FONTSET_SIZE, FONTSET_START, GLYPH_SIZE, KEYPAD_SIZE, MEMORY_SIZE, NUM_REGISTERS,
    PROGRAM_START, ROM_START, SCREEN_HEIGHT, SCREEN_SIZE, SCREEN_WIDTH, STACK_SIZE,
};
use crate::error::InstructionError;
use crate::instruction::Instruction;
use crate::rng::EntropySource;
use vstd::prelude::*;

verus! {

/// The machine as a mathematical value: what a [`crate::chip8::Chip8`] holds,
/// with every array read as a sequence. The functions on it say what each
/// operation of the machine does.
#[verifier::ext_equal]
pub struct MachineState<R> {
    pub memory: Seq<u8>,
    pub pc: u16,
    pub v_reg: Seq<u8>,
    pub i_reg: u16,
    pub delay_timer: u8,
    pub sound_timer: u8,
    pub stack: Seq<u16>,
    pub stack_pointer: u16,
    pub keypad: Seq<bool>,
    pub screen: Seq<bool>,
    pub draw_flag: bool,
    pub rng: R,
    pub wait_for_key_release: Option<usize>,
}

/// Whether a sprite row has its pixel in column `col` lit, columns counted
/// from the most significant bit.
pub open spec fn sprite_bit(row: u8, col: u8) -> bool {
    (row & (0x80u8 >> col)) != 0
}

/// The lowest-numbered pressed key at or after `from`, if any key there is
/// pressed.
pub open spec fn first_pressed_from(keypad: Seq<bool>, from: int) -> Option<int>
    decreases keypad.len() - from,
{
    if from < 0 || from >= keypad.len() {
        None
    } else if keypad[from] {
        Some(from)
    } else {
        first_pressed_from(keypad, from + 1)
    }
}

/// The lowest-numbered pressed key, if any key is pressed.
pub open spec fn first_pressed(keypad: Seq<bool>) -> Option<int> {
    first_pressed_from(keypad, 0)
}

/// `first_pressed_from` finds a pressed key with none pressed between `from`
/// and it, or finds none where none at or after `from` is pressed.
pub proof fn lemma_first_pressed_from(keypad: Seq<bool>, from: int)
    requires
        0 <= from,
    ensures
        match first_pressed_from(keypad, from) {
            Some(key) => from <= key < keypad.len() && keypad[key] && forall|lower: int|
                from <= lower < key ==> !keypad[lower],
            None => forall|key: int| from <= key < keypad.len() ==> !keypad[key],
        },
    decreases keypad.len() - from,
{
    if from < keypad.len() && !keypad[from] {
        lemma_first_pressed_from(keypad, from + 1);
    }
}

/// The key that `first_pressed` names is pressed and no key below it is; it
/// names none only where no key is pressed.
pub proof fn lemma_first_pressed(keypad: Seq<bool>)
    ensures
        match first_pressed(keypad) {
            Some(key) => 0 <= key < keypad.len() && keypad[key] && forall|lower: int|
                0 <= lower < key ==> !keypad[lower],
            None => forall|key: int| 0 <= key < keypad.len() ==> !keypad[key],
        },
{
    lemma_first_pressed_from(keypad, 0);
}

impl<R: EntropySource> MachineState<R> {
    /// Every part has the size the machine gives it.
    pub open spec fn well_formed(self) -> bool {
        &&& self.memory.len() == MEMORY_SIZE
        &&& self.v_reg.len() == NUM_REGISTERS
        &&& self.stack.len() == STACK_SIZE
        &&& self.keypad.len() == KEYPAD_SIZE
        &&& self.screen.len() == SCREEN_SIZE
    }

    /// A machine just built around `rng`: everything zero, no key pressed, a
    /// dark screen, and the program counter at the program's entry point.
    pub open spec fn initial(rng: R) -> Self {
        MachineState {
            memory: Seq::new(MEMORY_SIZE as nat, |a: int| 0u8),
            pc: PROGRAM_START,
            v_reg: Seq::new(NUM_REGISTERS as nat, |r: int| 0u8),
            i_reg: 0,
            delay_timer: 0,
            sound_timer: 0,
            stack: Seq::new(STACK_SIZE as nat, |d: int| 0u16),
            stack_pointer: 0,
            keypad: Seq::new(KEYPAD_SIZE as nat, |k: int| false),
            screen: Seq::new(SCREEN_SIZE as nat, |c: int| false),
            draw_flag: false,
            rng,
            wait_for_key_release: None,
        }
    }

    /// The machine with the glyph table at the bottom of memory.
    pub open spec fn with_font(self) -> Self {
        MachineState {
            memory: Seq::new(
                self.memory.len(),
                |a: int|
                    if a < FONTSET_SIZE {
                        FONTSET@[a]
                    } else {
                        self.memory[a]
                    },
            ),
            ..self
        }
    }

    /// The machine with `program` copied to memory from the program's entry
    /// point on.
    pub open spec fn with_program(self, program: Seq<u8>) -> Self {
        MachineState {
            memory: Seq::new(
                self.memory.len(),
                |a: int|
                    if ROM_START <= a < ROM_START + program.len() {
                        program[a - ROM_START]
                    } else {
                        self.memory[a]
                    },
            ),
            ..self
        }
    }

    /// The machine with key `key` pressed or released.
    pub open spec fn with_key(self, key: int, pressed: bool) -> Self {
        MachineState { keypad: self.keypad.update(key, pressed), ..self }
    }

    /// Both timers one lower, a timer at zero staying there.
    pub open spec fn tick_timer(self) -> Self {
        MachineState {
            delay_timer: if self.delay_timer > 0 {
                (self.delay_timer - 1) as u8
            } else {
                0
            },
            sound_timer: if self.sound_timer > 0 {
                (self.sound_timer - 1) as u8
            } else {
                0
            },
            ..self
        }
    }

    /// The machine after `ticks` timer ticks.
    pub open spec fn tick_timer_times(self, ticks: nat) -> Self
        decreases ticks,
    {
        if ticks == 0 {
            self
        } else {
            self.tick_timer_times((ticks - 1) as nat).tick_timer()
        }
    }

    /// The machine as a reset leaves it: as when it was built, with the glyph
    /// table loaded. The entropy source is not rewound.
    pub open spec fn reset(self) -> Self {
        Self::initial(self.rng).with_font()
    }

    /// Whether the two bytes of an opcode can be read at the program counter.
    pub open spec fn can_fetch(self) -> bool {
        self.pc + 1 < self.memory.len()
    }

    /// The big-endian opcode at the program counter.
    pub open spec fn opcode(self) -> u16 {
        (0x100 * self.memory[self.pc as int] + self.memory[self.pc + 1]) as u16
    }

    /// The machine with the program counter moved past the opcode it points at.
    pub open spec fn after_fetch(self) -> Self {
        MachineState { pc: (self.pc + 2) as u16, ..self }
    }

    /// The machine with register `x` set to `value`.
    pub open spec fn with_register(self, x: u8, value: u8) -> Self {
        MachineState { v_reg: self.v_reg.update(x as int, value), ..self }
    }

    /// The machine with the flag register set to `value`.
    pub open spec fn with_flag(self, value: u8) -> Self {
        self.with_register(0xF, value)
    }

    /// The machine with the program counter moved past one more instruction
    /// if `taken` holds, and unchanged otherwise.
    pub open spec fn skip_if(self, taken: bool) -> Self {
        if taken {
            MachineState { pc: (self.pc + 2) as u16, ..self }
        } else {
            self
        }
    }

    /// Whether a skip on `taken` keeps the program counter in its 16 bits.
    pub open spec fn can_skip_if(self, taken: bool) -> bool {
        taken ==> self.pc + 2 <= u16::MAX
    }

    /// The screen column where the sprite of a draw from `(VX, VY)` starts.
    pub open spec fn sprite_left(self, x: u8) -> int {
        self.v_reg[x as int] as int % SCREEN_WIDTH as int
    }

    /// The screen row where the sprite of a draw from `(VX, VY)` starts.
    pub open spec fn sprite_top(self, y: u8) -> int {
        self.v_reg[y as int] as int % SCREEN_HEIGHT as int
    }

    /// How many of the `n` sprite rows of a draw from row `VY` fall on the
    /// screen: rows past the bottom edge are dropped, not wrapped.
    pub open spec fn sprite_rows(self, y: u8, n: u8) -> int {
        if self.sprite_top(y) + n <= SCREEN_HEIGHT {
            n as int
        } else {
            SCREEN_HEIGHT - self.sprite_top(y)
        }
    }

    /// Whether a draw of `n` rows from `(VX, VY)` lights its sprite at screen
    /// cell `cell`: the cell lies in the sprite's box, which is cut off at the
    /// right and bottom edges, and the sprite row read from memory at `I` has
    /// the cell's bit set.
    pub open spec fn sprite_lit(self, x: u8, y: u8, n: u8, cell: int) -> bool {
        let column = cell % SCREEN_WIDTH as int;
        let row = cell / SCREEN_WIDTH as int;
        &&& 0 <= cell < SCREEN_SIZE
        &&& self.sprite_left(x) <= column < self.sprite_left(x) + 8
        &&& self.sprite_top(y) <= row < self.sprite_top(y) + n
        &&& sprite_bit(
            self.memory[self.i_reg + row - self.sprite_top(y)],
            (column - self.sprite_left(x)) as u8,
        )
    }

    /// Whether a draw of `n` rows from `(VX, VY)` lights a cell that is lit
    /// already.
    pub open spec fn sprite_collides(self, x: u8, y: u8, n: u8) -> bool {
        exists|cell: int| #[trigger] self.sprite_lit(x, y, n, cell) && self.screen[cell]
    }

    /// The machine after a draw of `n` rows from `(VX, VY)`: the sprite is
    /// combined into the screen by exclusive or, the flag register says
    /// whether a lit cell was hit, and a redraw is pending if any row was
    /// drawn.
    pub open spec fn draw(self, x: u8, y: u8, n: u8) -> Self {
        MachineState {
            screen: Seq::new(
                self.screen.len(),
                |cell: int| self.screen[cell] != self.sprite_lit(x, y, n, cell),
            ),
            v_reg: self.v_reg.update(
                0xF,
                if self.sprite_collides(x, y, n) {
                    1u8
                } else {
                    0u8
                },
            ),
            draw_flag: self.draw_flag || n > 0,
            ..self
        }
    }

    /// The machine after registers `V0..=VX` are stored to memory at `I`.
    pub open spec fn store_registers(self, x: u8) -> Self {
        MachineState {
            memory: Seq::new(
                self.memory.len(),
                |a: int|
                    if self.i_reg <= a <= self.i_reg + x {
                        self.v_reg[a - self.i_reg]
                    } else {
                        self.memory[a]
                    },
            ),
            i_reg: (self.i_reg + x + 1) as u16,
            ..self
        }
    }

    /// The machine after registers `V0..=VX` are loaded from memory at `I`.
    pub open spec fn load_registers(self, x: u8) -> Self {
        MachineState {
            v_reg: Seq::new(
                self.v_reg.len(),
                |r: int|
                    if r <= x {
                        self.memory[self.i_reg + r]
                    } else {
                        self.v_reg[r]
                    },
            ),
            i_reg: (self.i_reg + x + 1) as u16,
            ..self
        }
    }

    /// The machine after the key-wait instruction: with a key pressed, the
    /// lowest such key is stored in `VX` and latched; with none, the program
    /// counter steps back onto the instruction, which so runs again.
    pub open spec fn wait_for_key(self, x: u8) -> Self {
        match first_pressed(self.keypad) {
            Some(key) => MachineState {
                wait_for_key_release: Some(key as usize),
                ..self
            }.with_register(x, key as u8),
            None => MachineState { pc: (self.pc - 2) as u16, ..self },
        }
    }

    /// The value of the next draw from the entropy source, zero if the source
    /// has run dry.
    pub open spec fn random(self) -> u16 {
        match self.rng.upcoming() {
            Some(value) => value,
            None => 0,
        }
    }

    /// Whether `instruction` can be executed: its register operands name
    /// registers, every memory cell, stack slot and key it touches exists, and
    /// the program counter and stack pointer stay in range.
    pub open spec fn can_execute(self, instruction: Instruction) -> bool {
        match instruction {
            Instruction::Ins00E0 => true,
            Instruction::Ins00EE => 1 <= self.stack_pointer <= self.stack.len(),
            Instruction::Ins1NNN(_) => true,
            Instruction::Ins2NNN(_) => self.stack_pointer < self.stack.len(),
            Instruction::Ins3XNN(x, nn) => x < self.v_reg.len() && self.can_skip_if(
                self.v_reg[x as int] == nn,
            ),
            Instruction::Ins4XNN(x, nn) => x < self.v_reg.len() && self.can_skip_if(
                self.v_reg[x as int] != nn,
            ),
            Instruction::Ins5XY0(x, y) => x < self.v_reg.len() && y < self.v_reg.len()
                && self.can_skip_if(self.v_reg[x as int] == self.v_reg[y as int]),
            Instruction::Ins9XY0(x, y) => x < self.v_reg.len() && y < self.v_reg.len()
                && self.can_skip_if(self.v_reg[x as int] != self.v_reg[y as int]),
            Instruction::Ins6XNN(x, _) | Instruction::Ins7XNN(x, _) | Instruction::InsCXNN(x, _) => x
                < self.v_reg.len(),
            Instruction::Ins8XY0(x, y)
            | Instruction::Ins8XY1(x, y)
            | Instruction::Ins8XY2(x, y)
            | Instruction::Ins8XY3(x, y)
            | Instruction::Ins8XY4(x, y)
            | Instruction::Ins8XY5(x, y)
            | Instruction::Ins8XY6(x, y)
            | Instruction::Ins8XY7(x, y)
            | Instruction::Ins8XYE(x, y) => x < self.v_reg.len() && y < self.v_reg.len(),
            Instruction::InsANNN(_) => true,
            Instruction::InsBNNN(nnn) => self.v_reg[0] + nnn <= u16::MAX,
            Instruction::InsDXYN(x, y, n) => x < self.v_reg.len() && y < self.v_reg.len() && (n > 0
                ==> self.i_reg + self.sprite_rows(y, n) <= self.memory.len()),
            Instruction::InsEX9E(x) => x < self.v_reg.len() && self.v_reg[x as int]
                < self.keypad.len() && self.can_skip_if(self.keypad[self.v_reg[x as int] as int]),
            Instruction::InsEXA1(x) => x < self.v_reg.len() && self.v_reg[x as int]
                < self.keypad.len() && self.can_skip_if(!self.keypad[self.v_reg[x as int] as int]),
            Instruction::InsFX0A(x) => match first_pressed(self.keypad) {
                Some(_) => x < self.v_reg.len(),
                None => self.pc >= 2,
            },
            Instruction::InsFX07(x)
            | Instruction::InsFX15(x)
            | Instruction::InsFX18(x)
            | Instruction::InsFX1E(x)
            | Instruction::InsFX29(x) => x < self.v_reg.len(),
            Instruction::InsFX33(x) => x < self.v_reg.len() && self.i_reg + 2 < self.memory.len(),
            Instruction::InsFX55(x) | Instruction::InsFX65(x) => x < self.v_reg.len() && self.i_reg
                + x < self.memory.len(),
        }
    }

    /// The machine after `instruction` is executed.
    pub open spec fn execute(self, instruction: Instruction) -> Self {
        match instruction {
            Instruction::Ins00E0 => MachineState {
                screen: Seq::new(self.screen.len(), |cell: int| false),
                draw_flag: true,
                ..self
            },
            Instruction::Ins00EE => MachineState {
                stack_pointer: (self.stack_pointer - 1) as u16,
                pc: self.stack[self.stack_pointer - 1],
                ..self
            },
            Instruction::Ins1NNN(nnn) => MachineState { pc: nnn, ..self },
            Instruction::Ins2NNN(nnn) => MachineState {
                stack: self.stack.update(self.stack_pointer as int, self.pc),
                stack_pointer: (self.stack_pointer + 1) as u16,
                pc: nnn,
                ..self
            },
            Instruction::Ins3XNN(x, nn) => self.skip_if(self.v_reg[x as int] == nn),
            Instruction::Ins4XNN(x, nn) => self.skip_if(self.v_reg[x as int] != nn),
            Instruction::Ins5XY0(x, y) => self.skip_if(self.v_reg[x as int] == self.v_reg[y as int]),
            Instruction::Ins6XNN(x, nn) => self.with_register(x, nn),
            Instruction::Ins7XNN(x, nn) => self.with_register(
                x,
                ((self.v_reg[x as int] + nn) % 0x100) as u8,
            ),
            Instruction::Ins8XY0(x, y) => self.with_register(x, self.v_reg[y as int]),
            Instruction::Ins8XY1(x, y) => self.with_register(
                x,
                self.v_reg[x as int] | self.v_reg[y as int],
            ).with_flag(0),
            Instruction::Ins8XY2(x, y) => self.with_register(
                x,
                self.v_reg[x as int] & self.v_reg[y as int],
            ).with_flag(0),
            Instruction::Ins8XY3(x, y) => self.with_register(
                x,
                self.v_reg[x as int] ^ self.v_reg[y as int],
            ).with_flag(0),
            Instruction::Ins8XY4(x, y) => self.with_register(
                x,
                ((self.v_reg[x as int] + self.v_reg[y as int]) % 0x100) as u8,
            ).with_flag(
                if self.v_reg[x as int] + self.v_reg[y as int] > u8::MAX {
                    1
                } else {
                    0
                },
            ),
            Instruction::Ins8XY5(x, y) => self.with_register(
                x,
                ((self.v_reg[x as int] - self.v_reg[y as int]) % 0x100) as u8,
            ).with_flag(
                if self.v_reg[x as int] >= self.v_reg[y as int] {
                    1
                } else {
                    0
                },
            ),
            Instruction::Ins8XY6(x, y) => self.with_register(x, self.v_reg[y as int] / 2).with_flag(
                self.v_reg[y as int] % 2,
            ),
            Instruction::Ins8XY7(x, y) => self.with_register(
                x,
                ((self.v_reg[y as int] - self.v_reg[x as int]) % 0x100) as u8,
            ).with_flag(
                if self.v_reg[y as int] >= self.v_reg[x as int] {
                    1
                } else {
                    0
                },
            ),
            Instruction::Ins8XYE(x, y) => self.with_register(
                x,
                ((2 * self.v_reg[y as int]) % 0x100) as u8,
            ).with_flag(self.v_reg[y as int] / 0x80),
            Instruction::Ins9XY0(x, y) => self.skip_if(self.v_reg[x as int] != self.v_reg[y as int]),
            Instruction::InsANNN(nnn) => MachineState { i_reg: nnn, ..self },
            Instruction::InsBNNN(nnn) => MachineState { pc: (self.v_reg[0] + nnn) as u16, ..self },
            Instruction::InsCXNN(x, nn) => MachineState {
                rng: self.rng.advanced(),
                ..self
            }.with_register(x, ((self.random() % 0x100) as u8) & nn),
            Instruction::InsDXYN(x, y, n) => self.draw(x, y, n),
            Instruction::InsEX9E(x) => self.skip_if(self.keypad[self.v_reg[x as int] as int]),
            Instruction::InsEXA1(x) => self.skip_if(!self.keypad[self.v_reg[x as int] as int]),
            Instruction::InsFX07(x) => self.with_register(x, self.delay_timer),
            Instruction::InsFX0A(x) => self.wait_for_key(x),
            Instruction::InsFX15(x) => MachineState { delay_timer: self.v_reg[x as int], ..self },
            Instruction::InsFX18(x) => MachineState { sound_timer: self.v_reg[x as int], ..self },
            Instruction::InsFX1E(x) => MachineState {
                i_reg: ((self.i_reg + self.v_reg[x as int]) % 0x10000) as u16,
                ..self
            },
            Instruction::InsFX29(x) => MachineState {
                i_reg: (FONTSET_START + GLYPH_SIZE * (self.v_reg[x as int] % 0x10)) as u16,
                ..self
            },
            Instruction::InsFX33(x) => MachineState {
                memory: self.memory.update(self.i_reg as int, self.v_reg[x as int] / 100).update(
                    self.i_reg + 1,
                    self.v_reg[x as int] / 10 % 10,
                ).update(self.i_reg + 2, self.v_reg[x as int] % 10),
                ..self
            },
            Instruction::InsFX55(x) => self.store_registers(x),
            Instruction::InsFX65(x) => self.load_registers(x),
        }
    }

    /// Whether one step can be taken: the opcode can be fetched, and if it
    /// decodes, the instruction can be executed once the program counter has
    /// moved past it.
    pub open spec fn can_step(self) -> bool {
        &&& self.can_fetch()
        &&& match Instruction::decode(self.opcode()) {
            Ok(instruction) => self.after_fetch().can_execute(instruction),
            Err(_) => true,
        }
    }

    /// The machine after one step: the opcode at the program counter is
    /// fetched, which moves the program counter past it, and the instruction
    /// it decodes to is executed. An opcode that does not decode leaves the
    /// machine as the fetch left it.
    pub open spec fn step(self) -> Self {
        match Instruction::decode(self.opcode()) {
            Ok(instruction) => self.after_fetch().execute(instruction),
            Err(_) => self.after_fetch(),
        }
    }

    /// What one step reports: the decoding failure, if the opcode at the
    /// program counter does not decode.
    pub open spec fn step_result(self) -> Result<(), InstructionError> {
        match Instruction::decode(self.opcode()) {
            Ok(_) => Ok(()),
            Err(error) => Err(error),
        }
    }

    /// Timer ticks add up and stop at zero: after any number of ticks each
    /// timer is lower by that number, or at zero if it started below it, and
    /// nothing but the timers has changed.
    pub proof fn lemma_tick_timer_times(self, ticks: nat)
        ensures
            self.tick_timer_times(ticks) == (MachineState {
                delay_timer: if self.delay_timer >= ticks {
                    (self.delay_timer - ticks) as u8
                } else {
                    0
                },
                sound_timer: if self.sound_timer >= ticks {
                    (self.sound_timer - ticks) as u8
                } else {
                    0
                },
                ..self
            }),
        decreases ticks,
    {
        if ticks > 0 {
            self.lemma_tick_timer_times((ticks - 1) as nat);
        }
    }

    /// A machine is built with every part at its size and an empty stack, and
    /// loading the glyph table or a program, a key event, a timer tick and a
    /// reset keep the sizes.
    pub proof fn lemma_setup_keeps_shape(self, rng: R, program: Seq<u8>, key: int, pressed: bool)
        requires
            self.well_formed(),
            0 <= key < self.keypad.len(),
        ensures
            Self::initial(rng).well_formed(),
            Self::initial(rng).stack_pointer == 0,
            self.with_font().well_formed(),
            self.with_program(program).well_formed(),
            self.with_key(key, pressed).well_formed(),
            self.tick_timer().well_formed(),
            self.reset().well_formed(),
            self.reset().stack_pointer == 0,
    {
    }

    /// Executing an instruction keeps every part of the machine at its size
    /// and the stack pointer within the stack.
    pub proof fn lemma_execute_keeps_shape(self, instruction: Instruction)
        requires
            self.well_formed(),
            self.can_execute(instruction),
            self.stack_pointer <= self.stack.len(),
        ensures
            self.execute(instruction).well_formed(),
            self.execute(instruction).stack_pointer <= self.stack.len(),
    {
    }

    /// A step keeps every part of the machine at its size and the stack
    /// pointer within the stack, whether or not the opcode decodes.
    pub proof fn lemma_step_keeps_shape(self)
        requires
            self.well_formed(),
            self.can_step(),
            self.stack_pointer <= self.stack.len(),
        ensures
            self.step().well_formed(),
            self.step().stack_pointer <= self.stack.len(),
    {
    }

    /// An opcode that does not decode costs the fetch and nothing more: the
    /// step reports it by its own value and leaves the machine unchanged but
    /// for the program counter, which is past the opcode.
    pub proof fn lemma_unknown_opcode_only_advances(self)
        requires
            self.can_fetch(),
            Instruction::decode(self.opcode()) is Err,
        ensures
            self.can_step(),
            self.step() == (MachineState { pc: (self.pc + 2) as u16, ..self }),
            self.step_result() == Err::<(), InstructionError>(
                InstructionError::UnknownOpcode(self.opcode()),
            ),
    {
    }

    /// A call followed by a return comes back to where the call was made
    /// from: the program counter and the stack pointer are as before the
    /// call, and in between the old program counter is on the stack and the
    /// machine is at the call's target.
    pub proof fn lemma_call_then_return(self, target: u16)
        requires
            self.well_formed(),
            self.can_execute(Instruction::Ins2NNN(target)),
        ensures
            ({
                let called = self.execute(Instruction::Ins2NNN(target));
                let returned = called.execute(Instruction::Ins00EE);
                &&& called.pc == target
                &&& called.stack_pointer == self.stack_pointer + 1
                &&& called.stack[self.stack_pointer as int] == self.pc
                &&& called.can_execute(Instruction::Ins00EE)
                &&& returned.pc == self.pc
                &&& returned.stack_pointer == self.stack_pointer
            }),
    {
    }

    /// The three cells that the decimal-digits instruction writes hold
    /// decimal digits, and read as hundreds, tens and units they give back
    /// the register's value. Nothing else changes, the index register
    /// included.
    pub proof fn lemma_decimal_digits(self, x: u8)
        requires
            self.well_formed(),
            self.can_execute(Instruction::InsFX33(x)),
        ensures
            ({
                let stored = self.execute(Instruction::InsFX33(x));
                let at = self.i_reg as int;
                &&& stored.memory[at] < 10 && stored.memory[at + 1] < 10 && stored.memory[at + 2]
                    < 10
                &&& 100 * stored.memory[at] + 10 * stored.memory[at + 1] + stored.memory[at + 2]
                    == self.v_reg[x as int]
                &&& forall|a: int|
                    0 <= a < self.memory.len() && !(at <= a <= at + 2) ==> stored.memory[a]
                        == self.memory[a]
                &&& stored == (MachineState { memory: stored.memory, ..self })
            }),
    {
    }

    /// Loading undoes storing: registers stored to memory and loaded again
    /// from the same place are what they were, and the index register ends
    /// past the stored range both times.
    pub proof fn lemma_store_then_load(self, x: u8)
        requires
            self.well_formed(),
            self.can_execute(Instruction::InsFX55(x)),
        ensures
            ({
                let stored = self.execute(Instruction::InsFX55(x));
                let rewound = MachineState { i_reg: self.i_reg, ..stored };
                let loaded = rewound.execute(Instruction::InsFX65(x));
                &&& stored.i_reg == self.i_reg + x + 1
                &&& rewound.can_execute(Instruction::InsFX65(x))
                &&& loaded.v_reg == self.v_reg
                &&& loaded.i_reg == self.i_reg + x + 1
            }),
    {
    }

    /// The key-wait instruction with no key pressed is a step that changes
    /// nothing: the program counter is back on the instruction, so the next
    /// step runs it again.
    pub proof fn lemma_key_wait_holds(self, x: u8)
        requires
            self.well_formed(),
            self.can_fetch(),
            Instruction::decode(self.opcode()) == Ok::<Instruction, InstructionError>(
                Instruction::InsFX0A(x),
            ),
            forall|key: int| 0 <= key < self.keypad.len() ==> !self.keypad[key],
        ensures
            self.can_step(),
            self.step() == self,
            self.step_result() is Ok,
    {
        lemma_first_pressed(self.keypad);
    }

    /// The key-wait instruction with a key pressed ends the wait: the lowest
    /// pressed key is stored in `VX` and latched, and the program counter is
    /// past the instruction.
    pub proof fn lemma_key_wait_ends(self, x: u8, key: int)
        requires
            self.well_formed(),
            self.can_fetch(),
            Instruction::decode(self.opcode()) == Ok::<Instruction, InstructionError>(
                Instruction::InsFX0A(x),
            ),
            0 <= key < self.keypad.len(),
            self.keypad[key],
            forall|lower: int| 0 <= lower < key ==> !self.keypad[lower],
        ensures
            self.can_step(),
            self.step() == (MachineState {
                pc: (self.pc + 2) as u16,
                v_reg: self.v_reg.update(x as int, key as u8),
                wait_for_key_release: Some(key as usize),
                ..self
            }),
            self.step_result() is Ok,
    {
        lemma_first_pressed(self.keypad);
    }

    /// On a dark screen a draw shows the sprite as it is and hits nothing.
    pub proof fn lemma_draw_on_dark_screen(self, x: u8, y: u8, n: u8)
        requires
            self.well_formed(),
            forall|cell: int| 0 <= cell < self.screen.len() ==> !self.screen[cell],
        ensures
            self.draw(x, y, n).v_reg[0xF] == 0,
            forall|cell: int|
                0 <= cell < self.screen.len() ==> self.draw(x, y, n).screen[cell]
                    == self.sprite_lit(x, y, n, cell),
    {
    }

    /// Drawing is its own inverse on the screen: a second draw of the same
    /// sprite at the same place gives back the screen as it was, and it
    /// reports a hit exactly if the sprite has a lit pixel on the screen. The
    /// coordinates must not come from the flag register, which the first draw
    /// overwrites.
    pub proof fn lemma_draw_twice_restores_screen(self, x: u8, y: u8, n: u8)
        requires
            self.well_formed(),
            x < self.v_reg.len(),
            y < self.v_reg.len(),
            x != 0xF,
            y != 0xF,
        ensures
            self.draw(x, y, n).draw(x, y, n).screen == self.screen,
            self.draw(x, y, n).draw(x, y, n).v_reg[0xF] == 1 <==> exists|cell: int|
                #[trigger] self.sprite_lit(x, y, n, cell) && !self.screen[cell],
    {
        let once = self.draw(x, y, n);
        if once.sprite_collides(x, y, n) {
            let cell = choose|cell: int| #[trigger]
                once.sprite_lit(x, y, n, cell) && once.screen[cell];
            assert(self.sprite_lit(x, y, n, cell) && !self.screen[cell]);
        }
        if exists|cell: int| #[trigger] self.sprite_lit(x, y, n, cell) && !self.screen[cell] {
            let cell = choose|cell: int| #[trigger]
                self.sprite_lit(x, y, n, cell) && !self.screen[cell];
            assert(once.sprite_lit(x, y, n, cell) && once.screen[cell]);
        }
    }
}

} // verus!
