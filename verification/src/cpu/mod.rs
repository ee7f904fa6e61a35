//! The processor: registers and memory, and the loop that runs programs.

use vstd::prelude::*;

use crate::cpu::addressing_mode::wrap_address;
use crate::cpu::error::Error;
use crate::cpu::exec::{accessible, executed, implemented};
use crate::cpu::operation::parse::{decodes, fetchable, lemma_decodes_one_operation};
use crate::cpu::operation::{is_legal, Operation};
use crate::memory;
use crate::memory::constant::{PROGRAM_COUNTER_RESET, PROGRAM_ROM_SIZE, PROGRAM_ROM_START};
use crate::memory::{following, is_mapped, with_word, word_in};

pub mod addressing_mode;
pub mod error;
pub mod exec;
pub mod operation;
pub mod registers;

verus! {

/// The processor of the NES.
pub type Cpu = Nes;

/// A byte, as registers and memory cells hold it.
pub type Int = u8;

/// The mathematical model of a processor: its registers, the byte held at
/// each mapped address, and whether it has been asked to stop.
pub struct State {
    pub register: registers::Nes,
    pub memory: Map<memory::Address, Int>,
    pub stopped: bool,
}

impl State {
    /// This state with the program counter moved on by `count` bytes,
    /// wrapping at the end of the address space.
    pub open spec fn advanced(self, count: int) -> State {
        State {
            register: registers::Nes {
                program_counter: wrap_address(self.register.program_counter + count),
                ..self.register
            },
            ..self
        }
    }
}

/// A processor: its registers, its memory, and whether it was asked to stop.
#[derive(Debug)]
pub struct Nes {
    pub register: registers::Nes,
    pub memory: memory::Nes,
    /// Set once an executed operation has asked the run loop to stop.
    pub stop: bool,
}

impl View for Nes {
    type V = State;

    open spec fn view(&self) -> State {
        State { register: self.register, memory: self.memory@, stopped: self.stop }
    }
}

/// Where the run loop stands when it hands control back.
#[derive(Clone, Copy, Debug, PartialEq, Eq, Structural)]
pub enum Progress {
    /// More instructions could be run: the step budget is used up.
    Running,
    /// An executed operation has asked the run to stop.
    Halted,
}

/// The outcome of one instruction: the state it leaves, and the error that
/// cut it short, if one did.
pub struct Stepped {
    pub state: State,
    pub error: Option<Error>,
}

/// The outcome of a run: the state it leaves, and how it came to rest.
pub struct Ran {
    pub state: State,
    pub result: Result<Progress, Error>,
}

/// The operation that the bytes at the program counter encode.
pub open spec fn decoded(state: State) -> Operation {
    choose|operation: Operation| decodes(state, operation)
}

/// `bytes` copied into the program ROM of `memory` from its base on, and
/// the reset vector pointing at that base. The vector lies in the program
/// ROM: it overwrites what a full-size program holds there.
pub open spec fn loaded(memory: Map<memory::Address, Int>, bytes: Seq<Int>) -> Map<
    memory::Address,
    Int,
> {
    with_word(
        Map::new(
            |address: memory::Address| is_mapped(address),
            |address: memory::Address|
                if PROGRAM_ROM_START <= address && address - PROGRAM_ROM_START < bytes.len() {
                    bytes[address - PROGRAM_ROM_START]
                } else {
                    memory[address]
                },
        ),
        PROGRAM_COUNTER_RESET,
        PROGRAM_ROM_START,
    )
}

/// The state from which a run sets out: `state` with as much of the program
/// loaded as the ROM holds, if there is a program; reset; and with the
/// program counter at the start address, if there is one.
pub open spec fn launched(
    state: State,
    program: Option<&[Int]>,
    start_address: Option<memory::Address>,
) -> State {
    let filled = match program {
        Some(bytes) => State {
            memory: loaded(
                state.memory,
                bytes@.take(
                    if bytes@.len() <= PROGRAM_ROM_SIZE {
                        bytes@.len() as int
                    } else {
                        PROGRAM_ROM_SIZE as int
                    },
                ),
            ),
            ..state
        },
        None => state,
    };
    match start_address {
        Some(address) => filled.reset().jumped(address),
        None => filled.reset(),
    }
}

impl State {
    /// This state after a reset: the registers at their defaults, the
    /// program counter taken from the reset vector, the run loop ready.
    /// Memory stays.
    pub open spec fn reset(self) -> State {
        State {
            register: registers::Nes {
                program_counter: word_in(self.memory, PROGRAM_COUNTER_RESET),
                ..registers::Nes::zeroed()
            },
            memory: self.memory,
            stopped: false,
        }
    }

    /// The outcome of decoding and executing the instruction at the program
    /// counter.
    ///
    /// Where the instruction, opcode and operand, does not lie in mapped
    /// memory, or where its opcode encodes nothing, the state stays and the
    /// error says which. Otherwise the program counter moves past the
    /// instruction; the operation is then executed, unless it would touch
    /// unmapped memory or has no case in the executor.
    pub open spec fn stepped(self) -> Stepped {
        let counter = self.register.program_counter;
        if !fetchable(self) {
            Stepped { state: self, error: Some(Error::UnmappedAccess { program_counter: counter }) }
        } else if !is_legal(self.memory[counter]) {
            Stepped {
                state: self,
                error: Some(
                    Error::UnimplementedOpcode {
                        opcode: self.memory[counter],
                        program_counter: counter,
                    },
                ),
            }
        } else {
            let operation = decoded(self);
            let fetched = self.advanced(1 + operation.operand_width() as int);
            if !accessible(fetched, operation) {
                Stepped {
                    state: fetched,
                    error: Some(Error::UnmappedAccess { program_counter: counter }),
                }
            } else if !implemented(operation) {
                Stepped { state: fetched, error: Some(Error::UnimplementedOperation(operation)) }
            } else {
                Stepped { state: executed(fetched, operation), error: None }
            }
        }
    }

    /// The outcome of running at most `steps` instructions: the run goes on
    /// until an instruction fails, until an executed operation asks it to
    /// stop, or until the steps are used up.
    pub open spec fn ran(self, steps: nat) -> Ran
        decreases steps,
    {
        if steps == 0 {
            Ran { state: self, result: Ok(Progress::Running) }
        } else {
            let stepped = self.stepped();
            match stepped.error {
                Some(error) => Ran { state: stepped.state, result: Err(error) },
                None => if stepped.state.stopped {
                    Ran { state: stepped.state, result: Ok(Progress::Halted) }
                } else {
                    stepped.state.ran((steps - 1) as nat)
                },
            }
        }
    }
}

impl Nes {
    /// Reads the byte at the program counter and moves the program counter
    /// past it.
    pub fn next_int(&mut self) -> (result: Int)
        requires
            is_mapped(old(self)@.register.program_counter),
        ensures
            result == old(self)@.memory[old(self)@.register.program_counter],
            final(self)@ == old(self)@.advanced(1),
    {
        let result = self.memory.read(self.register.program_counter);
        self.register.program_counter = self.register.program_counter.wrapping_add(1);
        result
    }

    /// Reads the little-endian 16-bit value at the program counter and
    /// moves the program counter past it.
    pub fn next_address(&mut self) -> (result: memory::Address)
        requires
            is_mapped(old(self)@.register.program_counter),
            is_mapped(following(old(self)@.register.program_counter)),
        ensures
            result == word_in(old(self)@.memory, old(self)@.register.program_counter),
            final(self)@ == old(self)@.advanced(2),
    {
        let result = self.memory.read_u16(self.register.program_counter);
        self.register.program_counter = self.register.program_counter.wrapping_add(2);
        result
    }

    /// Copies `program` into the program ROM from its base on, and points
    /// the reset vector at that base. Bytes of the ROM beyond the program
    /// keep their value.
    pub fn load(&mut self, program: &[Int])
        requires
            program@.len() <= PROGRAM_ROM_SIZE,
        ensures
            final(self)@ == (State {
                memory: loaded(old(self)@.memory, program@),
                ..old(self)@
            }),
    {
        let mut index: usize = 0;
        while index < program.len()
            invariant
                index <= program@.len() <= PROGRAM_ROM_SIZE,
                self.register == old(self).register,
                self.stop == old(self).stop,
                self.memory.ram == old(self).memory.ram,
                forall|i: int| 0 <= i < index ==> self.memory.program_rom@[i] == program@[i],
                forall|i: int|
                    index <= i < 0x8000 ==> self.memory.program_rom@[i] == old(
                        self,
                    ).memory.program_rom@[i],
            decreases program@.len() - index,
        {
            self.memory.program_rom[index] = program[index];
            index += 1;
        }
        self.memory.write_u16(PROGRAM_COUNTER_RESET, PROGRAM_ROM_START);
        assert(self@.memory =~= loaded(old(self)@.memory, program@));
    }

    /// Loads as much of `from` as the program ROM holds, and returns the
    /// number of bytes taken.
    pub fn load_from(&mut self, from: &[Int]) -> (count: usize)
        ensures
            count == if from@.len() <= PROGRAM_ROM_SIZE {
                from@.len()
            } else {
                PROGRAM_ROM_SIZE as nat
            },
            final(self)@ == (State {
                memory: loaded(old(self)@.memory, from@.take(count as int)),
                ..old(self)@
            }),
    {
        let count: usize = if from.len() <= 0x8000 {
            from.len()
        } else {
            0x8000
        };
        let mut index: usize = 0;
        while index < count
            invariant
                index <= count <= PROGRAM_ROM_SIZE,
                count <= from@.len(),
                self.register == old(self).register,
                self.stop == old(self).stop,
                self.memory.ram == old(self).memory.ram,
                forall|i: int| 0 <= i < index ==> self.memory.program_rom@[i] == from@[i],
                forall|i: int|
                    index <= i < 0x8000 ==> self.memory.program_rom@[i] == old(
                        self,
                    ).memory.program_rom@[i],
            decreases count - index,
        {
            self.memory.program_rom[index] = from[index];
            index += 1;
        }
        self.memory.write_u16(PROGRAM_COUNTER_RESET, PROGRAM_ROM_START);
        assert(self@.memory =~= loaded(old(self)@.memory, from@.take(count as int)));
        count
    }

    /// Puts the registers back to their defaults, takes the program
    /// counter from the reset vector and makes the run loop ready. Memory
    /// stays.
    pub fn reset(&mut self)
        ensures
            final(self)@ == old(self)@.reset(),
    {
        self.register = registers::Nes::default();
        self.register.program_counter = self.memory.read_u16(PROGRAM_COUNTER_RESET);
        self.stop = false;
    }

    /// Decodes and executes the instruction at the program counter.
    pub fn step(&mut self) -> (result: Result<(), Error>)
        ensures
            final(self)@ == old(self)@.stepped().state,
            match result {
                Ok(_) => old(self)@.stepped().error is None,
                Err(error) => old(self)@.stepped().error == Some(error),
            },
    {
        let counter = self.register.program_counter;
        if !self.can_fetch() {
            return Err(Error::UnmappedAccess { program_counter: counter });
        }
        match self.next_operation() {
            Err(error) => Err(error),
            Ok(operation) => {
                proof {
                    lemma_decodes_one_operation(old(self)@, operation, decoded(old(self)@));
                }
                if !self.can_execute(operation) {
                    return Err(Error::UnmappedAccess { program_counter: counter });
                }
                self.execute(operation)
            },
        }
    }

    /// Runs from the program counter on, for at most `steps` instructions.
    ///
    /// The run halts when an executed operation asks for it, and fails
    /// when an instruction does. An instruction runs even where a stop was
    /// asked for before the call.
    pub fn resume(&mut self, steps: u64) -> (result: Result<Progress, Error>)
        ensures
            final(self)@ == old(self)@.ran(steps as nat).state,
            result == old(self)@.ran(steps as nat).result,
    {
        let mut left = steps;
        while left > 0
            invariant
                self@.ran(left as nat) == old(self)@.ran(steps as nat),
            decreases left,
        {
            match self.step() {
                Err(error) => {
                    return Err(error);
                },
                Ok(_) => {
                    if self.stop {
                        return Ok(Progress::Halted);
                    }
                },
            }
            left -= 1;
        }
        Ok(Progress::Running)
    }

    /// Resets the processor and runs from the address in the reset vector,
    /// for at most `steps` instructions.
    pub fn start(&mut self, steps: u64) -> (result: Result<Progress, Error>)
        ensures
            final(self)@ == old(self)@.reset().ran(steps as nat).state,
            result == old(self)@.reset().ran(steps as nat).result,
    {
        self.reset();
        self.resume(steps)
    }

    /// Resets the processor and runs from `instructions`, whatever the
    /// reset vector holds, for at most `steps` instructions.
    pub fn start_from(&mut self, instructions: memory::Address, steps: u64) -> (result: Result<
        Progress,
        Error,
    >)
        ensures
            final(self)@ == old(self)@.reset().jumped(instructions).ran(steps as nat).state,
            result == old(self)@.reset().jumped(instructions).ran(steps as nat).result,
    {
        self.reset();
        self.register.program_counter = instructions;
        self.resume(steps)
    }
}

impl Nes {
    /// Loads `program`, if there is one, resets the processor and runs for
    /// at most `steps` instructions: from `start_address` if one is given,
    /// else from the address in the reset vector.
    pub fn run(
        &mut self,
        program: Option<&[Int]>,
        start_address: Option<memory::Address>,
        steps: u64,
    ) -> (result: Result<Progress, Error>)
        ensures
            final(self)@ == launched(old(self)@, program, start_address).ran(steps as nat).state,
            result == launched(old(self)@, program, start_address).ran(steps as nat).result,
    {
        if let Some(bytes) = program {
            self.load_from(bytes);
        }
        match start_address {
            None => self.start(steps),
            Some(address) => self.start_from(address, steps),
        }
    }
}

impl Default for Nes {
    /// A processor with zeroed registers and zeroed memory, not stopped.
    fn default() -> (cpu: Self)
        ensures
            cpu@.register == registers::Nes::zeroed(),
            cpu@.memory == Map::new(
                |address: memory::Address| memory::is_mapped(address),
                |address: memory::Address| 0u8,
            ),
            !cpu@.stopped,
    {
        Nes { register: registers::Nes::default(), memory: memory::Nes::default(), stop: false }
    }
}

} // verus!
