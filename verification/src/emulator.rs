//! The interpreter: one call runs one fetch-decode-execute cycle.

use vstd::prelude::*;
use crate::instruction::{decoded, Instruction};
use crate::keyboard::{hexkey_of, Keyboard};
use crate::memory::{overlay, word_at, Memory, MEMORY_SIZE, PROGRAM_START};
use crate::processor::{Fault, Processor, ProcessorState, TimerState, STACK_CAPACITY, REGISTER_COUNT, TIMER_INTERVAL_NANOS};
use crate::renderer::{blit, collides, Renderer, PIXEL_COUNT};

verus! {

/// How a cycle that did not stop the machine ended.
#[derive(Clone, Copy, Debug, PartialEq, Eq, Structural)]
pub enum Outcome {
    /// The instruction was carried out.
    Executed,
    /// The instruction waits for a key and none is held. The program
    /// counter is back on the instruction, so the next cycle tries it
    /// again.
    AwaitingKey,
    /// The word stands for no instruction. Nothing was done.
    Unrecognized { opcode: u16 },
}

/// Processor and memory, as plain mathematical values.
#[verifier::ext_equal]
pub struct Machine {
    pub processor: ProcessorState,
    pub memory: Seq<u8>,
}

impl Machine {
    /// A well-formed processor beside 4096 bytes of memory.
    pub open spec fn wf(self) -> bool {
        &&& self.processor.wf()
        &&& self.memory.len() == MEMORY_SIZE
    }

    /// This machine with its processor in state `processor`.
    pub open spec fn on(self, processor: ProcessorState) -> Machine {
        Machine { processor, ..self }
    }
}

/// Where a cycle leaves the machine and the display, and how it ended.
#[verifier::ext_equal]
pub struct Transition {
    pub machine: Machine,
    pub screen: Seq<u8>,
    pub result: Result<Outcome, Fault>,
}

/// The instruction was carried out and left `machine` and `screen`.
pub open spec fn done(machine: Machine, screen: Seq<u8>) -> Transition {
    Transition { machine, screen, result: Ok(Outcome::Executed) }
}

/// The machine stopped on `fault` with `machine` and `screen` as they were
/// before the instruction.
pub open spec fn halted(machine: Machine, screen: Seq<u8>, fault: Fault) -> Transition {
    Transition { machine, screen, result: Err(fault) }
}

/// A display with every cell off.
pub open spec fn blank_screen() -> Seq<u8> {
    Seq::new(PIXEL_COUNT as nat, |cell: int| 0u8)
}

/// Whether `key` is a held key and the one that `wanted` names.
pub open spec fn key_is(key: u8, wanted: u8) -> bool {
    key < 16 && key == wanted
}

/// Whether the `count` bytes at `base` lie within `memory`.
pub open spec fn in_memory(base: u16, count: int) -> bool {
    count <= 0 || base + count <= MEMORY_SIZE
}

/// The `count` bytes of `memory` from `base` on.
pub open spec fn bytes_at(memory: Seq<u8>, base: u16, count: int) -> Seq<u8> {
    Seq::new(count as nat, |i: int| memory[base + i])
}

/// The three decimal digits of `value`: hundreds, tens, ones.
pub open spec fn decimal_digits(value: u8) -> Seq<u8> {
    seq![value / 100, (value / 10) % 10, value % 10]
}

/// What `instruction` does to a machine whose program counter is already
/// past it, while the keypad reports `key` and the random source gives
/// `random`.
pub open spec fn execution(
    m: Machine,
    screen: Seq<u8>,
    instruction: Instruction,
    key: u8,
    random: u8,
) -> Transition {
    let cpu = m.processor;
    match instruction {
        Instruction::ClearScreen => done(m, blank_screen()),
        Instruction::Return => if cpu.stack.len() == 0 {
            halted(m, screen, Fault::StackUnderflow)
        } else {
            done(
                m.on(
                    ProcessorState {
                        program_counter: cpu.stack.last() as nat,
                        stack: cpu.stack.drop_last(),
                        ..cpu
                    },
                ),
                screen,
            )
        },
        Instruction::Jump { target } => done(m.on(cpu.at(target as nat)), screen),
        Instruction::Call { target } => if cpu.stack.len() >= STACK_CAPACITY {
            halted(m, screen, Fault::StackOverflow)
        } else {
            done(
                m.on(
                    ProcessorState {
                        program_counter: target as nat,
                        stack: cpu.stack.push(cpu.program_counter as u16),
                        ..cpu
                    },
                ),
                screen,
            )
        },
        Instruction::SkipIfEqual { x, value } => done(
            m.on(cpu.skip_if(cpu.register(x) == value)),
            screen,
        ),
        Instruction::SkipIfNotEqual { x, value } => done(
            m.on(cpu.skip_if(cpu.register(x) != value)),
            screen,
        ),
        Instruction::SkipIfSame { x, y } => done(
            m.on(cpu.skip_if(cpu.register(x) == cpu.register(y))),
            screen,
        ),
        Instruction::SkipIfDifferent { x, y } => done(
            m.on(cpu.skip_if(cpu.register(x) != cpu.register(y))),
            screen,
        ),
        Instruction::Load { x, value } => done(m.on(cpu.with_register(x, value)), screen),
        Instruction::Add { x, value } => done(
            m.on(cpu.with_register(x, ((cpu.register(x) + value) % 256) as u8)),
            screen,
        ),
        Instruction::Move { x, y } => done(m.on(cpu.with_register(x, cpu.register(y))), screen),
        Instruction::Or { x, y } => done(
            m.on(cpu.with_register(x, cpu.register(x) | cpu.register(y))),
            screen,
        ),
        Instruction::And { x, y } => done(
            m.on(cpu.with_register(x, cpu.register(x) & cpu.register(y))),
            screen,
        ),
        Instruction::Xor { x, y } => done(
            m.on(cpu.with_register(x, cpu.register(x) ^ cpu.register(y))),
            screen,
        ),
        Instruction::AddRegister { x, y } => {
            let sum = cpu.register(x) + cpu.register(y);
            done(m.on(cpu.with_register(x, (sum % 256) as u8).with_flag(sum >= 256)), screen)
        },
        Instruction::Subtract { x, y } => {
            let difference = cpu.register(x) - cpu.register(y);
            done(
                m.on(cpu.with_register(x, (difference % 256) as u8).with_flag(difference < 0)),
                screen,
            )
        },
        Instruction::SubtractFrom { x, y } => {
            let difference = cpu.register(y) - cpu.register(x);
            done(
                m.on(cpu.with_register(x, (difference % 256) as u8).with_flag(difference < 0)),
                screen,
            )
        },
        Instruction::ShiftRight { x } => {
            let value = cpu.register(x);
            done(m.on(cpu.with_flag(value % 2 == 1).with_register(x, value / 2)), screen)
        },
        Instruction::ShiftLeft { x } => {
            let value = cpu.register(x);
            done(
                m.on(cpu.with_flag(value >= 128).with_register(x, ((value * 2) % 256) as u8)),
                screen,
            )
        },
        Instruction::LoadAddress { target } => done(
            m.on(ProcessorState { address_register: target, ..cpu }),
            screen,
        ),
        Instruction::Random { x, mask } => done(m.on(cpu.with_register(x, random & mask)), screen),
        Instruction::Draw { x, y, height } => if !in_memory(cpu.address_register, height as int) {
            halted(m, screen, Fault::MemoryOutOfRange)
        } else {
            let rows = bytes_at(m.memory, cpu.address_register, height as int);
            let column = cpu.register(x);
            let row = cpu.register(y);
            done(
                m.on(cpu.with_flag(collides(screen, column, row, rows))),
                blit(screen, column, row, rows),
            )
        },
        Instruction::SkipIfKey { x } => done(
            m.on(cpu.skip_if(key_is(key, cpu.register(x)))),
            screen,
        ),
        Instruction::SkipIfNotKey { x } => done(
            m.on(cpu.skip_if(!key_is(key, cpu.register(x)))),
            screen,
        ),
        Instruction::ReadTimer { x } => done(
            m.on(cpu.with_register(x, cpu.delay_timer.value)),
            screen,
        ),
        Instruction::WaitKey { x } => if key < 16 {
            done(m.on(cpu.with_register(x, key)), screen)
        } else {
            Transition {
                machine: m.on(cpu.at((cpu.program_counter - 2) as nat)),
                screen,
                result: Ok(Outcome::AwaitingKey),
            }
        },
        Instruction::SetTimer { x } => done(
            m.on(
                ProcessorState {
                    delay_timer: TimerState { value: cpu.register(x), ..cpu.delay_timer },
                    ..cpu
                },
            ),
            screen,
        ),
        Instruction::SetSound { x } => done(m, screen),
        Instruction::AddToAddress { x } => done(
            m.on(
                ProcessorState {
                    address_register: ((cpu.address_register + cpu.register(x)) % 0x1_0000) as u16,
                    ..cpu
                },
            ),
            screen,
        ),
        Instruction::Glyph { x } => done(
            m.on(ProcessorState { address_register: (cpu.register(x) * 5) as u16, ..cpu }),
            screen,
        ),
        Instruction::Decimal { x } => if !in_memory(cpu.address_register, 3) {
            halted(m, screen, Fault::MemoryOutOfRange)
        } else {
            done(
                Machine {
                    memory: overlay(
                        m.memory,
                        cpu.address_register as int,
                        decimal_digits(cpu.register(x)),
                    ),
                    ..m
                },
                screen,
            )
        },
        Instruction::Store { x } => if !in_memory(cpu.address_register, x + 1) {
            halted(m, screen, Fault::MemoryOutOfRange)
        } else {
            done(
                Machine {
                    memory: overlay(m.memory, cpu.address_register as int, cpu.registers.take(x + 1)),
                    ..m
                },
                screen,
            )
        },
        Instruction::Restore { x } => if !in_memory(cpu.address_register, x + 1) {
            halted(m, screen, Fault::MemoryOutOfRange)
        } else {
            done(
                m.on(
                    ProcessorState {
                        registers: overlay(
                            cpu.registers,
                            0,
                            bytes_at(m.memory, cpu.address_register, x + 1),
                        ),
                        ..cpu
                    },
                ),
                screen,
            )
        },
        Instruction::Unknown { opcode } => Transition {
            machine: m,
            screen,
            result: Ok(Outcome::Unrecognized { opcode }),
        },
    }
}

/// Whether an instruction can be fetched at the program counter of `m`.
pub open spec fn can_fetch(m: Machine) -> bool {
    m.processor.program_counter + 1 < MEMORY_SIZE
}

/// The instruction at the program counter of `m`.
pub open spec fn next_instruction(m: Machine) -> Instruction {
    decoded(word_at(m.memory, m.processor.program_counter as int) as u16)
}

/// The machine after the timer was ticked at clock reading `now` and the
/// program counter went past the instruction it was on.
pub open spec fn fetched(m: Machine, now: u128) -> Machine {
    m.on(
        ProcessorState {
            program_counter: m.processor.program_counter + 2,
            delay_timer: m.processor.delay_timer.tick(now),
            ..m.processor
        },
    )
}

/// One cycle at clock reading `now`: if no instruction can be fetched the
/// machine stops as it is; otherwise the timer ticks, the instruction at
/// the program counter is fetched and carried out.
pub open spec fn step(m: Machine, screen: Seq<u8>, key: u8, now: u128, random: u8) -> Transition {
    if can_fetch(m) {
        execution(fetched(m, now), screen, next_instruction(m), key, random)
    } else {
        halted(m, screen, Fault::AddressSpaceExhausted)
    }
}

/// A byte from the thread's random number generator.
///
/// Trusted: calls `rand::random::<u8>()`. Nothing is claimed of the byte.
#[verifier::external_body]
fn random_byte() -> (byte: u8) {
    rand::random::<u8>()
}

/// Processor and memory of one machine.
pub struct Emulator {
    pub proc: Processor,
    pub mem: Memory,
}

impl View for Emulator {
    type V = Machine;

    open spec fn view(&self) -> Machine {
        Machine { processor: self.proc@, memory: self.mem@ }
    }
}

impl Emulator {
    /// The processor is well formed.
    pub open spec fn wf(&self) -> bool {
        self.proc.wf()
    }

    /// A machine with zeroed memory and registers, an empty stack and the
    /// program counter at zero.
    pub fn new() -> (emulator: Self)
        ensures
            emulator.wf(),
            emulator@ == (Machine {
                processor: ProcessorState {
                    registers: Seq::new(REGISTER_COUNT as nat, |i: int| 0u8),
                    address_register: 0,
                    program_counter: 0,
                    stack: Seq::empty(),
                    delay_timer: TimerState {
                        value: 0,
                        last_update: 0,
                        interval: TIMER_INTERVAL_NANOS,
                    },
                },
                memory: Seq::new(MEMORY_SIZE as nat, |i: int| 0u8),
            }),
    {
        Emulator { proc: Processor::default(), mem: Memory::new() }
    }

    /// Puts the program counter on the first instruction of the program.
    pub fn prepare(&mut self)
        ensures
            final(self).wf() == old(self).wf(),
            final(self)@ == old(self)@.on(old(self)@.processor.at(PROGRAM_START as nat)),
    {
        self.proc.program_counter = 0x200;
    }

    /// One cycle at the current time, with the key that `keyboard` holds
    /// and, where the instruction asks for one, a fresh random byte.
    ///
    /// The cycle is `step` at some clock reading and with some random
    /// byte: which ones is not known before the call.
    pub fn clock(&mut self, renderer: &mut Renderer, keyboard: &mut Keyboard) -> (result: Result<
        Outcome,
        Fault,
    >)
        requires
            old(self).wf(),
            old(renderer).wf(),
        ensures
            final(self).wf(),
            final(renderer).wf(),
            *final(keyboard) == *old(keyboard),
            exists|now: u128, random: u8|
                (Transition { machine: final(self)@, screen: final(renderer)@, result }) == #[trigger] step(
                    old(self)@,
                    old(renderer)@,
                    hexkey_of(old(keyboard).last_key_pressed),
                    now,
                    random,
                ),
    {
        let now: u128 = self.proc.delay_timer.now();
        let key: u8 = keyboard.get_hexkey_pressed();
        match self.fetch(now) {
            Err(fault) => {
                assert((Transition { machine: self@, screen: renderer@, result: Err(fault) })
                    == step(old(self)@, old(renderer)@, key, now, 0));
                Err(fault)
            },
            Ok(instruction) => {
                let random: u8 = match instruction {
                    Instruction::Random { .. } => random_byte(),
                    _ => 0,
                };
                let result = self.execute(instruction, renderer, key, random);
                assert((Transition { machine: self@, screen: renderer@, result }) == step(
                    old(self)@,
                    old(renderer)@,
                    key,
                    now,
                    random,
                ));
                result
            },
        }
    }

    /// One cycle at clock reading `now`, while the keypad reports `key`
    /// (a hexadecimal digit, or anything above 15 for none) and the random
    /// source gives `random`.
    pub fn cycle(&mut self, renderer: &mut Renderer, key: u8, now: u128, random: u8) -> (result:
        Result<Outcome, Fault>)
        requires
            old(self).wf(),
            old(renderer).wf(),
        ensures
            final(self).wf(),
            final(renderer).wf(),
            (Transition { machine: final(self)@, screen: final(renderer)@, result }) == step(
                old(self)@,
                old(renderer)@,
                key,
                now,
                random,
            ),
    {
        match self.fetch(now) {
            Err(fault) => Err(fault),
            Ok(instruction) => self.execute(instruction, renderer, key, random),
        }
    }

    /// The first half of a cycle: unless the program counter is too close
    /// to the end of memory for an instruction to be read, ticks the timer
    /// at clock reading `now`, reads the instruction at the program counter
    /// and moves the program counter past it.
    pub fn fetch(&mut self, now: u128) -> (result: Result<Instruction, Fault>)
        requires
            old(self).wf(),
        ensures
            final(self).wf(),
            can_fetch(old(self)@) ==> result == Ok::<Instruction, Fault>(
                next_instruction(old(self)@),
            ) && final(self)@ == fetched(old(self)@, now) && next_instruction(old(self)@).wf(),
            !can_fetch(old(self)@) ==> result == Err::<Instruction, Fault>(
                Fault::AddressSpaceExhausted,
            ) && *final(self) == *old(self),
    {
        if self.proc.program_counter >= 4095 {
            return Err(Fault::AddressSpaceExhausted);
        }
        self.proc.delay_timer.clock_at(now);
        let opcode: u16 = self.mem.read_instruction(self.proc.program_counter);
        self.proc.program_counter += 2;
        Ok(Instruction::decode(opcode))
    }

    /// The second half of a cycle: carries out an instruction that was
    /// fetched, the program counter being past it already.
    pub fn execute(
        &mut self,
        instruction: Instruction,
        renderer: &mut Renderer,
        key: u8,
        random: u8,
    ) -> (result: Result<Outcome, Fault>)
        requires
            old(self).wf(),
            old(renderer).wf(),
            instruction.wf(),
            2 <= old(self).proc.program_counter <= MEMORY_SIZE,
        ensures
            final(self).wf(),
            final(renderer).wf(),
            (Transition { machine: final(self)@, screen: final(renderer)@, result }) == execution(
                old(self)@,
                old(renderer)@,
                instruction,
                key,
                random,
            ),
    {
        match instruction {
            Instruction::ClearScreen => {
                renderer.clear_pixels();
                Ok(Outcome::Executed)
            },
            Instruction::Return
            | Instruction::Jump { .. }
            | Instruction::Call { .. }
            | Instruction::SkipIfEqual { .. }
            | Instruction::SkipIfNotEqual { .. }
            | Instruction::SkipIfSame { .. }
            | Instruction::SkipIfDifferent { .. }
            | Instruction::SkipIfKey { .. }
            | Instruction::SkipIfNotKey { .. }
            | Instruction::WaitKey { .. } => self.branch(instruction, key),
            Instruction::Load { .. }
            | Instruction::Add { .. }
            | Instruction::Move { .. }
            | Instruction::Or { .. }
            | Instruction::And { .. }
            | Instruction::Xor { .. }
            | Instruction::Random { .. }
            | Instruction::ReadTimer { .. } => self.assign(instruction, random),
            Instruction::AddRegister { .. }
            | Instruction::Subtract { .. }
            | Instruction::SubtractFrom { .. }
            | Instruction::ShiftRight { .. }
            | Instruction::ShiftLeft { .. } => self.compute(instruction),
            Instruction::LoadAddress { .. }
            | Instruction::AddToAddress { .. }
            | Instruction::Glyph { .. }
            | Instruction::SetTimer { .. }
            | Instruction::SetSound { .. } => self.configure(instruction),
            Instruction::Draw { x, y, height } => self.draw(renderer, x, y, height),
            Instruction::Decimal { x } => self.store_decimal(x),
            Instruction::Store { x } => self.store_registers(x),
            Instruction::Restore { x } => self.load_registers(x),
            Instruction::Unknown { opcode } => Ok(Outcome::Unrecognized { opcode }),
        }
    }

    /// Carries out an instruction that moves the program counter: a jump,
    /// a call, a return, a conditional skip or the wait for a key.
    fn branch(&mut self, instruction: Instruction, key: u8) -> (result: Result<Outcome, Fault>)
        requires
            old(self).wf(),
            instruction.wf(),
            2 <= old(self).proc.program_counter <= MEMORY_SIZE,
            instruction is Return || instruction is Jump || instruction is Call
                || instruction is SkipIfEqual || instruction is SkipIfNotEqual
                || instruction is SkipIfSame || instruction is SkipIfDifferent
                || instruction is SkipIfKey || instruction is SkipIfNotKey
                || instruction is WaitKey,
        ensures
            final(self).wf(),
            forall|screen: Seq<u8>, random: u8|
                (Transition { machine: final(self)@, screen, result }) == #[trigger] execution(
                    old(self)@,
                    screen,
                    instruction,
                    key,
                    random,
                ),
    {
        match instruction {
            Instruction::Return => {
                match self.proc.pop_stack() {
                    Ok(address) => {
                        self.proc.program_counter = address as usize;
                    },
                    Err(fault) => {
                        return Err(fault);
                    },
                }
            },
            Instruction::Jump { target } => {
                self.proc.program_counter = target as usize;
            },
            Instruction::Call { target } => {
                match self.proc.push_stack(self.proc.program_counter as u16) {
                    Ok(()) => {
                        self.proc.program_counter = target as usize;
                    },
                    Err(fault) => {
                        return Err(fault);
                    },
                }
            },
            Instruction::SkipIfEqual { x, value } => {
                if self.proc.get_register(x) == value {
                    self.proc.program_counter += 2;
                }
            },
            Instruction::SkipIfNotEqual { x, value } => {
                if self.proc.get_register(x) != value {
                    self.proc.program_counter += 2;
                }
            },
            Instruction::SkipIfSame { x, y } => {
                if self.proc.get_register(x) == self.proc.get_register(y) {
                    self.proc.program_counter += 2;
                }
            },
            Instruction::SkipIfDifferent { x, y } => {
                if self.proc.get_register(x) != self.proc.get_register(y) {
                    self.proc.program_counter += 2;
                }
            },
            Instruction::SkipIfKey { x } => {
                if key < 16 && key == self.proc.get_register(x) {
                    self.proc.program_counter += 2;
                }
            },
            Instruction::SkipIfNotKey { x } => {
                if !(key < 16 && key == self.proc.get_register(x)) {
                    self.proc.program_counter += 2;
                }
            },
            Instruction::WaitKey { x } => {
                if key < 16 {
                    self.proc.set_register(x, key);
                } else {
                    self.proc.program_counter -= 2;
                    return Ok(Outcome::AwaitingKey);
                }
            },
            _ => {},
        }
        Ok(Outcome::Executed)
    }

    /// Carries out an instruction that writes one register and no flag.
    fn assign(&mut self, instruction: Instruction, random: u8) -> (result: Result<Outcome, Fault>)
        requires
            old(self).wf(),
            instruction.wf(),
            instruction is Load || instruction is Add || instruction is Move || instruction is Or
                || instruction is And || instruction is Xor || instruction is Random
                || instruction is ReadTimer,
        ensures
            final(self).wf(),
            forall|screen: Seq<u8>, key: u8|
                (Transition { machine: final(self)@, screen, result }) == #[trigger] execution(
                    old(self)@,
                    screen,
                    instruction,
                    key,
                    random,
                ),
    {
        match instruction {
            Instruction::Load { x, value } => {
                self.proc.set_register(x, value);
            },
            Instruction::Add { x, value } => {
                let sum: u8 = self.proc.get_register(x).wrapping_add(value);
                self.proc.set_register(x, sum);
            },
            Instruction::Move { x, y } => {
                let value: u8 = self.proc.get_register(y);
                self.proc.set_register(x, value);
            },
            Instruction::Or { x, y } => {
                let value: u8 = self.proc.get_register(x) | self.proc.get_register(y);
                self.proc.set_register(x, value);
            },
            Instruction::And { x, y } => {
                let value: u8 = self.proc.get_register(x) & self.proc.get_register(y);
                self.proc.set_register(x, value);
            },
            Instruction::Xor { x, y } => {
                let value: u8 = self.proc.get_register(x) ^ self.proc.get_register(y);
                self.proc.set_register(x, value);
            },
            Instruction::Random { x, mask } => {
                self.proc.set_register(x, random & mask);
            },
            Instruction::ReadTimer { x } => {
                let value: u8 = self.proc.delay_timer.value;
                self.proc.set_register(x, value);
            },
            _ => {},
        }
        Ok(Outcome::Executed)
    }

    /// Carries out an instruction that writes a register and the flags
    /// register.
    fn compute(&mut self, instruction: Instruction) -> (result: Result<Outcome, Fault>)
        requires
            old(self).wf(),
            instruction.wf(),
            instruction is AddRegister || instruction is Subtract || instruction is SubtractFrom
                || instruction is ShiftRight || instruction is ShiftLeft,
        ensures
            final(self).wf(),
            forall|screen: Seq<u8>, key: u8, random: u8|
                (Transition { machine: final(self)@, screen, result }) == #[trigger] execution(
                    old(self)@,
                    screen,
                    instruction,
                    key,
                    random,
                ),
    {
        match instruction {
            Instruction::AddRegister { x, y } => {
                let left: u8 = self.proc.get_register(x);
                let right: u8 = self.proc.get_register(y);
                self.set_then_flag(x, left.wrapping_add(right), right > 255 - left);
            },
            Instruction::Subtract { x, y } => {
                let left: u8 = self.proc.get_register(x);
                let right: u8 = self.proc.get_register(y);
                self.set_then_flag(x, left.wrapping_sub(right), left < right);
            },
            Instruction::SubtractFrom { x, y } => {
                let left: u8 = self.proc.get_register(y);
                let right: u8 = self.proc.get_register(x);
                self.set_then_flag(x, left.wrapping_sub(right), left < right);
            },
            Instruction::ShiftRight { x } => {
                let value: u8 = self.proc.get_register(x);
                assert(((value & 1) == 1) == (value % 2 == 1) && value >> 1 == value / 2)
                    by (bit_vector);
                self.flag_then_set((value & 1) == 1, x, value >> 1);
            },
            Instruction::ShiftLeft { x } => {
                let value: u8 = self.proc.get_register(x);
                assert(((value & 128) == 128) == (value >= 128) && value << 1 == (value * 2) % 256)
                    by (bit_vector);
                self.flag_then_set((value & 128) == 128, x, value << 1);
            },
            _ => {},
        }
        Ok(Outcome::Executed)
    }

    /// Writes `value` to register `x`, then `flag` to the flags register.
    fn set_then_flag(&mut self, x: u8, value: u8, flag: bool)
        ensures
            final(self).wf() == old(self).wf(),
            final(self)@ == old(self)@.on(old(self)@.processor.with_register(x, value).with_flag(flag)),
    {
        self.proc.set_register(x, value);
        self.proc.set_register(0xF, if flag { 1 } else { 0 });
    }

    /// Writes `flag` to the flags register, then `value` to register `x`.
    fn flag_then_set(&mut self, flag: bool, x: u8, value: u8)
        ensures
            final(self).wf() == old(self).wf(),
            final(self)@ == old(self)@.on(old(self)@.processor.with_flag(flag).with_register(x, value)),
    {
        self.proc.set_register(0xF, if flag { 1 } else { 0 });
        self.proc.set_register(x, value);
    }

    /// Carries out an instruction that sets the address register or a
    /// timer.
    fn configure(&mut self, instruction: Instruction) -> (result: Result<Outcome, Fault>)
        requires
            old(self).wf(),
            instruction.wf(),
            instruction is LoadAddress || instruction is AddToAddress || instruction is Glyph
                || instruction is SetTimer || instruction is SetSound,
        ensures
            final(self).wf(),
            forall|screen: Seq<u8>, key: u8, random: u8|
                (Transition { machine: final(self)@, screen, result }) == #[trigger] execution(
                    old(self)@,
                    screen,
                    instruction,
                    key,
                    random,
                ),
    {
        match instruction {
            Instruction::LoadAddress { target } => {
                self.proc.address_register = target;
            },
            Instruction::AddToAddress { x } => {
                let offset: u16 = self.proc.get_register(x) as u16;
                self.proc.address_register = self.proc.address_register.wrapping_add(offset);
            },
            Instruction::Glyph { x } => {
                self.proc.address_register = self.proc.get_register(x) as u16 * 5;
            },
            Instruction::SetTimer { x } => {
                self.proc.delay_timer.value = self.proc.get_register(x);
            },
            _ => {},
        }
        Ok(Outcome::Executed)
    }

    /// Draws the sprite of `height` rows that the address register points
    /// at, at the position held by registers `x` and `y`; the flags
    /// register says whether a lit cell went off.
    fn draw(&mut self, renderer: &mut Renderer, x: u8, y: u8, height: u8) -> (result: Result<
        Outcome,
        Fault,
    >)
        requires
            old(self).wf(),
            old(renderer).wf(),
            x < 16,
            y < 16,
            height < 16,
        ensures
            final(self).wf(),
            final(renderer).wf(),
            forall|key: u8, random: u8|
                (Transition { machine: final(self)@, screen: final(renderer)@, result })
                    == #[trigger] execution(
                    old(self)@,
                    old(renderer)@,
                    Instruction::Draw { x, y, height },
                    key,
                    random,
                ),
    {
        let base: usize = self.proc.address_register as usize;
        let count: usize = height as usize;
        if count > 0 && base + count > 4096 {
            return Err(Fault::MemoryOutOfRange);
        }
        let mut sprite: Vec<u8> = Vec::new();
        let mut i: usize = 0;
        while i < count
            invariant
                i <= count,
                count == 0 || base + count <= 4096,
                base == self.proc.address_register,
                sprite@ == bytes_at(self.mem@, self.proc.address_register, i as int),
            decreases count - i,
        {
            sprite.push(self.mem.read_data(base + i));
            i += 1;
            assert(sprite@ =~= bytes_at(self.mem@, self.proc.address_register, i as int));
        }
        let column: u8 = self.proc.get_register(x);
        let row: u8 = self.proc.get_register(y);
        let collision: bool = renderer.draw_sprite(column, row, sprite);
        self.proc.set_register(0xF, if collision { 1 } else { 0 });
        Ok(Outcome::Executed)
    }

    /// Writes the decimal digits of register `x` to the three bytes that
    /// the address register points at.
    fn store_decimal(&mut self, x: u8) -> (result: Result<Outcome, Fault>)
        requires
            old(self).wf(),
            x < 16,
        ensures
            final(self).wf(),
            forall|screen: Seq<u8>, key: u8, random: u8|
                (Transition { machine: final(self)@, screen, result }) == #[trigger] execution(
                    old(self)@,
                    screen,
                    Instruction::Decimal { x },
                    key,
                    random,
                ),
    {
        let base: usize = self.proc.address_register as usize;
        if base + 3 > 4096 {
            return Err(Fault::MemoryOutOfRange);
        }
        let value: u8 = self.proc.get_register(x);
        self.mem.write_data(base, value / 100);
        self.mem.write_data(base + 1, (value / 10) % 10);
        self.mem.write_data(base + 2, value % 10);
        assert(self.mem@ =~= overlay(old(self).mem@, base as int, decimal_digits(value)));
        Ok(Outcome::Executed)
    }

    /// Copies the registers from 0 to `x` to the bytes that the address
    /// register points at.
    fn store_registers(&mut self, x: u8) -> (result: Result<Outcome, Fault>)
        requires
            old(self).wf(),
            x < 16,
        ensures
            final(self).wf(),
            forall|screen: Seq<u8>, key: u8, random: u8|
                (Transition { machine: final(self)@, screen, result }) == #[trigger] execution(
                    old(self)@,
                    screen,
                    Instruction::Store { x },
                    key,
                    random,
                ),
    {
        let base: usize = self.proc.address_register as usize;
        let count: usize = x as usize + 1;
        if base + count > 4096 {
            return Err(Fault::MemoryOutOfRange);
        }
        let values: [u8; 16] = self.proc.get_registers(x);
        let mut i: usize = 0;
        while i < count
            invariant
                i <= count,
                count == x + 1,
                x < 16,
                base + count <= 4096,
                self.proc == old(self).proc,
                forall|k: int| 0 <= k < count ==> values@[k] == self.proc@.registers[k],
                self.mem@ == overlay(old(self).mem@, base as int, self.proc@.registers.take(i as int)),
            decreases count - i,
        {
            self.mem.write_data(base + i, values[i]);
            i += 1;
            assert(self.mem@ =~= overlay(
                old(self).mem@,
                base as int,
                self.proc@.registers.take(i as int),
            ));
        }
        Ok(Outcome::Executed)
    }

    /// Fills the registers from 0 to `x` from the bytes that the address
    /// register points at.
    fn load_registers(&mut self, x: u8) -> (result: Result<Outcome, Fault>)
        requires
            old(self).wf(),
            x < 16,
        ensures
            final(self).wf(),
            forall|screen: Seq<u8>, key: u8, random: u8|
                (Transition { machine: final(self)@, screen, result }) == #[trigger] execution(
                    old(self)@,
                    screen,
                    Instruction::Restore { x },
                    key,
                    random,
                ),
    {
        let base: usize = self.proc.address_register as usize;
        let count: usize = x as usize + 1;
        if base + count > 4096 {
            return Err(Fault::MemoryOutOfRange);
        }
        let mut i: usize = 0;
        while i < count
            invariant
                i <= count,
                count == x + 1,
                x < 16,
                base + count <= 4096,
                base == old(self).proc.address_register,
                self.mem == old(self).mem,
                self.wf(),
                self@.processor == (ProcessorState {
                    registers: overlay(
                        old(self)@.processor.registers,
                        0,
                        bytes_at(self.mem@, old(self).proc.address_register, i as int),
                    ),
                    ..old(self)@.processor
                }),
            decreases count - i,
        {
            let value: u8 = self.mem.read_data(base + i);
            self.proc.set_register(i as u8, value);
            i += 1;
            assert(self@.processor.registers =~= overlay(
                old(self)@.processor.registers,
                0,
                bytes_at(self.mem@, old(self).proc.address_register, i as int),
            ));
        }
        Ok(Outcome::Executed)
    }
}

} // verus!
