//! Processor state: registers, address register, program counter, call
//! stack and the delay timer.

use vstd::prelude::*;

verus! {

/// Number of general registers.
pub const REGISTER_COUNT: usize = 16;

/// Index of the register that receives carry, borrow, shifted-out bits and
/// sprite collisions.
pub const FLAGS_REGISTER: u8 = 15;

/// Number of return addresses that the call stack can hold.
pub const STACK_CAPACITY: usize = 12;

/// Length of one delay-timer period in nanoseconds: a sixtieth of a second,
/// rounded down.
pub const TIMER_INTERVAL_NANOS: u128 = 16_666_666;

/// The conditions that stop the machine.
#[derive(Clone, Copy, Debug, PartialEq, Eq, Structural)]
pub enum Fault {
    /// The program counter left the range from which an instruction can be
    /// fetched.
    AddressSpaceExhausted,
    /// A call was made with the call stack full.
    StackOverflow,
    /// A return was made with the call stack empty.
    StackUnderflow,
    /// An instruction addressed memory through the address register beyond
    /// the last byte.
    MemoryOutOfRange,
}

#[verifier::external_type_specification]
#[verifier::external_body]
pub struct ExInstant(std::time::Instant);

/// The current reading of the monotonic clock.
///
/// Trusted: calls `std::time::Instant::now`. Nothing is claimed of the
/// reading.
#[verifier::external_body]
fn clock_origin() -> (origin: std::time::Instant) {
    std::time::Instant::now()
}

/// Nanoseconds that have passed on the monotonic clock since `origin`.
///
/// Trusted: calls `std::time::Instant::elapsed` and hands its `Duration`
/// out as whole nanoseconds (`Duration::as_nanos`). The reading differs
/// from call to call, so nothing is claimed of it.
#[verifier::external_body]
fn nanos_since(origin: &std::time::Instant) -> (nanos: u128) {
    origin.elapsed().as_nanos()
}

/// What a delay timer holds, as plain numbers.
pub struct TimerState {
    /// The counter, which decays to zero.
    pub value: u8,
    /// Clock reading, in nanoseconds, at which the last period was found
    /// to have passed.
    pub last_update: u128,
    /// Length of a period in nanoseconds.
    pub interval: u128,
}

impl TimerState {
    /// Time that has passed at `now` since the last update; none if the
    /// clock reads earlier than that update.
    pub open spec fn elapsed(self, now: u128) -> int {
        if now >= self.last_update {
            now - self.last_update
        } else {
            0
        }
    }

    /// Whether a whole period has passed at `now` since the last update.
    pub open spec fn due(self, now: u128) -> bool {
        self.elapsed(now) >= self.interval
    }

    /// The timer after one tick at clock reading `now`: if a period has
    /// passed, the counter is one lower (unless it is zero already) and the
    /// next period starts at `now`; otherwise nothing changes.
    pub open spec fn tick(self, now: u128) -> TimerState {
        if self.due(now) {
            TimerState {
                value: if self.value > 0 { (self.value - 1) as u8 } else { 0 },
                last_update: now,
                interval: self.interval,
            }
        } else {
            self
        }
    }

    /// The timer after a tick at each reading of `readings`, in order.
    pub open spec fn tick_all(self, readings: Seq<u128>) -> TimerState
        decreases readings.len(),
    {
        if readings.len() == 0 {
            self
        } else {
            self.tick(readings[0]).tick_all(readings.skip(1))
        }
    }
}

/// A counter that goes down by one per sixtieth of a second of real time,
/// however often it is ticked.
pub struct DelayTimer {
    pub value: u8,
    /// Nanoseconds since the timer was made, at the last update.
    pub last_update: u128,
    /// Nanoseconds per period.
    pub interval: u128,
    /// The moment from which this timer counts its nanoseconds.
    pub origin: std::time::Instant,
}

impl View for DelayTimer {
    type V = TimerState;

    open spec fn view(&self) -> TimerState {
        TimerState { value: self.value, last_update: self.last_update, interval: self.interval }
    }
}

impl DelayTimer {
    /// A timer at zero whose first period starts now.
    pub fn new() -> (timer: Self)
        ensures
            timer@ == (TimerState { value: 0, last_update: 0, interval: TIMER_INTERVAL_NANOS }),
    {
        DelayTimer {
            value: 0,
            last_update: 0,
            interval: TIMER_INTERVAL_NANOS,
            origin: clock_origin(),
        }
    }

    /// Nanoseconds on this timer's clock right now.
    ///
    /// The reading comes from the machine's monotonic clock and differs
    /// from call to call, so no clause speaks of it: `clock_at` says what
    /// a tick does for every reading.
    pub fn now(&self) -> (nanos: u128) {
        nanos_since(&self.origin)
    }

    /// One tick at the current time.
    pub fn clock(&mut self)
        ensures
            exists|now: u128| final(self)@ == old(self)@.tick(now),
    {
        let now: u128 = self.now();
        self.clock_at(now);
    }

    /// One tick at clock reading `now`.
    pub fn clock_at(&mut self, now: u128)
        ensures
            final(self)@ == old(self)@.tick(now),
    {
        let elapsed: u128 = if now >= self.last_update {
            now - self.last_update
        } else {
            0
        };
        if elapsed >= self.interval {
            if self.value > 0 {
                self.value -= 1;
            }
            self.last_update = now;
        }
    }
}

/// What a processor holds, as plain mathematical values.
#[verifier::ext_equal]
pub struct ProcessorState {
    /// The sixteen general registers.
    pub registers: Seq<u8>,
    pub address_register: u16,
    pub program_counter: nat,
    /// The return addresses of the calls in progress, oldest first.
    pub stack: Seq<u16>,
    pub delay_timer: TimerState,
}

impl ProcessorState {
    /// Sixteen registers, and no more calls in progress than the stack holds.
    pub open spec fn wf(self) -> bool {
        &&& self.registers.len() == REGISTER_COUNT
        &&& self.stack.len() <= STACK_CAPACITY
    }

    /// The value of register `index`; zero where there is no such register.
    pub open spec fn register(self, index: u8) -> u8 {
        if index < REGISTER_COUNT {
            self.registers[index as int]
        } else {
            0
        }
    }

    /// This state with `value` in register `index`; this state itself where
    /// there is no such register.
    pub open spec fn with_register(self, index: u8, value: u8) -> ProcessorState {
        if index < REGISTER_COUNT {
            ProcessorState { registers: self.registers.update(index as int, value), ..self }
        } else {
            self
        }
    }

    /// This state with `flag` in the flags register.
    pub open spec fn with_flag(self, flag: bool) -> ProcessorState {
        self.with_register(FLAGS_REGISTER, if flag { 1 } else { 0 })
    }

    /// This state with the program counter at `address`.
    pub open spec fn at(self, address: nat) -> ProcessorState {
        ProcessorState { program_counter: address, ..self }
    }

    /// This state with the program counter moved past one more instruction
    /// if `condition` holds; this state itself if not.
    pub open spec fn skip_if(self, condition: bool) -> ProcessorState {
        if condition {
            self.at(self.program_counter + 2)
        } else {
            self
        }
    }
}

/// The registers, the call stack and the delay timer.
pub struct Processor {
    pub registers: [u8; 16],
    pub address_register: u16,
    pub program_counter: usize,
    pub stack: [u16; 12],
    /// Number of return addresses on the stack; the next push goes to this
    /// slot.
    pub stack_pointer: usize,
    pub delay_timer: DelayTimer,
}

impl View for Processor {
    type V = ProcessorState;

    open spec fn view(&self) -> ProcessorState {
        ProcessorState {
            registers: self.registers@,
            address_register: self.address_register,
            program_counter: self.program_counter as nat,
            stack: self.stack@.take(self.stack_pointer as int),
            delay_timer: self.delay_timer@,
        }
    }
}

impl Processor {
    /// The stack pointer stays within the stack.
    pub open spec fn wf(&self) -> bool {
        self.stack_pointer <= STACK_CAPACITY
    }

    /// The value of register `index`, or zero if `index` names no register.
    pub fn get_register(&self, index: u8) -> (value: u8)
        ensures
            value == self@.register(index),
    {
        if index < 16 {
            self.registers[index as usize]
        } else {
            0
        }
    }

    /// Puts `value` into register `index` and says whether there is such a
    /// register.
    pub fn set_register(&mut self, index: u8, value: u8) -> (stored: bool)
        ensures
            stored == (index < REGISTER_COUNT),
            final(self)@ == old(self)@.with_register(index, value),
            final(self).wf() == old(self).wf(),
    {
        if index < 16 {
            self.registers[index as usize] = value;
            true
        } else {
            false
        }
    }

    /// A copy of the registers `0 ..= end_index`, followed by zeros; all
    /// zeros if `end_index` names no register.
    pub fn get_registers(&self, end_index: u8) -> (copy: [u8; 16])
        ensures
            copy@ == Seq::new(
                REGISTER_COUNT as nat,
                |i: int|
                    if end_index < REGISTER_COUNT && i <= end_index {
                        self@.registers[i]
                    } else {
                        0u8
                    },
            ),
    {
        let mut copy: [u8; 16] = [0u8; 16];
        if end_index < 16 {
            let mut i: usize = 0;
            while i <= end_index as usize
                invariant
                    end_index < 16,
                    i <= end_index + 1,
                    forall|k: int| 0 <= k < i ==> copy@[k] == self.registers@[k],
                    forall|k: int| i <= k < 16 ==> copy@[k] == 0u8,
                decreases end_index + 1 - i,
            {
                copy[i] = self.registers[i];
                i += 1;
            }
        }
        copy
    }

    /// Pushes a return address, unless the stack is full.
    pub fn push_stack(&mut self, value: u16) -> (result: Result<(), Fault>)
        requires
            old(self).wf(),
        ensures
            final(self).wf(),
            old(self)@.stack.len() < STACK_CAPACITY ==> result == Ok::<(), Fault>(())
                && final(self)@ == (ProcessorState {
                stack: old(self)@.stack.push(value),
                ..old(self)@
            }),
            old(self)@.stack.len() >= STACK_CAPACITY ==> result == Err::<(), Fault>(
                Fault::StackOverflow,
            ) && *final(self) == *old(self),
    {
        if self.stack_pointer < 12 {
            self.stack[self.stack_pointer] = value;
            self.stack_pointer += 1;
            assert(self.stack@.take(self.stack_pointer as int) =~= old(self).stack@.take(
                old(self).stack_pointer as int,
            ).push(value));
            Ok(())
        } else {
            Err(Fault::StackOverflow)
        }
    }

    /// Pops the newest return address, unless the stack is empty.
    pub fn pop_stack(&mut self) -> (result: Result<u16, Fault>)
        requires
            old(self).wf(),
        ensures
            final(self).wf(),
            old(self)@.stack.len() > 0 ==> result == Ok::<u16, Fault>(old(self)@.stack.last())
                && final(self)@ == (ProcessorState {
                stack: old(self)@.stack.drop_last(),
                ..old(self)@
            }),
            old(self)@.stack.len() == 0 ==> result == Err::<u16, Fault>(Fault::StackUnderflow)
                && *final(self) == *old(self),
    {
        if self.stack_pointer > 0 {
            self.stack_pointer -= 1;
            assert(self.stack@.take(self.stack_pointer as int) =~= old(self).stack@.take(
                old(self).stack_pointer as int,
            ).drop_last());
            Ok(self.stack[self.stack_pointer])
        } else {
            Err(Fault::StackUnderflow)
        }
    }
}

impl Default for Processor {
    /// All registers zero, the program counter at zero, an empty stack and
    /// a fresh delay timer.
    fn default() -> (processor: Self)
        ensures
            processor.wf(),
            processor@ == (ProcessorState {
                registers: Seq::new(REGISTER_COUNT as nat, |i: int| 0u8),
                address_register: 0,
                program_counter: 0,
                stack: Seq::empty(),
                delay_timer: TimerState {
                    value: 0,
                    last_update: 0,
                    interval: TIMER_INTERVAL_NANOS,
                },
            }),
    {
        let processor = Processor {
            registers: [0u8; 16],
            address_register: 0,
            program_counter: 0,
            stack: [0u16; 12],
            stack_pointer: 0,
            delay_timer: DelayTimer::new(),
        };
        assert(processor@.registers =~= Seq::new(REGISTER_COUNT as nat, |i: int| 0u8));
        assert(processor@.stack =~= Seq::empty());
        processor
    }
}

} // verus!
