//! General facts about the instruction set, the timer and the display,
//! each proved from the definitions that the executable functions are
//! verified against.

use vstd::prelude::*;
use crate::emulator::{blank_screen, can_fetch, execution, in_memory, next_instruction, step, Machine, Outcome};
use crate::instruction::Instruction;
use crate::memory::word_at;
use crate::processor::{Fault, ProcessorState, TimerState, FLAGS_REGISTER, STACK_CAPACITY};

verus! {

/// Adding a constant to a register wraps modulo 256 and changes no other
/// register, so it never sets the flags register.
pub proof fn law_add_constant_wraps(
    m: Machine,
    screen: Seq<u8>,
    x: u8,
    value: u8,
    key: u8,
    random: u8,
)
    requires
        m.wf(),
        x < 16,
    ensures
        ({
            let after = execution(m, screen, Instruction::Add { x, value }, key, random);
            &&& after.result == Ok::<Outcome, Fault>(Outcome::Executed)
            &&& after.machine.processor.registers[x as int] == (m.processor.registers[x as int]
                + value) % 256
            &&& forall|other: int|
                0 <= other < 16 && other != x ==> after.machine.processor.registers[other]
                    == m.processor.registers[other]
            &&& x != FLAGS_REGISTER ==> after.machine.processor.registers[FLAGS_REGISTER as int]
                == m.processor.registers[FLAGS_REGISTER as int]
        }),
{
}

/// Adding one register to another sets the flags register to 1 if the sum
/// does not fit in a byte and to 0 if it does; unless the target is the
/// flags register itself, the target then holds the sum modulo 256.
pub proof fn law_add_registers_carry(
    m: Machine,
    screen: Seq<u8>,
    x: u8,
    y: u8,
    key: u8,
    random: u8,
)
    requires
        m.wf(),
        x < 16,
        y < 16,
    ensures
        ({
            let a = m.processor.registers[x as int];
            let b = m.processor.registers[y as int];
            let after = execution(m, screen, Instruction::AddRegister { x, y }, key, random);
            let flags = after.machine.processor.registers[FLAGS_REGISTER as int];
            &&& after.result == Ok::<Outcome, Fault>(Outcome::Executed)
            &&& flags == 0 || flags == 1
            &&& flags == 1 <==> a + b >= 256
            &&& x != FLAGS_REGISTER ==> after.machine.processor.registers[x as int] == (a + b)
                % 256
        }),
{
}

/// Subtracting one register from another sets the flags register to 1 if
/// the subtrahend is the larger (a borrow) and to 0 if not; unless the
/// target is the flags register itself, the target then holds the
/// difference modulo 256.
pub proof fn law_subtract_borrow(
    m: Machine,
    screen: Seq<u8>,
    x: u8,
    y: u8,
    key: u8,
    random: u8,
)
    requires
        m.wf(),
        x < 16,
        y < 16,
    ensures
        ({
            let a = m.processor.registers[x as int];
            let b = m.processor.registers[y as int];
            let after = execution(m, screen, Instruction::Subtract { x, y }, key, random);
            let flags = after.machine.processor.registers[FLAGS_REGISTER as int];
            &&& after.result == Ok::<Outcome, Fault>(Outcome::Executed)
            &&& flags == 0 || flags == 1
            &&& flags == 1 <==> a < b
            &&& x != FLAGS_REGISTER ==> after.machine.processor.registers[x as int] == (a - b)
                % 256
        }),
{
}

/// Storing the registers 0 to `x` and loading them back from the same
/// address restores them, whatever the registers held in between.
pub proof fn law_store_then_restore(
    m: Machine,
    screen: Seq<u8>,
    x: u8,
    between: Seq<u8>,
    key: u8,
    random: u8,
)
    requires
        m.wf(),
        x < 16,
        between.len() == 16,
        in_memory(m.processor.address_register, x + 1),
    ensures
        ({
            let stored = execution(m, screen, Instruction::Store { x }, key, random);
            let scrambled = stored.machine.on(
                ProcessorState { registers: between, ..stored.machine.processor },
            );
            let restored = execution(scrambled, screen, Instruction::Restore { x }, key, random);
            &&& stored.result == Ok::<Outcome, Fault>(Outcome::Executed)
            &&& restored.result == Ok::<Outcome, Fault>(Outcome::Executed)
            &&& forall|i: int|
                0 <= i <= x ==> restored.machine.processor.registers[i]
                    == m.processor.registers[i]
            &&& forall|i: int|
                x < i < 16 ==> restored.machine.processor.registers[i] == between[i]
        }),
{
}

/// Storing and restoring at once leaves every register as it was.
pub proof fn law_store_then_restore_at_once(
    m: Machine,
    screen: Seq<u8>,
    x: u8,
    key: u8,
    random: u8,
)
    requires
        m.wf(),
        x < 16,
        in_memory(m.processor.address_register, x + 1),
    ensures
        ({
            let stored = execution(m, screen, Instruction::Store { x }, key, random);
            let restored = execution(
                stored.machine,
                stored.screen,
                Instruction::Restore { x },
                key,
                random,
            );
            restored.machine.processor == m.processor
        }),
{
    let stored = execution(m, screen, Instruction::Store { x }, key, random);
    let restored = execution(stored.machine, stored.screen, Instruction::Restore { x }, key, random);
    assert(restored.machine.processor.registers =~= m.processor.registers);
}

/// After a cycle that runs the clear instruction every cell of the display
/// is off, whatever the display held before.
pub proof fn law_clear_blanks_display(m: Machine, screen: Seq<u8>, key: u8, now: u128, random: u8)
    requires
        m.wf(),
        can_fetch(m),
        word_at(m.memory, m.processor.program_counter as int) == 0x00E0,
    ensures
        ({
            let after = step(m, screen, key, now, random);
            &&& after.result == Ok::<Outcome, Fault>(Outcome::Executed)
            &&& after.screen.len() == 2048
            &&& forall|cell: int| 0 <= cell < 2048 ==> after.screen[cell] == 0
        }),
{
    assert(next_instruction(m) == Instruction::ClearScreen);
}

/// A call with the stack full stops the machine, and so does a return
/// with the stack empty; every other call and return is carried out.
pub proof fn law_stack_bounds(m: Machine, screen: Seq<u8>, target: u16, key: u8, random: u8)
    requires
        m.wf(),
    ensures
        ({
            let called = execution(m, screen, Instruction::Call { target }, key, random);
            let returned = execution(m, screen, Instruction::Return, key, random);
            &&& called.result == Err::<Outcome, Fault>(Fault::StackOverflow)
                <==> m.processor.stack.len() == STACK_CAPACITY
            &&& called.result != Err::<Outcome, Fault>(Fault::StackOverflow) ==> called.result
                == Ok::<Outcome, Fault>(Outcome::Executed)
                && called.machine.processor.stack.len() == m.processor.stack.len() + 1
            &&& returned.result == Err::<Outcome, Fault>(Fault::StackUnderflow)
                <==> m.processor.stack.len() == 0
            &&& returned.result != Err::<Outcome, Fault>(Fault::StackUnderflow) ==> returned.result
                == Ok::<Outcome, Fault>(Outcome::Executed)
                && returned.machine.processor.stack.len() == m.processor.stack.len() - 1
        }),
{
}

/// A tick lowers the counter by exactly one if a whole period has passed
/// since the last update and the counter is not zero, and leaves it alone
/// otherwise.
pub proof fn law_tick_lowers_by_one(timer: TimerState, now: u128)
    ensures
        timer.due(now) && timer.value > 0 ==> timer.tick(now).value == timer.value - 1,
        !(timer.due(now) && timer.value > 0) ==> timer.tick(now).value == timer.value,
{
}

/// However many ticks fall within one period after an update, none of
/// them changes the timer.
pub proof fn law_ticks_within_period(timer: TimerState, readings: Seq<u128>)
    requires
        forall|i: int| 0 <= i < readings.len() ==> !timer.due(#[trigger] readings[i]),
    ensures
        timer.tick_all(readings) == timer,
    decreases readings.len(),
{
    if readings.len() > 0 {
        assert(!timer.due(readings[0]));
        let rest = readings.skip(1);
        assert forall|i: int| 0 <= i < rest.len() implies !timer.due(#[trigger] rest[i]) by {
            assert(rest[i] == readings[i + 1]);
        }
        law_ticks_within_period(timer, rest);
    }
}

/// Ticks at rising clock readings lower the counter by at most one per
/// whole period that has passed since the last update before them.
pub proof fn law_ticks_bounded_by_periods(timer: TimerState, readings: Seq<u128>)
    requires
        timer.interval > 0,
        forall|i: int| 0 <= i < readings.len() ==> timer.last_update <= #[trigger] readings[i],
        forall|i: int, j: int| 0 <= i <= j < readings.len() ==> readings[i] <= readings[j],
    ensures
        ({
            let after = timer.tick_all(readings);
            &&& after.interval == timer.interval
            &&& after.value <= timer.value
            &&& after.last_update >= timer.last_update
            &&& readings.len() > 0 ==> after.last_update <= readings.last()
            &&& (timer.value - after.value) * timer.interval <= after.last_update
                - timer.last_update
        }),
    decreases readings.len(),
{
    if readings.len() > 0 {
        let first = timer.tick(readings[0]);
        let rest = readings.skip(1);
        assert forall|i: int| 0 <= i < rest.len() implies first.last_update <= #[trigger] rest[i] by {
            assert(rest[i] == readings[i + 1]);
            assert(readings[0] <= readings[i + 1]);
        }
        assert forall|i: int, j: int| 0 <= i <= j < rest.len() implies rest[i] <= rest[j] by {
            assert(rest[i] == readings[i + 1] && rest[j] == readings[j + 1]);
        }
        law_ticks_bounded_by_periods(first, rest);
        let after = first.tick_all(rest);
        if rest.len() > 0 {
            assert(rest.last() == readings.last());
        }
        assert((timer.value - after.value) * timer.interval == (timer.value - first.value)
            * timer.interval + (first.value - after.value) * timer.interval) by (nonlinear_arith);
        assert((timer.value - first.value) * timer.interval <= first.last_update
            - timer.last_update) by (nonlinear_arith)
            requires
                timer.value - first.value == 0 || (timer.value - first.value == 1
                    && first.last_update - timer.last_update >= timer.interval),
                first.last_update >= timer.last_update,
                timer.interval > 0,
        ;
    }
}

} // verus!
