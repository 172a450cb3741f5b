use chip8::processor::{
    DelayTimer, Fault, Processor, REGISTER_COUNT, STACK_CAPACITY, TIMER_INTERVAL_NANOS,
};

#[test]
fn default_processor_is_zeroed() {
    let processor = Processor::default();
    assert_eq!(processor.registers, [0u8; 16]);
    assert_eq!(processor.address_register, 0);
    assert_eq!(processor.program_counter, 0);
    assert_eq!(processor.stack_pointer, 0);
    assert_eq!(processor.delay_timer.value, 0);
    assert_eq!(processor.delay_timer.last_update, 0);
    assert_eq!(processor.delay_timer.interval, TIMER_INTERVAL_NANOS);
    assert_eq!(REGISTER_COUNT, 16);
    assert_eq!(STACK_CAPACITY, 12);
}

#[test]
fn set_register_then_get_register() {
    let mut processor = Processor::default();
    for index in 0..16u8 {
        assert!(processor.set_register(index, 0xF0 | index));
    }
    for index in 0..16u8 {
        assert_eq!(processor.get_register(index), 0xF0 | index);
    }
}

#[test]
fn registers_beyond_fifteen_do_not_exist() {
    let mut processor = Processor::default();
    processor.set_register(15, 9);
    assert!(!processor.set_register(16, 7));
    assert!(!processor.set_register(255, 7));
    assert_eq!(processor.get_register(16), 0);
    assert_eq!(processor.get_register(255), 0);
    assert_eq!(processor.get_register(15), 9);
    assert_eq!(processor.registers[..15], [0u8; 15]);
}

#[test]
fn get_registers_copies_up_to_the_index() {
    let mut processor = Processor::default();
    for index in 0..16u8 {
        processor.set_register(index, index + 1);
    }
    assert_eq!(processor.get_registers(0), [1, 0, 0, 0, 0, 0, 0, 0, 0, 0, 0, 0, 0, 0, 0, 0]);
    assert_eq!(processor.get_registers(3), [1, 2, 3, 4, 0, 0, 0, 0, 0, 0, 0, 0, 0, 0, 0, 0]);
    assert_eq!(
        processor.get_registers(15),
        [1, 2, 3, 4, 5, 6, 7, 8, 9, 10, 11, 12, 13, 14, 15, 16]
    );
    assert_eq!(processor.get_registers(16), [0u8; 16]);
    assert_eq!(processor.get_registers(200), [0u8; 16]);
}

#[test]
fn stack_gives_back_in_reverse_order() {
    let mut processor = Processor::default();
    assert_eq!(processor.push_stack(0x202), Ok(()));
    assert_eq!(processor.push_stack(0x304), Ok(()));
    assert_eq!(processor.push_stack(0xFFFF), Ok(()));
    assert_eq!(processor.stack_pointer, 3);
    assert_eq!(processor.pop_stack(), Ok(0xFFFF));
    assert_eq!(processor.pop_stack(), Ok(0x304));
    assert_eq!(processor.pop_stack(), Ok(0x202));
    assert_eq!(processor.stack_pointer, 0);
}

#[test]
fn thirteenth_push_overflows() {
    let mut processor = Processor::default();
    for value in 0..12u16 {
        assert_eq!(processor.push_stack(value), Ok(()));
    }
    assert_eq!(processor.stack_pointer, 12);
    assert_eq!(processor.push_stack(99), Err(Fault::StackOverflow));
    assert_eq!(processor.stack_pointer, 12);
    assert_eq!(processor.pop_stack(), Ok(11));
    assert_eq!(processor.push_stack(99), Ok(()));
    assert_eq!(processor.pop_stack(), Ok(99));
}

#[test]
fn pop_of_empty_stack_underflows() {
    let mut processor = Processor::default();
    assert_eq!(processor.pop_stack(), Err(Fault::StackUnderflow));
    assert_eq!(processor.stack_pointer, 0);
    processor.push_stack(5).unwrap();
    assert_eq!(processor.pop_stack(), Ok(5));
    assert_eq!(processor.pop_stack(), Err(Fault::StackUnderflow));
}

#[test]
fn new_timer_is_at_rest() {
    let timer = DelayTimer::new();
    assert_eq!(timer.value, 0);
    assert_eq!(timer.last_update, 0);
    assert_eq!(timer.interval, 16_666_666);
}

#[test]
fn tick_before_the_period_ends_changes_nothing() {
    let mut timer = DelayTimer::new();
    timer.value = 10;
    timer.clock_at(0);
    timer.clock_at(1);
    timer.clock_at(16_666_665);
    assert_eq!(timer.value, 10);
    assert_eq!(timer.last_update, 0);
}

#[test]
fn tick_at_the_end_of_the_period_lowers_by_one() {
    let mut timer = DelayTimer::new();
    timer.value = 10;
    timer.clock_at(16_666_666);
    assert_eq!(timer.value, 9);
    assert_eq!(timer.last_update, 16_666_666);
    timer.clock_at(16_666_667);
    assert_eq!(timer.value, 9);
    timer.clock_at(33_333_331);
    assert_eq!(timer.value, 9);
    timer.clock_at(33_333_332);
    assert_eq!(timer.value, 8);
    assert_eq!(timer.last_update, 33_333_332);
}

#[test]
fn long_pause_lowers_by_one_only() {
    let mut timer = DelayTimer::new();
    timer.value = 10;
    timer.clock_at(1_000_000_000);
    assert_eq!(timer.value, 9);
    assert_eq!(timer.last_update, 1_000_000_000);
}

#[test]
fn timer_at_zero_stays_at_zero_but_restarts_its_period() {
    let mut timer = DelayTimer::new();
    timer.clock_at(20_000_000);
    assert_eq!(timer.value, 0);
    assert_eq!(timer.last_update, 20_000_000);
}

#[test]
fn clock_reading_before_the_last_update_counts_as_no_time() {
    let mut timer = DelayTimer::new();
    timer.value = 3;
    timer.last_update = 50_000_000;
    timer.clock_at(10);
    assert_eq!(timer.value, 3);
    assert_eq!(timer.last_update, 50_000_000);
}

#[test]
fn timer_decays_once_per_interval_whatever_the_tick_rate() {
    // Ticks every 100 microseconds, a hundred times the timer's own rate,
    // over a quarter of a second.
    let mut timer = DelayTimer::new();
    timer.value = 10;
    let mut decrements = 0u32;
    let mut now: u128 = 0;
    while now <= 250_000_000 {
        let before = timer.value;
        let last = timer.last_update;
        timer.clock_at(now);
        if timer.value != before {
            assert_eq!(timer.value, before - 1);
            assert!(now - last >= 16_666_666);
            decrements += 1;
        }
        now += 100_000;
    }
    // A period is found to have passed at every 167th tick, so the counter
    // reaches zero after 167 ms and stays there.
    assert_eq!(decrements, 10);
    assert_eq!(timer.value, 0);

    let mut timer = DelayTimer::new();
    timer.value = 10;
    let mut now: u128 = 0;
    while now <= 100_000_000 {
        timer.clock_at(now);
        now += 100_000;
    }
    assert_eq!(timer.value, 5);
    assert_eq!(timer.last_update, 83_500_000);
}

#[test]
fn clock_at_the_current_time_lowers_by_at_most_one() {
    let mut timer = DelayTimer::new();
    timer.value = 200;
    let first = timer.now();
    let mut previous = timer.value;
    for _ in 0..10_000 {
        timer.clock();
        assert!(timer.value == previous || timer.value + 1 == previous);
        previous = timer.value;
    }
    let last = timer.now();
    assert!(last >= first);
    let periods = last / timer.interval;
    assert!(u128::from(200 - timer.value) <= periods);
}

#[test]
fn clock_after_a_period_of_real_time_lowers_by_one() {
    let mut timer = DelayTimer::new();
    timer.value = 7;
    while timer.now() < 20_000_000 {
        std::hint::spin_loop();
    }
    timer.clock();
    assert_eq!(timer.value, 6);
    assert!(timer.last_update >= 20_000_000);
    timer.clock();
    assert_eq!(timer.value, 6);
}
