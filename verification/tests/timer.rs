use formula::timer::Timer;

#[test]
fn div_increments_every_256_cycles() {
    let mut timer = Timer::new();

    timer.tick(255);
    assert_eq!(timer.read(0xff04), 0);

    timer.tick(1);
    assert_eq!(timer.read(0xff04), 1);

    timer.tick(255);
    assert_eq!(timer.read(0xff04), 1);

    timer.tick(1);
    assert_eq!(timer.read(0xff04), 2);
}

#[test]
fn div_write_resets_internal_counter() {
    let mut timer = Timer::new();
    timer.tick(0xff);

    timer.write(0xff04, 0x42); // value ignored, counter reset

    assert_eq!(timer.read(0xff04), 0);
}

#[test]
fn div_write_can_increment_tima_via_falling_edge() {
    let mut timer = Timer::new();
    timer.write(0xff07, 0x05); // enable, clock 01 -> bit 3
    timer.tick(8); // counter bit 3 is now high

    timer.write(0xff04, 0x00);

    assert_eq!(timer.read(0xff05), 1);
}

#[test]
fn tima_does_not_increment_when_disabled() {
    let mut timer = Timer::new();
    timer.write(0xff07, 0x00); // disabled, clock select 00

    for _ in 0..16 {
        timer.tick(255); // plenty of cycles
    }

    assert_eq!(timer.read(0xff05), 0);
}

#[test]
fn tima_increments_at_each_clock_rate() {
    // (TAC bits 1-0, expected cycles per TIMA increment)
    let rates = [(0b00, 1024_u32), (0b01, 16), (0b10, 64), (0b11, 256)];
    for (clock_sel, cycles_per_inc) in rates {
        let mut timer = Timer::new();
        timer.write(0xff07, 0x04 | clock_sel as u8);

        // Run for exactly one period: TIMA should advance by 1.
        for _ in 0..cycles_per_inc {
            timer.tick(1);
        }

        assert_eq!(
            timer.read(0xff05),
            1,
            "clock_sel {:02b}: TIMA should be 1 after {} cycles",
            clock_sel,
            cycles_per_inc
        );
    }
}

#[test]
fn tima_overflow_reloads_tma_and_raises_interrupt() {
    let mut timer = Timer::new();
    timer.write(0xff05, 0xff); // TIMA on the brink
    timer.write(0xff06, 0x42); // TMA reload value
    timer.write(0xff07, 0x05); // enable, clock select 01 (every 16 cycles)

    // First 15 cycles: no increment yet
    let mut interrupt = false;
    for _ in 0..15 {
        interrupt |= timer.tick(1);
    }
    assert!(!interrupt);
    assert_eq!(timer.read(0xff05), 0xff);

    // 16th cycle: TIMA overflows and spends 4 cycles at 0x00.
    interrupt = timer.tick(1);
    assert!(!interrupt);
    assert_eq!(timer.read(0xff05), 0x00);

    interrupt |= timer.tick(3);
    assert!(!interrupt);
    assert_eq!(timer.read(0xff05), 0x00);

    interrupt = timer.tick(1);
    assert!(interrupt);
    assert_eq!(timer.read(0xff05), 0x42);
}

#[test]
fn writing_tima_during_overflow_delay_cancels_reload() {
    let mut timer = Timer::new();
    timer.write(0xff05, 0xff);
    timer.write(0xff06, 0x42);
    timer.write(0xff07, 0x05);

    timer.tick(16);
    assert_eq!(timer.read(0xff05), 0x00);

    timer.write(0xff05, 0x99);

    assert!(!timer.tick(4));
    assert_eq!(timer.read(0xff05), 0x99);
}

#[test]
fn tac_write_can_increment_tima_via_falling_edge() {
    let mut timer = Timer::new();
    timer.write(0xff07, 0x05); // enable, bit 3
    timer.tick(8); // bit 3 high

    timer.write(0xff07, 0x04); // switch to bit 9, input falls low

    assert_eq!(timer.read(0xff05), 1);
}

#[test]
fn tac_read_returns_upper_bits_set() {
    let mut timer = Timer::new();
    timer.write(0xff07, 0x05); // enable, clock 01

    // Stored as 0x05, but read returns upper bits set as 1
    assert_eq!(timer.read(0xff07), 0xfd); // 0xf8 | 0x05
}
