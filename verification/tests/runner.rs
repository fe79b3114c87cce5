use formula::audio::SampleQueue;
use formula::bus::Bus;
use formula::cpu::Cpu;
use formula::memory::Memory;
use formula::runner::{
    blit_framebuffer, mmu_write_post_boot_io, pace, post_boot_cpu, read_joypad, used_oam, HeldKeys,
    OamEntry, Progress, FRAME_NANOS, MAX_CYCLES, PARK_STEPS,
};

#[test]
fn boot_state_is_that_of_the_dmg() {
    let cpu = post_boot_cpu();
    assert_eq!(cpu.af(), 0x01b0);
    assert_eq!(cpu.bc(), 0x0013);
    assert_eq!(cpu.de(), 0x00d8);
    assert_eq!(cpu.hl(), 0x014d);
    assert_eq!(cpu.sp, 0xfffe);
    assert_eq!(cpu.pc, 0x0100);

    let mut mem = Memory::new();
    mmu_write_post_boot_io(&mut mem);
    assert_eq!(mem.read8(0xff40), 0x91);
    assert_eq!(mem.read8(0xff47), 0xfc);
    assert_eq!(mem.read8(0xff48), 0xff);
    assert_eq!(mem.read8(0xff49), 0xff);
}

#[test]
fn shades_are_shown_in_green() {
    let mut buffer = vec![7; 6];
    blit_framebuffer(&mut buffer, &[0, 1, 2, 3, 4]);
    assert_eq!(
        buffer,
        vec![0x9bbc0f, 0x8bac0f, 0x306230, 0x0f380f, 0x9bbc0f, 7]
    );
    let mut short = vec![0];
    blit_framebuffer(&mut short, &[3, 3]);
    assert_eq!(short, vec![0x0f380f]);
}

fn no_keys() -> HeldKeys {
    HeldKeys {
        up: false,
        down: false,
        left: false,
        right: false,
        a: false,
        b: false,
        start: false,
        select: false,
    }
}

#[test]
fn keys_become_a_mask_of_buttons() {
    assert_eq!(read_joypad(&no_keys()), 0);
    assert_eq!(read_joypad(&HeldKeys { a: true, ..no_keys() }), 0x01);
    assert_eq!(read_joypad(&HeldKeys { b: true, ..no_keys() }), 0x02);
    assert_eq!(read_joypad(&HeldKeys { select: true, ..no_keys() }), 0x04);
    assert_eq!(read_joypad(&HeldKeys { start: true, ..no_keys() }), 0x08);
    assert_eq!(read_joypad(&HeldKeys { right: true, ..no_keys() }), 0x10);
    assert_eq!(read_joypad(&HeldKeys { left: true, ..no_keys() }), 0x20);
    assert_eq!(read_joypad(&HeldKeys { up: true, ..no_keys() }), 0x40);
    assert_eq!(read_joypad(&HeldKeys { down: true, ..no_keys() }), 0x80);
    assert_eq!(read_joypad(&HeldKeys { up: true, a: true, ..no_keys() }), 0x41);
}

#[test]
fn a_program_parks_after_a_million_still_steps() {
    let mut mem = Memory::new();
    mem.load(0x0000, &[0x18, 0xfe]);
    let mut cpu = Cpu::new();
    let mut progress = Progress::new();
    for _ in 0..PARK_STEPS - 1 {
        assert!(progress.advance(&mut cpu, &mut mem));
    }
    assert!(!progress.parked);
    assert!(progress.advance(&mut cpu, &mut mem));
    assert!(progress.parked);
    assert!(!progress.advance(&mut cpu, &mut mem));
    assert_eq!(progress.total_cycles, 12 * u64::from(PARK_STEPS));
}

#[test]
fn waiting_in_halt_is_not_parking() {
    let mut progress = Progress::default();
    progress.note_step(12, 5, 5, false);
    progress.note_step(12, 5, 5, false);
    assert_eq!(progress.same_pc_count, 2);
    progress.note_step(4, 5, 5, true);
    assert_eq!(progress.same_pc_count, 0);
    progress.note_step(4, 5, 6, false);
    assert_eq!(progress.same_pc_count, 0);
    assert_eq!(progress.total_cycles, 32);
}

#[test]
fn a_program_stops_when_locked_or_out_of_time() {
    let mut progress = Progress::new();
    assert!(!progress.is_over(false));
    assert!(progress.is_over(true));
    progress.total_cycles = MAX_CYCLES;
    assert!(progress.is_over(false));

    let mut mem = Memory::new();
    mem.load(0x0000, &[0xd3]);
    let mut cpu = Cpu::new();
    let mut progress = Progress::new();
    assert!(progress.advance(&mut cpu, &mut mem));
    assert!(!progress.advance(&mut cpu, &mut mem));
    assert_eq!(progress.total_cycles, 4);
}

#[test]
fn frames_keep_their_beat() {
    assert_eq!(pace(100, 250), (150, 250 + FRAME_NANOS));
    assert_eq!(pace(250, 250), (0, 250 + FRAME_NANOS));
    assert_eq!(pace(300, 250), (0, 250 + FRAME_NANOS));
    assert_eq!(pace(250 + FRAME_NANOS, 250), (0, 250 + FRAME_NANOS));
    assert_eq!(
        pace(251 + FRAME_NANOS, 250),
        (0, 251 + FRAME_NANOS + FRAME_NANOS)
    );
}

#[test]
fn used_entries_of_oam_are_listed_in_order() {
    let mut mem = Memory::new();
    assert!(used_oam(&mem).is_empty());
    mem.load(0xfe08, &[0x00, 0x03, 0x00, 0x00]);
    mem.load(0xfe9c, &[0x90, 0x08, 0x7f, 0x20]);
    assert_eq!(
        used_oam(&mem),
        vec![
            OamEntry {
                index: 2,
                y: 0,
                x: 3,
                tile: 0,
                attr: 0,
                screen_y: -16,
                screen_x: -5,
            },
            OamEntry {
                index: 39,
                y: 0x90,
                x: 8,
                tile: 0x7f,
                attr: 0x20,
                screen_y: 128,
                screen_x: 0,
            },
        ]
    );
}

#[test]
fn samples_leave_in_batches_low_byte_first() {
    let mut queue = SampleQueue::new();
    assert_eq!(queue.flush(), None);
    assert_eq!(queue.queue_samples(&[]), None);
    assert_eq!(queue.queue_samples(&[1, -2, i16::MIN, i16::MAX]), None);
    assert_eq!(
        queue.flush(),
        Some(vec![0x01, 0x00, 0xfe, 0xff, 0x00, 0x80, 0xff, 0x7f])
    );
    assert_eq!(queue.flush(), None);

    let mut queue = SampleQueue::default();
    assert_eq!(queue.queue_samples(&vec![3; 2047]), None);
    let batch = queue.queue_samples(&[0x0102]).unwrap();
    assert_eq!(batch.len(), 4096);
    assert_eq!(&batch[4092..], &[0x03, 0x00, 0x02, 0x01]);
    assert_eq!(queue.flush(), None);
}
