use formula::bus::Bus;
use formula::cartridge::Mbc0;
use formula::console::Console;
use formula::joypad::{BUTTON_A, BUTTON_B};

fn console() -> Console<Mbc0> {
    let mut rom = vec![0; 0x8000];
    rom[0x0149] = 0x02;
    rom[0x1000] = 0xab;
    Console::new(Box::new(Mbc0::new(rom)))
}

#[test]
fn memories_read_back_and_wram_echoes() {
    let mut console = console();
    for addr in [
        0x8000, 0x9fff, 0xa000, 0xbfff, 0xc000, 0xdfff, 0xfe00, 0xfe9f, 0xff0f, 0xff80, 0xfffe,
        0xffff,
    ] {
        console.write8(addr, 0x1b);
        assert_eq!(console.read8(addr), 0x1b, "{addr:#06x}");
    }
    console.write8(0xe123, 0x44);
    assert_eq!(console.read8(0xc123), 0x44);
    console.write8(0xfea0, 0x44);
    assert_eq!(console.read8(0xfea0), 0xff);
    console.write8(0x1000, 0x44);
    assert_eq!(console.read8(0x1000), 0xab);
}

#[test]
fn registers_answer_for_their_parts() {
    let mut console = console();
    assert_eq!(console.read8(0xff00), 0xff);
    assert_eq!(console.read8(0xff02), 0x7e);
    assert_eq!(console.read8(0xff07), 0xf8);
    assert_eq!(console.read8(0xff26), 0x70);
    console.write8(0xff41, 0xff);
    assert_eq!(console.read8(0xff41) & 0xf8, 0xf8);
    console.write8(0xff4b, 0x12);
    assert_eq!(console.read8(0xff4b), 0x12);
    console.write8(0xff03, 0x9a);
    assert_eq!(console.read8(0xff03), 0x9a);
}

#[test]
fn dma_copies_a_page_to_oam() {
    let mut console = console();
    for i in 0..0xa0_u16 {
        console.write8(0xc300 + i, i as u8 ^ 0x55);
    }
    console.write8(0xff46, 0xc3);
    for i in 0..0xa0_u16 {
        assert_eq!(console.read8(0xfe00 + i), i as u8 ^ 0x55);
    }
    assert_eq!(console.read8(0xff46), 0xc3);
    console.write8(0xff46, 0x10);
    assert_eq!(console.read8(0xfe00), 0xab);
    assert_eq!(console.read8(0xfe01), 0x00);
}

#[test]
fn each_part_sets_its_bit_of_if() {
    let mut console = console();
    console.write8(0xff01, b'!');
    console.write8(0xff02, 0x81);
    console.tick(4);
    assert_eq!(console.read8(0xff0f), 0x08);
    assert_eq!(console.drain_serial_output(), b"!".to_vec());
    assert_eq!(console.drain_serial_output(), Vec::new());

    console.write8(0xff0f, 0x00);
    console.write8(0xff05, 0xff);
    console.write8(0xff07, 0x05);
    console.write8(0xff04, 0x00);
    console.tick(20);
    assert_eq!(console.read8(0xff0f), 0x04);

    console.write8(0xff0f, 0x00);
    console.set_buttons(BUTTON_A);
    assert_eq!(console.read8(0xff0f), 0x10);
    console.write8(0xff0f, 0x00);
    console.set_buttons(BUTTON_A);
    assert_eq!(console.read8(0xff0f), 0x00);
    console.set_buttons(BUTTON_A | BUTTON_B);
    assert_eq!(console.read8(0xff0f), 0x10);
    console.write8(0xff00, 0x10);
    assert_eq!(console.read8(0xff00), 0xdc);
}

#[test]
fn a_frame_is_ready_at_vblank_and_taken_once() {
    let mut console = console();
    console.write8(0xff40, 0x80);
    let mut ticks = 0;
    while !console.take_frame_ready() {
        Bus::tick(&mut console, 4);
        ticks += 4;
    }
    assert_eq!(ticks, 144 * 456 - 4);
    assert_eq!(console.read8(0xff0f), 0x01);
    assert!(!console.take_frame_ready());
    assert_eq!(console.read8(0xff44), 144);
}

#[test]
fn console_time_can_be_cut_up() {
    let mut whole = console();
    let mut parts = console();
    for console in [&mut whole, &mut parts] {
        console.write8(0xff40, 0x81);
        console.write8(0xff41, 0x08);
        console.write8(0xff05, 0xf0);
        console.write8(0xff07, 0x05);
        console.write8(0xff02, 0x80);
    }
    for _ in 0..4 {
        whole.tick(100);
    }
    for _ in 0..100 {
        parts.tick(4);
    }
    for addr in 0xff00..=0xff7f {
        assert_eq!(parts.read8(addr), whole.read8(addr), "{addr:#06x}");
    }
    assert_eq!(whole.read8(0xff0f), 0x0e);
}

#[test]
fn sound_makes_no_samples() {
    let mut console = console();
    console.write8(0xff26, 0x80);
    console.tick(255);
    assert!(console.drain_audio_samples().is_empty());
    assert!(console.framebuffer().as_slice().iter().all(|&p| p == 0));
}
