use formula::bus::Bus;
use formula::cartridge::Mbc0;
use formula::cpu::Cpu;
use formula::flags::Flags;
use formula::memory::Memory;
use formula::mmu::Mmu;

fn program(bytes: &[u8]) -> (Cpu, Memory) {
    let mut mem = Memory::new();
    mem.load(0x0000, bytes);
    let mut cpu = Cpu::new();
    cpu.sp = 0xd000;
    (cpu, mem)
}

#[test]
fn every_opcode_takes_one_to_six_m_cycles() {
    for opcode in 0..=0xff_u8 {
        for second in [0x00, 0x06, 0x46, 0x86, 0xc6] {
            let (mut cpu, mut mem) = program(&[opcode, second, 0xc0]);
            cpu.set_hl(0xc100);
            let cycles = cpu.step(&mut mem);
            assert!((4..=24).contains(&cycles), "opcode {opcode:#04x}");
            assert_eq!(cycles % 4, 0, "opcode {opcode:#04x}");
        }
    }
}

#[test]
fn just_eleven_opcodes_lock() {
    let illegal = [
        0xd3, 0xdb, 0xdd, 0xe3, 0xe4, 0xeb, 0xec, 0xed, 0xf4, 0xfc, 0xfd,
    ];
    for opcode in 0..=0xff_u8 {
        let (mut cpu, mut mem) = program(&[opcode]);
        cpu.step(&mut mem);
        assert_eq!(cpu.locked, illegal.contains(&opcode), "opcode {opcode:#04x}");
    }
}

#[test]
fn locked_cpu_lets_time_pass_and_nothing_else() {
    let (mut cpu, mut mem) = program(&[0xd3, 0x3c]);
    cpu.step(&mut mem);
    for _ in 0..3 {
        assert_eq!(cpu.step(&mut mem), 4);
        assert_eq!(cpu.pc, 0x0001);
        assert_eq!(cpu.a, 0);
    }
}

#[test]
fn loads_pay_one_more_m_cycle_for_memory() {
    for opcode in 0x40..0x80_u8 {
        if opcode == 0x76 {
            continue;
        }
        let (mut cpu, mut mem) = program(&[opcode]);
        cpu.set_hl(0xc100);
        let memory = opcode % 8 == 6 || opcode / 8 % 8 == 6;
        assert_eq!(cpu.step(&mut mem), if memory { 8 } else { 4 });
    }
}

#[test]
fn loads_leave_the_flags() {
    for opcode in 0x40..0x80_u8 {
        let (mut cpu, mut mem) = program(&[opcode]);
        cpu.f = Flags::from_bits(0xa0);
        cpu.step(&mut mem);
        assert_eq!(cpu.f.bits(), 0xa0);
    }
}

#[test]
fn decimal_sums_are_adjusted() {
    for x in 0..100_u8 {
        for y in 0..100_u8 {
            let bcd = |n: u8| n / 10 * 16 + n % 10;
            let (mut cpu, mut mem) = program(&[0xc6, bcd(y), 0x27]);
            cpu.a = bcd(x);
            cpu.step(&mut mem);
            cpu.step(&mut mem);
            assert_eq!(cpu.a, bcd((x + y) % 100));
            assert_eq!(cpu.f.c(), x + y >= 100);
        }
    }
}

#[test]
fn decimal_differences_are_adjusted() {
    for x in 0..100_u8 {
        for y in 0..100_u8 {
            let bcd = |n: u8| n / 10 * 16 + n % 10;
            let (mut cpu, mut mem) = program(&[0xd6, bcd(y), 0x27]);
            cpu.a = bcd(x);
            cpu.step(&mut mem);
            cpu.step(&mut mem);
            assert_eq!(cpu.a, bcd((100 + x - y) % 100));
            assert_eq!(cpu.f.c(), x < y);
        }
    }
}

#[test]
fn subtract_undoes_add_for_all_bytes() {
    for a in 0..=0xff_u8 {
        let (mut cpu, mut mem) = program(&[0x80, 0x90]);
        cpu.a = a;
        cpu.b = 0xa7;
        cpu.step(&mut mem);
        cpu.step(&mut mem);
        assert_eq!(cpu.a, a);
    }
}

#[test]
fn rotations_undo_each_other_for_all_bytes() {
    for v in 0..=0xff_u8 {
        // RLC B, RRC B; SWAP C twice.
        let (mut cpu, mut mem) = program(&[0xcb, 0x00, 0xcb, 0x08, 0xcb, 0x31, 0xcb, 0x31]);
        cpu.b = v;
        cpu.c = v;
        for _ in 0..4 {
            cpu.step(&mut mem);
        }
        assert_eq!(cpu.b, v);
        assert_eq!(cpu.c, v);
    }
}

#[test]
fn compare_keeps_a_and_tells_the_order() {
    for (a, b) in [(5, 5), (5, 6), (6, 5), (0, 0xff), (0xff, 0)] {
        let (mut cpu, mut mem) = program(&[0xb8]);
        cpu.a = a;
        cpu.b = b;
        cpu.step(&mut mem);
        assert_eq!(cpu.a, a);
        assert_eq!(cpu.f.z(), a == b);
        assert_eq!(cpu.f.c(), a < b);
        assert!(cpu.f.n());
    }
}

#[test]
fn interrupt_lines_are_taken_lowest_first_and_saved_pc_returns() {
    for line in 0..5_u8 {
        let (mut cpu, mut mem) = program(&[0x00]);
        mem.write8(0x0040 + u16::from(line) * 8, 0xd9); // RETI
        cpu.pc = 0x1234;
        cpu.ime = true;
        let raised = 0x1f_u8 << line & 0x1f;
        mem.write8(0xff0f, raised);
        mem.write8(0xffff, 0x1f);

        assert_eq!(cpu.step(&mut mem), 20);
        assert_eq!(cpu.pc, 0x0040 + u16::from(line) * 8);
        assert_eq!(mem.read8(0xff0f), raised & !(1 << line));
        assert!(!cpu.ime);

        assert_eq!(cpu.step(&mut mem), 16);
        assert_eq!(cpu.pc, 0x1234);
        assert_eq!(cpu.sp, 0xd000);
        assert!(cpu.ime);
    }
}

#[test]
fn halted_cpu_idles_until_an_interrupt_is_raised() {
    let (mut cpu, mut mem) = program(&[0x76, 0x3c]);
    cpu.step(&mut mem);
    for _ in 0..3 {
        assert_eq!(cpu.step(&mut mem), 4);
        assert!(cpu.halted);
        assert_eq!(cpu.pc, 0x0001);
    }
    mem.write8(0xffff, 0x04);
    mem.write8(0xff0f, 0x04);
    cpu.step(&mut mem);
    assert!(!cpu.halted);
    assert_eq!(cpu.a, 1);
}

#[test]
fn halt_steps_back_for_an_interrupt_that_comes_with_its_fetch() {
    let mut rom = vec![0; 0x8000];
    rom[0x0004] = 0x76;
    let mut mmu = Mmu::new(Box::new(Mbc0::new(rom)));
    mmu.write8(0xffff, 0x04);
    mmu.write8(0xff05, 0xff);
    mmu.write8(0xff07, 0x05);
    let mut cpu = Cpu::new();
    cpu.sp = 0xfffe;
    cpu.ime = true;
    for _ in 0..4 {
        cpu.step(&mut mmu); // NOP
    }
    // The timer interrupt is raised in the M-cycle that fetches HALT.
    assert_eq!(cpu.step(&mut mmu), 4);
    assert!(!cpu.halted && !cpu.halt_bug);
    assert_eq!(cpu.pc, 0x0004);
    assert_eq!(cpu.step(&mut mmu), 20);
    assert_eq!(cpu.pc, 0x0050);
    assert_eq!(mmu.read8(0xfffc), 0x04);
}

#[test]
fn halt_bug_reads_the_next_byte_twice() {
    let (mut cpu, mut mem) = program(&[0x76, 0x3c, 0x00]);
    mem.write8(0xffff, 0x01);
    mem.write8(0xff0f, 0x01);
    cpu.step(&mut mem);
    assert!(cpu.halt_bug && !cpu.halted);
    cpu.step(&mut mem);
    assert_eq!((cpu.a, cpu.pc), (1, 0x0001));
    cpu.step(&mut mem);
    assert_eq!((cpu.a, cpu.pc), (2, 0x0002));
}

#[test]
fn di_right_after_ei_leaves_interrupts_off() {
    let (mut cpu, mut mem) = program(&[0xfb, 0xf3, 0x00, 0x00]);
    for _ in 0..4 {
        cpu.step(&mut mem);
        assert!(!cpu.ime);
    }
}

#[test]
fn stack_wraps_round_the_address_space() {
    let (mut cpu, mut mem) = program(&[0xc5, 0xd1]); // PUSH BC, POP DE
    cpu.sp = 0x0001;
    cpu.set_bc(0xbeef);
    mem.load(0x0100, &[0xc5, 0xd1]);
    cpu.pc = 0x0100;
    cpu.step(&mut mem);
    assert_eq!(cpu.sp, 0xffff);
    assert_eq!(mem.read8(0x0000), 0xbe);
    assert_eq!(mem.read8(0xffff), 0xef);
    cpu.step(&mut mem);
    assert_eq!(cpu.de(), 0xbeef);
    assert_eq!(cpu.sp, 0x0001);
}

#[test]
fn bit_res_and_set_reach_every_bit_of_every_operand() {
    for bit in 0..8_u8 {
        for operand in 0..8_u8 {
            let set = 0xc0 + bit * 8 + operand;
            let test = 0x40 + bit * 8 + operand;
            let res = 0x80 + bit * 8 + operand;
            let (mut cpu, mut mem) =
                program(&[0xcb, set, 0xcb, test, 0xcb, res, 0xcb, test]);
            cpu.set_hl(0xc100);
            cpu.step(&mut mem);
            let hl = cpu.hl();
            cpu.step(&mut mem);
            assert!(!cpu.f.z(), "bit {bit} of operand {operand} after SET");
            cpu.step(&mut mem);
            // SET and RES on H or L leave HL where it was but for that bit.
            assert!(operand == 4 || operand == 5 || cpu.hl() == hl);
            cpu.step(&mut mem);
            assert!(cpu.f.z(), "bit {bit} of operand {operand} after RES");
        }
    }
}

#[test]
fn reset_registers_are_zero() {
    let cpu = Cpu::default();
    assert_eq!(cpu.af(), 0);
    assert_eq!(cpu.bc(), 0);
    assert_eq!(cpu.de(), 0);
    assert_eq!(cpu.hl(), 0);
    assert_eq!(cpu.sp, 0);
    assert_eq!(cpu.pc, 0);
    assert!(!cpu.halted && !cpu.ime && !cpu.halt_bug && !cpu.locked);
}

#[test]
fn vector_is_settled_after_the_push() {
    // The high byte of PC lands on IE and leaves only line 2 enabled.
    let (mut cpu, mut mem) = program(&[0x00]);
    cpu.ime = true;
    cpu.pc = 0x0400;
    cpu.sp = 0x0000;
    mem.write8(0xff0f, 0x05);
    mem.write8(0xffff, 0x05);
    assert_eq!(cpu.step(&mut mem), 20);
    assert_eq!(mem.read8(0xffff), 0x04);
    assert_eq!(cpu.pc, 0x0050);
    assert_eq!(mem.read8(0xff0f), 0x01);
    assert!(!cpu.ime);
}

#[test]
fn push_that_disables_every_line_goes_to_zero_and_leaves_if() {
    let (mut cpu, mut mem) = program(&[0x00]);
    cpu.ime = true;
    cpu.pc = 0x2000;
    cpu.sp = 0x0000;
    mem.write8(0xff0f, 0x05);
    mem.write8(0xffff, 0x05);
    assert_eq!(cpu.step(&mut mem), 20);
    assert_eq!(cpu.pc, 0x0000);
    assert_eq!(mem.read8(0xff0f), 0x05);
    assert_eq!(cpu.sp, 0xfffe);
    assert!(!cpu.ime);
}

#[test]
fn low_byte_of_pc_over_ie_counts_too() {
    let (mut cpu, mut mem) = program(&[0x00]);
    cpu.ime = true;
    cpu.pc = 0x1208;
    cpu.sp = 0x0001;
    mem.write8(0xff0f, 0x0a);
    mem.write8(0xffff, 0x02);
    cpu.step(&mut mem);
    assert_eq!(cpu.pc, 0x0058);
    assert_eq!(mem.read8(0xff0f), 0x02);
}

#[test]
fn pc_pushed_over_if_is_what_the_vector_is_settled_from() {
    let (mut cpu, mut mem) = program(&[0x00]);
    cpu.ime = true;
    cpu.pc = 0x0634;
    cpu.sp = 0xff10;
    mem.write8(0xff0f, 0x01);
    mem.write8(0xffff, 0x1f);
    cpu.step(&mut mem);
    assert_eq!(cpu.pc, 0x0048);
    assert_eq!(mem.read8(0xff0f), 0x04);
    assert_eq!(mem.read8(0xff0e), 0x34);
}

#[test]
fn line_raised_during_dispatch_comes_first_if_it_is_lower() {
    let mut mmu = Mmu::new(Box::new(Mbc0::new(vec![0; 0x8000])));
    mmu.write8(0xffff, 0x14);
    mmu.write8(0xff0f, 0x10);
    mmu.write8(0xff05, 0xff);
    mmu.write8(0xff07, 0x05);
    let mut cpu = Cpu::new();
    cpu.sp = 0xfffe;
    cpu.ime = true;
    // The timer interrupt is raised in the last of the five M-cycles.
    assert_eq!(cpu.step(&mut mmu), 20);
    assert_eq!(cpu.pc, 0x0050);
    assert_eq!(mmu.read8(0xff0f), 0x10);
}
