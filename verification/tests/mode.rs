use formula::ppu::PpuMode;

#[test]
fn stat_bits_match_hardware_encoding() {
    assert_eq!(PpuMode::HBlank.stat_bits(), 0b00);
    assert_eq!(PpuMode::VBlank.stat_bits(), 0b01);
    assert_eq!(PpuMode::OamSearch.stat_bits(), 0b10);
    assert_eq!(PpuMode::Drawing.stat_bits(), 0b11);
}
