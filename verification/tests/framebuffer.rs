use formula::ppu::Framebuffer;

#[test]
fn framebuffer_is_160_by_144() {
    let fb = Framebuffer::new();
    assert_eq!(fb.as_slice().len(), 160 * 144);
    assert!(fb.as_slice().iter().all(|&p| p == 0));
}
