use nep::clock::Clock;

#[test]
fn update() {
    let mut clock = Clock::new();
    let mut cpu = 0u8;
    let mut ppu = 0u8;

    for _ in 0..24 {
        clock.update();
        if clock.need_step_cpu() {
            cpu += 1;
        }
        if clock.need_step_ppu() {
            ppu += 1;
        }
    }

    assert_eq!(cpu, 8, "cpu counter not equal");
    assert_eq!(ppu, 24, "ppu counter not equal");
}

#[test]
fn counter_wraps_around() {
    let mut clock = Clock { counter: u64::MAX };
    clock.update();
    assert_eq!(clock.counter(), 0);
    clock.reset();
    assert_eq!(clock.counter(), 0);
}
