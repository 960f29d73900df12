use interrupts::bus::PortBus;
use interrupts::bus::PortOp;
use interrupts::pic::ChainedPics;
use interrupts::pit::Pit;
use interrupts::dispatch::timer_handler;

#[test]
fn new_timer_has_power_on_rate_and_no_ticks() {
    let pit = Pit::new();
    assert_eq!(pit.get_rate(), 18);
    assert_eq!(pit.get_ticks(), 0);
}

#[test]
fn one_hundred_ticks_at_rate_one_hundred_align() {
    let mut pit = Pit::new();
    let mut bus = PortBus::new();
    pit.set_rate(&mut bus, 100);
    let mut i = 0;
    while i < 100 {
        pit.tick();
        i += 1;
    }
    assert_eq!(pit.get_ticks() % (pit.get_rate() as u64), 0);
}

#[test]
fn set_rate_writes_command_then_low_then_high_byte() {
    let mut pit = Pit::new();
    let mut bus = PortBus::new();
    pit.set_rate(&mut bus, 100);
    // 1193180 / 100 = 11931 = 0x2e9b.
    assert_eq!(bus.log_len(), 3);
    assert_eq!(bus.log_at(0), PortOp::Write { port: 0x43, value: 0x36 });
    assert_eq!(bus.log_at(1), PortOp::Write { port: 0x40, value: 0x9b });
    assert_eq!(bus.log_at(2), PortOp::Write { port: 0x40, value: 0x2e });
    assert_eq!(pit.get_rate(), 100);
    assert_eq!(pit.get_ticks(), 0);
}

#[test]
fn set_rate_rounds_the_divisor_down() {
    let mut pit = Pit::new();
    let mut bus = PortBus::new();
    pit.set_rate(&mut bus, 1000);
    // 1193180 / 1000 = 1193 = 0x04a9.
    assert_eq!(bus.log_at(1), PortOp::Write { port: 0x40, value: 0xa9 });
    assert_eq!(bus.log_at(2), PortOp::Write { port: 0x40, value: 0x04 });
}

#[test]
fn tick_increments_by_exactly_one() {
    let mut pit = Pit::new();
    pit.tick();
    assert_eq!(pit.get_ticks(), 1);
    pit.tick();
    assert_eq!(pit.get_ticks(), 2);
}

#[test]
fn timer_interrupt_ticks_then_acknowledges() {
    let mut pit = Pit::new();
    let mut bus = PortBus::new();
    let pics = ChainedPics::new(0x20, 0x28);
    timer_handler(&mut pit, &pics, &mut bus);
    assert_eq!(pit.get_ticks(), 1);
    assert_eq!(bus.log_len(), 1);
    assert_eq!(bus.log_at(0), PortOp::Write { port: 0x20, value: 0x20 });
}
