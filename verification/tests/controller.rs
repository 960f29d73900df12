use interrupts::bus::PortBus;
use interrupts::bus::PortOp;
use interrupts::pic::ChainedPics;

const EOI: u32 = 0x20;

fn fresh() -> (ChainedPics, PortBus) {
    (ChainedPics::new(0x20, 0x28), PortBus::new())
}

#[test]
fn handles_interrupt_covers_exactly_the_two_bands() {
    let (pics, _) = fresh();
    let mut v: u16 = 0;
    while v < 256 {
        let expected = 0x20 <= v && v < 0x30;
        assert_eq!(pics.handles_interrupt(v as u8), expected, "vector {}", v);
        v += 1;
    }
}

#[test]
fn initialize_sends_the_fixed_sequence_and_restores_masks() {
    let (mut pics, mut bus) = fresh();
    // Give each chip a distinctive mask byte first.
    bus.write(0x21, 0xfd);
    bus.write(0xa1, 0xfe);
    let before = bus.log_len();
    pics.initialize(&mut bus);
    assert_eq!(bus.log_len(), before + 20);
    let expected = [
        PortOp::Read { port: 0x21, value: 0xfd },
        PortOp::Read { port: 0xa1, value: 0xfe },
        PortOp::Write { port: 0x20, value: 0x11 },
        PortOp::Write { port: 0x80, value: 0 },
        PortOp::Write { port: 0xa0, value: 0x11 },
        PortOp::Write { port: 0x80, value: 0 },
        PortOp::Write { port: 0x21, value: 0x20 },
        PortOp::Write { port: 0x80, value: 0 },
        PortOp::Write { port: 0xa1, value: 0x28 },
        PortOp::Write { port: 0x80, value: 0 },
        PortOp::Write { port: 0x21, value: 4 },
        PortOp::Write { port: 0x80, value: 0 },
        PortOp::Write { port: 0xa1, value: 2 },
        PortOp::Write { port: 0x80, value: 0 },
        PortOp::Write { port: 0x21, value: 1 },
        PortOp::Write { port: 0x80, value: 0 },
        PortOp::Write { port: 0xa1, value: 1 },
        PortOp::Write { port: 0x80, value: 0 },
        PortOp::Write { port: 0x21, value: 0xfd },
        PortOp::Write { port: 0xa1, value: 0xfe },
    ];
    for (i, op) in expected.iter().enumerate() {
        assert_eq!(bus.log_at(before + i), *op, "operation {}", i);
    }
    // The mask bytes end as they began.
    assert_eq!(bus.peek(0x21), 0xfd);
    assert_eq!(bus.peek(0xa1), 0xfe);
}

#[test]
fn eoi_for_chip2_band_is_two_writes_in_cascade_order() {
    let (pics, mut bus) = fresh();
    pics.notify_end_of_interrupt(&mut bus, 40);
    assert_eq!(bus.log_len(), 2);
    assert_eq!(bus.log_at(0), PortOp::Write { port: 0xa0, value: EOI });
    assert_eq!(bus.log_at(1), PortOp::Write { port: 0x20, value: EOI });
}

#[test]
fn eoi_for_chip1_band_is_one_write() {
    let (pics, mut bus) = fresh();
    pics.notify_end_of_interrupt(&mut bus, 33);
    assert_eq!(bus.log_len(), 1);
    assert_eq!(bus.log_at(0), PortOp::Write { port: 0x20, value: EOI });
}

#[test]
fn eoi_outside_both_bands_is_silent() {
    let (pics, mut bus) = fresh();
    pics.notify_end_of_interrupt(&mut bus, 50);
    pics.notify_end_of_interrupt(&mut bus, 31);
    pics.notify_end_of_interrupt(&mut bus, 0);
    assert_eq!(bus.log_len(), 0);
}

#[test]
fn set_then_clear_mask_restores_every_line() {
    for line in 0u8..16 {
        let (pics, mut bus) = fresh();
        let data_port: u16 = if line < 8 { 0x21 } else { 0xa1 };
        let before = bus.peek(data_port);
        pics.set_mask(&mut bus, line);
        let masked = bus.peek(data_port);
        assert_eq!(masked, before | (1u32 << (line % 8)), "line {}", line);
        pics.clear_mask(&mut bus, line);
        assert_eq!(bus.peek(data_port), before, "line {}", line);
    }
}

#[test]
fn set_then_clear_mask_keeps_other_lines_masked() {
    let (pics, mut bus) = fresh();
    pics.set_mask(&mut bus, 3);
    assert_eq!(bus.peek(0x21), 0x08);
    pics.set_mask(&mut bus, 5);
    assert_eq!(bus.peek(0x21), 0x28);
    pics.clear_mask(&mut bus, 5);
    assert_eq!(bus.peek(0x21), 0x08);
}

#[test]
fn mask_operations_touch_only_the_owning_chip() {
    let (pics, mut bus) = fresh();
    pics.set_mask(&mut bus, 9);
    assert_eq!(bus.peek(0x21), 0);
    assert_eq!(bus.peek(0xa1), 0x02);
    assert_eq!(bus.log_at(0), PortOp::Read { port: 0xa1, value: 0 });
    assert_eq!(bus.log_at(1), PortOp::Write { port: 0xa1, value: 0x02 });
}

#[test]
fn status_reads_issue_the_command_to_both_chips() {
    let (pics, mut bus) = fresh();
    let irr = pics.get_irr(&mut bus);
    assert_eq!(irr, 0x0a0a);
    assert_eq!(bus.log_len(), 4);
    assert_eq!(bus.log_at(0), PortOp::Write { port: 0x20, value: 0x0a });
    assert_eq!(bus.log_at(1), PortOp::Write { port: 0xa0, value: 0x0a });
    assert_eq!(bus.log_at(2), PortOp::Read { port: 0x20, value: 0x0a });
    assert_eq!(bus.log_at(3), PortOp::Read { port: 0xa0, value: 0x0a });
    let isr = pics.get_isr(&mut bus);
    assert_eq!(isr, 0x0b0b);
    assert_eq!(bus.log_len(), 8);
}
