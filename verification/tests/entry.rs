use interrupts::bus::PortBus;
use interrupts::dispatch::ExceptionStackFrame;
use interrupts::dispatch::Outcome;
use interrupts::kbd::Keyboard;
use interrupts::pic::ChainedPics;
use interrupts::pit::Pit;
use interrupts::trampoline::handle_with_error_code;
use interrupts::trampoline::handle_without_error_code;
use interrupts::trampoline::interrupt_return;
use interrupts::trampoline::pop_scratch;
use interrupts::trampoline::push_scratch;
use interrupts::trampoline::read_error_code;
use interrupts::trampoline::read_frame;
use interrupts::trampoline::ScratchRegisters;

fn scratch() -> ScratchRegisters {
    ScratchRegisters {
        rax: 0x11,
        rcx: 0x22,
        rdx: 0x33,
        rsi: 0x44,
        rdi: 0x55,
        r8: 0x66,
        r9: 0x77,
        r10: 0x88,
        r11: 0x99,
    }
}

/// The five frame words in CPU push order: ss, rsp, rflags, cs, rip.
fn cpu_pushed_frame() -> Vec<u64> {
    vec![0x10, 0x7000, 0x202, 0x08, 0x20_0000]
}

fn machine() -> (Pit, Keyboard, ChainedPics, PortBus) {
    (Pit::new(), Keyboard::new(), ChainedPics::new(0x20, 0x28), PortBus::new())
}

#[test]
fn save_and_restore_bring_every_register_back() {
    let mut stack = cpu_pushed_frame();
    let regs = scratch();
    push_scratch(&mut stack, &regs);
    assert_eq!(stack.len(), 14);
    // The frame is located at the fixed offset: nine words up.
    let frame = read_frame(&stack, false);
    assert_eq!(frame.instruction_pointer, 0x20_0000);
    assert_eq!(frame.code_segment, 0x08);
    assert_eq!(frame.cpu_flags, 0x202);
    assert_eq!(frame.stack_pointer, 0x7000);
    assert_eq!(frame.stack_segment, 0x10);
    let restored = pop_scratch(&mut stack);
    assert_eq!(restored, regs);
    assert_eq!(stack, cpu_pushed_frame());
}

#[test]
fn error_code_sits_between_frame_and_saved_registers() {
    let mut stack = cpu_pushed_frame();
    stack.push(0x2); // the hardware-pushed error code
    push_scratch(&mut stack, &scratch());
    assert_eq!(read_error_code(&stack), 0x2);
    let frame = read_frame(&stack, true);
    assert_eq!(frame.instruction_pointer, 0x20_0000);
    assert_eq!(frame.stack_segment, 0x10);
}

#[test]
fn breakpoint_roundtrip_preserves_registers_and_stack() {
    let mut stack = cpu_pushed_frame();
    let (mut pit, mut kbd, pics, mut bus) = machine();
    let regs = scratch();
    let (restored, outcome, emitted) = handle_without_error_code(
        &mut stack,
        &regs,
        3,
        &mut pit,
        &mut kbd,
        &pics,
        &mut bus,
    );
    assert_eq!(restored, regs);
    assert_eq!(outcome, Outcome::Resume);
    assert_eq!(emitted, None);
    assert_eq!(stack, cpu_pushed_frame());
    // The return from interrupt consumes the frame and resumes where the
    // event struck.
    let resumed = interrupt_return(&mut stack);
    assert_eq!(resumed.instruction_pointer, 0x20_0000);
    assert!(stack.is_empty());
}

#[test]
fn timer_roundtrip_ticks_through_the_full_protocol() {
    let mut stack = cpu_pushed_frame();
    let (mut pit, mut kbd, pics, mut bus) = machine();
    let (restored, outcome, _) = handle_without_error_code(
        &mut stack,
        &scratch(),
        32,
        &mut pit,
        &mut kbd,
        &pics,
        &mut bus,
    );
    assert_eq!(restored, scratch());
    assert_eq!(outcome, Outcome::Resume);
    assert_eq!(pit.get_ticks(), 1);
    assert_eq!(stack, cpu_pushed_frame());
}

#[test]
fn recoverable_page_fault_advances_the_resumed_instruction_pointer() {
    let mut stack = cpu_pushed_frame();
    stack.push(0x2); // error code
    let (mut pit, mut kbd, pics, mut bus) = machine();
    let regs = scratch();
    let (restored, outcome, _) = handle_with_error_code(
        &mut stack,
        &regs,
        14,
        0xdeadbeaf,
        &mut pit,
        &mut kbd,
        &pics,
        &mut bus,
    );
    assert_eq!(restored, regs);
    assert_eq!(outcome, Outcome::Resume);
    // The error-code word is gone and the stored instruction pointer
    // advanced past the faulting instruction.
    assert_eq!(stack, vec![0x10, 0x7000, 0x202, 0x08, 0x20_0000 + 7]);
    let resumed = interrupt_return(&mut stack);
    assert_eq!(resumed.instruction_pointer, 0x20_0000 + 7);
    assert_eq!(resumed.code_segment, 0x08);
    assert!(stack.is_empty());
}

#[test]
fn unrecoverable_page_fault_halts_with_the_frame_intact() {
    let mut stack = cpu_pushed_frame();
    stack.push(0x2);
    let (mut pit, mut kbd, pics, mut bus) = machine();
    let (restored, outcome, _) = handle_with_error_code(
        &mut stack,
        &scratch(),
        14,
        0x4000,
        &mut pit,
        &mut kbd,
        &pics,
        &mut bus,
    );
    assert_eq!(restored, scratch());
    assert_eq!(outcome, Outcome::Halt);
    assert_eq!(stack, cpu_pushed_frame());
}

#[test]
fn frame_survives_a_dispatch_that_does_not_touch_it() {
    let mut stack = cpu_pushed_frame();
    let (mut pit, mut kbd, pics, mut bus) = machine();
    bus.write(0x60, 0x1e);
    let (_, outcome, emitted) = handle_without_error_code(
        &mut stack,
        &scratch(),
        33,
        &mut pit,
        &mut kbd,
        &pics,
        &mut bus,
    );
    assert_eq!(outcome, Outcome::Resume);
    assert_eq!(emitted, Some(b'a'));
    let resumed = interrupt_return(&mut stack);
    assert_eq!(
        resumed,
        ExceptionStackFrame {
            instruction_pointer: 0x20_0000,
            code_segment: 0x08,
            cpu_flags: 0x202,
            stack_pointer: 0x7000,
            stack_segment: 0x10,
        }
    );
}
