//! The exception/IRQ dispatch policy: which vectors are fatal, which
//! resume, and what each handler does to the drivers and the bus.
//!
//! Handlers never return an error to the CPU; an unrecoverable event ends
//! in `Outcome::Halt` (the shell then loops forever), a recoverable one in
//! `Outcome::Resume`. For a hardware interrupt, end-of-interrupt is
//! acknowledged only after the handler's own work, never before.

use vstd::prelude::*;
use crate::bus::PortBus;
use crate::bus::PortOp;
use crate::kbd::decode;
use crate::kbd::Keyboard;
use crate::kbd::KBD_DATA;
use crate::pic::ChainedPics;
use crate::pit::Pit;

verus! {

/// Vector of the divide-by-zero exception.
pub const DIVIDE_BY_ZERO_VECTOR: u8 = 0;

/// Vector of the breakpoint exception.
pub const BREAKPOINT_VECTOR: u8 = 3;

/// Vector of the invalid-opcode exception.
pub const INVALID_OPCODE_VECTOR: u8 = 6;

/// Vector of the page-fault exception.
pub const PAGE_FAULT_VECTOR: u8 = 14;

/// Vectors below this are CPU-defined exceptions; 32..48 are the remapped
/// hardware interrupt lines.
pub const EXCEPTION_VECTORS: u8 = 32;

/// Vector the timer line is remapped to.
pub const TIMER_VECTOR: u8 = 32;

/// Vector the keyboard line is remapped to.
pub const KEYBOARD_VECTOR: u8 = 33;

/// The one faulting address whose page fault is treated as recoverable.
pub const RECOVERABLE_FAULT_ADDRESS: u64 = 0xdeadbeaf;

/// Encoded length of the instruction that faults at the recoverable
/// address: the resumed instruction pointer advances by this much.
pub const FAULT_SKIP_BYTES: u64 = 7;

/// Snapshot of CPU state at the moment of the event, as the CPU pushes it:
/// read-only to handlers except for the page-fault recovery path, which
/// advances the resumed instruction pointer.
#[derive(Clone, Copy, PartialEq, Eq, Structural, Debug)]
pub struct ExceptionStackFrame {
    pub instruction_pointer: u64,
    pub code_segment: u64,
    pub cpu_flags: u64,
    pub stack_pointer: u64,
    pub stack_segment: u64,
}

/// How one dispatch ends: return to the interrupted context, or halt the
/// machine forever.
#[derive(Clone, Copy, PartialEq, Eq, Structural, Debug)]
pub enum Outcome {
    Resume,
    Halt,
}

/// The decoded cause bits of a page-fault error code.
#[derive(Clone, Copy, PartialEq, Eq, Structural, Debug)]
pub struct PageFaultErrorCode {
    pub protection_violation: bool,
    pub caused_by_write: bool,
    pub user_mode: bool,
    pub malformed_table: bool,
    pub instruction_fetch: bool,
}

/// The cause bits the hardware packs into a page-fault error code.
pub open spec fn page_fault_cause(error_code: u64) -> PageFaultErrorCode {
    PageFaultErrorCode {
        protection_violation: error_code & 0x01 != 0,
        caused_by_write: error_code & 0x02 != 0,
        user_mode: error_code & 0x04 != 0,
        malformed_table: error_code & 0x08 != 0,
        instruction_fetch: error_code & 0x10 != 0,
    }
}

impl PageFaultErrorCode {
    /// Decode a hardware-pushed error code.
    pub fn from_bits(error_code: u64) -> (r: PageFaultErrorCode)
        ensures
            r == page_fault_cause(error_code),
    {
        PageFaultErrorCode {
            protection_violation: error_code & 0x01 != 0,
            caused_by_write: error_code & 0x02 != 0,
            user_mode: error_code & 0x04 != 0,
            malformed_table: error_code & 0x08 != 0,
            instruction_fetch: error_code & 0x10 != 0,
        }
    }
}

/// Whether a dispatch of `vector` halts the machine: every exception is
/// fatal except the breakpoint, which always resumes, and a page fault at
/// the recoverable address; hardware interrupts never halt.
pub open spec fn is_fatal(vector: u8, faulting_address: u64) -> bool {
    if vector == BREAKPOINT_VECTOR {
        false
    } else if vector == PAGE_FAULT_VECTOR {
        faulting_address != RECOVERABLE_FAULT_ADDRESS
    } else {
        vector < EXCEPTION_VECTORS
    }
}

/// Divide-by-zero is fatal by design: the shell logs the context and halts.
#[allow(unused_variables)]
pub fn divide_by_zero_handler(stack_frame: &ExceptionStackFrame) -> (r: Outcome)
    ensures
        r is Halt,
{
    Outcome::Halt
}

/// Invalid opcode is fatal by design: the shell logs the context and halts.
#[allow(unused_variables)]
pub fn invalid_opcode_handler(stack_frame: &ExceptionStackFrame) -> (r: Outcome)
    ensures
        r is Halt,
{
    Outcome::Halt
}

/// The breakpoint exception is diagnostic only: log and resume.
#[allow(unused_variables)]
pub fn breakpoint_handler(stack_frame: &ExceptionStackFrame) -> (r: Outcome)
    ensures
        r is Resume,
{
    Outcome::Resume
}

/// The page-fault policy: decode the cause bits for the log; at the
/// recoverable sentinel address, advance the resumed instruction pointer
/// past the faulting instruction and resume; anywhere else, halt with the
/// frame untouched.
pub fn page_fault_handler(
    stack_frame: &mut ExceptionStackFrame,
    error_code: u64,
    faulting_address: u64,
) -> (r: (Outcome, PageFaultErrorCode))
    requires
        faulting_address == RECOVERABLE_FAULT_ADDRESS ==> old(
            stack_frame,
        ).instruction_pointer + FAULT_SKIP_BYTES <= u64::MAX,
    ensures
        r.1 == page_fault_cause(error_code),
        r.0 is Halt <==> faulting_address != RECOVERABLE_FAULT_ADDRESS,
        faulting_address == RECOVERABLE_FAULT_ADDRESS ==> *final(stack_frame)
            == (ExceptionStackFrame {
            instruction_pointer: (old(stack_frame).instruction_pointer + FAULT_SKIP_BYTES) as u64,
            ..*old(stack_frame)
        }),
        faulting_address != RECOVERABLE_FAULT_ADDRESS ==> *final(stack_frame)
            == *old(stack_frame),
{
    let cause = PageFaultErrorCode::from_bits(error_code);
    if faulting_address == RECOVERABLE_FAULT_ADDRESS {
        stack_frame.instruction_pointer = stack_frame.instruction_pointer + FAULT_SKIP_BYTES;
        (Outcome::Resume, cause)
    } else {
        (Outcome::Halt, cause)
    }
}

/// The timer interrupt: count the tick, then acknowledge end-of-interrupt.
pub fn timer_handler(pit: &mut Pit, pics: &ChainedPics, bus: &mut PortBus)
    requires
        pics.wf(),
        old(bus).wf(),
        old(pit).ticks() < u64::MAX,
    ensures
        final(pit).ticks() == old(pit).ticks() + 1,
        final(pit).rate() == old(pit).rate(),
        final(pit).wf() == old(pit).wf(),
        final(bus).wf(),
        final(bus)@.log == old(bus)@.log + pics.eoi_ops(TIMER_VECTOR),
        final(bus)@.latch == pics.eoi_latch(old(bus)@.latch, TIMER_VECTOR),
{
    pit.tick();
    pics.notify_end_of_interrupt(bus, TIMER_VECTOR);
}

/// The keyboard interrupt: read one scancode from the data port, feed it
/// through the decoder, and only then acknowledge end-of-interrupt. The
/// returned character, if any, goes to the output sink.
pub fn keyboard_handler(kbd: &mut Keyboard, pics: &ChainedPics, bus: &mut PortBus) -> (out:
    Option<u8>)
    requires
        old(kbd).wf(),
        pics.wf(),
        old(bus).wf(),
    ensures
        final(kbd).wf(),
        (final(kbd)@.flags, out) == decode(
            old(kbd)@.flags,
            old(bus)@.latch[KBD_DATA as int] as u8,
        ),
        final(bus).wf(),
        final(bus)@.log == old(bus)@.log.push(PortOp::Read {
            port: KBD_DATA,
            value: old(bus)@.latch[KBD_DATA as int],
        }) + pics.eoi_ops(KEYBOARD_VECTOR),
        final(bus)@.latch == pics.eoi_latch(old(bus)@.latch, KEYBOARD_VECTOR),
{
    let scancode = kbd.read_key(bus);
    let out = kbd.apply_scancode(scancode);
    pics.notify_end_of_interrupt(bus, KEYBOARD_VECTOR);
    out
}

/// The per-dispatch state machine over the whole vector space: exceptions
/// decide fatal against recoverable, the timer and keyboard lines run
/// their drivers and acknowledge, and every other hardware line is
/// acknowledged with no further action.
pub fn dispatch(
    vector: u8,
    stack_frame: &mut ExceptionStackFrame,
    error_code: u64,
    faulting_address: u64,
    pit: &mut Pit,
    kbd: &mut Keyboard,
    pics: &ChainedPics,
    bus: &mut PortBus,
) -> (r: (Outcome, Option<u8>))
    requires
        pics.wf(),
        old(bus).wf(),
        old(kbd).wf(),
        vector < 48,
        vector == TIMER_VECTOR ==> old(pit).ticks() < u64::MAX,
        vector == PAGE_FAULT_VECTOR && faulting_address == RECOVERABLE_FAULT_ADDRESS ==> old(
            stack_frame,
        ).instruction_pointer + FAULT_SKIP_BYTES <= u64::MAX,
    ensures
        r.0 is Halt <==> is_fatal(vector, faulting_address),
        // The stack frame changes only on the page-fault recovery path.
        vector == PAGE_FAULT_VECTOR && faulting_address == RECOVERABLE_FAULT_ADDRESS
            ==> *final(stack_frame) == (ExceptionStackFrame {
            instruction_pointer: (old(stack_frame).instruction_pointer + FAULT_SKIP_BYTES) as u64,
            ..*old(stack_frame)
        }),
        !(vector == PAGE_FAULT_VECTOR && faulting_address == RECOVERABLE_FAULT_ADDRESS)
            ==> *final(stack_frame) == *old(stack_frame),
        // The timer ticks exactly on its own vector.
        vector == TIMER_VECTOR ==> final(pit).ticks() == old(pit).ticks() + 1
            && final(pit).rate() == old(pit).rate() && final(pit).wf() == old(pit).wf(),
        vector != TIMER_VECTOR ==> *final(pit) == *old(pit),
        // The keyboard decodes exactly on its own vector.
        final(kbd).wf(),
        vector == KEYBOARD_VECTOR ==> (final(kbd)@.flags, r.1) == decode(
            old(kbd)@.flags,
            old(bus)@.latch[KBD_DATA as int] as u8,
        ),
        vector != KEYBOARD_VECTOR ==> *final(kbd) == *old(kbd) && r.1 is None,
        // Bus traffic: exceptions touch no port; the keyboard line reads
        // its scancode; every hardware line acknowledges end-of-interrupt.
        final(bus).wf(),
        vector < EXCEPTION_VECTORS ==> final(bus)@.log == old(bus)@.log && final(bus)@.latch
            == old(bus)@.latch,
        vector >= EXCEPTION_VECTORS && vector != KEYBOARD_VECTOR ==> final(bus)@.log == old(
            bus,
        )@.log + pics.eoi_ops(vector) && final(bus)@.latch == pics.eoi_latch(
            old(bus)@.latch,
            vector,
        ),
        vector == KEYBOARD_VECTOR ==> final(bus)@.log == old(bus)@.log.push(PortOp::Read {
            port: KBD_DATA,
            value: old(bus)@.latch[KBD_DATA as int],
        }) + pics.eoi_ops(KEYBOARD_VECTOR) && final(bus)@.latch == pics.eoi_latch(
            old(bus)@.latch,
            KEYBOARD_VECTOR,
        ),
{
    if vector == DIVIDE_BY_ZERO_VECTOR {
        (divide_by_zero_handler(stack_frame), None)
    } else if vector == BREAKPOINT_VECTOR {
        (breakpoint_handler(stack_frame), None)
    } else if vector == INVALID_OPCODE_VECTOR {
        (invalid_opcode_handler(stack_frame), None)
    } else if vector == PAGE_FAULT_VECTOR {
        let result = page_fault_handler(stack_frame, error_code, faulting_address);
        (result.0, None)
    } else if vector < EXCEPTION_VECTORS {
        // An exception nothing is wired for: a configuration error the
        // table contract is meant to rule out; treated as fatal.
        (Outcome::Halt, None)
    } else if vector == TIMER_VECTOR {
        timer_handler(pit, pics, bus);
        (Outcome::Resume, None)
    } else if vector == KEYBOARD_VECTOR {
        let out = keyboard_handler(kbd, pics, bus);
        (Outcome::Resume, out)
    } else {
        // A hardware line with no defined action: acknowledge and drop.
        pics.notify_end_of_interrupt(bus, vector);
        (Outcome::Resume, None)
    }
}

} // verus!
