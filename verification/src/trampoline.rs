//! The entry trampoline protocol, modelled over an explicit stack.
//!
//! The stack is a sequence of 64-bit words whose end is the top (the
//! lowest address; a hardware push appends a word). On an event the CPU
//! pushes the five frame words — and, for some exceptions, an error code —
//! and jumps to the vector's entry stub. The stub saves the nine scratch
//! registers in a fixed order, locates the frame at a fixed offset below
//! the saved words, calls the typed dispatch, restores the registers in
//! exactly the reverse order, discards the error-code word if one was
//! pushed, and returns from the interrupt. The contracts here pin the
//! offsets and prove that the registers come back byte for byte.

use vstd::prelude::*;
use crate::bus::PortBus;
use crate::bus::PortOp;
use crate::dispatch::dispatch;
use crate::dispatch::is_fatal;
use crate::dispatch::EXCEPTION_VECTORS;
use crate::dispatch::ExceptionStackFrame;
use crate::dispatch::Outcome;
use crate::dispatch::FAULT_SKIP_BYTES;
use crate::dispatch::KEYBOARD_VECTOR;
use crate::dispatch::PAGE_FAULT_VECTOR;
use crate::dispatch::RECOVERABLE_FAULT_ADDRESS;
use crate::dispatch::TIMER_VECTOR;
use crate::kbd::Keyboard;
use crate::kbd::KBD_DATA;
use crate::pic::ChainedPics;
use crate::pit::Pit;

verus! {

/// Number of scratch-register words a trampoline pushes on entry.
pub const SCRATCH_WORDS: usize = 9;

/// Number of words the CPU pushes for the frame itself.
pub const FRAME_WORDS: usize = 5;

/// The caller-saved registers an entry stub must preserve by hand: the
/// CPU does not save them, and the resumed code relies on every one.
#[derive(Clone, Copy, PartialEq, Eq, Structural, Debug)]
pub struct ScratchRegisters {
    pub rax: u64,
    pub rcx: u64,
    pub rdx: u64,
    pub rsi: u64,
    pub rdi: u64,
    pub r8: u64,
    pub r9: u64,
    pub r10: u64,
    pub r11: u64,
}

/// The words a save pushes, in push order: rax first (deepest), r11 last
/// (top of stack).
pub open spec fn scratch_words(regs: ScratchRegisters) -> Seq<u64> {
    seq![
        regs.rax,
        regs.rcx,
        regs.rdx,
        regs.rsi,
        regs.rdi,
        regs.r8,
        regs.r9,
        regs.r10,
        regs.r11,
    ]
}

/// The registers read back from nine saved words.
pub open spec fn scratch_of(words: Seq<u64>) -> ScratchRegisters {
    ScratchRegisters {
        rax: words[0],
        rcx: words[1],
        rdx: words[2],
        rsi: words[3],
        rdi: words[4],
        r8: words[5],
        r9: words[6],
        r10: words[7],
        r11: words[8],
    }
}

/// The frame whose instruction-pointer word sits at index `rip_at`; the
/// CPU pushed the other four fields just before it, so they sit just
/// below.
pub open spec fn frame_at(stack: Seq<u64>, rip_at: int) -> ExceptionStackFrame {
    ExceptionStackFrame {
        instruction_pointer: stack[rip_at],
        code_segment: stack[rip_at - 1],
        cpu_flags: stack[rip_at - 2],
        stack_pointer: stack[rip_at - 3],
        stack_segment: stack[rip_at - 4],
    }
}

/// Index of the instruction-pointer word once the scratch registers are
/// saved: nine words above it, plus the error-code word when the vector
/// pushes one. This is the trampoline's fixed context-pointer offset.
pub open spec fn frame_rip_index(stack_len: int, has_error_code: bool) -> int {
    stack_len - (SCRATCH_WORDS as int) - (if has_error_code {
        2int
    } else {
        1int
    })
}

/// The stack with the five frame words replaced by `f`'s fields.
pub open spec fn with_frame(stack: Seq<u64>, has_error_code: bool, f: ExceptionStackFrame)
    -> Seq<u64> {
    let rip_at = frame_rip_index(stack.len() as int, has_error_code);
    stack
        .update(rip_at, f.instruction_pointer)
        .update(rip_at - 1, f.code_segment)
        .update(rip_at - 2, f.cpu_flags)
        .update(rip_at - 3, f.stack_pointer)
        .update(rip_at - 4, f.stack_segment)
}

/// Save the scratch registers: push each in the fixed order, rax first.
pub fn push_scratch(stack: &mut Vec<u64>, regs: &ScratchRegisters)
    ensures
        final(stack)@ == old(stack)@ + scratch_words(*regs),
{
    stack.push(regs.rax);
    stack.push(regs.rcx);
    stack.push(regs.rdx);
    stack.push(regs.rsi);
    stack.push(regs.rdi);
    stack.push(regs.r8);
    stack.push(regs.r9);
    stack.push(regs.r10);
    stack.push(regs.r11);
    proof {
        assert(stack@ =~= old(stack)@ + scratch_words(*regs));
    }
}

/// Restore the scratch registers: pop each in exactly the reverse order,
/// r11 first. The nine words leave the stack and land back in their
/// registers.
pub fn pop_scratch(stack: &mut Vec<u64>) -> (regs: ScratchRegisters)
    requires
        old(stack)@.len() >= SCRATCH_WORDS,
    ensures
        final(stack)@ == old(stack)@.take(old(stack)@.len() - SCRATCH_WORDS),
        regs == scratch_of(old(stack)@.skip(old(stack)@.len() - SCRATCH_WORDS)),
{
    let r11 = stack.pop().unwrap();
    let r10 = stack.pop().unwrap();
    let r9 = stack.pop().unwrap();
    let r8 = stack.pop().unwrap();
    let rdi = stack.pop().unwrap();
    let rsi = stack.pop().unwrap();
    let rdx = stack.pop().unwrap();
    let rcx = stack.pop().unwrap();
    let rax = stack.pop().unwrap();
    proof {
        assert(stack@ =~= old(stack)@.take(old(stack)@.len() - SCRATCH_WORDS));
    }
    ScratchRegisters { rax, rcx, rdx, rsi, rdi, r8, r9, r10, r11 }
}

/// Locate and read the frame at the fixed offset above the saved scratch
/// words (and above the error-code word, for the shape that has one).
pub fn read_frame(stack: &Vec<u64>, has_error_code: bool) -> (f: ExceptionStackFrame)
    requires
        stack@.len() >= SCRATCH_WORDS + FRAME_WORDS + (if has_error_code {
            1int
        } else {
            0int
        }),
    ensures
        f == frame_at(stack@, frame_rip_index(stack@.len() as int, has_error_code)),
{
    let offset: usize = if has_error_code {
        SCRATCH_WORDS + 2
    } else {
        SCRATCH_WORDS + 1
    };
    let rip_at = stack.len() - offset;
    ExceptionStackFrame {
        instruction_pointer: stack[rip_at],
        code_segment: stack[rip_at - 1],
        cpu_flags: stack[rip_at - 2],
        stack_pointer: stack[rip_at - 3],
        stack_segment: stack[rip_at - 4],
    }
}

/// Write the (possibly mutated) frame back into its five stack words.
pub fn write_frame(stack: &mut Vec<u64>, has_error_code: bool, f: ExceptionStackFrame)
    requires
        old(stack)@.len() >= SCRATCH_WORDS + FRAME_WORDS + (if has_error_code {
            1int
        } else {
            0int
        }),
    ensures
        final(stack)@ == with_frame(old(stack)@, has_error_code, f),
{
    let offset: usize = if has_error_code {
        SCRATCH_WORDS + 2
    } else {
        SCRATCH_WORDS + 1
    };
    let rip_at = stack.len() - offset;
    stack.set(rip_at, f.instruction_pointer);
    stack.set(rip_at - 1, f.code_segment);
    stack.set(rip_at - 2, f.cpu_flags);
    stack.set(rip_at - 3, f.stack_pointer);
    stack.set(rip_at - 4, f.stack_segment);
}

/// Read the hardware-pushed error code: it sits exactly nine saved words
/// below the top.
pub fn read_error_code(stack: &Vec<u64>) -> (code: u64)
    requires
        stack@.len() >= SCRATCH_WORDS + 1,
    ensures
        code == stack@[stack@.len() - SCRATCH_WORDS - 1],
{
    stack[stack.len() - SCRATCH_WORDS - 1]
}

/// Discard the error-code word before the return from interrupt, as the
/// stub's final stack adjustment does.
pub fn drop_error_code(stack: &mut Vec<u64>)
    requires
        old(stack)@.len() >= 1,
    ensures
        final(stack)@ == old(stack)@.take(old(stack)@.len() - 1),
{
    let _ = stack.pop();
}

/// The return from interrupt: the CPU consumes the five frame words and
/// resumes at the context they describe.
pub fn interrupt_return(stack: &mut Vec<u64>) -> (f: ExceptionStackFrame)
    requires
        old(stack)@.len() >= FRAME_WORDS,
    ensures
        final(stack)@ == old(stack)@.take(old(stack)@.len() - FRAME_WORDS),
        f == frame_at(old(stack)@, old(stack)@.len() - 1),
{
    let rip_at = stack.len() - 1;
    let f = ExceptionStackFrame {
        instruction_pointer: stack[rip_at],
        code_segment: stack[rip_at - 1],
        cpu_flags: stack[rip_at - 2],
        stack_pointer: stack[rip_at - 3],
        stack_segment: stack[rip_at - 4],
    };
    let _ = stack.pop();
    let _ = stack.pop();
    let _ = stack.pop();
    let _ = stack.pop();
    let _ = stack.pop();
    proof {
        assert(stack@ =~= old(stack)@.take(old(stack)@.len() - FRAME_WORDS));
    }
    f
}

/// The stub shape for vectors without an error code: save the scratch
/// registers, locate the frame nine words up, dispatch, write the frame
/// back and restore the registers. On `Outcome::Resume` the shell then
/// issues `interrupt_return`; on `Outcome::Halt` it loops forever.
///
/// The returned registers equal the saved ones exactly, and the stack is
/// left as the CPU pushed it: the protocol leaks nothing into resumed
/// code.
pub fn handle_without_error_code(
    stack: &mut Vec<u64>,
    scratch: &ScratchRegisters,
    vector: u8,
    pit: &mut Pit,
    kbd: &mut Keyboard,
    pics: &ChainedPics,
    bus: &mut PortBus,
) -> (r: (ScratchRegisters, Outcome, Option<u8>))
    requires
        old(stack)@.len() >= FRAME_WORDS,
        pics.wf(),
        old(bus).wf(),
        old(kbd).wf(),
        vector < 48,
        vector != PAGE_FAULT_VECTOR,
        vector == TIMER_VECTOR ==> old(pit).ticks() < u64::MAX,
    ensures
        r.0 == *scratch,
        final(stack)@ == old(stack)@,
        r.1 is Halt <==> is_fatal(vector, 0),
        vector == TIMER_VECTOR ==> final(pit).ticks() == old(pit).ticks() + 1
            && final(pit).rate() == old(pit).rate() && final(pit).wf() == old(pit).wf(),
        vector != TIMER_VECTOR ==> *final(pit) == *old(pit),
        final(kbd).wf(),
        vector == KEYBOARD_VECTOR ==> (final(kbd)@.flags, r.2) == crate::kbd::decode(
            old(kbd)@.flags,
            old(bus)@.latch[KBD_DATA as int] as u8,
        ),
        vector != KEYBOARD_VECTOR ==> *final(kbd) == *old(kbd) && r.2 is None,
        final(bus).wf(),
        vector < EXCEPTION_VECTORS ==> final(bus)@.log == old(bus)@.log && final(bus)@.latch
            == old(bus)@.latch,
        vector >= EXCEPTION_VECTORS && vector != KEYBOARD_VECTOR ==> final(bus)@.log == old(
            bus,
        )@.log + pics.eoi_ops(vector) && final(bus)@.latch == pics.eoi_latch(
            old(bus)@.latch,
            vector,
        ),
        vector == KEYBOARD_VECTOR ==> final(bus)@.log == old(bus)@.log.push(PortOp::Read {
            port: KBD_DATA,
            value: old(bus)@.latch[KBD_DATA as int],
        }) + pics.eoi_ops(KEYBOARD_VECTOR) && final(bus)@.latch == pics.eoi_latch(
            old(bus)@.latch,
            KEYBOARD_VECTOR,
        ),
{
    push_scratch(stack, scratch);
    let mut frame = read_frame(stack, false);
    let outcome = dispatch(vector, &mut frame, 0, 0, pit, kbd, pics, bus);
    write_frame(stack, false, frame);
    let restored = pop_scratch(stack);
    proof {
        assert(restored == *scratch);
        assert(stack@ =~= old(stack)@);
    }
    (restored, outcome.0, outcome.1)
}

/// The stub shape for vectors that push an error code: the frame sits one
/// word higher, the error code is read from just above the saved
/// registers and handed to dispatch as its second argument, and the
/// error-code word is discarded before the return from interrupt.
///
/// The registers come back exactly; the stack keeps the frame — with the
/// instruction pointer advanced on the page-fault recovery path — and
/// loses the error-code word.
pub fn handle_with_error_code(
    stack: &mut Vec<u64>,
    scratch: &ScratchRegisters,
    vector: u8,
    faulting_address: u64,
    pit: &mut Pit,
    kbd: &mut Keyboard,
    pics: &ChainedPics,
    bus: &mut PortBus,
) -> (r: (ScratchRegisters, Outcome, Option<u8>))
    requires
        old(stack)@.len() >= FRAME_WORDS + 1,
        pics.wf(),
        old(bus).wf(),
        old(kbd).wf(),
        vector < 48,
        vector == TIMER_VECTOR ==> old(pit).ticks() < u64::MAX,
        vector == PAGE_FAULT_VECTOR && faulting_address == RECOVERABLE_FAULT_ADDRESS ==> old(
            stack,
        )@[old(stack)@.len() - 2] + FAULT_SKIP_BYTES <= u64::MAX,
    ensures
        r.0 == *scratch,
        r.1 is Halt <==> is_fatal(vector, faulting_address),
        vector == PAGE_FAULT_VECTOR && faulting_address == RECOVERABLE_FAULT_ADDRESS
            ==> final(stack)@ == old(stack)@.take(old(stack)@.len() - 1).update(
            old(stack)@.len() - 2,
            (old(stack)@[old(stack)@.len() - 2] + FAULT_SKIP_BYTES) as u64,
        ),
        !(vector == PAGE_FAULT_VECTOR && faulting_address == RECOVERABLE_FAULT_ADDRESS)
            ==> final(stack)@ == old(stack)@.take(old(stack)@.len() - 1),
        vector == TIMER_VECTOR ==> final(pit).ticks() == old(pit).ticks() + 1
            && final(pit).rate() == old(pit).rate() && final(pit).wf() == old(pit).wf(),
        vector != TIMER_VECTOR ==> *final(pit) == *old(pit),
        final(kbd).wf(),
        vector == KEYBOARD_VECTOR ==> (final(kbd)@.flags, r.2) == crate::kbd::decode(
            old(kbd)@.flags,
            old(bus)@.latch[KBD_DATA as int] as u8,
        ),
        vector != KEYBOARD_VECTOR ==> *final(kbd) == *old(kbd) && r.2 is None,
        final(bus).wf(),
        vector < EXCEPTION_VECTORS ==> final(bus)@.log == old(bus)@.log && final(bus)@.latch
            == old(bus)@.latch,
        vector >= EXCEPTION_VECTORS && vector != KEYBOARD_VECTOR ==> final(bus)@.log == old(
            bus,
        )@.log + pics.eoi_ops(vector) && final(bus)@.latch == pics.eoi_latch(
            old(bus)@.latch,
            vector,
        ),
        vector == KEYBOARD_VECTOR ==> final(bus)@.log == old(bus)@.log.push(PortOp::Read {
            port: KBD_DATA,
            value: old(bus)@.latch[KBD_DATA as int],
        }) + pics.eoi_ops(KEYBOARD_VECTOR) && final(bus)@.latch == pics.eoi_latch(
            old(bus)@.latch,
            KEYBOARD_VECTOR,
        ),
{
    push_scratch(stack, scratch);
    let error_code = read_error_code(stack);
    let mut frame = read_frame(stack, true);
    let outcome = dispatch(vector, &mut frame, error_code, faulting_address, pit, kbd, pics, bus);
    write_frame(stack, true, frame);
    let restored = pop_scratch(stack);
    drop_error_code(stack);
    proof {
        assert(restored == *scratch);
        if vector == PAGE_FAULT_VECTOR && faulting_address == RECOVERABLE_FAULT_ADDRESS {
            assert(stack@ =~= old(stack)@.take(old(stack)@.len() - 1).update(
                old(stack)@.len() - 2,
                (old(stack)@[old(stack)@.len() - 2] + FAULT_SKIP_BYTES) as u64,
            ));
        } else {
            assert(stack@ =~= old(stack)@.take(old(stack)@.len() - 1));
        }
    }
    (restored, outcome.0, outcome.1)
}

} // verus!
