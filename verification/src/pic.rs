//! Driver for the cascaded pair of 8-line interrupt controllers.
//!
//! The two chips sit at fixed command/data port pairs and partition the
//! vector space into two disjoint 8-wide bands. Every operation is an
//! ordered sequence of port reads and writes; the contracts state that
//! sequence exactly, together with the resulting device latches.

use vstd::prelude::*;
use crate::bus::PortBus;
use crate::bus::PortOp;
use crate::port::Port;

verus! {

/// End-of-interrupt command byte.
pub const CMD_END_OF_INTERRUPT: u8 = 0x20;

/// First byte of the three-byte initialization sequence.
pub const CMD_INIT: u8 = 0x11;

/// Operating mode byte sent as the last initialization step.
pub const MODE_8086: u8 = 0x01;

/// Status read command selecting the interrupt request register.
pub const PIC_READ_IRR: u8 = 0x0a;

/// Status read command selecting the in-service register.
pub const PIC_READ_ISR: u8 = 0x0b;

/// Bit mask telling chip 1 which input line carries the cascade.
pub const CASCADE_INPUT_MASK: u8 = 4;

/// Cascade identity telling chip 2 which line of chip 1 it feeds.
pub const CASCADE_IDENTITY: u8 = 2;

/// Command port of chip 1.
pub const PIC1_COMMAND: u16 = 0x20;

/// Data port of chip 1.
pub const PIC1_DATA: u16 = 0x21;

/// Command port of chip 2.
pub const PIC2_COMMAND: u16 = 0xa0;

/// Data port of chip 2.
pub const PIC2_DATA: u16 = 0xa1;

/// No-op port written between initialization steps to let the chips latch.
pub const WAIT_PORT: u16 = 0x80;

/// Vector offset chip 1 is remapped to: hardware lines 0..8 become
/// vectors 32..40, clear of the CPU-defined exception vectors.
pub const PIC1_OFFSET: u8 = 0x20;

/// Vector offset chip 2 is remapped to: hardware lines 8..16 become
/// vectors 40..48.
pub const PIC2_OFFSET: u8 = 0x28;

/// A vector is in a chip's band when it lies in `offset..offset + 8`.
pub open spec fn in_band(offset: u8, vector: u8) -> bool {
    offset <= vector < offset + 8
}

/// The bit of the per-chip mask byte that governs one interrupt line.
pub open spec fn line_bit(line: u8) -> u8 {
    1u8 << ((line % 8) as u32)
}

/// The mask byte after setting the bit of `line`, widened back to the latch.
pub open spec fn mask_with_bit_set(latch: u32, line: u8) -> u32 {
    ((latch as u8) | line_bit(line)) as u32
}

/// The mask byte after clearing the bit of `line`, widened back to the latch.
pub open spec fn mask_with_bit_clear(latch: u32, line: u8) -> u32 {
    ((latch as u8) & !line_bit(line)) as u32
}

/// One of the two chips: its configured vector offset and its port pair.
struct Pic {
    offset: u8,
    command: Port<u8>,
    data: Port<u8>,
}

impl Pic {
    fn handles_interrupt(&self, interrupt_id: u8) -> (r: bool)
        ensures
            r == in_band(self.offset, interrupt_id),
    {
        let bound: u16 = self.offset as u16 + 8;
        self.offset <= interrupt_id && (interrupt_id as u16) < bound
    }

    fn end_of_interrupt(&self, bus: &mut PortBus)
        requires
            old(bus).wf(),
        ensures
            final(bus).wf(),
            final(bus)@.latch == old(bus)@.latch.update(
                self.command.port as int,
                CMD_END_OF_INTERRUPT as u32,
            ),
            final(bus)@.log == old(bus)@.log.push(PortOp::Write {
                port: self.command.port,
                value: CMD_END_OF_INTERRUPT as u32,
            }),
    {
        self.command.write(bus, CMD_END_OF_INTERRUPT);
    }
}

/// The pair of cascaded chips programmed as one 16-line controller.
pub struct ChainedPics {
    pics: [Pic; 2],
}

impl ChainedPics {
    /// Vector offset of chip 1.
    pub closed spec fn offset1(self) -> u8 {
        self.pics[0].offset
    }

    /// Vector offset of chip 2.
    pub closed spec fn offset2(self) -> u8 {
        self.pics[1].offset
    }

    /// The chips sit at their fixed ports and own disjoint vector bands.
    pub closed spec fn wf(self) -> bool {
        &&& self.pics[0].command.port == PIC1_COMMAND
        &&& self.pics[0].data.port == PIC1_DATA
        &&& self.pics[1].command.port == PIC2_COMMAND
        &&& self.pics[1].data.port == PIC2_DATA
        &&& (self.offset1() + 8 <= self.offset2() || self.offset2() + 8 <= self.offset1())
    }

    /// True when some chip owns `vector`.
    pub open spec fn spec_handles(self, vector: u8) -> bool {
        in_band(self.offset1(), vector) || in_band(self.offset2(), vector)
    }

    /// The data port owning an interrupt line: chip 1 holds lines 0..8,
    /// chip 2 holds lines 8..16.
    pub open spec fn mask_port(line: u8) -> u16 {
        if line < 8 {
            PIC1_DATA
        } else {
            PIC2_DATA
        }
    }

    /// The exact end-of-interrupt port traffic for `vector`: chip 2's band
    /// takes a write to chip 2 and then chip 1 (cascade order), chip 1's
    /// band a single write to chip 1, and an unowned vector none.
    pub open spec fn eoi_ops(self, vector: u8) -> Seq<PortOp> {
        if in_band(self.offset2(), vector) {
            seq![
                PortOp::Write { port: PIC2_COMMAND, value: CMD_END_OF_INTERRUPT as u32 },
                PortOp::Write { port: PIC1_COMMAND, value: CMD_END_OF_INTERRUPT as u32 },
            ]
        } else if in_band(self.offset1(), vector) {
            seq![PortOp::Write { port: PIC1_COMMAND, value: CMD_END_OF_INTERRUPT as u32 }]
        } else {
            Seq::empty()
        }
    }

    /// The port latches after the end-of-interrupt traffic for `vector`.
    pub open spec fn eoi_latch(self, latch: Seq<u32>, vector: u8) -> Seq<u32> {
        if in_band(self.offset2(), vector) {
            latch
                .update(PIC2_COMMAND as int, CMD_END_OF_INTERRUPT as u32)
                .update(PIC1_COMMAND as int, CMD_END_OF_INTERRUPT as u32)
        } else if in_band(self.offset1(), vector) {
            latch.update(PIC1_COMMAND as int, CMD_END_OF_INTERRUPT as u32)
        } else {
            latch
        }
    }

    /// The exact port traffic of `initialize`, given the latches of the two
    /// data ports at entry (the saved masks are read first and restored
    /// last).
    pub open spec fn init_ops(self, m1: u32, m2: u32) -> Seq<PortOp> {
        seq![
            PortOp::Read { port: PIC1_DATA, value: m1 },
            PortOp::Read { port: PIC2_DATA, value: m2 },
            PortOp::Write { port: PIC1_COMMAND, value: CMD_INIT as u32 },
            PortOp::Write { port: WAIT_PORT, value: 0u32 },
            PortOp::Write { port: PIC2_COMMAND, value: CMD_INIT as u32 },
            PortOp::Write { port: WAIT_PORT, value: 0u32 },
            PortOp::Write { port: PIC1_DATA, value: self.offset1() as u32 },
            PortOp::Write { port: WAIT_PORT, value: 0u32 },
            PortOp::Write { port: PIC2_DATA, value: self.offset2() as u32 },
            PortOp::Write { port: WAIT_PORT, value: 0u32 },
            PortOp::Write { port: PIC1_DATA, value: CASCADE_INPUT_MASK as u32 },
            PortOp::Write { port: WAIT_PORT, value: 0u32 },
            PortOp::Write { port: PIC2_DATA, value: CASCADE_IDENTITY as u32 },
            PortOp::Write { port: WAIT_PORT, value: 0u32 },
            PortOp::Write { port: PIC1_DATA, value: MODE_8086 as u32 },
            PortOp::Write { port: WAIT_PORT, value: 0u32 },
            PortOp::Write { port: PIC2_DATA, value: MODE_8086 as u32 },
            PortOp::Write { port: WAIT_PORT, value: 0u32 },
            PortOp::Write { port: PIC1_DATA, value: (m1 as u8) as u32 },
            PortOp::Write { port: PIC2_DATA, value: (m2 as u8) as u32 },
        ]
    }

    /// The exact port traffic of a status read with command `ocw3`: the
    /// command goes to both command ports, then both are read back.
    pub open spec fn status_ops(ocw3: u8) -> Seq<PortOp> {
        seq![
            PortOp::Write { port: PIC1_COMMAND, value: ocw3 as u32 },
            PortOp::Write { port: PIC2_COMMAND, value: ocw3 as u32 },
            PortOp::Read { port: PIC1_COMMAND, value: ocw3 as u32 },
            PortOp::Read { port: PIC2_COMMAND, value: ocw3 as u32 },
        ]
    }

    /// A controller over the two fixed port pairs, owning the disjoint
    /// bands `offset1..offset1 + 8` and `offset2..offset2 + 8`.
    pub fn new(offset1: u8, offset2: u8) -> (r: ChainedPics)
        requires
            offset1 + 8 <= offset2 || offset2 + 8 <= offset1,
        ensures
            r.wf(),
            r.offset1() == offset1,
            r.offset2() == offset2,
    {
        ChainedPics {
            pics: [
                Pic {
                    offset: offset1,
                    command: Port::<u8>::new(PIC1_COMMAND),
                    data: Port::<u8>::new(PIC1_DATA),
                },
                Pic {
                    offset: offset2,
                    command: Port::<u8>::new(PIC2_COMMAND),
                    data: Port::<u8>::new(PIC2_DATA),
                },
            ],
        }
    }

    /// Run the fixed initialization protocol: save both mask bytes, send
    /// the begin-initialization command, the vector offsets, the cascade
    /// wiring, the operating mode — with a latch delay between steps — and
    /// finally restore the saved masks.
    pub fn initialize(&mut self, bus: &mut PortBus)
        requires
            old(self).wf(),
            old(bus).wf(),
        ensures
            *final(self) == *old(self),
            final(bus).wf(),
            final(bus)@.log == old(bus)@.log + old(self).init_ops(
                old(bus)@.latch[PIC1_DATA as int],
                old(bus)@.latch[PIC2_DATA as int],
            ),
            final(bus)@.latch == old(bus)@.latch
                .update(PIC1_COMMAND as int, CMD_INIT as u32)
                .update(PIC2_COMMAND as int, CMD_INIT as u32)
                .update(WAIT_PORT as int, 0u32)
                .update(PIC1_DATA as int, (old(bus)@.latch[PIC1_DATA as int] as u8) as u32)
                .update(PIC2_DATA as int, (old(bus)@.latch[PIC2_DATA as int] as u8) as u32),
    {
        let wait_port: Port<u8> = Port::new(WAIT_PORT);

        let saved_mask1 = self.pics[0].data.read(bus);
        let saved_mask2 = self.pics[1].data.read(bus);

        // Send command: begin the 3-byte initialization sequence.
        self.pics[0].command.write(bus, CMD_INIT);
        wait_port.write(bus, 0);
        self.pics[1].command.write(bus, CMD_INIT);
        wait_port.write(bus, 0);

        // Send data 1: set each chip's vector offset.
        let offset1 = self.pics[0].offset;
        let offset2 = self.pics[1].offset;
        self.pics[0].data.write(bus, offset1);
        wait_port.write(bus, 0);
        self.pics[1].data.write(bus, offset2);
        wait_port.write(bus, 0);

        // Send data 2: configure the cascade wiring.
        self.pics[0].data.write(bus, CASCADE_INPUT_MASK);
        wait_port.write(bus, 0);
        self.pics[1].data.write(bus, CASCADE_IDENTITY);
        wait_port.write(bus, 0);

        // Send data 3: set the operating mode.
        self.pics[0].data.write(bus, MODE_8086);
        wait_port.write(bus, 0);
        self.pics[1].data.write(bus, MODE_8086);
        wait_port.write(bus, 0);

        // Restore the interrupt masks saved at entry.
        self.pics[0].data.write(bus, saved_mask1);
        self.pics[1].data.write(bus, saved_mask2);

        proof {
            assert(bus@.log =~= old(bus)@.log + old(self).init_ops(
                old(bus)@.latch[PIC1_DATA as int],
                old(bus)@.latch[PIC2_DATA as int],
            ));
            assert(bus@.latch =~= old(bus)@.latch
                .update(PIC1_COMMAND as int, CMD_INIT as u32)
                .update(PIC2_COMMAND as int, CMD_INIT as u32)
                .update(WAIT_PORT as int, 0u32)
                .update(PIC1_DATA as int, (old(bus)@.latch[PIC1_DATA as int] as u8) as u32)
                .update(PIC2_DATA as int, (old(bus)@.latch[PIC2_DATA as int] as u8) as u32));
        }
    }

    /// True iff a chip owns `interrupt_id`: exactly the vectors in
    /// `offset1..offset1 + 8` and `offset2..offset2 + 8`.
    pub fn handles_interrupt(&self, interrupt_id: u8) -> (r: bool)
        ensures
            r == self.spec_handles(interrupt_id),
    {
        self.pics[0].handles_interrupt(interrupt_id)
            || self.pics[1].handles_interrupt(interrupt_id)
    }

    /// Acknowledge `interrupt_id`: for chip 2's band, end-of-interrupt goes
    /// to chip 2 first and then — cascade order is mandatory — to chip 1;
    /// for chip 1's band only to chip 1; for an unowned vector, nothing.
    pub fn notify_end_of_interrupt(&self, bus: &mut PortBus, interrupt_id: u8)
        requires
            self.wf(),
            old(bus).wf(),
        ensures
            final(bus).wf(),
            final(bus)@.log == old(bus)@.log + self.eoi_ops(interrupt_id),
            final(bus)@.latch == self.eoi_latch(old(bus)@.latch, interrupt_id),
    {
        if self.handles_interrupt(interrupt_id) {
            if self.pics[1].handles_interrupt(interrupt_id) {
                self.pics[1].end_of_interrupt(bus);
            }
            self.pics[0].end_of_interrupt(bus);
        }
        proof {
            assert(bus@.log =~= old(bus)@.log + self.eoi_ops(interrupt_id));
        }
    }

    /// Mask `irq_line`: read the owning chip's mask byte, set the line's
    /// bit, write it back.
    pub fn set_mask(&self, bus: &mut PortBus, irq_line: u8)
        requires
            self.wf(),
            old(bus).wf(),
            irq_line < 16,
        ensures
            final(bus).wf(),
            final(bus)@.latch == old(bus)@.latch.update(
                Self::mask_port(irq_line) as int,
                mask_with_bit_set(old(bus)@.latch[Self::mask_port(irq_line) as int], irq_line),
            ),
            final(bus)@.log == old(bus)@.log
                .push(PortOp::Read {
                    port: Self::mask_port(irq_line),
                    value: old(bus)@.latch[Self::mask_port(irq_line) as int],
                })
                .push(PortOp::Write {
                    port: Self::mask_port(irq_line),
                    value: mask_with_bit_set(
                        old(bus)@.latch[Self::mask_port(irq_line) as int],
                        irq_line,
                    ),
                }),
    {
        let chip: usize = if irq_line < 8 { 0 } else { 1 };
        let bit: u8 = 1u8 << (irq_line % 8);
        let value = self.pics[chip].data.read(bus) | bit;
        self.pics[chip].data.write(bus, value);
    }

    /// Unmask `irq_line`: read the owning chip's mask byte, clear the
    /// line's bit, write it back.
    pub fn clear_mask(&self, bus: &mut PortBus, irq_line: u8)
        requires
            self.wf(),
            old(bus).wf(),
            irq_line < 16,
        ensures
            final(bus).wf(),
            final(bus)@.latch == old(bus)@.latch.update(
                Self::mask_port(irq_line) as int,
                mask_with_bit_clear(old(bus)@.latch[Self::mask_port(irq_line) as int], irq_line),
            ),
            final(bus)@.log == old(bus)@.log
                .push(PortOp::Read {
                    port: Self::mask_port(irq_line),
                    value: old(bus)@.latch[Self::mask_port(irq_line) as int],
                })
                .push(PortOp::Write {
                    port: Self::mask_port(irq_line),
                    value: mask_with_bit_clear(
                        old(bus)@.latch[Self::mask_port(irq_line) as int],
                        irq_line,
                    ),
                }),
    {
        let chip: usize = if irq_line < 8 { 0 } else { 1 };
        let bit: u8 = 1u8 << (irq_line % 8);
        let value = self.pics[chip].data.read(bus) & !bit;
        self.pics[chip].data.write(bus, value);
    }

    /// Contents of the interrupt request registers: interrupts raised but
    /// not yet sent to the CPU. Chip 1's byte is the low half, chip 2's the
    /// high half.
    pub fn get_irr(&self, bus: &mut PortBus) -> (r: u16)
        requires
            self.wf(),
            old(bus).wf(),
        ensures
            final(bus).wf(),
            final(bus)@.log == old(bus)@.log + Self::status_ops(PIC_READ_IRR),
            final(bus)@.latch == old(bus)@.latch
                .update(PIC1_COMMAND as int, PIC_READ_IRR as u32)
                .update(PIC2_COMMAND as int, PIC_READ_IRR as u32),
            r == (PIC_READ_IRR as u16) | ((PIC_READ_IRR as u16) << 8),
    {
        self.interrupt_status(bus, PIC_READ_IRR)
    }

    /// Contents of the in-service registers: interrupts being serviced by
    /// the CPU. Chip 1's byte is the low half, chip 2's the high half.
    pub fn get_isr(&self, bus: &mut PortBus) -> (r: u16)
        requires
            self.wf(),
            old(bus).wf(),
        ensures
            final(bus).wf(),
            final(bus)@.log == old(bus)@.log + Self::status_ops(PIC_READ_ISR),
            final(bus)@.latch == old(bus)@.latch
                .update(PIC1_COMMAND as int, PIC_READ_ISR as u32)
                .update(PIC2_COMMAND as int, PIC_READ_ISR as u32),
            r == (PIC_READ_ISR as u16) | ((PIC_READ_ISR as u16) << 8),
    {
        self.interrupt_status(bus, PIC_READ_ISR)
    }

    /// Write the status command word to both command ports, then read both
    /// back and merge chip 1's byte as the low half of the result. On the
    /// latched bus a command-port read returns the command just written.
    fn interrupt_status(&self, bus: &mut PortBus, ocw3: u8) -> (r: u16)
        requires
            self.wf(),
            old(bus).wf(),
        ensures
            final(bus).wf(),
            final(bus)@.log == old(bus)@.log + Self::status_ops(ocw3),
            final(bus)@.latch == old(bus)@.latch
                .update(PIC1_COMMAND as int, ocw3 as u32)
                .update(PIC2_COMMAND as int, ocw3 as u32),
            r == (ocw3 as u16) | ((ocw3 as u16) << 8),
    {
        self.pics[0].command.write(bus, ocw3);
        self.pics[1].command.write(bus, ocw3);
        let low = self.pics[0].command.read(bus);
        let high = self.pics[1].command.read(bus);
        let r = (low as u16) | ((high as u16) << 8);
        proof {
            assert(bus@.log =~= old(bus)@.log + Self::status_ops(ocw3));
            assert(bus@.latch =~= old(bus)@.latch
                .update(PIC1_COMMAND as int, ocw3 as u32)
                .update(PIC2_COMMAND as int, ocw3 as u32));
            assert((ocw3 as u32) as u8 == ocw3);
        }
        r
    }
}

/// Masking and unmasking an interrupt line restore each other: setting the
/// bit of `line` in a mask byte in which it is clear and then clearing it
/// again yields the byte the data port started with.
pub proof fn lemma_set_then_clear_mask_restores(latch: u32, line: u8)
    requires
        line < 16,
        latch < 256,
        (latch as u8) & line_bit(line) == 0,
    ensures
        mask_with_bit_clear(mask_with_bit_set(latch, line), line) == latch,
{
    let m = latch as u8;
    let b = line_bit(line);
    assert(((m | b) & !b) == m) by (bit_vector)
        requires
            m & b == 0,
    ;
    assert((m as u32) == latch) by (bit_vector)
        requires
            latch < 256,
            m == latch as u8,
    ;
}

/// `set_mask(line)` followed by `clear_mask(line)` leaves every port latch
/// as it was: composing the two latch transforms their contracts state is
/// the identity, provided the data port holds a byte in which the line's
/// bit is clear. (A line that is already masked stays masked after the
/// pair, so the bit must start clear.)
pub proof fn lemma_mask_pair_restores_latch(latch: Seq<u32>, line: u8)
    requires
        line < 16,
        0 <= ChainedPics::mask_port(line) < latch.len(),
        latch[ChainedPics::mask_port(line) as int] < 256,
        (latch[ChainedPics::mask_port(line) as int] as u8) & line_bit(line) == 0,
    ensures
        ({
            let p = ChainedPics::mask_port(line) as int;
            let after_set = latch.update(p, mask_with_bit_set(latch[p], line));
            after_set.update(p, mask_with_bit_clear(after_set[p], line)) =~= latch
        }),
{
    let p = ChainedPics::mask_port(line) as int;
    lemma_set_then_clear_mask_restores(latch[p], line);
    let after_set = latch.update(p, mask_with_bit_set(latch[p], line));
    assert(after_set[p] == mask_with_bit_set(latch[p], line));
    assert(after_set.update(p, mask_with_bit_clear(after_set[p], line)) =~= latch);
}

} // verus!
