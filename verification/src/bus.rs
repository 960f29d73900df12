//! The modelled I/O port space.
//!
//! Real port I/O is a privileged instruction that cannot be expressed in
//! verified code, so the drivers in this crate act on an explicit bus value
//! instead. The model is a latched loopback bus: each of the 65536 ports
//! holds the last value written to it, a read returns that latch, and every
//! operation is appended to a log. Contracts over the log state exactly
//! which port traffic an operation produces; contracts over the latches
//! state what the device registers hold afterwards.

use vstd::prelude::*;

verus! {

/// Number of ports in the CPU's I/O address space.
pub const PORT_SPACE: usize = 65536;

/// One operation on the I/O port space: which port was touched and which
/// value moved across the bus.
#[derive(Clone, Copy, PartialEq, Eq, Structural, Debug)]
pub enum PortOp {
    Read { port: u16, value: u32 },
    Write { port: u16, value: u32 },
}

/// Mathematical view of the bus: the current latch of every port, and the
/// full history of operations.
pub struct BusView {
    pub latch: Seq<u32>,
    pub log: Seq<PortOp>,
}

/// The latched loopback bus standing in for the machine's port space.
pub struct PortBus {
    latch: Vec<u32>,
    log: Vec<PortOp>,
}

impl View for PortBus {
    type V = BusView;

    closed spec fn view(&self) -> BusView {
        BusView { latch: self.latch@, log: self.log@ }
    }
}

impl PortBus {
    /// The bus is well formed when it has a latch for every port.
    pub open spec fn wf(self) -> bool {
        self@.latch.len() == PORT_SPACE
    }

    /// A fresh bus: every latch zeroed, no operations recorded.
    pub fn new() -> (bus: PortBus)
        ensures
            bus.wf(),
            bus@.log =~= Seq::<PortOp>::empty(),
            bus@.latch.len() == PORT_SPACE,
            forall|i: int| 0 <= i < PORT_SPACE ==> bus@.latch[i] == 0u32,
    {
        let mut latch: Vec<u32> = Vec::new();
        let mut i: usize = 0;
        while i < PORT_SPACE
            invariant
                i <= PORT_SPACE,
                latch@.len() == i,
                forall|j: int| 0 <= j < i ==> latch@[j] == 0u32,
            decreases PORT_SPACE - i,
        {
            latch.push(0);
            i = i + 1;
        }
        PortBus { latch, log: Vec::new() }
    }

    /// Read the latch of one port, recording the operation.
    pub fn read(&mut self, port: u16) -> (value: u32)
        requires
            old(self).wf(),
        ensures
            final(self).wf(),
            value == old(self)@.latch[port as int],
            final(self)@.latch == old(self)@.latch,
            final(self)@.log == old(self)@.log.push(PortOp::Read { port, value }),
    {
        let value = self.latch[port as usize];
        self.log.push(PortOp::Read { port, value });
        value
    }

    /// Number of operations recorded so far.
    pub fn log_len(&self) -> (n: usize)
        ensures
            n == self@.log.len(),
    {
        self.log.len()
    }

    /// One recorded operation.
    pub fn log_at(&self, i: usize) -> (op: PortOp)
        requires
            i < self@.log.len(),
        ensures
            op == self@.log[i as int],
    {
        self.log[i]
    }

    /// Observe one port's latch without recording an operation: a debug
    /// observer, not bus traffic.
    pub fn peek(&self, port: u16) -> (value: u32)
        requires
            self.wf(),
        ensures
            value == self@.latch[port as int],
    {
        self.latch[port as usize]
    }

    /// Write the latch of one port, recording the operation.
    pub fn write(&mut self, port: u16, value: u32)
        requires
            old(self).wf(),
        ensures
            final(self).wf(),
            final(self)@.latch == old(self)@.latch.update(port as int, value),
            final(self)@.log == old(self)@.log.push(PortOp::Write { port, value }),
    {
        self.latch[port as usize] = value;
        self.log.push(PortOp::Write { port, value });
    }
}

} // verus!
