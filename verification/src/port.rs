//! Typed access to the I/O port space: single-byte, word and dword reads
//! and writes, expressed against the modelled bus.

use vstd::prelude::*;
use core::marker::PhantomData;
use crate::bus::PortBus;
use crate::bus::PortOp;

verus! {

/// A value that can move across the port bus at its own width.
///
/// `to_latch` widens the value to the bus latch; `from_latch` is the value a
/// read of this width takes from the latch. Every implementation satisfies
/// `from_latch(v.to_latch()) == v`, so a typed write followed by a typed
/// read of the same port returns the value written.
pub trait InOut: Sized + Copy {
    /// The value as it sits on the bus latch.
    spec fn to_latch(self) -> u32;

    /// The value a read of this width takes from a latch.
    spec fn from_latch(v: u32) -> Self;

    /// Every latch round trip is lossless at the type's own width.
    proof fn lemma_latch_roundtrip(self)
        ensures
            Self::from_latch(self.to_latch()) == self,
    ;

    /// Read a value of this width from `port`.
    fn read_in(bus: &mut PortBus, port: u16) -> (r: Self)
        requires
            old(bus).wf(),
        ensures
            final(bus).wf(),
            r == Self::from_latch(old(bus)@.latch[port as int]),
            final(bus)@.latch == old(bus)@.latch,
            final(bus)@.log == old(bus)@.log.push(PortOp::Read {
                port,
                value: old(bus)@.latch[port as int],
            }),
    ;

    /// Write a value of this width to `port`.
    fn write_out(bus: &mut PortBus, port: u16, value: Self)
        requires
            old(bus).wf(),
        ensures
            final(bus).wf(),
            final(bus)@.latch == old(bus)@.latch.update(port as int, value.to_latch()),
            final(bus)@.log == old(bus)@.log.push(PortOp::Write {
                port,
                value: value.to_latch(),
            }),
    ;
}

impl InOut for u8 {
    open spec fn to_latch(self) -> u32 {
        self as u32
    }

    open spec fn from_latch(v: u32) -> u8 {
        v as u8
    }

    proof fn lemma_latch_roundtrip(self)
    {
    }

    fn read_in(bus: &mut PortBus, port: u16) -> (r: u8) {
        let v = bus.read(port);
        #[verifier::truncate]
        let r = v as u8;
        r
    }

    fn write_out(bus: &mut PortBus, port: u16, value: u8) {
        bus.write(port, value as u32);
    }
}

impl InOut for u16 {
    open spec fn to_latch(self) -> u32 {
        self as u32
    }

    open spec fn from_latch(v: u32) -> u16 {
        v as u16
    }

    proof fn lemma_latch_roundtrip(self)
    {
    }

    fn read_in(bus: &mut PortBus, port: u16) -> (r: u16) {
        let v = bus.read(port);
        #[verifier::truncate]
        let r = v as u16;
        r
    }

    fn write_out(bus: &mut PortBus, port: u16, value: u16) {
        bus.write(port, value as u32);
    }
}

impl InOut for u32 {
    open spec fn to_latch(self) -> u32 {
        self
    }

    open spec fn from_latch(v: u32) -> u32 {
        v
    }

    proof fn lemma_latch_roundtrip(self)
    {
    }

    fn read_in(bus: &mut PortBus, port: u16) -> (r: u32) {
        bus.read(port)
    }

    fn write_out(bus: &mut PortBus, port: u16, value: u32) {
        bus.write(port, value)
    }
}

/// A fixed port address, typed by the width of the values moved over it.
pub struct Port<T: InOut> {
    pub port: u16,
    pub phantom: PhantomData<T>,
}

impl<T: InOut> Port<T> {
    pub fn new(port: u16) -> (r: Port<T>)
        ensures
            r.port == port,
    {
        Port { port, phantom: PhantomData }
    }

    /// Read one value of width `T` from this port.
    pub fn read(&self, bus: &mut PortBus) -> (r: T)
        requires
            old(bus).wf(),
        ensures
            final(bus).wf(),
            r == T::from_latch(old(bus)@.latch[self.port as int]),
            final(bus)@.latch == old(bus)@.latch,
            final(bus)@.log == old(bus)@.log.push(PortOp::Read {
                port: self.port,
                value: old(bus)@.latch[self.port as int],
            }),
    {
        T::read_in(bus, self.port)
    }

    /// Write one value of width `T` to this port.
    pub fn write(&self, bus: &mut PortBus, value: T)
        requires
            old(bus).wf(),
        ensures
            final(bus).wf(),
            final(bus)@.latch == old(bus)@.latch.update(self.port as int, value.to_latch()),
            final(bus)@.log == old(bus)@.log.push(PortOp::Write {
                port: self.port,
                value: value.to_latch(),
            }),
    {
        T::write_out(bus, self.port, value)
    }
}

} // verus!
