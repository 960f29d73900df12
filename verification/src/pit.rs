//! Driver for the periodic interval timer: a programmed rate and a
//! monotonically increasing tick counter.

use vstd::prelude::*;
use crate::bus::PortBus;
use crate::bus::PortOp;
use crate::port::Port;

verus! {

/// Command byte selecting rate generation on channel 0.
pub const SET_RATE: u8 = 0x36;

/// The timer chip's fixed input frequency in Hz.
pub const BASE_FREQUENCY: u32 = 1193180;

/// Port of timer channel 0.
pub const PIT_CHANNEL0: u16 = 0x40;

/// Port of timer channel 1.
pub const PIT_CHANNEL1: u16 = 0x41;

/// Port of timer channel 2.
pub const PIT_CHANNEL2: u16 = 0x42;

/// The timer's command port.
pub const PIT_COMMAND: u16 = 0x43;

/// The hardware divisor for a requested rate: the base input frequency
/// divided by it, rounding down.
pub open spec fn divisor_for(rate_hz: u32) -> u32
    recommends
        rate_hz > 0,
{
    BASE_FREQUENCY / rate_hz
}

/// The exact port traffic of `set_rate`: the command byte, then the
/// divisor's low byte, then its high byte, in that order.
pub open spec fn set_rate_ops(rate_hz: u32) -> Seq<PortOp>
    recommends
        rate_hz > 0,
{
    seq![
        PortOp::Write { port: PIT_COMMAND, value: SET_RATE as u32 },
        PortOp::Write { port: PIT_CHANNEL0, value: (divisor_for(rate_hz) & 0xff) as u32 },
        PortOp::Write { port: PIT_CHANNEL0, value: ((divisor_for(rate_hz) >> 8) & 0xff) as u32 },
    ]
}

/// The periodic interval timer: its three channel ports, its command port,
/// the configured rate in Hz and the tick counter.
pub struct Pit {
    channel: [Port<u8>; 3],
    command: Port<u8>,
    rate: u32,
    ticks: u64,
}

impl Pit {
    /// The configured rate in Hz.
    pub closed spec fn rate(self) -> u32 {
        self.rate
    }

    /// The number of timer interrupts counted so far.
    pub closed spec fn ticks(self) -> u64 {
        self.ticks
    }

    /// The timer sits at its fixed ports.
    pub closed spec fn wf(self) -> bool {
        &&& self.channel[0].port == PIT_CHANNEL0
        &&& self.channel[1].port == PIT_CHANNEL1
        &&& self.channel[2].port == PIT_CHANNEL2
        &&& self.command.port == PIT_COMMAND
    }

    /// A timer at the fixed ports, at the chip's power-on rate, with no
    /// ticks counted.
    pub fn new() -> (r: Pit)
        ensures
            r.wf(),
            r.rate() == 18u32,
            r.ticks() == 0u64,
    {
        Pit {
            channel: [
                Port::<u8>::new(PIT_CHANNEL0),
                Port::<u8>::new(PIT_CHANNEL1),
                Port::<u8>::new(PIT_CHANNEL2),
            ],
            command: Port::<u8>::new(PIT_COMMAND),
            rate: 18,
            ticks: 0,
        }
    }

    /// The current tick count.
    pub fn get_ticks(&self) -> (r: u64)
        ensures
            r == self.ticks(),
    {
        self.ticks
    }

    /// Count one timer interrupt: the counter grows by exactly one.
    pub fn tick(&mut self)
        requires
            old(self).ticks() < u64::MAX,
        ensures
            final(self).ticks() == old(self).ticks() + 1,
            final(self).rate() == old(self).rate(),
            final(self).wf() == old(self).wf(),
    {
        self.ticks = self.ticks + 1;
    }

    /// The configured rate in Hz.
    pub fn get_rate(&self) -> (r: u32)
        ensures
            r == self.rate(),
    {
        self.rate
    }

    /// Program the chip to fire `rate_hz` times per second: write the
    /// command byte, then the divisor's low and high bytes to channel 0,
    /// and remember the rate. The tick counter is untouched.
    pub fn set_rate(&mut self, bus: &mut PortBus, rate_hz: u32)
        requires
            old(self).wf(),
            old(bus).wf(),
            rate_hz > 0,
        ensures
            final(self).wf(),
            final(self).rate() == rate_hz,
            final(self).ticks() == old(self).ticks(),
            final(bus).wf(),
            final(bus)@.log == old(bus)@.log + set_rate_ops(rate_hz),
            final(bus)@.latch == old(bus)@.latch
                .update(PIT_COMMAND as int, SET_RATE as u32)
                .update(PIT_CHANNEL0 as int, ((divisor_for(rate_hz) >> 8) & 0xff) as u32),
    {
        let divisor = BASE_FREQUENCY / rate_hz;
        let low: u8 = #[verifier::truncate] ((divisor & 0xff) as u8);
        let high: u8 = #[verifier::truncate] (((divisor >> 8) & 0xff) as u8);
        proof {
            assert(low as u32 == divisor & 0xff) by (bit_vector)
                requires
                    low == (divisor & 0xff) as u8,
            ;
            assert(high as u32 == (divisor >> 8) & 0xff) by (bit_vector)
                requires
                    high == ((divisor >> 8) & 0xff) as u8,
            ;
        }
        // Set the command byte, then split the divisor into two bytes.
        self.command.write(bus, SET_RATE);
        self.channel[0].write(bus, low);
        self.channel[0].write(bus, high);
        self.rate = rate_hz;
        proof {
            assert(bus@.log =~= old(bus)@.log + set_rate_ops(rate_hz));
            assert(bus@.latch =~= old(bus)@.latch
                .update(PIT_COMMAND as int, SET_RATE as u32)
                .update(PIT_CHANNEL0 as int, ((divisor_for(rate_hz) >> 8) & 0xff) as u32));
        }
    }
}

} // verus!
