//! The descriptor table the CPU dereferences on every interrupt and
//! exception: 256 gate entries, built once at startup and then installed by
//! a one-way, irreversible load.

use vstd::prelude::*;
use crate::bus::PortBus;
use crate::pic::ChainedPics;
use crate::pic::CMD_INIT;
use crate::pic::PIC1_COMMAND;
use crate::pic::PIC1_DATA;
use crate::pic::PIC2_COMMAND;
use crate::pic::PIC2_DATA;
use crate::pic::WAIT_PORT;

verus! {

/// Number of entries the vector table always has, however many are wired.
pub const TABLE_ENTRIES: usize = 256;

/// Number of vectors wired at startup: the 32 CPU exceptions and the 16
/// remapped hardware interrupt lines.
pub const WIRED_VECTORS: usize = 48;

/// One entry of the vector table: the absent sentinel for an unused
/// vector, or an interrupt gate binding a handler entry address to a
/// code-segment selector at a privilege level.
#[derive(Clone, Copy, PartialEq, Eq, Structural, Debug)]
pub enum GateDescriptor {
    Missing,
    InterruptGate { selector: u16, handler: u64, dpl: u8 },
}

impl GateDescriptor {
    /// The absent sentinel.
    pub fn missing() -> (d: GateDescriptor)
        ensures
            d is Missing,
    {
        GateDescriptor::Missing
    }

    /// A present interrupt gate at privilege level 0.
    pub fn interrupt_gate(selector: u16, base: u64) -> (d: GateDescriptor)
        ensures
            d == (GateDescriptor::InterruptGate { selector, handler: base, dpl: 0u8 }),
    {
        GateDescriptor::InterruptGate { selector, handler: base, dpl: 0 }
    }
}

/// The saved-context layout used by a trampoline that stores the full
/// register file before handing control to a typed handler.
#[derive(Clone, Copy, PartialEq, Eq, Structural, Debug)]
pub struct Registers {
    pub rdi: u64,
    pub rsi: u64,
    pub rbp: u64,
    pub rbx: u64,
    pub rdx: u64,
    pub rcx: u64,
    pub rax: u64,
    pub int_no: u64,
    pub err_code: u64,
    pub rip: u64,
    pub cs: u64,
    pub eflags: u64,
    pub useresp: u64,
    pub ss: u64,
}

/// The 256-entry vector table, with its one-way loaded state.
pub struct IDTable {
    entries: Vec<GateDescriptor>,
    loaded: bool,
}

impl IDTable {
    /// The table's entries.
    pub closed spec fn entries(self) -> Seq<GateDescriptor> {
        self.entries@
    }

    /// The entry of one vector.
    pub open spec fn gate(self, vector: int) -> GateDescriptor {
        self.entries()[vector]
    }

    /// Whether the table has been installed into the CPU's descriptor
    /// table register.
    pub closed spec fn loaded(self) -> bool {
        self.loaded
    }

    /// The table always has all 256 entries.
    pub open spec fn wf(self) -> bool {
        self.entries().len() == TABLE_ENTRIES
    }

    /// A fresh table: every vector marked absent, not yet loaded.
    pub fn new() -> (t: IDTable)
        ensures
            t.wf(),
            !t.loaded(),
            forall|v: int| 0 <= v < TABLE_ENTRIES ==> t.gate(v) is Missing,
    {
        let mut entries: Vec<GateDescriptor> = Vec::new();
        let mut i: usize = 0;
        while i < TABLE_ENTRIES
            invariant
                i <= TABLE_ENTRIES,
                entries@.len() == i,
                forall|v: int| 0 <= v < i ==> entries@[v] is Missing,
            decreases TABLE_ENTRIES - i,
        {
            entries.push(GateDescriptor::Missing);
            i = i + 1;
        }
        IDTable { entries, loaded: false }
    }

    /// Install one interrupt gate. The table must not have been loaded:
    /// after the load it is never mutated again.
    pub fn add_gate(&mut self, num: usize, base: u64, selector: u16)
        requires
            old(self).wf(),
            !old(self).loaded(),
            num < TABLE_ENTRIES,
        ensures
            final(self).wf(),
            !final(self).loaded(),
            final(self).entries() == old(self).entries().update(
                num as int,
                GateDescriptor::InterruptGate { selector, handler: base, dpl: 0u8 },
            ),
    {
        let gate = GateDescriptor::interrupt_gate(selector, base);
        self.entries.set(num, gate);
    }

    /// The entry of one vector.
    pub fn gate_at(&self, vector: usize) -> (g: GateDescriptor)
        requires
            self.wf(),
            vector < TABLE_ENTRIES,
        ensures
            g == self.gate(vector as int),
    {
        self.entries[vector]
    }

    /// Whether the table has been installed.
    pub fn is_loaded(&self) -> (r: bool)
        ensures
            r == self.loaded(),
    {
        self.loaded
    }

    /// The one-time, irreversible installation of the table into the CPU's
    /// descriptor-table register. Every vector that will ever be raised
    /// must have its gate installed before this; the entries never change
    /// afterwards.
    pub fn load(&mut self)
        requires
            !old(self).loaded(),
        ensures
            final(self).loaded(),
            final(self).entries() == old(self).entries(),
            final(self).wf() == old(self).wf(),
    {
        self.loaded = true;
    }
}

/// True when the table binds every wired vector to its own trampoline
/// entry from `handlers`, under one configured selector, and marks every
/// other vector absent.
pub open spec fn table_wired(t: IDTable, handlers: Seq<u64>, selector: u16) -> bool {
    &&& forall|v: int|
        0 <= v < WIRED_VECTORS ==> t.gate(v) == (GateDescriptor::InterruptGate {
            selector,
            handler: handlers[v],
            dpl: 0u8,
        })
    &&& forall|v: int| WIRED_VECTORS <= v < TABLE_ENTRIES ==> t.gate(v) is Missing
}

/// Build the vector table: initialize the interrupt controller, then wire
/// each of the 48 startup vectors to its own trampoline entry address with
/// the configured code-segment selector. Unused vectors stay absent and
/// the table is not yet loaded.
pub fn setup_idt(
    pics: &mut ChainedPics,
    bus: &mut PortBus,
    handlers: &Vec<u64>,
    selector: u16,
) -> (t: IDTable)
    requires
        old(pics).wf(),
        old(bus).wf(),
        handlers@.len() == WIRED_VECTORS,
    ensures
        *final(pics) == *old(pics),
        final(bus).wf(),
        final(bus)@.log == old(bus)@.log + old(pics).init_ops(
            old(bus)@.latch[PIC1_DATA as int],
            old(bus)@.latch[PIC2_DATA as int],
        ),
        final(bus)@.latch == old(bus)@.latch
            .update(PIC1_COMMAND as int, CMD_INIT as u32)
            .update(PIC2_COMMAND as int, CMD_INIT as u32)
            .update(WAIT_PORT as int, 0u32)
            .update(PIC1_DATA as int, (old(bus)@.latch[PIC1_DATA as int] as u8) as u32)
            .update(PIC2_DATA as int, (old(bus)@.latch[PIC2_DATA as int] as u8) as u32),
        t.wf(),
        !t.loaded(),
        table_wired(t, handlers@, selector),
{
    pics.initialize(bus);

    let mut table = IDTable::new();
    let mut v: usize = 0;
    while v < WIRED_VECTORS
        invariant
            v <= WIRED_VECTORS,
            handlers@.len() == WIRED_VECTORS,
            table.wf(),
            !table.loaded(),
            forall|j: int|
                0 <= j < v ==> table.gate(j) == (GateDescriptor::InterruptGate {
                    selector,
                    handler: handlers@[j],
                    dpl: 0u8,
                }),
            forall|j: int| v <= j < TABLE_ENTRIES ==> table.gate(j) is Missing,
        decreases WIRED_VECTORS - v,
    {
        let ghost prev = table;
        table.add_gate(v, handlers[v], selector);
        proof {
            assert forall|j: int|
                0 <= j <= v implies table.gate(j) == (GateDescriptor::InterruptGate {
                    selector,
                    handler: handlers@[j],
                    dpl: 0u8,
                }) by {
                if j < v {
                    assert(prev.gate(j) == (GateDescriptor::InterruptGate {
                        selector,
                        handler: handlers@[j],
                        dpl: 0u8,
                    }));
                }
            }
            assert forall|j: int|
                v + 1 <= j < TABLE_ENTRIES implies table.gate(j) is Missing by {
                assert(prev.gate(j) is Missing);
            }
        }
        v = v + 1;
    }
    table
}

/// Arm the subsystem: build the wired table and perform the one-way load.
pub fn init(
    pics: &mut ChainedPics,
    bus: &mut PortBus,
    handlers: &Vec<u64>,
    selector: u16,
) -> (t: IDTable)
    requires
        old(pics).wf(),
        old(bus).wf(),
        handlers@.len() == WIRED_VECTORS,
    ensures
        *final(pics) == *old(pics),
        final(bus).wf(),
        final(bus)@.log == old(bus)@.log + old(pics).init_ops(
            old(bus)@.latch[PIC1_DATA as int],
            old(bus)@.latch[PIC2_DATA as int],
        ),
        final(bus)@.latch == old(bus)@.latch
            .update(PIC1_COMMAND as int, CMD_INIT as u32)
            .update(PIC2_COMMAND as int, CMD_INIT as u32)
            .update(WAIT_PORT as int, 0u32)
            .update(PIC1_DATA as int, (old(bus)@.latch[PIC1_DATA as int] as u8) as u32)
            .update(PIC2_DATA as int, (old(bus)@.latch[PIC2_DATA as int] as u8) as u32),
        t.wf(),
        t.loaded(),
        table_wired(t, handlers@, selector),
{
    let mut table = setup_idt(pics, bus, handlers, selector);
    let ghost before = table;
    table.load();
    proof {
        assert forall|v: int| 0 <= v < TABLE_ENTRIES implies table.gate(v) == before.gate(v) by {
            assert(table.entries() == before.entries());
        }
    }
    table
}

} // verus!
