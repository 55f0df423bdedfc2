//! The chained pair of 8259 programmable interrupt controllers.
//!
//! The controllers are programmed through processor I/O ports, which
//! only privileged code outside this crate can touch. The driver here
//! computes the exact, ordered sequence of single-byte port writes each
//! operation requires; the caller performs them verbatim. Routing
//! questions (which controller owns a vector, whom to acknowledge) are
//! answered directly.

use vstd::prelude::*;

verus! {

/// End-of-interrupt command code.
pub const CMD_EOI: u8 = 0x20;

/// Begin-cascaded-initialization command code.
pub const CMD_CASCADED_INIT: u8 = 0x11;

/// Select-8086/88-mode command code.
pub const CMD_8086_MODE: u8 = 0x01;

/// The all-lines-masked mask value.
pub const CMD_DISABLE_PIC: u8 = 0xFF;

/// An otherwise unused port; writing to it burns the time slow
/// controllers need between consecutive command writes.
pub const IO_WAIT_PORT: u16 = 0x80;

/// Command port of the primary controller.
pub const PRIMARY_CMD_PORT: u16 = 0x20;

/// Data port of the primary controller.
pub const PRIMARY_DATA_PORT: u16 = 0x21;

/// Command port of the secondary controller.
pub const SECONDARY_CMD_PORT: u16 = 0xA0;

/// Data port of the secondary controller.
pub const SECONDARY_DATA_PORT: u16 = 0xA1;

/// The vector-base offset the primary controller is programmed with.
pub const PRIMARY_PIC_OFFSET: u8 = 104;

/// The vector-base offset the secondary controller is programmed with.
pub const SECONDARY_PIC_OFFSET: u8 = 112;

/// One byte written to one I/O port.
#[derive(Debug, Clone, Copy, PartialEq, Eq, Structural)]
pub struct PortWrite {
    pub port: u16,
    pub value: u8,
}

/// The write that gives slow hardware time to settle between two
/// command writes.
pub open spec fn spec_io_wait() -> PortWrite {
    PortWrite { port: IO_WAIT_PORT, value: 0 }
}

/// One 8259 controller: its vector-base offset and its two ports.
struct Pic {
    idt_base_offset: u8,
    command_port: u16,
    data_port: u16,
}

impl Pic {
    /// Whether this controller owns the vector: the controller's eight
    /// lines map to the eight vectors starting at its base offset.
    spec fn spec_handles_interrupt(&self, interrupt_id: u8) -> bool {
        self.idt_base_offset <= interrupt_id < self.idt_base_offset + 8
    }

    fn handles_interrupt(&self, interrupt_id: u8) -> (r: bool)
        requires
            self.idt_base_offset <= 247,
        ensures
            r == self.spec_handles_interrupt(interrupt_id),
    {
        self.idt_base_offset <= interrupt_id && interrupt_id < self.idt_base_offset + 8
    }

    /// The write acknowledging this controller's in-service interrupt.
    fn end_interrupt(&self) -> (r: PortWrite)
        ensures
            r == (PortWrite { port: self.command_port, value: CMD_EOI }),
    {
        PortWrite { port: self.command_port, value: CMD_EOI }
    }

    /// The write loading this controller's interrupt mask.
    fn write_mask(&self, mask: u8) -> (r: PortWrite)
        ensures
            r == (PortWrite { port: self.data_port, value: mask }),
    {
        PortWrite { port: self.data_port, value: mask }
    }
}

/// The io-wait write.
fn io_wait() -> (r: PortWrite)
    ensures
        r == spec_io_wait(),
{
    PortWrite { port: IO_WAIT_PORT, value: 0 }
}

/// The chained controller pair: the secondary's output line is wired
/// into line 2 of the primary, so the secondary's interrupts reach the
/// processor only through the primary.
pub struct Pics {
    primary: Pic,
    secondary: Pic,
}

impl Pics {
    /// The primary controller's vector-base offset.
    pub closed spec fn spec_primary_offset(&self) -> u8 {
        self.primary.idt_base_offset
    }

    /// The secondary controller's vector-base offset.
    pub closed spec fn spec_secondary_offset(&self) -> u8 {
        self.secondary.idt_base_offset
    }

    /// The controllers sit on their architectural ports, their two
    /// eight-vector windows are disjoint, stay clear of the 32
    /// processor-reserved vectors, and fit the eight-bit vector space.
    pub closed spec fn wf(&self) -> bool {
        &&& self.primary.command_port == PRIMARY_CMD_PORT
        &&& self.primary.data_port == PRIMARY_DATA_PORT
        &&& self.secondary.command_port == SECONDARY_CMD_PORT
        &&& self.secondary.data_port == SECONDARY_DATA_PORT
        &&& self.primary.idt_base_offset >= 32
        &&& self.secondary.idt_base_offset >= 32
        &&& self.primary.idt_base_offset <= 247
        &&& self.secondary.idt_base_offset <= 247
        &&& (self.secondary.idt_base_offset >= self.primary.idt_base_offset + 8
            || self.primary.idt_base_offset >= self.secondary.idt_base_offset + 8)
    }

    /// Whether the primary controller owns the vector.
    pub open spec fn spec_primary_handles(&self, interrupt_id: u8) -> bool {
        self.spec_primary_offset() <= interrupt_id < self.spec_primary_offset() + 8
    }

    /// Whether the secondary controller owns the vector.
    pub open spec fn spec_secondary_handles(&self, interrupt_id: u8) -> bool {
        self.spec_secondary_offset() <= interrupt_id < self.spec_secondary_offset() + 8
    }

    /// A pair programmed for the given vector-base offsets. The
    /// offsets must keep both eight-vector windows inside 0..=255,
    /// off the 32 processor-reserved vectors, and apart from each
    /// other; anything else is a configuration bug and is rejected up
    /// front.
    pub fn new(primary_offset: u8, secondary_offset: u8) -> (r: Pics)
        requires
            primary_offset >= 32,
            secondary_offset >= 32,
            primary_offset <= 247,
            secondary_offset <= 247,
            secondary_offset >= primary_offset + 8 || primary_offset >= secondary_offset + 8,
        ensures
            r.wf(),
            r.spec_primary_offset() == primary_offset,
            r.spec_secondary_offset() == secondary_offset,
    {
        Pics {
            primary: Pic {
                idt_base_offset: primary_offset,
                command_port: PRIMARY_CMD_PORT,
                data_port: PRIMARY_DATA_PORT,
            },
            secondary: Pic {
                idt_base_offset: secondary_offset,
                command_port: SECONDARY_CMD_PORT,
                data_port: SECONDARY_DATA_PORT,
            },
        }
    }

    /// The full remap-and-unmask programming sequence: cascaded
    /// initialization announced to both controllers, the vector-base
    /// offsets, the cascade wiring (secondary on line 2 of the
    /// primary), 8086/88 mode, and finally a zero mask on both; every
    /// command write but the final unmaskings is followed by an
    /// io-wait.
    pub open spec fn spec_init_sequence(&self) -> Seq<PortWrite> {
        seq![
            PortWrite { port: PRIMARY_CMD_PORT, value: CMD_CASCADED_INIT },
            spec_io_wait(),
            PortWrite { port: SECONDARY_CMD_PORT, value: CMD_CASCADED_INIT },
            spec_io_wait(),
            PortWrite { port: PRIMARY_DATA_PORT, value: self.spec_primary_offset() },
            spec_io_wait(),
            PortWrite { port: SECONDARY_DATA_PORT, value: self.spec_secondary_offset() },
            spec_io_wait(),
            PortWrite { port: PRIMARY_DATA_PORT, value: 4 },
            spec_io_wait(),
            PortWrite { port: SECONDARY_DATA_PORT, value: 2 },
            spec_io_wait(),
            PortWrite { port: PRIMARY_DATA_PORT, value: CMD_8086_MODE },
            spec_io_wait(),
            PortWrite { port: SECONDARY_DATA_PORT, value: CMD_8086_MODE },
            spec_io_wait(),
            PortWrite { port: PRIMARY_DATA_PORT, value: 0 },
            PortWrite { port: SECONDARY_DATA_PORT, value: 0 },
        ]
    }

    /// The port writes that initialize the pair, in the exact order
    /// they must reach the hardware.
    pub fn init(&self) -> (r: Vec<PortWrite>)
        requires
            self.wf(),
        ensures
            r@ == self.spec_init_sequence(),
    {
        let mut writes: Vec<PortWrite> = Vec::new();

        // Tell the two controllers an initialization sequence begins.
        writes.push(PortWrite { port: self.primary.command_port, value: CMD_CASCADED_INIT });
        writes.push(io_wait());
        writes.push(PortWrite { port: self.secondary.command_port, value: CMD_CASCADED_INIT });
        writes.push(io_wait());

        // Program the vector-base offsets.
        writes.push(PortWrite { port: self.primary.data_port, value: self.primary.idt_base_offset });
        writes.push(io_wait());
        writes.push(
            PortWrite { port: self.secondary.data_port, value: self.secondary.idt_base_offset },
        );
        writes.push(io_wait());

        // Wire the cascade: the secondary hangs off line 2 of the
        // primary.
        writes.push(PortWrite { port: self.primary.data_port, value: 4 });
        writes.push(io_wait());
        writes.push(PortWrite { port: self.secondary.data_port, value: 2 });
        writes.push(io_wait());

        // Select 8086/88 mode on both.
        writes.push(PortWrite { port: self.primary.data_port, value: CMD_8086_MODE });
        writes.push(io_wait());
        writes.push(PortWrite { port: self.secondary.data_port, value: CMD_8086_MODE });
        writes.push(io_wait());

        // Unmask every line on both controllers.
        writes.push(PortWrite { port: self.primary.data_port, value: 0 });
        writes.push(PortWrite { port: self.secondary.data_port, value: 0 });

        proof {
            assert(writes@ =~= self.spec_init_sequence());
        }
        writes
    }

    /// Whether either controller owns the vector.
    pub fn handles_interrupt(&self, interrupt_id: u8) -> (r: bool)
        requires
            self.wf(),
        ensures
            r == (self.spec_primary_handles(interrupt_id) || self.spec_secondary_handles(
                interrupt_id,
            )),
    {
        self.primary.handles_interrupt(interrupt_id) || self.secondary.handles_interrupt(
            interrupt_id,
        )
    }

    /// The acknowledgement writes a finished handler owes for the
    /// vector: nothing if neither controller owns it; the primary's
    /// end-of-interrupt if the primary owns it; and for a vector of
    /// the secondary, the secondary's end-of-interrupt followed by the
    /// primary's, because the secondary's signal reached the processor
    /// through the primary.
    pub open spec fn spec_eoi_sequence(&self, interrupt_id: u8) -> Seq<PortWrite> {
        if self.spec_secondary_handles(interrupt_id) {
            seq![
                PortWrite { port: SECONDARY_CMD_PORT, value: CMD_EOI },
                PortWrite { port: PRIMARY_CMD_PORT, value: CMD_EOI },
            ]
        } else if self.spec_primary_handles(interrupt_id) {
            seq![PortWrite { port: PRIMARY_CMD_PORT, value: CMD_EOI }]
        } else {
            Seq::empty()
        }
    }

    /// The port writes acknowledging the vector, in the exact order
    /// they must reach the hardware.
    pub fn notify_end_of_interrupt(&self, interrupt_id: u8) -> (r: Vec<PortWrite>)
        requires
            self.wf(),
        ensures
            r@ == self.spec_eoi_sequence(interrupt_id),
    {
        let mut writes: Vec<PortWrite> = Vec::new();
        if self.handles_interrupt(interrupt_id) {
            if self.secondary.handles_interrupt(interrupt_id) {
                writes.push(self.secondary.end_interrupt());
            }
            writes.push(self.primary.end_interrupt());
        }
        proof {
            assert(writes@ =~= self.spec_eoi_sequence(interrupt_id));
        }
        writes
    }

    /// The writes loading the given masks into the two controllers, in
    /// order: primary, then secondary.
    pub fn write_masks(&self, primary_mask: u8, secondary_mask: u8) -> (r: Vec<PortWrite>)
        requires
            self.wf(),
        ensures
            r@ == seq![
                PortWrite { port: PRIMARY_DATA_PORT, value: primary_mask },
                PortWrite { port: SECONDARY_DATA_PORT, value: secondary_mask },
            ],
    {
        let mut writes: Vec<PortWrite> = Vec::new();
        writes.push(self.primary.write_mask(primary_mask));
        writes.push(self.secondary.write_mask(secondary_mask));
        proof {
            assert(writes@ =~= seq![
                PortWrite { port: PRIMARY_DATA_PORT, value: primary_mask },
                PortWrite { port: SECONDARY_DATA_PORT, value: secondary_mask },
            ]);
        }
        writes
    }

    /// The writes masking every line on both controllers.
    pub fn disable(&self) -> (r: Vec<PortWrite>)
        requires
            self.wf(),
        ensures
            r@ == seq![
                PortWrite { port: PRIMARY_DATA_PORT, value: CMD_DISABLE_PIC },
                PortWrite { port: SECONDARY_DATA_PORT, value: CMD_DISABLE_PIC },
            ],
    {
        self.write_masks(CMD_DISABLE_PIC, CMD_DISABLE_PIC)
    }
}

/// On a vector owned by the secondary controller the acknowledgement
/// reaches both controllers, secondary first; on a vector owned only by
/// the primary it reaches exactly the primary.
pub proof fn lemma_eoi_routing(pics: &Pics, interrupt_id: u8)
    requires
        pics.wf(),
    ensures
        pics.spec_secondary_handles(interrupt_id) ==> pics.spec_eoi_sequence(interrupt_id)
            =~= seq![
            PortWrite { port: SECONDARY_CMD_PORT, value: CMD_EOI },
            PortWrite { port: PRIMARY_CMD_PORT, value: CMD_EOI },
        ],
        pics.spec_primary_handles(interrupt_id) && !pics.spec_secondary_handles(interrupt_id)
            ==> pics.spec_eoi_sequence(interrupt_id) =~= seq![
            PortWrite { port: PRIMARY_CMD_PORT, value: CMD_EOI },
        ],
        !pics.spec_primary_handles(interrupt_id) && !pics.spec_secondary_handles(interrupt_id)
            ==> pics.spec_eoi_sequence(interrupt_id) =~= Seq::<PortWrite>::empty(),
{
}

} // verus!
