//! The interrupt vector table, the chained interrupt-controller bridge, and
//! the handlers: breakpoint, double fault, timer tick and keyboard. Each
//! handler's effect on the console and on the controller pair is stated and
//! proved; the raw port traffic it owes the controllers is returned as data
//! for the surrounding system to send.

use vstd::prelude::*;
use crate::gdt::{GdtRegistry, TaskStateRecord, DOUBLE_FAULT_IST_INDEX};
use crate::vga_buffer::{Writer, model_write_byte, model_write_bytes};
use vstd::string::StringSliceAdditionalSpecFns;

verus! {

/// Vector of the breakpoint exception.
pub const BREAKPOINT_VECTOR: u8 = 3;

/// Vector of the double-fault exception.
pub const DOUBLE_FAULT_VECTOR: u8 = 8;

/// Vectors below this value are reserved for processor exceptions; the
/// controllers must be remapped away from them.
pub const RESERVED_VECTORS: u8 = 32;

/// Vector-offset base programmed into the primary controller.
pub const PIC_1_OFFSET: u8 = 32;

/// Vector-offset base programmed into the secondary controller.
pub const PIC_2_OFFSET: u8 = PIC_1_OFFSET + 8;

/// Number of slots in the interrupt vector table.
pub const VECTOR_COUNT: usize = 256;

/// Number of vectors each controller serves.
pub const WINDOW_SIZE: u8 = 8;

/// Command port of the primary controller.
pub const PRIMARY_COMMAND_PORT: u16 = 0x20;

/// Data port of the primary controller.
pub const PRIMARY_DATA_PORT: u16 = 0x21;

/// Command port of the secondary controller.
pub const SECONDARY_COMMAND_PORT: u16 = 0xa0;

/// Data port of the secondary controller.
pub const SECONDARY_DATA_PORT: u16 = 0xa1;

/// Port written with garbage to let slow controllers settle between
/// initialization bytes.
pub const WAIT_PORT: u16 = 0x80;

/// Command that begins a controller's initialization handshake.
pub const CMD_INIT: u8 = 0x11;

/// Command that acknowledges a serviced interrupt to a controller.
pub const CMD_END_OF_INTERRUPT: u8 = 0x20;

/// Operating mode programmed in the last handshake step.
pub const MODE_8086: u8 = 0x01;

/// The closed set of handler kinds the vector table dispatches to.
#[derive(Clone, Copy, PartialEq, Eq, Structural, Debug)]
pub enum HandlerKind {
    /// Logs the interrupted context and resumes it (breakpoint).
    DiagnosticResume,
    /// Logs what it can and halts the processor for good (double fault).
    FatalHalt,
    /// Minimal visible tick, then acknowledgment (timer).
    DeviceTimer,
    /// Reads and decodes one scancode, then acknowledgment (keyboard).
    DeviceKeyboard,
}

/// What a handler run asks of the processor afterwards.
#[derive(Clone, Copy, PartialEq, Eq, Structural, Debug)]
pub enum HandlerOutcome {
    /// Return to the interrupted code.
    Resumed,
    /// Never return; the processor halts permanently.
    Halted,
    /// No handler bound: the processor's default unhandled-exception trap.
    DefaultTrap,
}

/// One slot of the vector table. A slot is bound at most once, during
/// initialization; a stack override names an interrupt-stack-table slot the
/// handler must run on.
#[derive(Clone, Copy, PartialEq, Eq, Structural, Debug)]
pub enum VectorSlot {
    Unbound,
    Bound { kind: HandlerKind },
    BoundWithStack { kind: HandlerKind, stack_index: u16 },
}

/// The interrupt vector table: 256 slots indexed by vector number. Slots
/// move from unbound to bound exactly once, before the table is loaded;
/// after `loaded` is set the table is read-only.
pub struct VectorTable {
    pub slots: Vec<VectorSlot>,
    pub loaded: bool,
}

impl VectorTable {
    pub open spec fn wf(&self) -> bool {
        self.slots@.len() == VECTOR_COUNT
    }

    /// Every stack override in the table names a populated slot of the given
    /// task-state record.
    pub open spec fn stack_overrides_valid(&self, tss: TaskStateRecord) -> bool {
        forall|v: int|
            0 <= v < VECTOR_COUNT ==> (#[trigger] self.slots@[v] matches
                VectorSlot::BoundWithStack { stack_index, .. } ==> tss.ist_slot_populated(
                stack_index as int,
            ))
    }

    /// A table with every vector unbound, not yet loaded.
    pub fn new() -> (t: VectorTable)
        ensures
            t.wf(),
            !t.loaded,
            forall|v: int| 0 <= v < VECTOR_COUNT ==> t.slots@[v] == VectorSlot::Unbound,
    {
        let mut slots: Vec<VectorSlot> = Vec::new();
        let mut i: usize = 0;
        while i < VECTOR_COUNT
            invariant
                i <= VECTOR_COUNT,
                slots@.len() == i,
                forall|j: int| 0 <= j < i ==> slots@[j] == VectorSlot::Unbound,
            decreases VECTOR_COUNT - i,
        {
            slots.push(VectorSlot::Unbound);
            i = i + 1;
        }
        VectorTable { slots, loaded: false }
    }

    /// Bind a handler to a still-unbound vector of a not-yet-loaded table.
    pub fn set_handler(&mut self, vector: u8, kind: HandlerKind)
        requires
            old(self).wf(),
            !old(self).loaded,
            old(self).slots@[vector as int] == VectorSlot::Unbound,
        ensures
            final(self).wf(),
            !final(self).loaded,
            final(self).slots@ == old(self).slots@.update(
                vector as int,
                VectorSlot::Bound { kind },
            ),
    {
        self.slots.set(vector as usize, VectorSlot::Bound { kind });
    }

    /// Bind a handler together with a stack override. The override must name
    /// a populated slot of the task-state record the processor will be using.
    pub fn set_handler_with_stack(
        &mut self,
        vector: u8,
        kind: HandlerKind,
        stack_index: u16,
        tss: &TaskStateRecord,
    )
        requires
            old(self).wf(),
            !old(self).loaded,
            old(self).slots@[vector as int] == VectorSlot::Unbound,
            tss.ist_slot_populated(stack_index as int),
        ensures
            final(self).wf(),
            !final(self).loaded,
            final(self).slots@ == old(self).slots@.update(
                vector as int,
                VectorSlot::BoundWithStack { kind, stack_index },
            ),
    {
        self.slots.set(vector as usize, VectorSlot::BoundWithStack { kind, stack_index });
    }

    /// The slot bound to a vector.
    pub fn slot(&self, vector: u8) -> (s: VectorSlot)
        requires
            self.wf(),
        ensures
            s == self.slots@[vector as int],
    {
        self.slots[vector as usize]
    }
}

/// The vector numbers of the two device interrupts in use, counted from the
/// primary controller's offset.
#[derive(Clone, Copy, PartialEq, Eq, Structural, Debug)]
pub enum InterruptIndex {
    Timer,
    Keyboard,
}

impl InterruptIndex {
    /// The vector this device interrupt arrives on.
    pub open spec fn spec_as_u8(self) -> u8 {
        match self {
            InterruptIndex::Timer => PIC_1_OFFSET,
            InterruptIndex::Keyboard => (PIC_1_OFFSET + 1) as u8,
        }
    }

    pub fn as_u8(self) -> (v: u8)
        ensures
            v == self.spec_as_u8(),
    {
        match self {
            InterruptIndex::Timer => PIC_1_OFFSET,
            InterruptIndex::Keyboard => PIC_1_OFFSET + 1,
        }
    }

    pub fn as_usize(self) -> (v: usize)
        ensures
            v == self.spec_as_u8() as usize,
    {
        self.as_u8() as usize
    }
}

/// Whether a vector lands in the eight-vector window a controller was
/// programmed to, given that controller's offset.
pub open spec fn vector_in_window(offset: u8, vector: u8) -> bool {
    offset <= vector < offset + WINDOW_SIZE
}

/// Offsets a controller pair may be programmed with: both windows clear of
/// the processor-reserved vectors, inside the vector space, and not
/// overlapping one another.
pub open spec fn valid_offsets(primary: u8, secondary: u8) -> bool {
    &&& primary >= RESERVED_VECTORS
    &&& secondary >= RESERVED_VECTORS
    &&& primary + WINDOW_SIZE <= 256
    &&& secondary + WINDOW_SIZE <= 256
    &&& (primary + WINDOW_SIZE <= secondary || secondary + WINDOW_SIZE <= primary)
}

/// With valid offsets, neither controller window touches the reserved
/// exception range, and the two windows share no vector.
pub proof fn lemma_vector_windows_disjoint(primary: u8, secondary: u8)
    requires
        valid_offsets(primary, secondary),
    ensures
        forall|v: u8|
            v < RESERVED_VECTORS ==> !(#[trigger] vector_in_window(primary, v))
                && !vector_in_window(secondary, v),
        forall|v: u8|
            !(#[trigger] vector_in_window(primary, v) && vector_in_window(secondary, v)),
{
}

/// One write the system owes a processor I/O port.
#[derive(Clone, Copy, PartialEq, Eq, Structural, Debug)]
pub struct PortWrite {
    pub port: u16,
    pub value: u8,
}

/// The exact port traffic of the four-step remap handshake, both controllers
/// interleaved, with a settling write after each byte and the saved
/// interrupt masks restored at the end: the initialization command, the
/// vector-offset bases, the cascade configuration (the secondary chained on
/// line two of the primary), and the operating mode.
pub open spec fn spec_remap_sequence(
    primary_offset: u8,
    secondary_offset: u8,
    saved_mask_primary: u8,
    saved_mask_secondary: u8,
) -> Seq<PortWrite> {
    seq![
        PortWrite { port: PRIMARY_COMMAND_PORT, value: CMD_INIT },
        PortWrite { port: WAIT_PORT, value: 0 },
        PortWrite { port: SECONDARY_COMMAND_PORT, value: CMD_INIT },
        PortWrite { port: WAIT_PORT, value: 0 },
        PortWrite { port: PRIMARY_DATA_PORT, value: primary_offset },
        PortWrite { port: WAIT_PORT, value: 0 },
        PortWrite { port: SECONDARY_DATA_PORT, value: secondary_offset },
        PortWrite { port: WAIT_PORT, value: 0 },
        PortWrite { port: PRIMARY_DATA_PORT, value: 4 },
        PortWrite { port: WAIT_PORT, value: 0 },
        PortWrite { port: SECONDARY_DATA_PORT, value: 2 },
        PortWrite { port: WAIT_PORT, value: 0 },
        PortWrite { port: PRIMARY_DATA_PORT, value: MODE_8086 },
        PortWrite { port: WAIT_PORT, value: 0 },
        PortWrite { port: SECONDARY_DATA_PORT, value: MODE_8086 },
        PortWrite { port: WAIT_PORT, value: 0 },
        PortWrite { port: PRIMARY_DATA_PORT, value: saved_mask_primary },
        PortWrite { port: SECONDARY_DATA_PORT, value: saved_mask_secondary },
    ]
}

/// The chained controller pair behind one handle: the two programmed
/// vector-offset bases, whether the remap handshake has run, and the
/// vectors acknowledged so far, in order. The surrounding system guards the
/// handle with its one lock and performs the port writes this model hands
/// back.
pub struct ChainedPics {
    pub primary_offset: u8,
    pub secondary_offset: u8,
    pub initialized: bool,
    pub acknowledged: Vec<u8>,
}

impl ChainedPics {
    pub open spec fn wf(&self) -> bool {
        valid_offsets(self.primary_offset, self.secondary_offset)
    }

    /// A pair programmed for the given offsets, handshake not yet run.
    /// Offsets that collide with the reserved range or with each other are
    /// ruled out up front: on hardware they are undefined behavior, not a
    /// recoverable error.
    pub fn new(primary_offset: u8, secondary_offset: u8) -> (p: ChainedPics)
        requires
            valid_offsets(primary_offset, secondary_offset),
        ensures
            p.wf(),
            p.primary_offset == primary_offset,
            p.secondary_offset == secondary_offset,
            !p.initialized,
            p.acknowledged@.len() == 0,
    {
        ChainedPics {
            primary_offset,
            secondary_offset,
            initialized: false,
            acknowledged: Vec::new(),
        }
    }

    /// Whether one of the two controllers serves this vector.
    pub open spec fn spec_handles_interrupt(&self, vector: u8) -> bool {
        vector_in_window(self.primary_offset, vector) || vector_in_window(
            self.secondary_offset,
            vector,
        )
    }

    pub fn handles_interrupt(&self, vector: u8) -> (b: bool)
        ensures
            b == self.spec_handles_interrupt(vector),
    {
        (vector >= self.primary_offset && vector - self.primary_offset < WINDOW_SIZE) || (vector
            >= self.secondary_offset && vector - self.secondary_offset < WINDOW_SIZE)
    }

    /// Run the remap handshake: marks the pair initialized and returns the
    /// exact port writes the handshake consists of, to be sent in order.
    /// `saved_mask_primary` and `saved_mask_secondary` are the interrupt
    /// masks read off the two data ports beforehand; the handshake restores
    /// them at the end. Interrupts must not be globally enabled before this
    /// has run and its writes have been sent.
    pub fn initialize(&mut self, saved_mask_primary: u8, saved_mask_secondary: u8) -> (w: Vec<
        PortWrite,
    >)
        requires
            old(self).wf(),
        ensures
            final(self).wf(),
            final(self).initialized,
            final(self).primary_offset == old(self).primary_offset,
            final(self).secondary_offset == old(self).secondary_offset,
            final(self).acknowledged@ == old(self).acknowledged@,
            w@ == spec_remap_sequence(
                old(self).primary_offset,
                old(self).secondary_offset,
                saved_mask_primary,
                saved_mask_secondary,
            ),
    {
        let mut w: Vec<PortWrite> = Vec::new();
        w.push(PortWrite { port: PRIMARY_COMMAND_PORT, value: CMD_INIT });
        w.push(PortWrite { port: WAIT_PORT, value: 0 });
        w.push(PortWrite { port: SECONDARY_COMMAND_PORT, value: CMD_INIT });
        w.push(PortWrite { port: WAIT_PORT, value: 0 });
        w.push(PortWrite { port: PRIMARY_DATA_PORT, value: self.primary_offset });
        w.push(PortWrite { port: WAIT_PORT, value: 0 });
        w.push(PortWrite { port: SECONDARY_DATA_PORT, value: self.secondary_offset });
        w.push(PortWrite { port: WAIT_PORT, value: 0 });
        w.push(PortWrite { port: PRIMARY_DATA_PORT, value: 4 });
        w.push(PortWrite { port: WAIT_PORT, value: 0 });
        w.push(PortWrite { port: SECONDARY_DATA_PORT, value: 2 });
        w.push(PortWrite { port: WAIT_PORT, value: 0 });
        w.push(PortWrite { port: PRIMARY_DATA_PORT, value: MODE_8086 });
        w.push(PortWrite { port: WAIT_PORT, value: 0 });
        w.push(PortWrite { port: SECONDARY_DATA_PORT, value: MODE_8086 });
        w.push(PortWrite { port: WAIT_PORT, value: 0 });
        w.push(PortWrite { port: PRIMARY_DATA_PORT, value: saved_mask_primary });
        w.push(PortWrite { port: SECONDARY_DATA_PORT, value: saved_mask_secondary });
        self.initialized = true;
        proof {
            assert(w@ =~= spec_remap_sequence(
                self.primary_offset,
                self.secondary_offset,
                saved_mask_primary,
                saved_mask_secondary,
            ));
        }
        w
    }

    /// The port writes that acknowledge a serviced vector: interrupts from
    /// the secondary controller are chained through the primary, so those
    /// acknowledge both controllers; primary-window vectors acknowledge the
    /// primary alone.
    pub open spec fn spec_eoi_sequence(&self, vector: u8) -> Seq<PortWrite> {
        if vector_in_window(self.secondary_offset, vector) {
            seq![
                PortWrite { port: SECONDARY_COMMAND_PORT, value: CMD_END_OF_INTERRUPT },
                PortWrite { port: PRIMARY_COMMAND_PORT, value: CMD_END_OF_INTERRUPT },
            ]
        } else {
            seq![PortWrite { port: PRIMARY_COMMAND_PORT, value: CMD_END_OF_INTERRUPT }]
        }
    }

    /// Acknowledge a serviced interrupt. Every device handler must call this
    /// before returning; a missed acknowledgment starves all lower-priority
    /// interrupts on that controller. The vector is appended to the
    /// acknowledgment record and the owed port writes are returned.
    pub fn notify_end_of_interrupt(&mut self, vector: u8) -> (w: Vec<PortWrite>)
        requires
            old(self).wf(),
            old(self).initialized,
            old(self).spec_handles_interrupt(vector),
        ensures
            final(self).wf(),
            final(self).initialized,
            final(self).primary_offset == old(self).primary_offset,
            final(self).secondary_offset == old(self).secondary_offset,
            final(self).acknowledged@ == old(self).acknowledged@.push(vector),
            w@ == old(self).spec_eoi_sequence(vector),
    {
        let mut w: Vec<PortWrite> = Vec::new();
        if vector >= self.secondary_offset && vector - self.secondary_offset < WINDOW_SIZE {
            w.push(PortWrite { port: SECONDARY_COMMAND_PORT, value: CMD_END_OF_INTERRUPT });
        }
        w.push(PortWrite { port: PRIMARY_COMMAND_PORT, value: CMD_END_OF_INTERRUPT });
        self.acknowledged.push(vector);
        proof {
            assert(w@ =~= old(self).spec_eoi_sequence(vector));
        }
        w
    }
}

/// What a scancode decodes to: the character of a digit key press, or
/// nothing for any other scancode. Only the digit row of the legacy
/// scancode set is mapped; every other scancode is silently ignored.
pub open spec fn spec_decode_scancode(scancode: u8) -> Option<u8> {
    if scancode == 0x02 {
        Some(0x31u8)
    } else if scancode == 0x03 {
        Some(0x32u8)
    } else if scancode == 0x04 {
        Some(0x33u8)
    } else if scancode == 0x05 {
        Some(0x34u8)
    } else if scancode == 0x06 {
        Some(0x35u8)
    } else if scancode == 0x07 {
        Some(0x36u8)
    } else if scancode == 0x08 {
        Some(0x37u8)
    } else if scancode == 0x09 {
        Some(0x38u8)
    } else if scancode == 0x0a {
        Some(0x39u8)
    } else if scancode == 0x0b {
        Some(0x30u8)
    } else {
        None
    }
}

/// Decode one scancode from the keyboard data port into the character it
/// stands for, if the table maps it.
pub fn decode_scancode(scancode: u8) -> (r: Option<u8>)
    ensures
        r == spec_decode_scancode(scancode),
{
    if scancode >= 0x02 && scancode <= 0x0a {
        Some(0x2f + scancode)
    } else if scancode == 0x0b {
        Some(0x30)
    } else {
        None
    }
}

/// The handler kind a slot dispatches to, if any.
pub open spec fn slot_kind(s: VectorSlot) -> Option<HandlerKind> {
    match s {
        VectorSlot::Unbound => None,
        VectorSlot::Bound { kind } => Some(kind),
        VectorSlot::BoundWithStack { kind, .. } => Some(kind),
    }
}

/// The bindings the completed vector table holds: the breakpoint vector
/// carries the diagnostic handler, the double-fault vector the fatal handler
/// on the dedicated emergency stack, the two remapped device vectors their
/// device handlers, and every other vector stays unbound, keeping the
/// processor's default trap.
pub open spec fn standard_bindings(t: VectorTable) -> bool {
    &&& t.slots@[BREAKPOINT_VECTOR as int] == (VectorSlot::Bound {
        kind: HandlerKind::DiagnosticResume,
    })
    &&& t.slots@[DOUBLE_FAULT_VECTOR as int] == (VectorSlot::BoundWithStack {
        kind: HandlerKind::FatalHalt,
        stack_index: DOUBLE_FAULT_IST_INDEX,
    })
    &&& t.slots@[InterruptIndex::Timer.spec_as_u8() as int] == (VectorSlot::Bound {
        kind: HandlerKind::DeviceTimer,
    })
    &&& t.slots@[InterruptIndex::Keyboard.spec_as_u8() as int] == (VectorSlot::Bound {
        kind: HandlerKind::DeviceKeyboard,
    })
    &&& forall|v: int|
        0 <= v < VECTOR_COUNT && v != BREAKPOINT_VECTOR as int && v != DOUBLE_FAULT_VECTOR as int
            && v != InterruptIndex::Timer.spec_as_u8() as int
            && v != InterruptIndex::Keyboard.spec_as_u8() as int ==> t.slots@[v]
            == VectorSlot::Unbound
}

/// Build the vector table and mark it loaded: exactly the standard bindings,
/// nothing else. Must run after the descriptor registry is loaded, so that
/// the stack override names a populated slot.
pub fn init_idt(gdt: &GdtRegistry) -> (t: VectorTable)
    requires
        gdt.wf(),
        gdt.loaded,
        gdt.tss.ist_slot_populated(DOUBLE_FAULT_IST_INDEX as int),
    ensures
        t.wf(),
        t.loaded,
        standard_bindings(t),
        t.stack_overrides_valid(gdt.tss),
{
    let mut idt = VectorTable::new();
    idt.set_handler(BREAKPOINT_VECTOR, HandlerKind::DiagnosticResume);
    idt.set_handler_with_stack(
        DOUBLE_FAULT_VECTOR,
        HandlerKind::FatalHalt,
        DOUBLE_FAULT_IST_INDEX,
        &gdt.tss,
    );
    idt.set_handler(InterruptIndex::Timer.as_u8(), HandlerKind::DeviceTimer);
    idt.set_handler(InterruptIndex::Keyboard.as_u8(), HandlerKind::DeviceKeyboard);
    idt.loaded = true;
    idt
}

/// The diagnostic handler for the breakpoint exception: it writes a line
/// naming the exception and showing the interrupted execution context
/// (formatted by the caller), then lets the interrupted code resume. It
/// touches nothing but the console.
pub fn breakpoint_handler(writer: &mut Writer, stack_frame_details: &str) -> (o: HandlerOutcome)
    requires
        old(writer).wf(),
    ensures
        final(writer).wf(),
        final(writer)@ == model_write_byte(
            model_write_bytes(
                model_write_bytes(
                    old(writer)@,
                    "Exception breakpoint, stack frame: ".spec_bytes(),
                ),
                stack_frame_details.spec_bytes(),
            ),
            0x0a,
        ),
        o == HandlerOutcome::Resumed,
{
    writer.write_string("Exception breakpoint, stack frame: ");
    writer.write_string(stack_frame_details);
    writer.write_byte(0x0a);
    HandlerOutcome::Resumed
}

/// The fatal handler for the double fault: it writes a line naming the
/// fault and the interrupted execution context, and directs the processor to
/// halt for good. It runs on the dedicated emergency stack, since the normal
/// stack may be unusable, and it never acknowledges: there is no resumption.
pub fn double_fault_handler(writer: &mut Writer, stack_frame_details: &str) -> (o: HandlerOutcome)
    requires
        old(writer).wf(),
    ensures
        final(writer).wf(),
        final(writer)@ == model_write_byte(
            model_write_bytes(
                model_write_bytes(
                    old(writer)@,
                    "Double fault triggered, stack frame: ".spec_bytes(),
                ),
                stack_frame_details.spec_bytes(),
            ),
            0x0a,
        ),
        o == HandlerOutcome::Halted,
{
    writer.write_string("Double fault triggered, stack frame: ");
    writer.write_string(stack_frame_details);
    writer.write_byte(0x0a);
    HandlerOutcome::Halted
}

/// The timer-tick handler: one visible tick mark on the console, then the
/// acknowledgment owed to the controllers before returning.
pub fn timer_interrupt_handler(writer: &mut Writer, pics: &mut ChainedPics) -> (r: (
    HandlerOutcome,
    Vec<PortWrite>,
))
    requires
        old(writer).wf(),
        old(pics).wf(),
        old(pics).initialized,
        old(pics).spec_handles_interrupt(InterruptIndex::Timer.spec_as_u8()),
    ensures
        final(writer).wf(),
        final(writer)@ == model_write_byte(old(writer)@, 0x2e),
        final(pics).wf(),
        final(pics).initialized,
        final(pics).primary_offset == old(pics).primary_offset,
        final(pics).secondary_offset == old(pics).secondary_offset,
        final(pics).acknowledged@ == old(pics).acknowledged@.push(
            InterruptIndex::Timer.spec_as_u8(),
        ),
        r.0 == HandlerOutcome::Resumed,
        r.1@ == old(pics).spec_eoi_sequence(InterruptIndex::Timer.spec_as_u8()),
{
    writer.write_byte(0x2e);
    let eoi = pics.notify_end_of_interrupt(InterruptIndex::Timer.as_u8());
    (HandlerOutcome::Resumed, eoi)
}

/// The keyboard handler, handed the byte read off the keyboard data port: if
/// the scancode table maps it, the decoded character and a newline go to the
/// console; any other scancode is silently dropped. Either way the handler
/// acknowledges before returning.
pub fn keyboard_interrupt_handler(writer: &mut Writer, pics: &mut ChainedPics, scancode: u8) -> (r:
    (HandlerOutcome, Vec<PortWrite>))
    requires
        old(writer).wf(),
        old(pics).wf(),
        old(pics).initialized,
        old(pics).spec_handles_interrupt(InterruptIndex::Keyboard.spec_as_u8()),
    ensures
        final(writer).wf(),
        (match spec_decode_scancode(scancode) {
            Some(character) => final(writer)@ == model_write_byte(
                model_write_byte(old(writer)@, character),
                0x0a,
            ),
            None => final(writer)@ == old(writer)@,
        }),
        final(pics).wf(),
        final(pics).initialized,
        final(pics).primary_offset == old(pics).primary_offset,
        final(pics).secondary_offset == old(pics).secondary_offset,
        final(pics).acknowledged@ == old(pics).acknowledged@.push(
            InterruptIndex::Keyboard.spec_as_u8(),
        ),
        r.0 == HandlerOutcome::Resumed,
        r.1@ == old(pics).spec_eoi_sequence(InterruptIndex::Keyboard.spec_as_u8()),
{
    let key = decode_scancode(scancode);
    match key {
        Some(character) => {
            writer.write_byte(character);
            writer.write_byte(0x0a);
        },
        None => {},
    }
    let eoi = pics.notify_end_of_interrupt(InterruptIndex::Keyboard.as_u8());
    (HandlerOutcome::Resumed, eoi)
}

} // verus!
