//! Model of the earliest hardware-trust layer of a bare-metal kernel:
//! descriptor-table setup, the interrupt vector table and its handlers,
//! the chained interrupt-controller bridge, and the memory-mapped text
//! console. The logic is verified here; the raw hardware accesses (table
//! loads, port writes, the physical frame buffer) live outside the library.

use vstd::prelude::*;

pub mod gdt;
pub mod interrupts;
pub mod vga_buffer;

use crate::gdt::{GdtRegistry, DOUBLE_FAULT_IST_INDEX, STACK_SIZE};
use crate::interrupts::{
    breakpoint_handler, double_fault_handler, keyboard_interrupt_handler, slot_kind,
    spec_decode_scancode, standard_bindings, timer_interrupt_handler, ChainedPics, HandlerKind,
    HandlerOutcome, InterruptIndex, PortWrite, VectorSlot, VectorTable, PIC_1_OFFSET, PIC_2_OFFSET,
};
use crate::vga_buffer::{
    model_write_byte, model_write_bytes, Color, ColorCode, Writer,
};
use vstd::string::StringSliceAdditionalSpecFns;

verus! {

/// The definite failure kind for using a gated service before its one-time
/// initialization has run.
#[derive(Clone, Copy, PartialEq, Eq, Structural, Debug)]
pub enum InitError {
    NotInitialized,
}

/// The whole early-boot layer as one process-wide service: the console
/// writer (usable from the start), and the three tables that become live
/// only once `init` has run in its fixed order. The surrounding system
/// guards this with its one busy-wait lock, shared by foreground code and
/// handlers; critical sections must stay minimal or an interrupt taken while
/// the lock is held deadlocks against the handler that wants it.
pub struct Kernel {
    pub writer: Writer,
    pub gdt: Option<GdtRegistry>,
    pub idt: Option<VectorTable>,
    pub pics: ChainedPics,
    pub interrupts_enabled: bool,
}

impl Kernel {
    /// The standing invariant: a well-formed writer and controller pair at
    /// the fixed offsets, tables well formed once built, and the boot order
    /// respected: the vector table only after the descriptor registry, the
    /// controller remap only after the vector table, the global interrupt
    /// enable only after the remap.
    pub open spec fn wf(&self) -> bool {
        &&& self.writer.wf()
        &&& self.pics.wf()
        &&& self.pics.primary_offset == PIC_1_OFFSET
        &&& self.pics.secondary_offset == PIC_2_OFFSET
        &&& (self.gdt matches Some(g) ==> g.wf() && g.loaded && g.tss.ist_slot_populated(
            DOUBLE_FAULT_IST_INDEX as int,
        ))
        &&& (self.idt matches Some(t) ==> t.wf() && t.loaded && standard_bindings(t))
        &&& (self.idt is Some ==> self.gdt is Some)
        &&& (self.pics.initialized ==> self.idt is Some)
        &&& (self.interrupts_enabled ==> self.pics.initialized)
    }

    /// Whether the one-time initialization has completed.
    pub open spec fn is_initialized(&self) -> bool {
        &&& self.gdt is Some
        &&& self.idt is Some
        &&& self.pics.initialized
        &&& self.interrupts_enabled
    }

    /// The handler kind the vector table binds to a vector.
    pub open spec fn bound_kind(&self, vector: u8) -> Option<HandlerKind>
        recommends
            self.idt is Some,
    {
        slot_kind(self.idt.unwrap().slots@[vector as int])
    }

    /// A kernel before initialization: a cleared console and the controller
    /// pair programmed for the standard offsets, nothing loaded or enabled.
    pub fn new() -> (k: Kernel)
        ensures
            k.wf(),
            !k.is_initialized(),
            k.gdt is None,
            k.idt is None,
            !k.pics.initialized,
            k.pics.acknowledged@.len() == 0,
            !k.interrupts_enabled,
            k.writer@.row == 0,
            k.writer@.col == 0,
    {
        Kernel {
            writer: Writer::new(ColorCode::new(Color::LightRed, Color::Black)),
            gdt: None,
            idt: None,
            pics: ChainedPics::new(PIC_1_OFFSET, PIC_2_OFFSET),
            interrupts_enabled: false,
        }
    }

    /// One-time initialization, in the only sound order: build and load the
    /// descriptor registry (recording the emergency stack that starts at
    /// `stack_start`), build and load the vector table against it, run the
    /// controller remap handshake (handing back its port writes, with the
    /// two saved interrupt masks restored at the end), and only then enable
    /// interrupts globally. Irreversible for the process lifetime.
    pub fn init(&mut self, stack_start: u64, saved_mask_primary: u8, saved_mask_secondary: u8) -> (w:
        Vec<PortWrite>)
        requires
            old(self).wf(),
            old(self).gdt is None,
            old(self).idt is None,
            !old(self).pics.initialized,
            !old(self).interrupts_enabled,
            stack_start != 0,
            stack_start + STACK_SIZE <= u64::MAX,
        ensures
            final(self).wf(),
            final(self).is_initialized(),
            final(self).writer == old(self).writer,
            final(self).pics.acknowledged@ == old(self).pics.acknowledged@,
            (final(self).gdt matches Some(g) && g.tss.interrupt_stack_table@[
                DOUBLE_FAULT_IST_INDEX as int
            ] == stack_start + STACK_SIZE),
            (final(self).idt matches Some(t) && standard_bindings(t)),
            w@ == interrupts::spec_remap_sequence(
                PIC_1_OFFSET,
                PIC_2_OFFSET,
                saved_mask_primary,
                saved_mask_secondary,
            ),
    {
        let descriptor_registry = gdt::init(stack_start);
        let vector_table = interrupts::init_idt(&descriptor_registry);
        let remap_writes = self.pics.initialize(saved_mask_primary, saved_mask_secondary);
        self.gdt = Some(descriptor_registry);
        self.idt = Some(vector_table);
        self.interrupts_enabled = true;
        remap_writes
    }

    /// Write one piece of text to the console. The console needs no
    /// initialization: it is live from the first instruction.
    pub fn write_console(&mut self, s: &str)
        requires
            old(self).wf(),
        ensures
            final(self).wf(),
            final(self).writer@ == model_write_bytes(old(self).writer@, s.spec_bytes()),
            final(self).gdt == old(self).gdt,
            final(self).idt == old(self).idt,
            final(self).pics == old(self).pics,
            final(self).interrupts_enabled == old(self).interrupts_enabled,
    {
        self.writer.write_string(s);
    }

    /// Dispatch one interrupt through the vector table: the gated entry
    /// point of the layer. Before initialization no table is loaded, so the
    /// dispatch reports the definite failure kind and changes nothing.
    /// Afterwards the bound handler runs: the diagnostic handler writes its
    /// line and resumes; the fatal handler writes its line and halts; the
    /// device handlers do their visible work and acknowledge, handing back
    /// the port writes they owe the controllers. An unbound vector is the
    /// processor's default trap and touches nothing. `scancode` is the byte
    /// the keyboard data port held (ignored by every other handler);
    /// `stack_frame_details` is the interrupted context, formatted by the
    /// caller (used only by the two exception handlers).
    pub fn handle_interrupt(&mut self, vector: u8, scancode: u8, stack_frame_details: &str) -> (r:
        Result<(HandlerOutcome, Vec<PortWrite>), InitError>)
        requires
            old(self).wf(),
        ensures
            final(self).wf(),
            final(self).gdt == old(self).gdt,
            final(self).idt == old(self).idt,
            final(self).interrupts_enabled == old(self).interrupts_enabled,
            (!old(self).is_initialized() ==> (r matches Err(e) && e == InitError::NotInitialized
                && *final(self) == *old(self))),
            (old(self).is_initialized() ==> match old(self).bound_kind(vector) {
                Option::None => {
                    &&& (r matches Ok(o) && o.0 == HandlerOutcome::DefaultTrap && o.1@.len()
                        == 0)
                    &&& *final(self) == *old(self)
                },
                Option::Some(HandlerKind::DiagnosticResume) => {
                    &&& (r matches Ok(o) && o.0 == HandlerOutcome::Resumed && o.1@.len() == 0)
                    &&& final(self).writer@ == model_write_byte(
                        model_write_bytes(
                            model_write_bytes(
                                old(self).writer@,
                                "Exception breakpoint, stack frame: ".spec_bytes(),
                            ),
                            stack_frame_details.spec_bytes(),
                        ),
                        0x0a,
                    )
                    &&& final(self).pics == old(self).pics
                },
                Option::Some(HandlerKind::FatalHalt) => {
                    &&& (r matches Ok(o) && o.0 == HandlerOutcome::Halted && o.1@.len() == 0)
                    &&& final(self).writer@ == model_write_byte(
                        model_write_bytes(
                            model_write_bytes(
                                old(self).writer@,
                                "Double fault triggered, stack frame: ".spec_bytes(),
                            ),
                            stack_frame_details.spec_bytes(),
                        ),
                        0x0a,
                    )
                    &&& final(self).pics == old(self).pics
                },
                Option::Some(HandlerKind::DeviceTimer) => {
                    &&& (r matches Ok(o) && o.0 == HandlerOutcome::Resumed && o.1@ == old(
                        self,
                    ).pics.spec_eoi_sequence(InterruptIndex::Timer.spec_as_u8()))
                    &&& final(self).writer@ == model_write_byte(old(self).writer@, 0x2e)
                    &&& final(self).pics.acknowledged@ == old(self).pics.acknowledged@.push(
                        InterruptIndex::Timer.spec_as_u8(),
                    )
                },
                Option::Some(HandlerKind::DeviceKeyboard) => {
                    &&& (r matches Ok(o) && o.0 == HandlerOutcome::Resumed && o.1@ == old(
                        self,
                    ).pics.spec_eoi_sequence(InterruptIndex::Keyboard.spec_as_u8()))
                    &&& (match spec_decode_scancode(scancode) {
                        Option::Some(character) => final(self).writer@ == model_write_byte(
                            model_write_byte(old(self).writer@, character),
                            0x0a,
                        ),
                        Option::None => final(self).writer@ == old(self).writer@,
                    })
                    &&& final(self).pics.acknowledged@ == old(self).pics.acknowledged@.push(
                        InterruptIndex::Keyboard.spec_as_u8(),
                    )
                },
            }),
    {
        if !self.interrupts_enabled || !self.pics.initialized {
            return Err(InitError::NotInitialized);
        }
        let slot = match &self.idt {
            Option::Some(table) => table.slot(vector),
            Option::None => {
                return Err(InitError::NotInitialized);
            },
        };
        let kind = match slot {
            VectorSlot::Unbound => {
                return Ok((HandlerOutcome::DefaultTrap, Vec::new()));
            },
            VectorSlot::Bound { kind } => kind,
            VectorSlot::BoundWithStack { kind, .. } => kind,
        };
        match kind {
            HandlerKind::DiagnosticResume => {
                let outcome = breakpoint_handler(&mut self.writer, stack_frame_details);
                Ok((outcome, Vec::new()))
            },
            HandlerKind::FatalHalt => {
                let outcome = double_fault_handler(&mut self.writer, stack_frame_details);
                Ok((outcome, Vec::new()))
            },
            HandlerKind::DeviceTimer => {
                let (outcome, eoi) = timer_interrupt_handler(&mut self.writer, &mut self.pics);
                Ok((outcome, eoi))
            },
            HandlerKind::DeviceKeyboard => {
                let (outcome, eoi) = keyboard_interrupt_handler(
                    &mut self.writer,
                    &mut self.pics,
                    scancode,
                );
                Ok((outcome, eoi))
            },
        }
    }
}

} // verus!

