use embedded_rust_os::interrupts::HandlerOutcome;
use embedded_rust_os::interrupts::InterruptIndex;
use embedded_rust_os::vga_buffer::BUFFER_HEIGHT;
use embedded_rust_os::vga_buffer::BUFFER_WIDTH;
use embedded_rust_os::vga_buffer::_print;
use embedded_rust_os::vga_buffer::Color;
use embedded_rust_os::vga_buffer::ColorCode;
use embedded_rust_os::vga_buffer::Writer;
use embedded_rust_os::InitError;
use embedded_rust_os::Kernel;

const STACK_START: u64 = 0x10_0000;

fn row_text(k: &Kernel, row: usize) -> String {
    let mut out = String::new();
    for c in 0..BUFFER_WIDTH {
        out.push(k.writer.buffer.read_cell(row, c).ascii_character as char);
    }
    out
}

#[test]
fn dispatch_before_initialization_is_refused() {
    let mut k = Kernel::new();
    let r = k.handle_interrupt(3, 0, "context");
    assert_eq!(r, Err(InitError::NotInitialized));
    // Nothing happened to the console or the controllers.
    assert_eq!(k.writer.row_position, 0);
    assert_eq!(k.writer.column_position, 0);
    assert!(k.pics.acknowledged.is_empty());
}

#[test]
fn initialization_runs_once_in_order() {
    let mut k = Kernel::new();
    let writes = k.init(STACK_START, 0xfb, 0xff);
    assert_eq!(writes.len(), 18);
    assert!(k.interrupts_enabled);
    assert!(k.pics.initialized);
    assert!(k.gdt.is_some());
    assert!(k.idt.is_some());
    // The remap handshake ends by restoring the saved masks.
    assert_eq!(writes[16].port, 0x21);
    assert_eq!(writes[16].value, 0xfb);
    assert_eq!(writes[17].port, 0xa1);
    assert_eq!(writes[17].value, 0xff);
}

#[test]
fn hello_world_end_to_end() {
    let mut k = Kernel::new();
    k.init(STACK_START, 0, 0);
    k.write_console("Hello World !");
    let long: String = "x".repeat(85);
    k.write_console(&long);
    // The first line holds the greeting, then the overflowing string fills
    // the rest of the line and wraps onto the next: nothing lost, nothing
    // out of order, and the cursor rests on the line after the second
    // string started.
    assert_eq!(k.writer.row_position, 1);
    assert_eq!(k.writer.column_position, 85 - (BUFFER_WIDTH - 13));
    let first = row_text(&k, 0);
    assert!(first.starts_with("Hello World !"));
    assert_eq!(&first[13..], "x".repeat(BUFFER_WIDTH - 13));
    let second = row_text(&k, 1);
    assert_eq!(&second[..18], "x".repeat(18));
}

#[test]
fn breakpoint_writes_only_its_diagnostic_and_resumes() {
    let mut k = Kernel::new();
    k.init(STACK_START, 0, 0);
    k.write_console("Hello World !\n");
    let before_first = row_text(&k, 0);
    let r = k.handle_interrupt(3, 0, "frame");
    let (outcome, eoi) = r.expect("dispatch after init");
    assert_eq!(outcome, HandlerOutcome::Resumed);
    assert!(eoi.is_empty());
    // Previously written console content is untouched.
    assert_eq!(row_text(&k, 0), before_first);
    // The handler's own diagnostic line follows.
    assert!(row_text(&k, 1).starts_with("Exception breakpoint, stack frame: frame"));
    assert_eq!(k.writer.row_position, 2);
    // A breakpoint is not a device interrupt: nothing to acknowledge.
    assert!(k.pics.acknowledged.is_empty());
}

#[test]
fn double_fault_halts() {
    let mut k = Kernel::new();
    k.init(STACK_START, 0, 0);
    let r = k.handle_interrupt(8, 0, "frame");
    let (outcome, _) = r.expect("dispatch after init");
    assert_eq!(outcome, HandlerOutcome::Halted);
    assert!(row_text(&k, 0).starts_with("Double fault triggered, stack frame: frame"));
}

#[test]
fn timer_ticks_and_acknowledges_before_returning() {
    let mut k = Kernel::new();
    k.init(STACK_START, 0, 0);
    let (outcome, eoi) = k.handle_interrupt(32, 0, "").expect("dispatch after init");
    assert_eq!(outcome, HandlerOutcome::Resumed);
    assert_eq!(k.writer.buffer.read_cell(0, 0).ascii_character, b'.');
    assert_eq!(k.pics.acknowledged, vec![InterruptIndex::Timer.as_u8()]);
    assert_eq!(eoi.len(), 1);
    assert_eq!(eoi[0].port, 0x20);
    assert_eq!(eoi[0].value, 0x20);
}

#[test]
fn keyboard_prints_mapped_keys_and_acknowledges() {
    let mut k = Kernel::new();
    k.init(STACK_START, 0, 0);
    let (outcome, eoi) = k.handle_interrupt(33, 0x02, "").expect("dispatch after init");
    assert_eq!(outcome, HandlerOutcome::Resumed);
    assert_eq!(k.writer.buffer.read_cell(0, 0).ascii_character, b'1');
    assert_eq!(k.writer.row_position, 1);
    assert_eq!(k.pics.acknowledged, vec![InterruptIndex::Keyboard.as_u8()]);
    assert_eq!(eoi.len(), 1);
    assert_eq!(eoi[0].port, 0x20);
}

#[test]
fn keyboard_drops_unmapped_scancodes_but_still_acknowledges() {
    let mut k = Kernel::new();
    k.init(STACK_START, 0, 0);
    let (outcome, _) = k.handle_interrupt(33, 0x1e, "").expect("dispatch after init");
    assert_eq!(outcome, HandlerOutcome::Resumed);
    // Nothing printed.
    assert_eq!(k.writer.row_position, 0);
    assert_eq!(k.writer.column_position, 0);
    // Acknowledged all the same: a missed acknowledgment would starve the
    // controller.
    assert_eq!(k.pics.acknowledged, vec![InterruptIndex::Keyboard.as_u8()]);
}

#[test]
fn unbound_vectors_fall_through_to_the_default_trap() {
    let mut k = Kernel::new();
    k.init(STACK_START, 0, 0);
    let (outcome, eoi) = k.handle_interrupt(100, 0, "").expect("dispatch after init");
    assert_eq!(outcome, HandlerOutcome::DefaultTrap);
    assert!(eoi.is_empty());
    assert_eq!(k.writer.row_position, 0);
    assert_eq!(k.writer.column_position, 0);
}

#[test]
fn print_surface_writes_through_the_writer() {
    let mut w = Writer::new(ColorCode::new(Color::White, Color::Black));
    _print(&mut w, "42 is the response to anything\n");
    assert_eq!(w.row_position, 1);
    assert_eq!(w.column_position, 0);
    assert_eq!(w.buffer.read_cell(0, 0).ascii_character, b'4');
    assert_eq!(w.buffer.read_cell(0, 1).ascii_character, b'2');
}

#[test]
fn console_scrolls_under_sustained_output() {
    let mut k = Kernel::new();
    k.init(STACK_START, 0, 0);
    for i in 0..(BUFFER_HEIGHT + 5) {
        let line = format!("line {}\n", i);
        k.write_console(&line);
    }
    // The first lines have scrolled off; the last written line sits on the
    // second-to-last row, and the cursor waits at the start of the cleared
    // last row.
    assert_eq!(k.writer.row_position, BUFFER_HEIGHT - 1);
    assert_eq!(k.writer.column_position, 0);
    assert!(row_text(&k, BUFFER_HEIGHT - 2).starts_with("line 29"));
    assert_eq!(row_text(&k, BUFFER_HEIGHT - 1), " ".repeat(BUFFER_WIDTH));
}
