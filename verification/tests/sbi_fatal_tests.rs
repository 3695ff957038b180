use kernel_core::fatal::SourceLocation;
use kernel_core::fatal::dec_string;
use kernel_core::fatal::fatal;
use kernel_core::fatal::fatal_message;
use kernel_core::fatal::print_str;
use kernel_core::sbi::Firmware;
use kernel_core::sbi::console_putchar;
use kernel_core::sbi::set_timer;
use kernel_core::sbi::shutdown;

fn fresh_firmware() -> Firmware {
    Firmware { timer: None, console: Vec::new(), halted: false }
}

#[test]
fn set_timer_arms_the_deadline() {
    let mut fw = fresh_firmware();
    set_timer(&mut fw, 123456);
    assert_eq!(fw.timer, Some(123456));
    assert!(fw.console.is_empty());
    assert!(!fw.halted);
    set_timer(&mut fw, 7);
    assert_eq!(fw.timer, Some(7));
}

#[test]
fn console_putchar_emits_one_byte() {
    let mut fw = fresh_firmware();
    console_putchar(&mut fw, b'O' as usize);
    console_putchar(&mut fw, b'K' as usize);
    assert_eq!(fw.console, b"OK");
    // Only the low eight bits reach the device.
    console_putchar(&mut fw, 0x141);
    assert_eq!(fw.console, b"OKA");
    assert_eq!(fw.timer, None);
    assert!(!fw.halted);
}

#[test]
fn shutdown_is_a_one_way_transition() {
    let mut fw = fresh_firmware();
    shutdown(&mut fw);
    assert!(fw.halted);
    assert!(fw.console.is_empty());
}

#[test]
fn print_str_emits_text_byte_by_byte() {
    let mut fw = fresh_firmware();
    print_str(&mut fw, "hello");
    print_str(&mut fw, " world");
    assert_eq!(fw.console, b"hello world");
    assert!(!fw.halted);
}

#[test]
fn decimal_rendering_is_exact() {
    assert_eq!(dec_string(0), "0");
    assert_eq!(dec_string(9), "9");
    assert_eq!(dec_string(10), "10");
    assert_eq!(dec_string(42), "42");
    assert_eq!(dec_string(407), "407");
    assert_eq!(dec_string(1204000), "1204000");
}

#[test]
fn diagnostic_with_location_names_file_and_line() {
    let location = Some(SourceLocation { file: String::from("kernel.src"), line: 42 });
    let text = fatal_message(&location, "boom");
    assert!(text.contains("kernel.src"));
    assert!(text.contains("42"));
    assert_eq!(text, "panic occurred in file 'kernel.src' at line 42");
}

#[test]
fn diagnostic_without_location_uses_the_fallback() {
    let text = fatal_message(&None, "It should shutdown!");
    assert_eq!(text, "    Panic message: It should shutdown!");
    assert!(text.contains("Panic message"));
}

#[test]
fn fatal_prints_the_diagnostic_and_halts() {
    let mut fw = fresh_firmware();
    let location = Some(SourceLocation { file: String::from("kernel.src"), line: 42 });
    fatal(&mut fw, &location, "");
    assert!(fw.halted);
    let emitted = String::from_utf8(fw.console.clone()).unwrap();
    assert!(emitted.contains("kernel.src"));
    assert!(emitted.contains("42"));
    assert_eq!(emitted, "panic occurred in file 'kernel.src' at line 42\n");
}

#[test]
fn fatal_without_location_prints_the_fallback() {
    let mut fw = fresh_firmware();
    fatal(&mut fw, &None, "unexpected condition");
    assert!(fw.halted);
    let emitted = String::from_utf8(fw.console.clone()).unwrap();
    assert_eq!(emitted, "    Panic message: unexpected condition\n");
}
