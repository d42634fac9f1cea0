use mini_os::serial::{print, print_line, SerialLine};
use mini_os::status::{debug_exit_status, report_panic, report_success, status_token, EXIT_VALUE};

#[test]
fn print_appends_text() {
    let mut line = SerialLine::new();
    print(&mut line, "hello ");
    print(&mut line, "os");
    print_line(&mut line, " !");
    assert_eq!(line.take(), "hello os !\n");
    assert_eq!(line.take(), "");
}

#[test]
fn status_tokens() {
    assert_eq!(status_token(true), "ok");
    assert_eq!(status_token(false), "failed");
}

#[test]
fn debug_exit_status_values() {
    assert_eq!(debug_exit_status(EXIT_VALUE), 1);
    assert_eq!(debug_exit_status(3), 7);
}

#[test]
fn basic_boot_scenario() {
    let mut line = SerialLine::new();
    print_line(&mut line, "hello os !");
    report_success(&mut line);
    assert_eq!(line.take(), "hello os !\nok\n");
    assert_eq!(debug_exit_status(EXIT_VALUE), 1);
}

#[test]
fn expected_panic_scenario() {
    let mut line = SerialLine::new();
    report_panic(&mut line, true, "explicit panic");
    assert_eq!(line.take(), "ok\n");
    assert_eq!(debug_exit_status(EXIT_VALUE), 1);
}

#[test]
fn unexpected_panic_reports_failure() {
    let mut line = SerialLine::new();
    report_panic(&mut line, false, "panicked at src/main.rs:3:5");
    assert_eq!(line.take(), "failed\npanicked at src/main.rs:3:5\n");
}
