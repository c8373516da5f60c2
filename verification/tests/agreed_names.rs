use coremark_runner::guest::{CLOCK_IMPORT, ENTRY_POINT, HOST_MODULE, STACK_SLOTS};

#[test]
fn the_guest_imports_the_clock_from_env() {
    assert_eq!(HOST_MODULE, "env");
    assert_eq!(CLOCK_IMPORT, "clock_ms");
}

#[test]
fn the_guest_exports_run() {
    assert_eq!(ENTRY_POINT, "run");
}

#[test]
fn the_stack_has_2048_slots() {
    assert_eq!(STACK_SLOTS, 2048);
}
