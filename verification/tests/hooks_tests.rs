use wasmer_js::hooks::Hooks;

#[test]
fn new_hooks_have_no_populate_handler() {
    assert_eq!(Hooks::new().populate, None);
    assert_eq!(Hooks::default().populate, None);
}

#[test]
fn trigger_without_handler_answers_false() {
    let mut h = Hooks::new();
    assert_eq!(h.trigger_populate(), Some(false));
    assert_eq!(h.populate, None);
}

#[test]
fn populate_trigger_repeated_stays_false() {
    let mut h = Hooks { populate: None };
    assert_eq!(h.trigger_populate(), Some(false));
    assert_eq!(h.trigger_populate(), Some(false));
    assert_eq!(h.populate, None);
}

#[test]
fn dispatch_take_on_empty_slot_answers_false() {
    let mut slot: Option<u32> = None;
    let r = Hooks::dispatch_take(&mut slot);
    assert!(matches!(r, Ok(false)));
    assert_eq!(slot, None);
}

#[test]
fn or_console_error_keeps_success_value() {
    assert_eq!(Hooks::or_console_error::<u32>(Ok(7)), Some(7));
    assert_eq!(Hooks::or_console_error::<bool>(Ok(false)), Some(false));
}
