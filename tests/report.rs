use stable_eyre::{backtrace_of, install, render_report, Handler, HookBuilder, HookSlot, InstallError};

fn strings(v: &[&str]) -> Vec<String> {
    v.iter().map(|s| s.to_string()).collect()
}

fn chain_texts(report: &eyre::Report) -> (String, Vec<String>) {
    let mut chain = report.chain();
    let display = chain.next().unwrap().to_string();
    let causes = chain.map(|e| e.to_string()).collect();
    (display, causes)
}

#[test]
fn no_cause_is_display_text_alone() {
    let r = render_report("boom", &Vec::new(), None);
    assert_eq!(r, "boom");
    assert!(!r.contains("Caused by"));
}

#[test]
fn no_cause_with_stack_appends_stack_section() {
    let r = render_report("boom", &Vec::new(), Some("frame one\nframe two"));
    assert_eq!(r, "boom\n\nStack backtrace:\nframe one\nframe two");
}

#[test]
fn one_cause_is_unnumbered_and_indented() {
    let r = render_report("outer", &strings(&["inner"]), None);
    assert_eq!(r, "outer\n\nCaused by:\n    inner");
}

#[test]
fn one_cause_wrapped_lines_share_the_indent() {
    let r = render_report("outer", &strings(&["first\nsecond\n\nfourth"]), None);
    assert_eq!(r, "outer\n\nCaused by:\n    first\n    second\n\n    fourth");
}

#[test]
fn two_causes_are_numbered_in_chain_order() {
    let r = render_report("top", &strings(&["a\nwrapped", "b", "c"]), None);
    assert_eq!(
        r,
        "top\n\nCaused by:\n   0: a\n      wrapped\n   1: b\n   2: c"
    );
}

#[test]
fn numbers_past_nine_keep_the_alignment() {
    let causes: Vec<String> = (0..11).map(|i| format!("e{}", i)).collect();
    let r = render_report("top", &causes, None);
    assert!(r.ends_with("\n   9: e9\n  10: e10"));
}

#[test]
fn causes_and_stack_come_in_order() {
    let r = render_report("top", &strings(&["cause"]), Some("frames"));
    assert_eq!(r, "top\n\nCaused by:\n    cause\n\nStack backtrace:\nframes");
}

#[test]
fn three_level_chain_without_capture() {
    let report = eyre::Report::msg("inner").wrap_err("middle").wrap_err("outer");
    let (display, causes) = chain_texts(&report);
    let handler = HookBuilder::default().make_handler(Some("0"), None);
    let r = handler.render(&display, &causes);
    assert_eq!(r, "outer\n\nCaused by:\n   0: middle\n   1: inner");
    assert!(!r.contains("Stack backtrace"));
}

#[test]
fn library_override_zero_disables_capture() {
    let on = HookBuilder::default().capture_backtrace_by_default(true);
    assert!(!on.capture_enabled(Some("0"), Some("1")));
    assert!(!on.capture_enabled(Some("0"), None));
    assert!(!HookBuilder::default().capture_enabled(Some("0"), Some("full")));
}

#[test]
fn library_override_other_value_enables_capture() {
    let off = HookBuilder::default();
    assert!(off.capture_enabled(Some("1"), Some("0")));
    assert!(off.capture_enabled(Some("full"), None));
    assert!(off.capture_enabled(Some(""), Some("0")));
    assert!(off.capture_enabled(Some("00"), None));
}

#[test]
fn general_override_applies_without_library_override() {
    let on = HookBuilder::default().capture_backtrace_by_default(true);
    assert!(!on.capture_enabled(None, Some("0")));
    assert!(HookBuilder::default().capture_enabled(None, Some("1")));
}

#[test]
fn without_overrides_the_default_decides() {
    assert!(!HookBuilder::default().capture_enabled(None, None));
    assert!(HookBuilder::default().capture_backtrace_by_default(true).capture_enabled(None, None));
    assert!(!HookBuilder::default()
        .capture_backtrace_by_default(true)
        .capture_backtrace_by_default(false)
        .capture_enabled(None, None));
}

#[test]
fn make_handler_captures_when_enabled() {
    let h = HookBuilder::default().make_handler(None, Some("1"));
    assert!(h.backtrace().is_some());
    let r = h.render("boom", &Vec::new());
    assert!(r.starts_with("boom\n\nStack backtrace:\n"));
    assert!(r.len() > "boom\n\nStack backtrace:\n".len());
}

#[test]
fn make_handler_skips_capture_when_disabled() {
    let h = HookBuilder::default().make_handler(None, None);
    assert!(h.backtrace().is_none());
    assert_eq!(h.render("boom", &Vec::new()), "boom");
}

#[test]
fn accessor_without_compatible_handler_is_absent() {
    assert!(backtrace_of(None).is_none());
}

#[test]
fn accessor_follows_the_handler() {
    let off = Handler::new(false);
    assert!(backtrace_of(Some(&off)).is_none());
    let on = Handler::new(true);
    assert!(backtrace_of(Some(&on)).is_some());
}

#[test]
fn second_install_is_refused_and_first_stays() {
    let mut slot = HookSlot::new();
    assert!(slot.active_factory().is_none());
    let first = HookBuilder::default().capture_backtrace_by_default(true);
    assert_eq!(first.install(&mut slot), Ok(()));
    let second = HookBuilder::default();
    assert_eq!(second.install(&mut slot), Err(InstallError::AlreadyInstalled));
    let active = slot.active_factory().unwrap();
    assert!(active.capture_enabled(None, None));
}

#[test]
fn default_install_is_write_once() {
    let mut slot = HookSlot::new();
    assert_eq!(install(&mut slot), Ok(()));
    assert!(!slot.active_factory().unwrap().capture_enabled(None, None));
    assert_eq!(install(&mut slot), Err(InstallError::AlreadyInstalled));
    let other = HookBuilder::default().capture_backtrace_by_default(true);
    assert_eq!(other.install(&mut slot), Err(InstallError::AlreadyInstalled));
    assert!(!slot.active_factory().unwrap().capture_enabled(None, None));
}
