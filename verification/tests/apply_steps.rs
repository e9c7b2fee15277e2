use fontick::photoshop::capture::{
    copy_retry_next, copy_retry_start, focus_next, focus_target, mac_capture_next,
    mac_capture_start, mac_exit_needs_commit, sentinel_copy_next, sentinel_text, sentinel_written,
    win_capture_next, win_capture_start, window_belongs, ClipboardCopy, CopyRetryStep, FocusStep,
    FocusTarget, MacCapture, MacCaptureStep, SentinelCopy, WinCapture, WinCaptureEvent,
    WinCaptureStep,
};
use fontick::photoshop::retry::{
    composite_apply_exited, composite_apply_ran, font_apply_captured, font_apply_ran,
    start_composite_apply, start_font_apply, ApplyStep, CompositeApply, FontApply,
};
use fontick::photoshop::keys::{chord_events, key_inputs, KeyEvent, KeyInput, VK_HOME};
use fontick::photoshop::windows::TextSelectionCapture;
use fontick::photoshop::{make_apply_jsx, make_apply_range_jsx};

const BUSY: &str = "HRESULT(0x80010001) Call was rejected by callee.";

fn run_jsx(step: &ApplyStep) -> (u64, String) {
    match step {
        ApplyStep::Run { delay_ms, jsx } => (*delay_ms, jsx.clone()),
        other => panic!("expected a run, got {other:?}"),
    }
}

fn finished(step: ApplyStep) -> Result<String, String> {
    match step {
        ApplyStep::Finish(r) => r,
        other => panic!("expected the end, got {other:?}"),
    }
}

#[test]
fn font_apply_succeeds_at_once() {
    let (state, step) = start_font_apply("Arial");
    assert_eq!(run_jsx(&step), (0, make_apply_jsx("Arial")));
    let (state, step) = font_apply_ran(state, Ok("0".into()), true);
    assert!(matches!(state, FontApply::Done));
    assert_eq!(finished(step), Ok("0".to_string()));
}

#[test]
fn font_apply_passes_on_other_errors() {
    let (state, _) = start_font_apply("Arial");
    let (_, step) = font_apply_ran(state, Err("no document".into()), true);
    assert_eq!(finished(step), Err("no document".to_string()));
}

#[test]
fn busy_photoshop_leads_to_selection_capture_and_retries() {
    let (state, _) = start_font_apply("Arial");
    let (state, step) = font_apply_ran(state, Err(BUSY.into()), true);
    assert!(matches!(step, ApplyStep::CaptureSelection));
    let capture = TextSelectionCapture {
        selected_text: "中".into(),
        absolute_prefix: "文中".into(),
    };
    let (state, step) = font_apply_captured(state, Ok(Some(capture)));
    let range_jsx = make_apply_range_jsx("Arial", "中", "文中");
    assert_eq!(run_jsx(&step), (0, range_jsx.clone()));
    let (state, step) = font_apply_ran(state, Err(BUSY.into()), true);
    assert_eq!(run_jsx(&step), (10, range_jsx));
    let (_, step) = font_apply_ran(state, Err(BUSY.into()), false);
    assert_eq!(
        finished(step),
        Err(format!(
            "Photoshop remained busy after leaving text editing: {BUSY}; first error: {BUSY}"
        ))
    );
}

#[test]
fn nothing_captured_retries_the_whole_layer_script() {
    let (state, _) = start_font_apply("Arial");
    let (state, _) = font_apply_ran(state, Err(BUSY.into()), true);
    let (state, step) = font_apply_captured(state, Ok(None));
    assert_eq!(run_jsx(&step), (0, make_apply_jsx("Arial")));
    let (_, step) = font_apply_ran(state, Ok("0".into()), true);
    assert_eq!(finished(step), Ok("0".to_string()));
}

#[test]
fn capture_errors_are_final() {
    let (state, _) = start_font_apply("Arial");
    let (state, _) = font_apply_ran(state, Err(BUSY.into()), true);
    let (_, step) = font_apply_captured(state, Err("focus failed".into()));
    assert_eq!(finished(step), Err("focus failed".to_string()));
}

#[test]
fn retry_with_a_non_busy_error_quotes_both_errors() {
    let (state, _) = start_font_apply("Arial");
    let (state, _) = font_apply_ran(state, Err(BUSY.into()), true);
    let (state, _) = font_apply_captured(state, Ok(None));
    let (_, step) = font_apply_ran(state, Err("other".into()), true);
    assert_eq!(
        finished(step),
        Err(format!("Photoshop remained busy after leaving text editing: other; first error: {BUSY}"))
    );
}

#[test]
fn composite_apply_retries_twice_after_leaving_text_editing() {
    let (state, step) = start_composite_apply("composite script".to_string());
    let (delay, jsx) = run_jsx(&step);
    assert_eq!(delay, 0);
    assert_eq!(jsx, "composite script");
    let (state, step) = composite_apply_ran(state, Err(BUSY.into()));
    assert!(matches!(step, ApplyStep::ExitTextEditing));
    let (state, step) = composite_apply_exited(state, Ok(()));
    assert_eq!(run_jsx(&step), (20, jsx.clone()));
    let (state, step) = composite_apply_ran(state, Err(BUSY.into()));
    assert_eq!(run_jsx(&step), (50, jsx));
    let (state, step) = composite_apply_ran(state, Err(BUSY.into()));
    assert!(matches!(state, CompositeApply::Done));
    assert_eq!(
        finished(step),
        Err("Photoshop remained busy after leaving text editing".to_string())
    );
}

#[test]
fn composite_apply_stops_on_success_or_other_errors() {
    let (state, _) = start_composite_apply("s".to_string());
    let (_, step) = composite_apply_ran(state, Ok("0".into()));
    assert_eq!(finished(step), Ok("0".to_string()));
    let (state, _) = start_composite_apply("s".to_string());
    let (state, _) = composite_apply_ran(state, Err(BUSY.into()));
    let (_, step) = composite_apply_exited(state, Err("no focus".into()));
    assert_eq!(finished(step), Err("no focus".to_string()));
}

fn win_copy(step: &WinCaptureStep) -> (bool, u64) {
    match step {
        WinCaptureStep::Copy { select_to_start, wait_ms } => (*select_to_start, *wait_ms),
        other => panic!("expected a copy, got {other:?}"),
    }
}

#[test]
fn windows_capture_copies_selection_then_prefix() {
    let (state, step) = win_capture_start();
    assert!(matches!(step, WinCaptureStep::Focus));
    let (state, step) = win_capture_next(state, WinCaptureEvent::Focused(Ok(())));
    assert!(matches!(step, WinCaptureStep::Backup));
    let (state, step) = win_capture_next(state, WinCaptureEvent::BackedUp(true));
    assert_eq!(win_copy(&step), (false, 20));
    let (state, step) = win_capture_next(state, WinCaptureEvent::Copied(false));
    assert_eq!(win_copy(&step), (false, 80));
    let (state, step) = win_capture_next(state, WinCaptureEvent::Copied(true));
    assert!(matches!(step, WinCaptureStep::Read));
    let (state, step) = win_capture_next(state, WinCaptureEvent::Read(Some("中".into())));
    assert_eq!(win_copy(&step), (true, 80));
    let (state, step) = win_capture_next(state, WinCaptureEvent::Copied(false));
    assert_eq!(win_copy(&step), (true, 80));
    let (state, step) = win_capture_next(state, WinCaptureEvent::Copied(true));
    assert!(matches!(step, WinCaptureStep::Read));
    let (state, step) = win_capture_next(state, WinCaptureEvent::Read(Some("文中".into())));
    assert!(matches!(state, WinCapture::Done));
    match step {
        WinCaptureStep::Finish(Some(c)) => {
            assert_eq!(c.selected_text, "中");
            assert_eq!(c.absolute_prefix, "文中");
        }
        other => panic!("expected a capture, got {other:?}"),
    }
}

#[test]
fn windows_capture_gives_up_without_backup_copy_or_text() {
    let (state, _) = win_capture_start();
    let (state, step) = win_capture_next(state, WinCaptureEvent::Focused(Err("no view".into())));
    assert!(matches!(state, WinCapture::Done));
    assert!(matches!(step, WinCaptureStep::Fail(ref e) if e == "no view"));

    let (state, _) = win_capture_start();
    let (state, _) = win_capture_next(state, WinCaptureEvent::Focused(Ok(())));
    let (_, step) = win_capture_next(state, WinCaptureEvent::BackedUp(false));
    assert!(matches!(step, WinCaptureStep::Finish(None)));

    let (state, _) = win_capture_start();
    let (state, _) = win_capture_next(state, WinCaptureEvent::Focused(Ok(())));
    let (state, _) = win_capture_next(state, WinCaptureEvent::BackedUp(true));
    let (state, _) = win_capture_next(state, WinCaptureEvent::Copied(false));
    let (_, step) = win_capture_next(state, WinCaptureEvent::Copied(false));
    assert!(matches!(step, WinCaptureStep::Finish(None)));

    let (state, _) = win_capture_start();
    let (state, _) = win_capture_next(state, WinCaptureEvent::Focused(Ok(())));
    let (state, _) = win_capture_next(state, WinCaptureEvent::BackedUp(true));
    let (state, _) = win_capture_next(state, WinCaptureEvent::Copied(true));
    let (_, step) = win_capture_next(state, WinCaptureEvent::Read(Some(String::new())));
    assert!(matches!(step, WinCaptureStep::Finish(None)));
}

fn mac_copy(step: &MacCaptureStep) -> bool {
    match step {
        MacCaptureStep::Copy { select_to_start } => *select_to_start,
        other => panic!("expected a copy, got {other:?}"),
    }
}

#[test]
fn mac_capture_reads_selection_and_prefix() {
    let (state, step) = mac_capture_start();
    assert!(!mac_copy(&step));
    let (state, step) = mac_capture_next(state, ClipboardCopy::TimedOut);
    assert!(!mac_copy(&step));
    let (state, step) = mac_capture_next(state, ClipboardCopy::Text("中".into()));
    assert!(mac_copy(&step));
    let (state, step) = mac_capture_next(state, ClipboardCopy::Text("文中".into()));
    assert!(matches!(state, MacCapture::Done));
    match step {
        MacCaptureStep::Finish { commit, result: Ok(Some(c)) } => {
            assert!(commit);
            assert_eq!(c.selected_text, "中");
            assert_eq!(c.absolute_prefix, "文中");
        }
        other => panic!("expected a capture, got {other:?}"),
    }
}

#[test]
fn mac_capture_outcomes_without_text() {
    let (state, _) = mac_capture_start();
    let (_, step) = mac_capture_next(state, ClipboardCopy::NonText);
    assert!(matches!(step, MacCaptureStep::Finish { commit: false, result: Ok(None) }));

    let (state, _) = mac_capture_start();
    let (state, _) = mac_capture_next(state, ClipboardCopy::TimedOut);
    let (_, step) = mac_capture_next(state, ClipboardCopy::TimedOut);
    assert!(matches!(step, MacCaptureStep::Finish { commit: true, result: Ok(None) }));

    // Two timeouts on the prefix mean the selection starts the text.
    let (state, _) = mac_capture_start();
    let (state, _) = mac_capture_next(state, ClipboardCopy::Text("A".into()));
    let (state, _) = mac_capture_next(state, ClipboardCopy::TimedOut);
    let (_, step) = mac_capture_next(state, ClipboardCopy::TimedOut);
    match step {
        MacCaptureStep::Finish { commit: true, result: Ok(Some(c)) } => {
            assert_eq!(c.selected_text, "A");
            assert_eq!(c.absolute_prefix, "");
        }
        other => panic!("expected an empty prefix, got {other:?}"),
    }

    let (state, _) = mac_capture_start();
    let (state, _) = mac_capture_next(state, ClipboardCopy::Text("A".into()));
    let (_, step) = mac_capture_next(state, ClipboardCopy::NonText);
    match step {
        MacCaptureStep::Finish { commit: true, result: Err(e) } => {
            assert_eq!(e, "未能从 Photoshop 复制选区前缀，已取消字体修改。请重试。");
        }
        other => panic!("expected an error, got {other:?}"),
    }
}

#[test]
fn mac_exit_and_copy_retry_rules() {
    assert!(!mac_exit_needs_commit(&ClipboardCopy::NonText));
    assert!(mac_exit_needs_commit(&ClipboardCopy::TimedOut));
    assert!(mac_exit_needs_commit(&ClipboardCopy::Text("x".into())));
    match copy_retry_start("selection", 2) {
        CopyRetryStep::Copy { label } => assert_eq!(label, "selection-1"),
        other => panic!("{other:?}"),
    }
    assert!(matches!(copy_retry_start("x", 0), CopyRetryStep::Done(Ok(ClipboardCopy::TimedOut))));
    match copy_retry_next("selection", 1, 2, Ok(ClipboardCopy::TimedOut)) {
        CopyRetryStep::Copy { label } => assert_eq!(label, "selection-2"),
        other => panic!("{other:?}"),
    }
    assert!(matches!(
        copy_retry_next("selection", 2, 2, Ok(ClipboardCopy::TimedOut)),
        CopyRetryStep::Done(Ok(ClipboardCopy::TimedOut))
    ));
    assert!(matches!(
        copy_retry_next("selection", 1, 2, Ok(ClipboardCopy::NonText)),
        CopyRetryStep::Done(Ok(ClipboardCopy::NonText))
    ));
    assert!(matches!(
        copy_retry_next("selection", 1, 2, Err("boom".into())),
        CopyRetryStep::Done(Err(ref e)) if e == "boom"
    ));
}

#[test]
fn sentinel_copy_waits_for_a_change_then_reads_text() {
    let sentinel = sentinel_text("prefix-1", 42, 1234567890123456789012);
    assert_eq!(sentinel, "fontick-clipboard-prefix-1-42-1234567890123456789012");
    let start = SentinelCopy { sentinel: sentinel.clone(), before: 5, reading: false };
    let (state, out) = sentinel_copy_next(start.clone(), 5, None, false);
    assert!(out.is_none() && !state.reading);
    let (_, out) = sentinel_copy_next(start.clone(), 5, None, true);
    assert!(matches!(out, Some(ClipboardCopy::TimedOut)));
    let (state, out) = sentinel_copy_next(start, 6, None, false);
    assert!(out.is_none() && state.reading);
    let (_, out) = sentinel_copy_next(state.clone(), 6, Some(sentinel.clone()), false);
    assert!(out.is_none());
    let (_, out) = sentinel_copy_next(state.clone(), 6, Some(sentinel), true);
    assert!(matches!(out, Some(ClipboardCopy::NonText)));
    let (_, out) = sentinel_copy_next(state, 6, Some("中".into()), false);
    assert!(matches!(out, Some(ClipboardCopy::Text(ref t)) if t == "中"));
    assert_eq!(sentinel_written(true), Ok(()));
    assert_eq!(sentinel_written(false), Err("无法写入剪贴板检测标记。".to_string()));
}

#[test]
fn focus_waits_for_the_text_view() {
    assert!(matches!(focus_next(true, true), FocusStep::Done));
    assert!(matches!(focus_next(false, false), FocusStep::Poll));
    assert!(matches!(
        focus_next(false, true),
        FocusStep::Fail(ref e) if e == "Photoshop text view did not receive focus"
    ));
    assert_eq!(focus_target(true), FocusTarget::Focused);
    assert_eq!(focus_target(false), FocusTarget::Main);
    assert!(window_belongs(9, 9, "PSViewC"));
    assert!(!window_belongs(8, 9, "PSViewC"));
    assert!(!window_belongs(9, 9, "Edit"));
}

#[test]
fn windows_key_inputs_press_in_order_and_release_in_reverse() {
    const VK_CONTROL: u16 = 0x11;
    const VK_SHIFT: u16 = 0x10;
    let inputs = key_inputs(&[VK_CONTROL, VK_SHIFT, VK_HOME]);
    assert_eq!(
        inputs,
        vec![
            KeyInput { key: VK_CONTROL, flags: 0x8 },
            KeyInput { key: VK_SHIFT, flags: 0x8 },
            KeyInput { key: VK_HOME, flags: 0x9 },
            KeyInput { key: VK_HOME, flags: 0xB },
            KeyInput { key: VK_SHIFT, flags: 0xA },
            KeyInput { key: VK_CONTROL, flags: 0xA },
        ]
    );
    assert!(key_inputs(&[]).is_empty());
}

#[test]
fn mac_chord_events_carry_the_modifier_flags() {
    const COMMAND: u16 = 0x37;
    const SHIFT: u16 = 0x38;
    const HOME: u16 = 0x73;
    const FLAG_COMMAND: u64 = 0x0010_0000;
    const FLAG_SHIFT: u64 = 0x0002_0000;
    let events = chord_events(&[(COMMAND, FLAG_COMMAND), (SHIFT, FLAG_SHIFT)], HOME);
    let both = FLAG_COMMAND | FLAG_SHIFT;
    assert_eq!(
        events,
        vec![
            KeyEvent { keycode: COMMAND, down: true, flags: FLAG_COMMAND },
            KeyEvent { keycode: SHIFT, down: true, flags: both },
            KeyEvent { keycode: HOME, down: true, flags: both },
            KeyEvent { keycode: HOME, down: false, flags: both },
            KeyEvent { keycode: SHIFT, down: false, flags: FLAG_COMMAND },
            KeyEvent { keycode: COMMAND, down: false, flags: 0 },
        ]
    );
}
