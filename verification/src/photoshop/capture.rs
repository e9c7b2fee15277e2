//! Reading the selected text out of Photoshop's text editor through the
//! clipboard, and leaving the editor. The application presses the keys,
//! watches the clipboard and waits; these functions decide, from what it
//! saw, what it does next and what the capture yields.
use crate::photoshop::windows::TextSelectionCapture;
use crate::text::{
    chars_eq, chars_of, decimal_digits, format_u128, format_u64, push_all, string_from_chars,
    string_of,
};
use vstd::prelude::*;

verus! {

/// The captured selection and text before it, as plain views.
pub open spec fn captured(c: TextSelectionCapture, selected: Seq<char>, prefix: Seq<char>) -> bool {
    c.selected_text@ == selected && c.absolute_prefix@ == prefix
}

// ---------------------------------------------------------------------------
// Windows: copies are detected by the clipboard's sequence number.
// ---------------------------------------------------------------------------

/// What the Windows client does next.
#[derive(Debug)]
pub enum WinCaptureStep {
    /// Focus Photoshop's text view (see `focus_next`); report the outcome.
    Focus,
    /// Back up the clipboard; report whether the backup worked.
    Backup,
    /// Optionally extend the selection to the start of the text (Ctrl+Shift+Home,
    /// then 20 ms), press Ctrl+C and wait up to `wait_ms` for the clipboard to
    /// change; report whether it changed.
    Copy { select_to_start: bool, wait_ms: u64 },
    /// Read the clipboard's text; report it, if any.
    Read,
    /// Press Escape, restore the clipboard (when it was backed up) and
    /// return this capture.
    Finish(Option<TextSelectionCapture>),
    /// Return this error at once, without pressing any key.
    Fail(String),
}

/// Where a Windows capture stands.
#[derive(Debug)]
pub enum WinCapture {
    /// Waiting for the text view to take the focus.
    Focusing,
    /// Waiting for the clipboard backup.
    BackingUp,
    /// Copying the selection; `attempt` is 1 or 2.
    CopyingSelection { attempt: u8 },
    /// Reading the copied selection.
    ReadingSelection,
    /// Copying the text from the start up to the selection's end; `attempt` is 1 or 2.
    CopyingPrefix { selected: String, attempt: u8 },
    /// Reading that text.
    ReadingPrefix { selected: String },
    /// Finished.
    Done,
}

/// What the Windows client observed.
#[derive(Debug)]
pub enum WinCaptureEvent {
    /// The text view took the focus, or why not.
    Focused(Result<(), String>),
    /// The clipboard backup worked (or not).
    BackedUp(bool),
    /// The clipboard changed after Ctrl+C (or not).
    Copied(bool),
    /// The clipboard's text, if it could be read.
    Read(Option<String>),
}

/// The step finishes with no capture.
pub open spec fn win_finishes_none(step: WinCaptureStep) -> bool {
    step matches WinCaptureStep::Finish(None)
}

/// The step copies, as described.
pub open spec fn win_copies(step: WinCaptureStep, select_to_start: bool, wait_ms: u64) -> bool {
    step matches WinCaptureStep::Copy { select_to_start: s, wait_ms: w } && s == select_to_start
        && w == wait_ms
}

/// The event fits the state: a backup result while backing up, a copy result
/// while copying, a read result while reading.
pub open spec fn win_event_fits(state: WinCapture, event: WinCaptureEvent) -> bool {
    match state {
        WinCapture::Focusing => event is Focused,
        WinCapture::BackingUp => event is BackedUp,
        WinCapture::CopyingSelection { attempt } => event is Copied && 1 <= attempt <= 2,
        WinCapture::CopyingPrefix { attempt, .. } => event is Copied && 1 <= attempt <= 2,
        WinCapture::ReadingSelection => event is Read,
        WinCapture::ReadingPrefix { .. } => event is Read,
        WinCapture::Done => false,
    }
}

/// How many more copies a Windows capture can ask for from this state.
pub open spec fn win_copies_left(state: WinCapture) -> int {
    match state {
        WinCapture::Focusing => 4,
        WinCapture::BackingUp => 4,
        WinCapture::CopyingSelection { attempt } => 4 - attempt,
        WinCapture::ReadingSelection => 2,
        WinCapture::CopyingPrefix { attempt, .. } => 2 - attempt,
        WinCapture::ReadingPrefix { .. } => 0,
        WinCapture::Done => 0,
    }
}

/// The first step of a Windows capture: focus the text view.
pub fn win_capture_start() -> (r: (WinCapture, WinCaptureStep))
    ensures
        r.0 is Focusing,
        r.1 is Focus,
{
    (WinCapture::Focusing, WinCaptureStep::Focus)
}

/// The next step of a Windows capture. A focus failure is returned as the
/// capture's error before any key is pressed. Without a clipboard backup
/// nothing is captured. The selection is copied with a 20 ms wait and, if the clipboard
/// did not change, once more with 80 ms; the text from the start is copied
/// after Ctrl+Shift+Home with 80 ms, twice at most, each time after
/// Ctrl+Shift+Home. A copy that never shows, or a clipboard without text or
/// with empty text, ends without a capture; two non-empty texts make the
/// capture.
pub fn win_capture_next(state: WinCapture, event: WinCaptureEvent) -> (r: (WinCapture, WinCaptureStep))
    requires
        win_event_fits(state, event),
    ensures
        0 <= win_copies_left(r.0) <= win_copies_left(state),
        r.1 is Copy ==> win_copies_left(r.0) < win_copies_left(state),
        match (state, event) {
            (WinCapture::Focusing, WinCaptureEvent::Focused(f)) => match f {
                Err(e) => r.0 is Done && (r.1 matches WinCaptureStep::Fail(x) && x@ == e@),
                Ok(()) => r.0 is BackingUp && r.1 is Backup,
            },
            (WinCapture::BackingUp, WinCaptureEvent::BackedUp(ok)) => if ok {
                r.0 matches WinCapture::CopyingSelection { attempt } && attempt == 1 && win_copies(
                    r.1,
                    false,
                    20,
                )
            } else {
                r.0 is Done && win_finishes_none(r.1)
            },
            (WinCapture::CopyingSelection { attempt }, WinCaptureEvent::Copied(changed)) => if changed {
                r.0 is ReadingSelection && r.1 is Read
            } else if attempt == 1 {
                r.0 matches WinCapture::CopyingSelection { attempt: a } && a == 2 && win_copies(
                    r.1,
                    false,
                    80,
                )
            } else {
                r.0 is Done && win_finishes_none(r.1)
            },
            (WinCapture::ReadingSelection, WinCaptureEvent::Read(text)) => match text {
                Some(t) => if t@.len() > 0 {
                    &&& r.0 matches WinCapture::CopyingPrefix { selected, attempt } && selected@ == t@
                        && attempt == 1
                    &&& win_copies(r.1, true, 80)
                } else {
                    r.0 is Done && win_finishes_none(r.1)
                },
                None => r.0 is Done && win_finishes_none(r.1),
            },
            (WinCapture::CopyingPrefix { selected, attempt }, WinCaptureEvent::Copied(changed)) => if changed {
                r.0 matches WinCapture::ReadingPrefix { selected: s } && s@ == selected@ && r.1 is Read
            } else if attempt == 1 {
                &&& r.0 matches WinCapture::CopyingPrefix { selected: s, attempt: a } && s@ == selected@
                    && a == 2
                &&& win_copies(r.1, true, 80)
            } else {
                r.0 is Done && win_finishes_none(r.1)
            },
            (WinCapture::ReadingPrefix { selected }, WinCaptureEvent::Read(text)) => {
                &&& r.0 is Done
                &&& match text {
                    Some(p) => if p@.len() > 0 {
                        r.1 matches WinCaptureStep::Finish(Some(c)) && captured(c, selected@, p@)
                    } else {
                        win_finishes_none(r.1)
                    },
                    None => win_finishes_none(r.1),
                }
            },
            _ => true,
        },
{
    match state {
        WinCapture::Focusing => match event {
            WinCaptureEvent::Focused(Err(e)) => (WinCapture::Done, WinCaptureStep::Fail(e)),
            _ => (WinCapture::BackingUp, WinCaptureStep::Backup),
        },
        WinCapture::BackingUp => match event {
            WinCaptureEvent::BackedUp(true) => (
                WinCapture::CopyingSelection { attempt: 1 },
                WinCaptureStep::Copy { select_to_start: false, wait_ms: 20 },
            ),
            _ => (WinCapture::Done, WinCaptureStep::Finish(None)),
        },
        WinCapture::CopyingSelection { attempt } => match event {
            WinCaptureEvent::Copied(true) => (WinCapture::ReadingSelection, WinCaptureStep::Read),
            _ => {
                if attempt == 1 {
                    (
                        WinCapture::CopyingSelection { attempt: 2 },
                        WinCaptureStep::Copy { select_to_start: false, wait_ms: 80 },
                    )
                } else {
                    (WinCapture::Done, WinCaptureStep::Finish(None))
                }
            },
        },
        WinCapture::ReadingSelection => match event {
            WinCaptureEvent::Read(Some(t)) => {
                if !t.as_str().is_empty() {
                    (
                        WinCapture::CopyingPrefix { selected: t, attempt: 1 },
                        WinCaptureStep::Copy { select_to_start: true, wait_ms: 80 },
                    )
                } else {
                    (WinCapture::Done, WinCaptureStep::Finish(None))
                }
            },
            _ => (WinCapture::Done, WinCaptureStep::Finish(None)),
        },
        WinCapture::CopyingPrefix { selected, attempt } => match event {
            WinCaptureEvent::Copied(true) => (
                WinCapture::ReadingPrefix { selected },
                WinCaptureStep::Read,
            ),
            _ => {
                if attempt == 1 {
                    (
                        WinCapture::CopyingPrefix { selected, attempt: 2 },
                        WinCaptureStep::Copy { select_to_start: true, wait_ms: 80 },
                    )
                } else {
                    (WinCapture::Done, WinCaptureStep::Finish(None))
                }
            },
        },
        WinCapture::ReadingPrefix { selected } => match event {
            WinCaptureEvent::Read(Some(p)) => {
                if !p.as_str().is_empty() {
                    (
                        WinCapture::Done,
                        WinCaptureStep::Finish(
                            Some(TextSelectionCapture { selected_text: selected, absolute_prefix: p }),
                        ),
                    )
                } else {
                    (WinCapture::Done, WinCaptureStep::Finish(None))
                }
            },
            _ => (WinCapture::Done, WinCaptureStep::Finish(None)),
        },
        WinCapture::Done => (WinCapture::Done, WinCaptureStep::Finish(None)),
    }
}

// ---------------------------------------------------------------------------
// macOS: a copy is detected by a sentinel string placed on the pasteboard.
// ---------------------------------------------------------------------------

/// What one copy on macOS produced.
#[derive(Debug)]
pub enum ClipboardCopy {
    /// The pasteboard changed and holds this text (not the sentinel).
    Text(String),
    /// The pasteboard changed but holds no text.
    NonText,
    /// The pasteboard did not change in time.
    TimedOut,
}

/// The label of the copy a macOS capture makes in this state: the
/// selection's copies are `selection-1` and `selection-2`, those of the text
/// before it `prefix-1` and `prefix-2`.
pub fn mac_copy_label(state: &MacCapture) -> (r: String)
    requires
        mac_awaits_copy(*state),
    ensures
        match *state {
            MacCapture::CopyingSelection { attempt } => r@ == attempt_label("selection"@, attempt as nat),
            MacCapture::CopyingPrefix { attempt, .. } => r@ == attempt_label("prefix"@, attempt as nat),
            MacCapture::Done => true,
        },
{
    match state {
        MacCapture::CopyingSelection { attempt } => label_for("selection", *attempt as usize),
        MacCapture::CopyingPrefix { attempt, .. } => label_for("prefix", *attempt as usize),
        MacCapture::Done => String::new(),
    }
}

/// The message when the text before the selection cannot be copied.
pub open spec fn prefix_copy_failed_message() -> Seq<char> {
    "未能从 Photoshop 复制选区前缀，已取消字体修改。请重试。"@
}

/// What the macOS client does next.
#[derive(Debug)]
pub enum MacCaptureStep {
    /// Optionally extend the selection to the start (Command+Shift+Home, then
    /// 20 ms); then copy with the sentinel and report the outcome.
    Copy { select_to_start: bool },
    /// Restore the pasteboard, commit the text edit if `commit` (Command+Return),
    /// and return `result`.
    Finish { commit: bool, result: Result<Option<TextSelectionCapture>, String> },
}

/// Where a macOS capture stands.
#[derive(Debug)]
pub enum MacCapture {
    /// Copying the selection; `attempt` is 1 or 2.
    CopyingSelection { attempt: u8 },
    /// Copying the text from the start to the selection; `attempt` is 1 or 2.
    CopyingPrefix { selected: String, attempt: u8 },
    /// Finished.
    Done,
}

/// The state waits for a copy's outcome.
pub open spec fn mac_awaits_copy(state: MacCapture) -> bool {
    match state {
        MacCapture::CopyingSelection { attempt } => 1 <= attempt <= 2,
        MacCapture::CopyingPrefix { attempt, .. } => 1 <= attempt <= 2,
        MacCapture::Done => false,
    }
}

/// The step finishes with `commit` and no capture.
pub open spec fn mac_finishes_none(step: MacCaptureStep, commit: bool) -> bool {
    step matches MacCaptureStep::Finish { commit: c, result: Ok(None) } && c == commit
}

/// How many more copies a macOS capture can ask for from this state.
pub open spec fn mac_copies_left(state: MacCapture) -> int {
    match state {
        MacCapture::CopyingSelection { attempt } => 4 - attempt,
        MacCapture::CopyingPrefix { attempt, .. } => 2 - attempt,
        MacCapture::Done => 0,
    }
}

/// The first step of a macOS capture (after the pasteboard backup and a
/// 20 ms pause): copy the selection.
pub fn mac_capture_start() -> (r: (MacCapture, MacCaptureStep))
    ensures
        r.0 matches MacCapture::CopyingSelection { attempt } && attempt == 1,
        r.1 matches MacCaptureStep::Copy { select_to_start } && !select_to_start,
{
    (MacCapture::CopyingSelection { attempt: 1 }, MacCaptureStep::Copy { select_to_start: false })
}

/// The next step of a macOS capture. Each copy is tried twice at most, the
/// second time only after a timeout. For the selection: non-empty text goes
/// on to the text before it (after Command+Shift+Home); a pasteboard without
/// text ends without a capture and without committing; a timeout or empty
/// text ends without a capture, committing the edit. For the text before
/// the selection: text, or a timeout (an empty prefix), makes the capture; a
/// pasteboard without text is an error; either way the edit is committed.
pub fn mac_capture_next(state: MacCapture, copy: ClipboardCopy) -> (r: (MacCapture, MacCaptureStep))
    requires
        mac_awaits_copy(state),
    ensures
        0 <= mac_copies_left(r.0) <= mac_copies_left(state),
        r.1 is Copy ==> mac_copies_left(r.0) < mac_copies_left(state),
        match state {
            MacCapture::CopyingSelection { attempt } => match copy {
                ClipboardCopy::TimedOut => if attempt == 1 {
                    &&& r.0 matches MacCapture::CopyingSelection { attempt: a } && a == 2
                    &&& r.1 matches MacCaptureStep::Copy { select_to_start } && !select_to_start
                } else {
                    r.0 is Done && mac_finishes_none(r.1, true)
                },
                ClipboardCopy::NonText => r.0 is Done && mac_finishes_none(r.1, false),
                ClipboardCopy::Text(t) => if t@.len() > 0 {
                    &&& r.0 matches MacCapture::CopyingPrefix { selected, attempt: a } && selected@
                        == t@ && a == 1
                    &&& r.1 matches MacCaptureStep::Copy { select_to_start } && select_to_start
                } else {
                    r.0 is Done && mac_finishes_none(r.1, true)
                },
            },
            MacCapture::CopyingPrefix { selected, attempt } => match copy {
                ClipboardCopy::TimedOut => if attempt == 1 {
                    &&& r.0 matches MacCapture::CopyingPrefix { selected: s, attempt: a } && s@
                        == selected@ && a == 2
                    &&& r.1 matches MacCaptureStep::Copy { select_to_start } && !select_to_start
                } else {
                    &&& r.0 is Done
                    &&& r.1 matches MacCaptureStep::Finish { commit, result: Ok(Some(c)) } && commit
                        && captured(c, selected@, Seq::empty())
                },
                ClipboardCopy::NonText => {
                    &&& r.0 is Done
                    &&& r.1 matches MacCaptureStep::Finish { commit, result: Err(e) } && commit && e@
                        == prefix_copy_failed_message()
                },
                ClipboardCopy::Text(p) => {
                    &&& r.0 is Done
                    &&& r.1 matches MacCaptureStep::Finish { commit, result: Ok(Some(c)) } && commit
                        && captured(c, selected@, p@)
                },
            },
            MacCapture::Done => true,
        },
{
    match state {
        MacCapture::CopyingSelection { attempt } => match copy {
            ClipboardCopy::TimedOut => {
                if attempt == 1 {
                    (
                        MacCapture::CopyingSelection { attempt: 2 },
                        MacCaptureStep::Copy { select_to_start: false },
                    )
                } else {
                    (MacCapture::Done, MacCaptureStep::Finish { commit: true, result: Ok(None) })
                }
            },
            ClipboardCopy::NonText => (
                MacCapture::Done,
                MacCaptureStep::Finish { commit: false, result: Ok(None) },
            ),
            ClipboardCopy::Text(t) => {
                if !t.as_str().is_empty() {
                    (
                        MacCapture::CopyingPrefix { selected: t, attempt: 1 },
                        MacCaptureStep::Copy { select_to_start: true },
                    )
                } else {
                    (MacCapture::Done, MacCaptureStep::Finish { commit: true, result: Ok(None) })
                }
            },
        },
        MacCapture::CopyingPrefix { selected, attempt } => match copy {
            ClipboardCopy::TimedOut => {
                if attempt == 1 {
                    (
                        MacCapture::CopyingPrefix { selected, attempt: 2 },
                        MacCaptureStep::Copy { select_to_start: false },
                    )
                } else {
                    (
                        MacCapture::Done,
                        MacCaptureStep::Finish {
                            commit: true,
                            result: Ok(
                                Some(
                                    TextSelectionCapture {
                                        selected_text: selected,
                                        absolute_prefix: String::new(),
                                    },
                                ),
                            ),
                        },
                    )
                }
            },
            ClipboardCopy::NonText => (
                MacCapture::Done,
                MacCaptureStep::Finish {
                    commit: true,
                    result: Err(string_of("未能从 Photoshop 复制选区前缀，已取消字体修改。请重试。")),
                },
            ),
            ClipboardCopy::Text(p) => (
                MacCapture::Done,
                MacCaptureStep::Finish {
                    commit: true,
                    result: Ok(
                        Some(TextSelectionCapture { selected_text: selected, absolute_prefix: p }),
                    ),
                },
            ),
        },
        MacCapture::Done => (MacCapture::Done, MacCaptureStep::Finish { commit: false, result: Ok(None) }),
    }
}

/// Leaving text editing on macOS: after copying (twice at most, the second
/// time only after a timeout), a pasteboard without text means the editor is
/// not open; text or a timeout means the edit must be committed.
pub fn mac_exit_needs_commit(copy: &ClipboardCopy) -> (r: bool)
    ensures
        r == !(copy is NonText),
{
    match copy {
        ClipboardCopy::NonText => false,
        _ => true,
    }
}

// ---------------------------------------------------------------------------
// macOS: one copy with a sentinel, and retried copies
// ---------------------------------------------------------------------------

/// The message when the sentinel cannot be placed on the pasteboard.
pub open spec fn sentinel_refused_message() -> Seq<char> {
    "无法写入剪贴板检测标记。"@
}

/// Whether the sentinel was placed on the pasteboard: if not, the copy
/// fails with the refusal message.
pub fn sentinel_written(ok: bool) -> (r: Result<(), String>)
    ensures
        ok ==> r is Ok,
        !ok ==> (r matches Err(e) && e@ == sentinel_refused_message()),
{
    if ok {
        Ok(())
    } else {
        Err(string_of("无法写入剪贴板检测标记。"))
    }
}

/// The sentinel placed on the pasteboard before a copy:
/// `fontick-clipboard-{label}-{pid}-{nonce}`.
pub open spec fn sentinel_spec(label: Seq<char>, pid: u32, nonce: u128) -> Seq<char> {
    "fontick-clipboard-"@ + label + seq!['-'] + decimal_digits(pid as nat) + seq!['-']
        + decimal_digits(nonce as nat)
}

/// The sentinel text for a copy labelled `label`, by process `pid`, at
/// time `nonce` (nanoseconds since the Unix epoch).
pub fn sentinel_text(label: &str, pid: u32, nonce: u128) -> (r: String)
    ensures
        r@ == sentinel_spec(label@, pid, nonce),
{
    let mut out: Vec<char> = chars_of("fontick-clipboard-");
    push_all(&mut out, chars_of(label).as_slice());
    out.push('-');
    push_all(&mut out, format_u64(pid as u64).as_slice());
    out.push('-');
    push_all(&mut out, format_u128(nonce).as_slice());
    assert(out@ =~= sentinel_spec(label@, pid, nonce));
    string_from_chars(out.as_slice())
}

/// Where one sentinel copy stands: waiting for the pasteboard's change count
/// to move away from `before`, then reading its text.
#[derive(Debug, Clone)]
pub struct SentinelCopy {
    pub sentinel: String,
    pub before: u64,
    pub reading: bool,
}

/// The next step of a sentinel copy, given the pasteboard's change count,
/// its text (if any), and whether the current deadline has passed. While
/// waiting: an unchanged count gives `TimedOut` once the deadline has
/// passed and otherwise keeps polling; a changed count moves on to reading
/// (with a fresh deadline). While reading: text other than the sentinel is
/// the copy; otherwise `NonText` once the deadline has passed, else polling
/// goes on.
pub fn sentinel_copy_next(
    state: SentinelCopy,
    change_count: u64,
    text: Option<String>,
    deadline_passed: bool,
) -> (r: (SentinelCopy, Option<ClipboardCopy>))
    ensures
        r.0.sentinel@ == state.sentinel@,
        r.0.before == state.before,
        !state.reading ==> if change_count == state.before {
            !r.0.reading && if deadline_passed {
                r.1 matches Some(ClipboardCopy::TimedOut)
            } else {
                r.1 is None
            }
        } else {
            r.0.reading && r.1 is None
        },
        state.reading ==> r.0.reading && match text {
            Some(v) => if v@ != state.sentinel@ {
                r.1 matches Some(ClipboardCopy::Text(t)) && t@ == v@
            } else if deadline_passed {
                r.1 matches Some(ClipboardCopy::NonText)
            } else {
                r.1 is None
            },
            None => if deadline_passed {
                r.1 matches Some(ClipboardCopy::NonText)
            } else {
                r.1 is None
            },
        },
{
    if !state.reading {
        if change_count == state.before {
            if deadline_passed {
                return (state, Some(ClipboardCopy::TimedOut));
            }
            return (state, None);
        }
        return (SentinelCopy { sentinel: state.sentinel, before: state.before, reading: true }, None);
    }
    let found = match text {
        Some(v) => {
            if !chars_eq(chars_of(v.as_str()).as_slice(), chars_of(state.sentinel.as_str()).as_slice()) {
                Some(v)
            } else {
                None
            }
        },
        None => None,
    };
    match found {
        Some(v) => (state, Some(ClipboardCopy::Text(v))),
        None => {
            if deadline_passed {
                (state, Some(ClipboardCopy::NonText))
            } else {
                (state, None)
            }
        },
    }
}

/// The label of the `k`-th attempt (from 1) of a copy labelled `label`.
pub open spec fn attempt_label(label: Seq<char>, k: nat) -> Seq<char> {
    label + seq!['-'] + decimal_digits(k)
}

/// What a retried copy does next.
#[derive(Debug)]
pub enum CopyRetryStep {
    /// Make a sentinel copy with this label.
    Copy { label: String },
    /// Stop with this outcome.
    Done(Result<ClipboardCopy, String>),
}

fn label_for(label: &str, k: usize) -> (r: String)
    ensures
        r@ == attempt_label(label@, k as nat),
{
    let mut out: Vec<char> = chars_of(label);
    out.push('-');
    push_all(&mut out, format_u64(k as u64).as_slice());
    assert(out@ =~= attempt_label(label@, k as nat));
    string_from_chars(out.as_slice())
}

/// The first step of a copy tried up to `attempts` times: with no attempts
/// allowed the outcome is `TimedOut`; otherwise the copy labelled
/// `{label}-1`.
pub fn copy_retry_start(label: &str, attempts: usize) -> (r: CopyRetryStep)
    ensures
        attempts == 0 ==> r matches CopyRetryStep::Done(Ok(ClipboardCopy::TimedOut)),
        attempts > 0 ==> (r matches CopyRetryStep::Copy { label: l } && l@ == attempt_label(
            label@,
            1,
        )),
{
    if attempts == 0 {
        return CopyRetryStep::Done(Ok(ClipboardCopy::TimedOut));
    }
    CopyRetryStep::Copy { label: label_for(label, 1) }
}

/// The next step after the `made`-th attempt gave `result`: an error is
/// passed on; anything but a timeout is the outcome; a timeout leads to the
/// copy labelled `{label}-{made + 1}` while attempts remain, else the
/// outcome is `TimedOut`.
pub fn copy_retry_next(label: &str, made: usize, attempts: usize, result: Result<ClipboardCopy, String>) -> (r:
    CopyRetryStep)
    requires
        1 <= made <= attempts,
    ensures
        match result {
            Err(e) => r matches CopyRetryStep::Done(Err(x)) && x@ == e@,
            Ok(ClipboardCopy::TimedOut) => if made < attempts {
                r matches CopyRetryStep::Copy { label: l } && l@ == attempt_label(label@, (made + 1) as nat)
            } else {
                r matches CopyRetryStep::Done(Ok(ClipboardCopy::TimedOut))
            },
            Ok(ClipboardCopy::NonText) => r matches CopyRetryStep::Done(Ok(ClipboardCopy::NonText)),
            Ok(ClipboardCopy::Text(t)) => r matches CopyRetryStep::Done(Ok(ClipboardCopy::Text(x)))
                && x@ == t@,
        },
{
    match result {
        Err(e) => CopyRetryStep::Done(Err(e)),
        Ok(ClipboardCopy::TimedOut) => {
            if made < attempts {
                CopyRetryStep::Copy { label: label_for(label, made + 1) }
            } else {
                CopyRetryStep::Done(Ok(ClipboardCopy::TimedOut))
            }
        },
        Ok(c) => CopyRetryStep::Done(Ok(c)),
    }
}

// ---------------------------------------------------------------------------
// Windows: focusing the text view
// ---------------------------------------------------------------------------

/// Which window gets the focus.
#[derive(Debug, Clone, Copy, PartialEq, Eq, Structural)]
pub enum FocusTarget {
    /// The window that has the focus in Photoshop's GUI thread.
    Focused,
    /// Photoshop's main window.
    Main,
}

/// The window to focus: the focused window when it is Photoshop's text
/// view (class `PSViewC` of Photoshop's process), else the main window.
pub fn focus_target(focused_belongs: bool) -> (r: FocusTarget)
    ensures
        focused_belongs ==> r == FocusTarget::Focused,
        !focused_belongs ==> r == FocusTarget::Main,
{
    if focused_belongs {
        FocusTarget::Focused
    } else {
        FocusTarget::Main
    }
}

/// What focusing does next.
#[derive(Debug)]
pub enum FocusStep {
    /// The text view has the focus.
    Done,
    /// Focusing failed with this message.
    Fail(String),
    /// Wait 2 ms and look again.
    Poll,
}

/// The message when the text view does not take the focus in time.
pub open spec fn focus_failed_message() -> Seq<char> {
    "Photoshop text view did not receive focus"@
}

/// The next step while waiting for the text view to take the focus (the
/// application's deadline is 50 ms after focusing): done once the focused
/// window is Photoshop's text view; a failure once the deadline has passed;
/// else another look.
pub fn focus_next(belongs: bool, deadline_passed: bool) -> (r: FocusStep)
    ensures
        belongs ==> r is Done,
        !belongs && deadline_passed ==> (r matches FocusStep::Fail(e) && e@ == focus_failed_message()),
        !belongs && !deadline_passed ==> r is Poll,
{
    if belongs {
        FocusStep::Done
    } else if deadline_passed {
        FocusStep::Fail(string_of("Photoshop text view did not receive focus"))
    } else {
        FocusStep::Poll
    }
}

/// Whether a window is Photoshop's text view: it belongs to Photoshop's
/// process and its class name is `PSViewC` (a null window has no process
/// and is passed as such by the application).
pub fn window_belongs(window_pid: u32, photoshop_pid: u32, class_name: &str) -> (r: bool)
    ensures
        r == (window_pid == photoshop_pid && class_name@ == "PSViewC"@),
{
    if window_pid != photoshop_pid {
        return false;
    }
    let expected = chars_of("PSViewC");
    chars_eq(chars_of(class_name).as_slice(), expected.as_slice())
}

} // verus!
