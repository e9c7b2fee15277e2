//! How applying a font reacts when Photoshop is busy (Windows, where a
//! script sent while the user edits text is rejected by COM). The
//! application runs the steps: it sends scripts, leaves text editing and
//! waits; these functions decide, from what came back, what to do next.
use crate::photoshop::windows::{com_busy, is_com_busy_error, TextSelectionCapture};
use crate::photoshop::{apply_jsx_spec, apply_range_jsx_spec, make_apply_jsx, make_apply_range_jsx};
use crate::text::{concat_str, string_of};
use vstd::prelude::*;

verus! {

/// What the application does next.
#[derive(Debug)]
pub enum ApplyStep {
    /// Wait `delay_ms` milliseconds (none when 0), then run `jsx` in Photoshop.
    Run { delay_ms: u64, jsx: String },
    /// Leave Photoshop's text editing, capturing the selected text.
    CaptureSelection,
    /// Leave Photoshop's text editing.
    ExitTextEditing,
    /// Stop with this result.
    Finish(Result<String, String>),
}

/// The step runs `jsx` after `delay_ms` milliseconds.
pub open spec fn runs(step: ApplyStep, delay_ms: u64, jsx: Seq<char>) -> bool {
    step matches ApplyStep::Run { delay_ms: d, jsx: j } && d == delay_ms && j@ == jsx
}

/// The step stops with `Ok(out)`.
pub open spec fn finishes_ok(step: ApplyStep, out: Seq<char>) -> bool {
    step matches ApplyStep::Finish(Ok(o)) && o@ == out
}

/// The step stops with `Err(msg)`.
pub open spec fn finishes_err(step: ApplyStep, msg: Seq<char>) -> bool {
    step matches ApplyStep::Finish(Err(e)) && e@ == msg
}

/// Where applying a single font stands.
#[derive(Debug)]
pub enum FontApply {
    /// The whole-layer script was sent once.
    FirstAttempt { post_script_name: String },
    /// Photoshop was busy; the selection is being captured.
    Capturing { post_script_name: String, first_error: String },
    /// `jsx` is sent again until Photoshop takes it or time runs out.
    Retrying { jsx: String, first_error: String },
    /// Finished.
    Done,
}

/// The message when Photoshop stays busy after text editing was left.
pub open spec fn still_busy_message(error: Seq<char>, first_error: Seq<char>) -> Seq<char> {
    "Photoshop remained busy after leaving text editing: "@ + error + "; first error: "@ + first_error
}

/// Starts applying a font: the whole-layer script is sent first.
pub fn start_font_apply(post_script_name: &str) -> (r: (FontApply, ApplyStep))
    ensures
        r.0 matches FontApply::FirstAttempt { post_script_name: n } && n@ == post_script_name@,
        runs(r.1, 0, apply_jsx_spec(post_script_name@)),
{
    (
        FontApply::FirstAttempt { post_script_name: string_of(post_script_name) },
        ApplyStep::Run { delay_ms: 0, jsx: make_apply_jsx(post_script_name) },
    )
}

/// The next step after a script's result. After the first attempt: its
/// success or a non-busy error is final, a busy Photoshop leads to capturing
/// the selection. While retrying: success is final; a busy Photoshop with
/// time left leads to the same script after 10 ms; anything else stops with
/// an error that quotes this and the first error.
pub fn font_apply_ran(state: FontApply, result: Result<String, String>, time_left: bool) -> (r: (
    FontApply,
    ApplyStep,
))
    requires
        state is FirstAttempt || state is Retrying,
    ensures
        match state {
            FontApply::FirstAttempt { post_script_name } => match result {
                Ok(out) => r.0 is Done && finishes_ok(r.1, out@),
                Err(e) => if com_busy(e@) {
                    &&& r.0 matches FontApply::Capturing { post_script_name: n, first_error: f }
                        && n@ == post_script_name@ && f@ == e@
                    &&& r.1 is CaptureSelection
                } else {
                    r.0 is Done && finishes_err(r.1, e@)
                },
            },
            FontApply::Retrying { jsx, first_error } => match result {
                Ok(out) => r.0 is Done && finishes_ok(r.1, out@),
                Err(e) => if com_busy(e@) && time_left {
                    &&& r.0 matches FontApply::Retrying { jsx: j, first_error: f } && j@ == jsx@
                        && f@ == first_error@
                    &&& runs(r.1, 10, jsx@)
                } else {
                    r.0 is Done && finishes_err(r.1, still_busy_message(e@, first_error@))
                },
            },
            _ => true,
        },
{
    match state {
        FontApply::FirstAttempt { post_script_name } => match result {
            Ok(out) => (FontApply::Done, ApplyStep::Finish(Ok(out))),
            Err(e) => {
                if is_com_busy_error(e.as_str()) {
                    (
                        FontApply::Capturing { post_script_name, first_error: e },
                        ApplyStep::CaptureSelection,
                    )
                } else {
                    (FontApply::Done, ApplyStep::Finish(Err(e)))
                }
            },
        },
        FontApply::Retrying { jsx, first_error } => match result {
            Ok(out) => (FontApply::Done, ApplyStep::Finish(Ok(out))),
            Err(e) => {
                if is_com_busy_error(e.as_str()) && time_left {
                    let again = jsx.clone();
                    (FontApply::Retrying { jsx, first_error }, ApplyStep::Run { delay_ms: 10, jsx: again })
                } else {
                    let mut msg = concat_str(
                        "Photoshop remained busy after leaving text editing: ",
                        e.as_str(),
                    );
                    msg.append("; first error: ");
                    msg.append(first_error.as_str());
                    (FontApply::Done, ApplyStep::Finish(Err(msg)))
                }
            },
        },
        _ => (FontApply::Done, ApplyStep::Finish(Err(String::new()))),
    }
}

/// The next step after the selection was captured: a capture error is
/// final; otherwise the script for the captured selection (or, when nothing
/// was captured, the whole-layer script) is sent at once and retried.
pub fn font_apply_captured(
    state: FontApply,
    capture: Result<Option<TextSelectionCapture>, String>,
) -> (r: (FontApply, ApplyStep))
    requires
        state is Capturing,
    ensures
        match state {
            FontApply::Capturing { post_script_name, first_error } => match capture {
                Err(e) => r.0 is Done && finishes_err(r.1, e@),
                Ok(sel) => {
                    let jsx = match sel {
                        Some(s) => apply_range_jsx_spec(
                            post_script_name@,
                            s.selected_text@,
                            s.absolute_prefix@,
                        ),
                        None => apply_jsx_spec(post_script_name@),
                    };
                    &&& r.0 matches FontApply::Retrying { jsx: j, first_error: f } && j@ == jsx
                        && f@ == first_error@
                    &&& runs(r.1, 0, jsx)
                },
            },
            _ => true,
        },
{
    match state {
        FontApply::Capturing { post_script_name, first_error } => match capture {
            Err(e) => (FontApply::Done, ApplyStep::Finish(Err(e))),
            Ok(sel) => {
                let jsx = match sel {
                    Some(s) => make_apply_range_jsx(
                        post_script_name.as_str(),
                        s.selected_text.as_str(),
                        s.absolute_prefix.as_str(),
                    ),
                    None => make_apply_jsx(post_script_name.as_str()),
                };
                let again = jsx.clone();
                (FontApply::Retrying { jsx, first_error }, ApplyStep::Run { delay_ms: 0, jsx: again })
            },
        },
        _ => (FontApply::Done, ApplyStep::Finish(Err(String::new()))),
    }
}

/// Where applying a composite font stands.
#[derive(Debug)]
pub enum CompositeApply {
    /// The script was sent once.
    FirstAttempt { jsx: String },
    /// Photoshop was busy; text editing is being left.
    Exiting { jsx: String },
    /// The script was sent again `attempt` times (1 or 2) after leaving text editing.
    Retrying { jsx: String, attempt: u8 },
    /// Finished.
    Done,
}

/// The states that wait for a script's result.
pub open spec fn composite_awaits_run(state: CompositeApply) -> bool {
    state is FirstAttempt || (state matches CompositeApply::Retrying { attempt, .. } && 1 <= attempt
        <= 2)
}

/// How many more times, at most, the script can be sent from this state.
pub open spec fn composite_runs_left(state: CompositeApply) -> int {
    match state {
        CompositeApply::FirstAttempt { .. } => 2,
        CompositeApply::Exiting { .. } => 2,
        CompositeApply::Retrying { attempt, .. } => 2 - attempt,
        CompositeApply::Done => 0,
    }
}

/// The step sends a script (and so uses up one attempt).
pub open spec fn is_run(step: ApplyStep) -> bool {
    step is Run
}

/// Starts applying a composite font: its script is sent at once.
pub fn start_composite_apply(jsx: String) -> (r: (CompositeApply, ApplyStep))
    ensures
        r.0 matches CompositeApply::FirstAttempt { jsx: j } && j@ == jsx@,
        runs(r.1, 0, jsx@),
{
    let again = jsx.clone();
    (CompositeApply::FirstAttempt { jsx }, ApplyStep::Run { delay_ms: 0, jsx: again })
}

/// The next step after the composite script's result. Success and non-busy
/// errors are final. A busy Photoshop after the first attempt leads to
/// leaving text editing; after the first retry, to a second one 50 ms
/// later; after the second retry, to the final busy error.
pub fn composite_apply_ran(state: CompositeApply, result: Result<String, String>) -> (r: (
    CompositeApply,
    ApplyStep,
))
    requires
        composite_awaits_run(state),
    ensures
        composite_runs_left(r.0) + (if is_run(r.1) { 1int } else { 0 }) <= composite_runs_left(state),
        match result {
            Ok(out) => r.0 is Done && finishes_ok(r.1, out@),
            Err(e) => if !com_busy(e@) {
                r.0 is Done && finishes_err(r.1, e@)
            } else {
                match state {
                    CompositeApply::FirstAttempt { jsx } => r.0 matches CompositeApply::Exiting { jsx: j }
                        && j@ == jsx@ && r.1 is ExitTextEditing,
                    CompositeApply::Retrying { jsx, attempt } => if attempt == 1 {
                        &&& r.0 matches CompositeApply::Retrying { jsx: j, attempt: a } && j@ == jsx@
                            && a == 2
                        &&& runs(r.1, 50, jsx@)
                    } else {
                        r.0 is Done && finishes_err(
                            r.1,
                            "Photoshop remained busy after leaving text editing"@,
                        )
                    },
                    _ => true,
                }
            },
        },
{
    match result {
        Ok(out) => (CompositeApply::Done, ApplyStep::Finish(Ok(out))),
        Err(e) => {
            if !is_com_busy_error(e.as_str()) {
                return (CompositeApply::Done, ApplyStep::Finish(Err(e)));
            }
            match state {
                CompositeApply::FirstAttempt { jsx } => (
                    CompositeApply::Exiting { jsx },
                    ApplyStep::ExitTextEditing,
                ),
                CompositeApply::Retrying { jsx, attempt } => {
                    if attempt == 1 {
                        let again = jsx.clone();
                        (
                            CompositeApply::Retrying { jsx, attempt: 2 },
                            ApplyStep::Run { delay_ms: 50, jsx: again },
                        )
                    } else {
                        (
                            CompositeApply::Done,
                            ApplyStep::Finish(
                                Err(string_of("Photoshop remained busy after leaving text editing")),
                            ),
                        )
                    }
                },
                _ => (CompositeApply::Done, ApplyStep::Finish(Err(e))),
            }
        },
    }
}

/// The next step after leaving text editing: an error is final; otherwise
/// the script is sent again 20 ms later.
pub fn composite_apply_exited(state: CompositeApply, result: Result<(), String>) -> (r: (
    CompositeApply,
    ApplyStep,
))
    requires
        state is Exiting,
    ensures
        composite_runs_left(r.0) + (if is_run(r.1) { 1int } else { 0 }) <= composite_runs_left(state),
        match state {
            CompositeApply::Exiting { jsx } => match result {
                Err(e) => r.0 is Done && finishes_err(r.1, e@),
                Ok(()) => {
                    &&& r.0 matches CompositeApply::Retrying { jsx: j, attempt: a } && j@ == jsx@
                        && a == 1
                    &&& runs(r.1, 20, jsx@)
                },
            },
            _ => true,
        },
{
    match state {
        CompositeApply::Exiting { jsx } => match result {
            Err(e) => (CompositeApply::Done, ApplyStep::Finish(Err(e))),
            Ok(()) => {
                let again = jsx.clone();
                (CompositeApply::Retrying { jsx, attempt: 1 }, ApplyStep::Run { delay_ms: 20, jsx: again })
            },
        },
        _ => (CompositeApply::Done, ApplyStep::Finish(Err(String::new()))),
    }
}

} // verus!
