//! The decisions of the macOS (AppleScript) client that do not need the
//! system: recognising Photoshop among processes, quoting for AppleScript,
//! and comparing installation paths.
use crate::photoshop::windows::{lemma_trim_end_where_ascii, trim_end_where};
use crate::search::join;
use crate::text::{
    all_ascii_chars, ascii_lowercase, char_is_white_space, chars_eq, chars_of, concat_str, contains_chars, contains_seq,
    first_match, int_error_message, int_error_text, is_white_space, lemma_first_match,
    lemma_first_match_exists, lemma_first_match_prefix, lemma_first_match_push,
    lemma_trim_ascii, lemma_trim_start_skip, lines, lines_of, parse_i32, parse_i32_spec, push_all, starts_with,
    starts_with_chars, string_from_chars, string_of, to_lowercase, trim, trim_chars, trim_start,
    unicode_lowercase,
};
use crate::unicode_ranges::{split_chars, split_on};
use crate::text::deep_chars;
use vstd::prelude::*;

verus! {

/// Predicate: a `/`.
pub open spec fn is_slash() -> spec_fn(char) -> bool {
    |c: char| c == '/'
}

/// A path as the macOS client compares paths: trimmed, without trailing
/// slashes, lowercased.
pub open spec fn normalized_path(path: Seq<char>) -> Seq<char> {
    unicode_lowercase(trim_end_where(trim(path), is_slash()))
}

/// A path as the macOS client compares an all-ASCII path: trimmed, without
/// trailing slashes, ASCII letters lowered.
pub open spec fn ascii_normalized_path(path: Seq<char>) -> Seq<char> {
    ascii_lowercase(trim_end_where(trim(path), is_slash()))
}

/// Whether an all-ASCII installation path is the expected one or lies inside it.
pub open spec fn ascii_path_matches(actual: Seq<char>, expected: Seq<char>) -> bool {
    let a = ascii_normalized_path(actual);
    let e = ascii_normalized_path(expected);
    a == e || starts_with(a, e + seq!['/'])
}

fn trim_trailing_slashes(s: &[char]) -> (r: Vec<char>)
    ensures
        r@ == trim_end_where(s@, is_slash()),
{
    let mut end: usize = s.len();
    assert(s@.take(end as int) =~= s@);
    while end > 0 && s[end - 1] == '/'
        invariant
            0 <= end <= s@.len(),
            trim_end_where(s@, is_slash()) == trim_end_where(s@.take(end as int), is_slash()),
        decreases end,
    {
        assert(s@.take(end as int).drop_last() =~= s@.take(end - 1));
        end = end - 1;
    }
    let mut r: Vec<char> = Vec::new();
    let mut k: usize = 0;
    while k < end
        invariant
            0 <= k <= end <= s@.len(),
            r@ == s@.take(k as int),
        decreases end - k,
    {
        r.push(s[k]);
        assert(s@.take(k + 1) =~= s@.take(k as int).push(s@[k as int]));
        k = k + 1;
    }
    r
}

/// A path normalised for comparison.
pub fn normalize_path(path: &str) -> (r: String)
    ensures
        r@ == normalized_path(path@),
        all_ascii_chars(path@) ==> r@ == ascii_normalized_path(path@),
{
    let trimmed = trim_chars(chars_of(path).as_slice());
    let stripped = trim_trailing_slashes(trimmed.as_slice());
    proof {
        if all_ascii_chars(path@) {
            lemma_trim_ascii(path@);
            lemma_trim_end_where_ascii(trimmed@, is_slash());
        }
    }
    to_lowercase(string_from_chars(stripped.as_slice()).as_str())
}

/// The actual installation is the expected one or lies inside it.
pub open spec fn path_matches_spec(actual: Seq<char>, expected: Seq<char>) -> bool {
    let a = normalized_path(actual);
    let e = normalized_path(expected);
    a == e || starts_with(a, e + seq!['/'])
}

/// Whether the actual installation path is the expected one or inside it.
pub fn path_matches(actual: &str, expected: &str) -> (r: bool)
    ensures
        r == path_matches_spec(actual@, expected@),
        all_ascii_chars(actual@) && all_ascii_chars(expected@) ==> r == ascii_path_matches(
            actual@,
            expected@,
        ),
{
    let a = chars_of(normalize_path(actual).as_str());
    let mut e = chars_of(normalize_path(expected).as_str());
    if chars_eq(a.as_slice(), e.as_slice()) {
        return true;
    }
    let ghost old_e = e@;
    e.push('/');
    assert(e@ =~= old_e + seq!['/']);
    starts_with_chars(a.as_slice(), e.as_slice())
}

/// The connected Photoshop passes the installation check when it is the
/// expected installation, however the expected path is spaced, slashed or
/// cased relative to it.
pub proof fn lemma_installation_matches_itself(actual: Seq<char>, expected: Seq<char>)
    requires
        normalized_path(actual) == normalized_path(expected),
    ensures
        path_matches_spec(actual, expected),
        path_matches_spec(expected, actual),
{
}

/// The expected path setting: trimmed, and absent when blank.
pub open spec fn expected_path_spec(expected: Option<Seq<char>>) -> Option<Seq<char>> {
    match expected {
        Some(e) => if trim(e).len() == 0 {
            None
        } else {
            Some(trim(e))
        },
        None => None,
    }
}

/// The view of an optional string slice.
pub open spec fn opt_view(o: Option<&str>) -> Option<Seq<char>> {
    match o {
        Some(e) => Some(e@),
        None => None,
    }
}

/// The expected installation path that the client keeps.
pub fn expected_path_setting(expected_path: Option<&str>) -> (r: Option<String>)
    ensures
        match r {
            Some(s) => expected_path_spec(opt_view(expected_path)) == Some(s@),
            None => expected_path_spec(opt_view(expected_path)) is None,
        },
{
    match expected_path {
        Some(e) => {
            let t = trim_chars(chars_of(e).as_slice());
            if t.len() == 0 {
                None
            } else {
                Some(string_from_chars(t.as_slice()))
            }
        },
        None => None,
    }
}

/// Whether the connected Photoshop is the expected installation.
pub fn verify_connected_path(actual: &str, expected: &str) -> (r: Result<(), String>)
    ensures
        match r {
            Ok(()) => path_matches_spec(actual@, expected@),
            Err(e) => !path_matches_spec(actual@, expected@) && e@ == "Connected to wrong Photoshop: "@
                + actual@,
        },
        all_ascii_chars(actual@) && all_ascii_chars(expected@) ==> (r is Ok <==> ascii_path_matches(
            actual@,
            expected@,
        )),
{
    if !path_matches(actual, expected) {
        return Err(concat_str("Connected to wrong Photoshop: ", actual));
    }
    Ok(())
}

/// The escape of one character inside an AppleScript string literal.
pub open spec fn apple_escape(c: char) -> Seq<char> {
    if c == '\\' {
        seq!['\\', '\\']
    } else if c == '"' {
        seq!['\\', '"']
    } else if c == '\r' {
        seq!['\\', 'r']
    } else if c == '\n' {
        seq!['\\', 'n']
    } else {
        seq![c]
    }
}

/// The escapes of the characters of `s`, in order.
pub open spec fn apple_escaped(s: Seq<char>) -> Seq<char>
    decreases s.len(),
{
    if s.len() == 0 {
        Seq::empty()
    } else {
        apple_escaped(s.drop_last()) + apple_escape(s.last())
    }
}

/// A string as an AppleScript string literal: quoted, with backslash,
/// quote, carriage return and line feed escaped.
pub open spec fn apple_string_spec(s: Seq<char>) -> Seq<char> {
    seq!['"'] + apple_escaped(s) + seq!['"']
}

/// A string as an AppleScript string literal.
pub fn apple_string(value: &str) -> (r: String)
    ensures
        r@ == apple_string_spec(value@),
{
    let chars = chars_of(value);
    let mut out: Vec<char> = Vec::new();
    out.push('"');
    let mut i: usize = 0;
    assert(chars@.take(0) =~= Seq::<char>::empty());
    while i < chars.len()
        invariant
            0 <= i <= chars@.len(),
            chars@ == value@,
            out@ == seq!['"'] + apple_escaped(chars@.take(i as int)),
        decreases chars@.len() - i,
    {
        let c = chars[i];
        let ghost before = out@;
        if c == '\\' {
            out.push('\\');
            out.push('\\');
        } else if c == '"' {
            out.push('\\');
            out.push('"');
        } else if c == '\r' {
            out.push('\\');
            out.push('r');
        } else if c == '\n' {
            out.push('\\');
            out.push('n');
        } else {
            out.push(c);
        }
        assert(out@ =~= before + apple_escape(c));
        assert(chars@.take(i + 1).drop_last() =~= chars@.take(i as int));
        assert(chars@.take(i + 1).last() == c);
        i = i + 1;
    }
    assert(chars@.take(chars@.len() as int) =~= chars@);
    out.push('"');
    string_from_chars(out.as_slice())
}

/// The AppleScript that runs a script file in Photoshop and returns its result.
pub open spec fn do_javascript_script_spec(jsx_path: Seq<char>) -> Seq<char> {
    "\ntell application id \"com.adobe.Photoshop\"\n    set resultText to do javascript file (POSIX file "@
        + apple_string_spec(jsx_path) + ")\nend tell\nreturn resultText\n"@
}

/// The AppleScript that runs the script file at `jsx_path` in Photoshop.
pub fn do_javascript_script(jsx_path: &str) -> (r: String)
    ensures
        r@ == do_javascript_script_spec(jsx_path@),
{
    let mut s = string_of(
        "\ntell application id \"com.adobe.Photoshop\"\n    set resultText to do javascript file (POSIX file ",
    );
    s.append(apple_string(jsx_path).as_str());
    s.append(")\nend tell\nreturn resultText\n");
    s
}

/// The non-empty path components other than `.`.
pub open spec fn path_segments(parts: Seq<Seq<char>>) -> Seq<Seq<char>>
    decreases parts.len(),
{
    if parts.len() == 0 {
        Seq::empty()
    } else {
        let rest = path_segments(parts.drop_last());
        let p = parts.last();
        if p.len() == 0 || p == seq!['.'] {
            rest
        } else {
            rest.push(p)
        }
    }
}

/// The final component of a `/`-separated path, as `Path::file_name` gives
/// it on Unix: none for a path without components or ending in `..`.
pub open spec fn file_name_spec(path: Seq<char>) -> Option<Seq<char>> {
    let segs = path_segments(split_on(path, '/'));
    if segs.len() == 0 || segs.last() == seq!['.', '.'] {
        None
    } else {
        Some(segs.last())
    }
}

/// The final component of a `/`-separated path.
pub fn file_name(path: &[char]) -> (r: Option<Vec<char>>)
    ensures
        match r {
            Some(n) => file_name_spec(path@) == Some(n@),
            None => file_name_spec(path@) is None,
        },
{
    let parts = split_chars(path, '/');
    let ghost pv = deep_chars(parts@);
    let mut segs: Vec<Vec<char>> = Vec::new();
    let mut i: usize = 0;
    let dot = vec!['.'];
    let dotdot = vec!['.', '.'];
    assert(dot@ =~= seq!['.']);
    assert(dotdot@ =~= seq!['.', '.']);
    assert(pv.take(0) =~= Seq::<Seq<char>>::empty());
    assert(deep_chars(segs@) =~= Seq::<Seq<char>>::empty());
    while i < parts.len()
        invariant
            0 <= i <= parts@.len(),
            pv == deep_chars(parts@),
            dot@ == seq!['.'],
            deep_chars(segs@) == path_segments(pv.take(i as int)),
        decreases parts@.len() - i,
    {
        assert(pv.take(i + 1).drop_last() =~= pv.take(i as int));
        assert(pv.take(i + 1).last() == parts@[i as int]@);
        if parts[i].len() != 0 && !chars_eq(parts[i].as_slice(), dot.as_slice()) {
            let ghost old_segs = deep_chars(segs@);
            segs.push(crate::unicode_ranges::copy_chars(parts[i].as_slice()));
            assert(deep_chars(segs@) =~= old_segs.push(parts@[i as int]@));
        }
        i = i + 1;
    }
    assert(pv.take(pv.len() as int) =~= pv);
    let n = segs.len();
    if n == 0 {
        return None;
    }
    assert(deep_chars(segs@).last() == segs@[n - 1]@);
    if chars_eq(segs[n - 1].as_slice(), dotdot.as_slice()) {
        return None;
    }
    Some(crate::unicode_ranges::copy_chars(segs[n - 1].as_slice()))
}

/// A process command is Photoshop: an `Adobe Photoshop` executable inside an
/// app bundle, or a file whose name starts with `Adobe Photoshop`.
pub open spec fn is_photoshop_process_spec(command: Seq<char>) -> bool {
    let c = trim(command);
    contains_seq(c, ".app/Contents/MacOS/Adobe Photoshop"@) || match file_name_spec(c) {
        Some(n) => starts_with(n, "Adobe Photoshop"@),
        None => false,
    }
}

/// Whether a process command (from `ps`) is Photoshop.
pub fn is_photoshop_process(command: &str) -> (r: bool)
    ensures
        r == is_photoshop_process_spec(command@),
{
    let c = trim_chars(chars_of(command).as_slice());
    if contains_chars(c.as_slice(), chars_of(".app/Contents/MacOS/Adobe Photoshop").as_slice()) {
        return true;
    }
    match file_name(c.as_slice()) {
        Some(n) => starts_with_chars(n.as_slice(), chars_of("Adobe Photoshop").as_slice()),
        None => false,
    }
}

/// The message when no Photoshop process is found.
pub open spec fn not_running_message() -> Seq<char> {
    "Photoshop 未运行，请先打开目标 Photoshop。"@
}

/// The message for `not_running_message`.
pub fn not_running_error() -> (r: String)
    ensures
        r@ == not_running_message(),
{
    string_of("Photoshop 未运行，请先打开目标 Photoshop。")
}

/// Some line of `ps -axo comm=` output is a Photoshop process.
pub open spec fn photoshop_listed(ps_output: Seq<char>) -> bool {
    exists|i: int|
        0 <= i < lines_of(ps_output).len() && is_photoshop_process_spec(
            #[trigger] lines_of(ps_output)[i],
        )
}

/// Whether the output of `ps -axo comm=` lists a Photoshop process.
pub fn photoshop_running_in(ps_output: &str) -> (r: bool)
    ensures
        r == photoshop_listed(ps_output@),
{
    let ls = lines(ps_output);
    let mut i: usize = 0;
    while i < ls.len()
        invariant
            0 <= i <= ls@.len(),
            deep_chars(ls@) == lines_of(ps_output@),
            forall|k: int| 0 <= k < i ==> !is_photoshop_process_spec(#[trigger] lines_of(ps_output@)[k]),
        decreases ls@.len() - i,
    {
        assert(lines_of(ps_output@)[i as int] == ls@[i as int]@);
        if is_photoshop_process(string_from_chars(ls[i].as_slice()).as_str()) {
            return true;
        }
        i = i + 1;
    }
    false
}

/// Predicate: a white-space character.
pub open spec fn white_space() -> spec_fn(char) -> bool {
    |c: char| is_white_space(c)
}

/// A line of `ps -axo pid=,comm=` output split, after its leading white
/// space, at its first white space: the PID text and the command (none when
/// the line has no white space after the PID).
pub open spec fn pid_line(line: Seq<char>) -> Option<(Seq<char>, Seq<char>)> {
    let t = trim_start(line);
    match first_match(t, white_space()) {
        Some(k) => Some((t.take(k), t.skip(k))),
        None => None,
    }
}

/// The line names a Photoshop process.
pub open spec fn pid_line_is_photoshop(line: Seq<char>) -> bool {
    pid_line(line) matches Some(p) && is_photoshop_process_spec(p.1)
}

/// Photoshop's PID from `ps -axo pid=,comm=` output: the PID of the first
/// Photoshop line, parsed as an `i32`; a PID that does not parse, or no such
/// line, is an error.
pub open spec fn photoshop_pid_spec(ps_output: Seq<char>) -> Result<int, Seq<char>> {
    let ls = lines_of(ps_output);
    match first_match(ls, |l: Seq<char>| pid_line_is_photoshop(l)) {
        Some(i) => match parse_i32_spec(pid_line(ls[i]).unwrap().0) {
            Ok(v) => Ok(v),
            Err(k) => Err("无法解析 Photoshop PID："@ + int_error_message(k)),
        },
        None => Err(not_running_message()),
    }
}

/// Splits a process line into PID text and command.
fn split_pid_line(line: &[char]) -> (r: Option<(Vec<char>, Vec<char>)>)
    ensures
        match r {
            Some(p) => pid_line(line@) == Some((p.0@, p.1@)),
            None => pid_line(line@) is None,
        },
{
    let n = line.len();
    let mut start: usize = 0;
    while start < n && char_is_white_space(line[start])
        invariant
            0 <= start <= n,
            n == line@.len(),
            forall|i: int| 0 <= i < start ==> is_white_space(#[trigger] line@[i]),
        decreases n - start,
    {
        start = start + 1;
    }
    let ghost t = line@.skip(start as int);
    proof {
        lemma_trim_start_skip(line@, start as int);
        if start < n {
            assert(t[0] == line@[start as int]);
        }
        assert(trim_start(t) == t);
    }
    let mut k: usize = start;
    while k < n && !char_is_white_space(line[k])
        invariant
            start <= k <= n,
            n == line@.len(),
            t == line@.skip(start as int),
            forall|i: int| start <= i < k ==> !is_white_space(#[trigger] line@[i]),
        decreases n - k,
    {
        k = k + 1;
    }
    proof {
        lemma_first_match(t, white_space());
        assert forall|j: int| 0 <= j < k - start implies !white_space()(#[trigger] t[j]) by {
            assert(t[j] == line@[j + start]);
        }
        if k < n {
            assert(t[k - start] == line@[k as int]);
            assert(white_space()(t[k - start]));
            lemma_first_match_exists(t, white_space(), k - start);
        }
    }
    if k == n {
        return None;
    }
    let mut pid: Vec<char> = Vec::new();
    let mut i: usize = start;
    while i < k
        invariant
            start <= i <= k < n,
            n == line@.len(),
            pid@ == line@.subrange(start as int, i as int),
        decreases k - i,
    {
        pid.push(line[i]);
        i = i + 1;
    }
    let mut command: Vec<char> = Vec::new();
    let mut j: usize = k;
    while j < n
        invariant
            k <= j <= n,
            n == line@.len(),
            command@ == line@.subrange(k as int, j as int),
        decreases n - j,
    {
        command.push(line[j]);
        j = j + 1;
    }
    assert(pid@ =~= t.take(k - start));
    assert(command@ =~= t.skip(k - start));
    Some((pid, command))
}

/// Finds Photoshop's PID in the output of `ps -axo pid=,comm=`.
pub fn photoshop_pid_in(ps_output: &str) -> (r: Result<i32, String>)
    ensures
        match r {
            Ok(v) => photoshop_pid_spec(ps_output@) == Ok::<int, Seq<char>>(v as int),
            Err(e) => photoshop_pid_spec(ps_output@) == Err::<int, Seq<char>>(e@),
        },
{
    let ls = lines(ps_output);
    let ghost lv = lines_of(ps_output@);
    let ghost p = |l: Seq<char>| pid_line_is_photoshop(l);
    let mut i: usize = 0;
    while i < ls.len()
        invariant
            0 <= i <= ls@.len(),
            deep_chars(ls@) == lv,
            lv == lines_of(ps_output@),
            p == (|l: Seq<char>| pid_line_is_photoshop(l)),
            first_match(lv.take(i as int), p) is None,
        decreases ls@.len() - i,
    {
        assert(lv.take(i + 1) =~= lv.take(i as int).push(lv[i as int]));
        proof {
            lemma_first_match_push(lv.take(i as int), lv[i as int], p);
        }
        assert(lv[i as int] == ls@[i as int]@);
        match split_pid_line(ls[i].as_slice()) {
            Some((pid_text, command)) => {
                if is_photoshop_process(string_from_chars(command.as_slice()).as_str()) {
                    proof {
                        lemma_first_match_prefix(lv, i + 1, p);
                    }
                    return match parse_i32(pid_text.as_slice()) {
                        Ok(v) => Ok(v),
                        Err(k) => Err(concat_str("无法解析 Photoshop PID：", int_error_text(k).as_str())),
                    };
                }
            },
            None => {},
        }
        i = i + 1;
    }
    assert(lv.take(i as int) =~= lv);
    Err(not_running_error())
}

/// The message when macOS refuses to let Fontick control Photoshop.
pub open spec fn automation_denied_message() -> Seq<char> {
    "未获准控制 Photoshop。请在 macOS“系统设置 > 隐私与安全性 > 自动化”中允许 Fontick 控制 Photoshop。"@
}

/// Predicate: a carriage return or line feed.
pub open spec fn is_line_break() -> spec_fn(char) -> bool {
    |c: char| c == '\r' || c == '\n'
}

/// What an `osascript` run gives: on success its output without trailing
/// line breaks; on failure, a permission message when the trimmed error
/// output mentions `-1743`, that error output when it is not empty, and
/// otherwise `osascript 失败：` and the exit status.
pub open spec fn osascript_result_spec(
    success: bool,
    stdout: Seq<char>,
    stderr: Seq<char>,
    status: Seq<char>,
) -> Result<Seq<char>, Seq<char>> {
    if success {
        Ok(trim_end_where(stdout, is_line_break()))
    } else {
        let e = trim(stderr);
        if contains_seq(e, "-1743"@) {
            Err(automation_denied_message())
        } else if e.len() == 0 {
            Err("osascript 失败："@ + status)
        } else {
            Err(e)
        }
    }
}

/// Turns a finished `osascript` run (its success, output, error output and
/// exit status text) into the script's answer or an error.
pub fn osascript_result(success: bool, stdout: &str, stderr: &str, status: &str) -> (r: Result<
    String,
    String,
>)
    ensures
        match r {
            Ok(o) => osascript_result_spec(success, stdout@, stderr@, status@) == Ok::<
                Seq<char>,
                Seq<char>,
            >(o@),
            Err(e) => osascript_result_spec(success, stdout@, stderr@, status@) == Err::<
                Seq<char>,
                Seq<char>,
            >(e@),
        },
{
    if success {
        let out = chars_of(stdout);
        let mut end: usize = out.len();
        assert(out@.take(end as int) =~= out@);
        while end > 0 && (out[end - 1] == '\r' || out[end - 1] == '\n')
            invariant
                0 <= end <= out@.len(),
                trim_end_where(out@, is_line_break()) == trim_end_where(
                    out@.take(end as int),
                    is_line_break(),
                ),
            decreases end,
        {
            assert(out@.take(end as int).drop_last() =~= out@.take(end - 1));
            end = end - 1;
        }
        let mut kept: Vec<char> = Vec::new();
        let mut k: usize = 0;
        while k < end
            invariant
                0 <= k <= end <= out@.len(),
                kept@ == out@.take(k as int),
            decreases end - k,
        {
            kept.push(out[k]);
            assert(out@.take(k + 1) =~= out@.take(k as int).push(out@[k as int]));
            k = k + 1;
        }
        return Ok(string_from_chars(kept.as_slice()));
    }
    let e = trim_chars(chars_of(stderr).as_slice());
    if contains_chars(e.as_slice(), chars_of("-1743").as_slice()) {
        return Err(string_of(
            "未获准控制 Photoshop。请在 macOS“系统设置 > 隐私与安全性 > 自动化”中允许 Fontick 控制 Photoshop。",
        ));
    }
    if e.len() == 0 {
        return Err(concat_str("osascript 失败：", status));
    }
    Err(string_from_chars(e.as_slice()))
}

/// The macOS client: Photoshop is driven through AppleScript; the client
/// keeps the installation path it was checked against, if any. Scripts are
/// run by the `run` function that the application hands in (it writes the
/// script to a temporary file, has Photoshop run it through `osascript`, and
/// gives `osascript_result` of the run).
#[derive(Debug, Clone)]
pub struct PlatformClient {
    pub expected_path: Option<String>,
}

/// The first step of connecting on macOS.
#[derive(Debug, Clone)]
pub enum MacConnect {
    /// Connected without an installation check.
    Connected(PlatformClient),
    /// The installation path must be read (`String(app.path);`) and
    /// checked against `expected` with `PlatformClient::checked`.
    NeedPath { expected: String },
}

impl PlatformClient {
    /// Connects to the running Photoshop. With `ps_output` the output of
    /// `ps -axo comm=` (or the error of running it): that error is passed
    /// on; without a Photoshop process, the not-running error; with no
    /// expected path (none, or blank), a client that checks nothing, and no
    /// script is run; else the installation path must be read and checked
    /// against the trimmed expected path.
    pub fn active(expected_path: Option<&str>, ps_output: Result<String, String>) -> (r: Result<
        MacConnect,
        String,
    >)
        ensures
            match ps_output {
                Err(e) => r matches Err(x) && x@ == e@,
                Ok(out) => if !photoshop_listed(out@) {
                    r matches Err(x) && x@ == not_running_message()
                } else {
                    match expected_path_spec(opt_view(expected_path)) {
                        None => r matches Ok(MacConnect::Connected(c)) && c.expected_path is None,
                        Some(p) => r matches Ok(MacConnect::NeedPath { expected }) && expected@ == p,
                    }
                },
            },
    {
        let out = match ps_output {
            Ok(o) => o,
            Err(e) => return Err(e),
        };
        if !photoshop_running_in(out.as_str()) {
            return Err(not_running_error());
        }
        match expected_path_setting(expected_path) {
            None => Ok(MacConnect::Connected(PlatformClient { expected_path: None })),
            Some(p) => Ok(MacConnect::NeedPath { expected: p }),
        }
    }

    /// Finishes connecting, given the reply to `String(app.path);`: a read
    /// error is passed on; the client keeps `expected` when the installation
    /// matches it, else the wrong-Photoshop error.
    pub fn checked(expected: String, reply: Result<String, String>) -> (r: Result<PlatformClient, String>)
        ensures
            match reply {
                Err(e) => r matches Err(x) && x@ == e@,
                Ok(actual) => (if path_matches_spec(actual@, expected@) {
                    r matches Ok(c) && c.expected_path matches Some(q) && q@ == expected@
                } else {
                    r matches Err(x) && x@ == "Connected to wrong Photoshop: "@ + actual@
                }) && (all_ascii_chars(actual@) && all_ascii_chars(expected@) ==> (r is Ok
                    <==> ascii_path_matches(actual@, expected@))),
            },
    {
        let actual = match reply {
            Ok(a) => a,
            Err(e) => return Err(e),
        };
        if !path_matches(actual.as_str(), expected.as_str()) {
            return Err(concat_str("Connected to wrong Photoshop: ", actual.as_str()));
        }
        Ok(PlatformClient { expected_path: Some(expected) })
    }

    /// Photoshop's installation path: the reply to `String(app.path);`.
    pub fn path<F: FnOnce(&str) -> Result<String, String>>(&self, run: F) -> (r: Result<
        String,
        String,
    >)
        requires
            call_requires(run, ("String(app.path);",)),
        ensures
            call_ensures(run, ("String(app.path);",), r),
    {
        run("String(app.path);")
    }

    /// Photoshop's version: the reply to `String(app.version);`.
    pub fn version<F: FnOnce(&str) -> Result<String, String>>(&self, run: F) -> (r: Result<
        String,
        String,
    >)
        requires
            call_requires(run, ("String(app.version);",)),
        ensures
            call_ensures(run, ("String(app.version);",), r),
    {
        run("String(app.version);")
    }

    /// Runs a script in Photoshop: the reply is what `run` gives for it.
    pub fn do_javascript<F: FnOnce(&str) -> Result<String, String>>(&self, jsx: &str, run: F) -> (r:
        Result<String, String>)
        requires
            call_requires(run, (jsx,)),
        ensures
            call_ensures(run, (jsx,), r),
    {
        run(jsx)
    }
}

} // verus!
