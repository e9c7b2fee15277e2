//! Photoshop's UI theme, read by a probe script that Photoshop runs: which
//! Photoshop to start the probe in, which output file is the probe's
//! answer, and what the answer means.
use crate::photoshop::macos::{not_running_error, not_running_message};
use crate::text::{
    blank, chars_of, contains_chars, contains_seq, deep_chars, find_chars, find_from,
    first_match, is_blank, lemma_first_match_prefix, lemma_first_match_push, lines, lines_of,
    string_from_chars, string_of, trim, trim_chars,
};
use crate::unicode_ranges::{copy_chars, split_chars, split_on, lemma_split_on_nonempty};
use vstd::prelude::*;

verus! {

/// The theme that Photoshop reported, and the file it was read from.
#[derive(Debug, Clone)]
pub struct ThemeResult {
    pub ok: bool,
    pub theme: String,
    pub path: String,
}

/// The message when the probe reported no theme.
pub open spec fn no_theme_message() -> Seq<char> {
    "没有读取到 Photoshop 主题"@
}

/// The result for a probe's reported theme: a blank or missing theme is an error.
pub fn theme_result(theme_current: Option<String>, path: String) -> (r: Result<ThemeResult, String>)
    ensures
        match r {
            Ok(t) => theme_current matches Some(theme) && !is_blank(theme@) && t.ok && t.theme@
                == theme@ && t.path@ == path@,
            Err(e) => (match theme_current {
                Some(theme) => is_blank(theme@),
                None => true,
            }) && e@ == no_theme_message(),
        },
{
    let theme = match theme_current {
        Some(t) => t,
        None => String::new(),
    };
    if blank(theme.as_str()) {
        return Err(string_of("没有读取到 Photoshop 主题"));
    }
    Ok(ThemeResult { ok: true, theme, path })
}

/// The part of a process command that marks an executable inside an app bundle.
pub open spec fn bundle_marker() -> Seq<char> {
    ".app/Contents/MacOS/"@
}

/// The command of a running Photoshop inside an app bundle.
pub open spec fn photoshop_bundle_marker() -> Seq<char> {
    ".app/Contents/MacOS/Adobe Photoshop"@
}

/// The application name of a bundle executable's command: the last path
/// component before the first `.app/Contents/MacOS/` (the stem of the
/// `.app` bundle's file name, `.app` itself when that component is empty).
pub open spec fn app_name_of(command: Seq<char>) -> Seq<char> {
    let before = command.take(find_from(command, bundle_marker(), 0).unwrap() as int);
    let last = split_on(before, '/').last();
    if last.len() == 0 {
        ".app"@
    } else {
        last
    }
}

/// A trimmed line runs Photoshop from an app bundle.
pub open spec fn bundle_line(line: Seq<char>) -> bool {
    contains_seq(trim(line), photoshop_bundle_marker())
}

/// The name of the running Photoshop application, from `ps -axo comm=`
/// output: that of the first line (trimmed) running Photoshop from an app
/// bundle; an error when there is none.
pub open spec fn running_app_name_spec(ps_output: Seq<char>) -> Result<Seq<char>, Seq<char>> {
    let ls = lines_of(ps_output);
    match first_match(ls, |l: Seq<char>| bundle_line(l)) {
        Some(i) => Ok(app_name_of(trim(ls[i]))),
        None => Err(not_running_message()),
    }
}

proof fn lemma_marker_found(command: Seq<char>)
    requires
        contains_seq(command, photoshop_bundle_marker()),
    ensures
        find_from(command, bundle_marker(), 0) is Some,
        find_from(command, bundle_marker(), 0).unwrap() <= command.len(),
{
    let i = choose|i: int| crate::text::occurs_at(command, photoshop_bundle_marker(), i);
    reveal_strlit(".app/Contents/MacOS/");
    reveal_strlit(".app/Contents/MacOS/Adobe Photoshop");
    assert(photoshop_bundle_marker().subrange(0, bundle_marker().len() as int) =~= bundle_marker());
    assert(command.subrange(i, i + photoshop_bundle_marker().len()).subrange(0, bundle_marker().len() as int)
        =~= bundle_marker());
    assert(command.subrange(i, i + bundle_marker().len()) =~= command.subrange(
        i,
        i + photoshop_bundle_marker().len(),
    ).subrange(0, bundle_marker().len() as int));
    assert(crate::text::occurs_at(command, bundle_marker(), i));
    lemma_find_from_found(command, bundle_marker(), 0, i);
}

proof fn lemma_find_from_found(hay: Seq<char>, needle: Seq<char>, i: nat, k: int)
    requires
        i <= k,
        crate::text::occurs_at(hay, needle, k),
    ensures
        find_from(hay, needle, i) is Some,
        find_from(hay, needle, i).unwrap() <= k,
        find_from(hay, needle, i).unwrap() + needle.len() <= hay.len(),
    decreases k - i,
{
    if !crate::text::occurs_at(hay, needle, i as int) {
        lemma_find_from_found(hay, needle, i + 1, k);
    }
}

/// The application name of a bundle executable's command.
fn app_name(command: &[char]) -> (r: String)
    requires
        contains_seq(command@, photoshop_bundle_marker()),
    ensures
        r@ == app_name_of(command@),
{
    proof {
        lemma_marker_found(command@);
    }
    let k = match find_chars(command, chars_of(".app/Contents/MacOS/").as_slice()) {
        Some(k) => k,
        None => 0,
    };
    let mut before: Vec<char> = Vec::new();
    let mut i: usize = 0;
    while i < k
        invariant
            0 <= i <= k <= command@.len(),
            before@ == command@.take(i as int),
        decreases k - i,
    {
        before.push(command[i]);
        assert(command@.take(i + 1) =~= command@.take(i as int).push(command@[i as int]));
        i = i + 1;
    }
    let parts = split_chars(before.as_slice(), '/');
    proof {
        lemma_split_on_nonempty(before@, '/');
    }
    let n = parts.len();
    assert(deep_chars(parts@).last() == parts@[n - 1]@);
    if parts[n - 1].len() == 0 {
        string_of(".app")
    } else {
        string_from_chars(parts[n - 1].as_slice())
    }
}

/// The name of the running Photoshop application (such as `Adobe Photoshop
/// 2024`), from the output of `ps -axo comm=`.
pub fn running_photoshop_app_name(ps_output: &str) -> (r: Result<String, String>)
    ensures
        match r {
            Ok(name) => running_app_name_spec(ps_output@) == Ok::<Seq<char>, Seq<char>>(name@),
            Err(e) => running_app_name_spec(ps_output@) == Err::<Seq<char>, Seq<char>>(e@),
        },
{
    let ls = lines(ps_output);
    let ghost lv = lines_of(ps_output@);
    let ghost p = |l: Seq<char>| bundle_line(l);
    let marker = chars_of(".app/Contents/MacOS/Adobe Photoshop");
    let mut i: usize = 0;
    while i < ls.len()
        invariant
            0 <= i <= ls@.len(),
            deep_chars(ls@) == lv,
            lv == lines_of(ps_output@),
            p == (|l: Seq<char>| bundle_line(l)),
            marker@ == photoshop_bundle_marker(),
            first_match(lv.take(i as int), p) is None,
        decreases ls@.len() - i,
    {
        assert(lv.take(i + 1) =~= lv.take(i as int).push(lv[i as int]));
        proof {
            lemma_first_match_push(lv.take(i as int), lv[i as int], p);
        }
        assert(lv[i as int] == ls@[i as int]@);
        let command = trim_chars(ls[i].as_slice());
        if contains_chars(command.as_slice(), marker.as_slice()) {
            proof {
                lemma_first_match_prefix(lv, i + 1, p);
            }
            return Ok(app_name(command.as_slice()));
        }
        i = i + 1;
    }
    assert(lv.take(i as int) =~= lv);
    Err(not_running_error())
}

/// The file name of the probe's output.
pub open spec fn probe_output_name() -> Seq<char> {
    "fontick-psjs-theme-probe.json"@
}

/// Whether a file, by its name, is the probe's output.
pub fn is_probe_output(file_name: Option<&str>) -> (r: bool)
    ensures
        r == (file_name matches Some(n) && n@ == probe_output_name()),
{
    match file_name {
        Some(n) => {
            let a = chars_of(n);
            let b = chars_of("fontick-psjs-theme-probe.json");
            crate::text::chars_eq(a.as_slice(), b.as_slice())
        },
        None => false,
    }
}

/// A probe output file found on disk: its size and modification time
/// (nanoseconds since the Unix epoch).
#[derive(Debug, Clone, Copy, PartialEq, Eq, Structural)]
pub struct ProbeFile {
    pub len: u64,
    pub modified: u128,
}

/// The file was written by a probe started at `start`: not empty, and
/// modified after `start`.
pub open spec fn fresh_probe(f: ProbeFile, start: u128) -> bool {
    f.len != 0 && f.modified > start
}

/// Among probe output files in the order they were found, the newest fresh
/// one; of several equally new, the first found.
pub open spec fn is_newest_probe(files: Seq<ProbeFile>, start: u128, i: int) -> bool {
    &&& 0 <= i < files.len()
    &&& fresh_probe(files[i], start)
    &&& forall|j: int|
        0 <= j < files.len() && fresh_probe(#[trigger] files[j], start) ==> files[j].modified
            <= files[i].modified
    &&& forall|j: int|
        0 <= j < i && fresh_probe(#[trigger] files[j], start) ==> files[j].modified
            < files[i].modified
}

/// The index of the newest fresh probe output, if any file is fresh.
pub fn newest_probe(files: &[ProbeFile], start: u128) -> (r: Option<usize>)
    ensures
        match r {
            Some(i) => is_newest_probe(files@, start, i as int),
            None => forall|j: int| 0 <= j < files@.len() ==> !fresh_probe(#[trigger] files@[j], start),
        },
{
    let mut best: Option<usize> = None;
    let mut i: usize = 0;
    while i < files.len()
        invariant
            0 <= i <= files@.len(),
            match best {
                Some(b) => is_newest_probe(files@.take(i as int), start, b as int),
                None => forall|j: int| 0 <= j < i ==> !fresh_probe(#[trigger] files@[j], start),
            },
        decreases files@.len() - i,
    {
        let f = files[i];
        if f.len != 0 && f.modified > start {
            let newer = match best {
                Some(b) => f.modified > files[b].modified,
                None => true,
            };
            if newer {
                best = Some(i);
            }
        }
        proof {
            let t = files@.take(i + 1);
            assert forall|j: int| 0 <= j < i implies t[j] == files@.take(i as int)[j] by {}
        }
        i = i + 1;
    }
    assert(files@.take(i as int) =~= files@);
    best
}

} // verus!
