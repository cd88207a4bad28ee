//! Diff and reconciliation: compare one artifact's expected content against
//! its on-disk content line by line, classify the artifact's status, and
//! find orphaned files.
//!
//! The line comparison is a sequential two-pointer walk: while lines are
//! equal both cursors advance together emitting context; on a mismatch one
//! removed and one added record are emitted and both cursors advance by one.
//! It is an aligned-position diff, not a minimal-edit-distance diff; pure
//! insertions and deletions in the middle are reported as runs of
//! substitutions.

use vstd::prelude::*;
use vstd::string::*;

use crate::error::Error;
use crate::text::{contains_text, spec_contains_text, str_eq};

verus! {

/// Output format for a change report.
#[derive(Debug, Clone, Copy, PartialEq, Eq, Structural)]
pub enum DiffFormat {
    /// Colored unified diff.
    Color,
    /// Plain unified diff.
    Unified,
    /// Machine-readable output.
    Json,
}

/// Options of a reconciliation run.
#[derive(Debug, Clone)]
pub struct DiffOptions {
    /// Restrict the comparison to one file.
    pub file: Option<String>,
    /// Output format.
    pub format: DiffFormat,
    /// Number of context lines around a change.
    pub context: usize,
    /// Directory the run works against.
    pub cwd: String,
}

impl Default for DiffOptions {
    /// Compare everything, in color, with three context lines, in the
    /// current directory.
    fn default() -> (r: Self)
        ensures
            r.file is None,
            r.format == DiffFormat::Color,
            r.context == 3,
            r.cwd@ == "."@,
    {
        DiffOptions { file: None, format: DiffFormat::Color, context: 3, cwd: ".".to_owned() }
    }
}

impl DiffFormat {
    /// Parse an output format name without regard to ASCII case.
    pub fn from_str(s: &str) -> (r: Option<DiffFormat>)
        ensures
            ({
                let l = s@.map_values(|c: char| crate::marketplace::spec_ascii_lower(c));
                &&& (r is Some) <==> (l == "color"@ || l == "unified"@ || l == "json"@)
                &&& l == "color"@ ==> r == Some(DiffFormat::Color)
                &&& l == "unified"@ ==> r == Some(DiffFormat::Unified)
                &&& l == "json"@ ==> r == Some(DiffFormat::Json)
            }),
    {
        proof {
            reveal_strlit("color");
            reveal_strlit("unified");
            reveal_strlit("json");
            assert("color"@.len() == 5);
            assert("unified"@.len() == 7);
            assert("json"@.len() == 4);
        }
        if crate::marketplace::ascii_eq_ignore_case(s, "color") {
            proof {
                lemma_lower_of_lower("color"@);
            }
            Some(DiffFormat::Color)
        } else if crate::marketplace::ascii_eq_ignore_case(s, "unified") {
            proof {
                lemma_lower_of_lower("unified"@);
            }
            Some(DiffFormat::Unified)
        } else if crate::marketplace::ascii_eq_ignore_case(s, "json") {
            proof {
                lemma_lower_of_lower("json"@);
            }
            Some(DiffFormat::Json)
        } else {
            proof {
                lemma_lower_of_lower("color"@);
                lemma_lower_of_lower("unified"@);
                lemma_lower_of_lower("json"@);
            }
            None
        }
    }
}

/// Lowercasing an already-lowercase ASCII text changes nothing.
proof fn lemma_lower_of_lower(s: Seq<char>)
    requires
        forall|i: int| 0 <= i < s.len() ==> !('A' <= #[trigger] s[i] && s[i] <= 'Z'),
    ensures
        s.map_values(|c: char| crate::marketplace::spec_ascii_lower(c)) == s,
{
    assert(s.map_values(|c: char| crate::marketplace::spec_ascii_lower(c)) =~= s);
}

/// Status of one compared artifact.
#[derive(Debug, Clone, Copy, PartialEq, Eq, Structural)]
pub enum DiffStatus {
    /// The file does not exist yet.
    Created,
    /// The file exists and its content differs from the expected content.
    Modified,
    /// The expected content is empty: the file would go away.
    Deleted,
    /// Current and expected content agree.
    Unchanged,
}

/// Kind of one diff record.
#[derive(Debug, Clone, Copy, PartialEq, Eq, Structural)]
pub enum DiffLineType {
    /// A line only the expected content has.
    Added,
    /// A line only the current content has.
    Removed,
    /// A line both sides share.
    Context,
    /// A hunk header.
    Header,
}

/// One line record of a file comparison.
#[derive(Debug, Clone)]
pub struct DiffLine {
    /// Kind of the record.
    pub line_type: DiffLineType,
    /// One-based line number in the side the record comes from.
    pub line_number: Option<usize>,
    /// Line content, without its ending.
    pub content: String,
}

/// One compared artifact: its path, status and line records.
#[derive(Debug, Clone)]
pub struct FileDiff {
    /// Path of the artifact.
    pub path: String,
    /// Derived status.
    pub status: DiffStatus,
    /// Line records in order.
    pub lines: Vec<DiffLine>,
}

/// The whole change report of a reconciliation run.
#[derive(Debug, Clone)]
pub struct DiffResult {
    /// Artifacts that would be created.
    pub would_create: Vec<String>,
    /// Artifacts that would be modified.
    pub would_modify: Vec<String>,
    /// Orphaned files that would be deleted.
    pub would_delete: Vec<String>,
    /// Files left untouched.
    pub unchanged: Vec<String>,
    /// Line-level comparisons of the affected artifacts.
    pub file_diffs: Vec<FileDiff>,
}

/// The index of the first newline in `s`; `s.len()` when it has none.
pub open spec fn spec_first_nl(s: Seq<char>) -> nat
    decreases s.len(),
{
    if s.len() == 0 {
        0
    } else if s[0] == '\n' {
        0
    } else {
        1 + spec_first_nl(s.drop_first())
    }
}

/// A line with a trailing carriage return removed.
pub open spec fn spec_strip_cr(l: Seq<char>) -> Seq<char> {
    if l.len() > 0 && l[l.len() - 1] == '\r' {
        l.drop_last()
    } else {
        l
    }
}

/// The lines of a text: split at `\n`, each line stripped of a trailing
/// `\r`, the final line ending optional.
pub open spec fn spec_lines(s: Seq<char>) -> Seq<Seq<char>>
    decreases s.len(),
{
    if s.len() == 0 {
        Seq::<Seq<char>>::empty()
    } else {
        let i = spec_first_nl(s) as int;
        if 0 <= i && i < s.len() {
            seq![spec_strip_cr(s.take(i))] + spec_lines(s.skip(i + 1))
        } else {
            seq![s]
        }
    }
}

/// The first newline index is within bounds, marks a newline, and nothing
/// before it is one.
proof fn lemma_first_nl(s: Seq<char>)
    ensures
        spec_first_nl(s) <= s.len(),
        spec_first_nl(s) < s.len() ==> s[spec_first_nl(s) as int] == '\n',
        forall|k: int| 0 <= k < spec_first_nl(s) ==> s[k] != '\n',
    decreases s.len(),
{
    if s.len() == 0 {
    } else if s[0] == '\n' {
    } else {
        lemma_first_nl(s.drop_first());
        if spec_first_nl(s) < s.len() {
            assert(s.drop_first()[spec_first_nl(s.drop_first()) as int] == s[spec_first_nl(
                s,
            ) as int]);
        }
        assert forall|k: int| 0 <= k < spec_first_nl(s) implies s[k] != '\n' by {
            if k > 0 {
                assert(s.drop_first()[k - 1] == s[k]);
            }
        }
    }
}

/// Split a text into its lines.
pub fn split_lines(text: &str) -> (r: Vec<String>)
    ensures
        crate::json::spec_strings_view(r@) == spec_lines(text@),
{
    let chars = crate::text::chars_of(text);
    let n = chars.len();
    let mut out: Vec<String> = Vec::new();
    let mut cur: Vec<char> = Vec::new();
    let mut pos: usize = 0;
    let ghost whole = chars@;
    proof {
        assert(whole.skip(0) =~= whole);
        assert(crate::json::spec_strings_view(out@) =~= Seq::<Seq<char>>::empty());
        assert(Seq::<Seq<char>>::empty() + spec_lines(whole) =~= spec_lines(whole));
        assert(cur@ =~= whole.subrange(0, 0));
    }
    while pos < n
        invariant
            pos <= n,
            n == whole.len(),
            chars@ == whole,
            cur@.len() <= pos,
            cur@ == whole.subrange(pos - cur@.len(), pos as int),
            forall|k: int| pos - cur@.len() <= k < pos ==> whole[k] != '\n',
            spec_lines(whole) == crate::json::spec_strings_view(out@) + spec_lines(
                whole.skip(pos - cur@.len()),
            ),
        decreases n - pos,
    {
        let c = chars[pos];
        if c == '\n' {
            let ghost tail = whole.skip(pos - cur@.len());
            proof {
                lemma_first_nl(tail);
                assert forall|k: int| 0 <= k < cur@.len() implies tail[k] != '\n' by {
                    assert(tail[k] == whole[pos - cur@.len() + k]);
                }
                assert(tail[cur@.len() as int] == '\n');
                assert(spec_first_nl(tail) == cur@.len()) by {
                    if spec_first_nl(tail) < cur@.len() {
                        assert(tail[spec_first_nl(tail) as int] == '\n');
                    }
                    if spec_first_nl(tail) > cur@.len() {
                        assert(tail[cur@.len() as int] != '\n');
                    }
                }
                assert(tail.take(cur@.len() as int) =~= cur@);
                assert(tail.skip(cur@.len() as int + 1) =~= whole.skip(pos + 1));
                assert(spec_lines(tail) == seq![spec_strip_cr(cur@)] + spec_lines(
                    whole.skip(pos + 1),
                ));
            }
            let mut line = cur;
            if line.len() > 0 && line[line.len() - 1] == '\r' {
                let _ = line.pop();
                proof {
                    assert(line@ =~= spec_strip_cr(whole.subrange(
                        pos - (line@.len() + 1),
                        pos as int,
                    )));
                }
            }
            out.push(crate::text::string_from_chars(&line));
            cur = Vec::new();
            proof {
                assert(crate::json::spec_strings_view(out@) =~= crate::json::spec_strings_view(
                    out@.drop_last(),
                ).push(out@.last()@));
                assert(cur@ =~= whole.subrange(pos + 1, pos + 1));
            }
        } else {
            cur.push(c);
            proof {
                assert(cur@ =~= whole.subrange(pos + 1 - cur@.len(), pos as int + 1));
            }
        }
        pos = pos + 1;
    }
    if cur.len() > 0 {
        let ghost tail = whole.skip(pos - cur@.len());
        proof {
            lemma_first_nl(tail);
            assert forall|k: int| 0 <= k < cur@.len() implies tail[k] != '\n' by {
                assert(tail[k] == whole[pos - cur@.len() + k]);
            }
            assert(tail =~= cur@);
            assert(spec_first_nl(tail) == tail.len());
            assert(spec_lines(tail) == seq![tail]);
        }
        out.push(crate::text::string_from_chars(&cur));
        proof {
            assert(crate::json::spec_strings_view(out@) =~= crate::json::spec_strings_view(
                out@.drop_last(),
            ).push(out@.last()@));
        }
    } else {
        proof {
            assert(whole.skip(pos as int) =~= Seq::<char>::empty());
            assert(spec_lines(whole.skip(pos as int)) =~= Seq::<Seq<char>>::empty());
        }
    }
    proof {
        assert(crate::json::spec_strings_view(out@) + Seq::<Seq<char>>::empty()
            =~= crate::json::spec_strings_view(out@));
    }
    out
}

/// The aligned two-pointer diff of two line sequences, with one-based line
/// numbers starting after the given offsets: context while lines agree, a
/// removed and an added record on each mismatch, and one-sided records once
/// one side is exhausted.
pub open spec fn spec_diff_from(
    old: Seq<Seq<char>>,
    new: Seq<Seq<char>>,
    oi: int,
    ni: int,
) -> Seq<(DiffLineType, Option<int>, Seq<char>)>
    decreases old.len() + new.len(),
{
    if old.len() > 0 && new.len() > 0 {
        if old[0] == new[0] {
            seq![(DiffLineType::Context, Some(oi + 1), old[0])] + spec_diff_from(
                old.drop_first(),
                new.drop_first(),
                oi + 1,
                ni + 1,
            )
        } else {
            seq![
                (DiffLineType::Removed, Some(oi + 1), old[0]),
                (DiffLineType::Added, Some(ni + 1), new[0]),
            ] + spec_diff_from(old.drop_first(), new.drop_first(), oi + 1, ni + 1)
        }
    } else if old.len() > 0 {
        seq![(DiffLineType::Removed, Some(oi + 1), old[0])] + spec_diff_from(
            old.drop_first(),
            new,
            oi + 1,
            ni,
        )
    } else if new.len() > 0 {
        seq![(DiffLineType::Added, Some(ni + 1), new[0])] + spec_diff_from(
            old,
            new.drop_first(),
            oi,
            ni + 1,
        )
    } else {
        Seq::<(DiffLineType, Option<int>, Seq<char>)>::empty()
    }
}

/// The aligned two-pointer diff of two texts' lines.
pub open spec fn spec_diff(old: Seq<char>, new: Seq<char>) -> Seq<
    (DiffLineType, Option<int>, Seq<char>),
> {
    spec_diff_from(spec_lines(old), spec_lines(new), 0, 0)
}

/// Whether a line record carries the given kind, number and content.
pub open spec fn spec_line_matches(l: DiffLine, m: (DiffLineType, Option<int>, Seq<char>)) -> bool {
    &&& l.line_type == m.0
    &&& (match (l.line_number, m.1) {
        (Option::None, Option::None) => true,
        (Option::Some(a), Option::Some(b)) => a as int == b,
        _ => false,
    })
    &&& l.content@ == m.2
}

/// Whether the line records carry exactly the given models, in order.
pub open spec fn spec_lines_match(
    ls: Seq<DiffLine>,
    ms: Seq<(DiffLineType, Option<int>, Seq<char>)>,
) -> bool {
    ls.len() == ms.len() && forall|i: int|
        0 <= i < ls.len() ==> spec_line_matches(#[trigger] ls[i], ms[i])
}

/// Compute the aligned line diff of current against expected content.
pub fn compute_diff(old: &str, new: &str, context: usize) -> (r: Vec<DiffLine>)
    ensures
        spec_lines_match(r@, spec_diff(old@, new@)),
{
    let old_lines = split_lines(old);
    let new_lines = split_lines(new);
    let ghost ol = spec_lines(old@);
    let ghost nl = spec_lines(new@);
    let ghost full = spec_diff_from(ol, nl, 0, 0);
    let mut out: Vec<DiffLine> = Vec::new();
    let mut oi: usize = 0;
    let mut ni: usize = 0;
    proof {
        assert(ol.skip(0) =~= ol);
        assert(nl.skip(0) =~= nl);
        assert(full.skip(0) =~= full);
    }
    while oi < old_lines.len() || ni < new_lines.len()
        invariant
            oi <= old_lines@.len(),
            ni <= new_lines@.len(),
            crate::json::spec_strings_view(old_lines@) == ol,
            crate::json::spec_strings_view(new_lines@) == nl,
            full == spec_diff_from(ol, nl, 0, 0),
            out@.len() <= full.len(),
            forall|k: int| 0 <= k < out@.len() ==> spec_line_matches(#[trigger] out@[k], full[k]),
            full.skip(out@.len() as int) == spec_diff_from(
                ol.skip(oi as int),
                nl.skip(ni as int),
                oi as int,
                ni as int,
            ),
        decreases old_lines@.len() - oi + new_lines@.len() - ni,
    {
        let ghost orest = ol.skip(oi as int);
        let ghost nrest = nl.skip(ni as int);
        let ghost m = spec_diff_from(orest, nrest, oi as int, ni as int);
        proof {
            if oi < old_lines@.len() {
                assert(orest[0] == ol[oi as int]);
                assert(orest.drop_first() =~= ol.skip(oi as int + 1));
            }
            if ni < new_lines@.len() {
                assert(nrest[0] == nl[ni as int]);
                assert(nrest.drop_first() =~= nl.skip(ni as int + 1));
            }
        }
        if oi < old_lines.len() && ni < new_lines.len() {
            if old_lines[oi] == new_lines[ni] {
                proof {
                    assert(m == seq![(DiffLineType::Context, Some(oi as int + 1), orest[0])]
                        + spec_diff_from(orest.drop_first(), nrest.drop_first(), oi + 1, ni + 1));
                    assert(full.skip(out@.len() as int)[0] == m[0]);
                    assert(full.skip(out@.len() as int).drop_first() =~= full.skip(
                        out@.len() as int + 1,
                    ));
                    assert(m.drop_first() =~= spec_diff_from(
                        orest.drop_first(),
                        nrest.drop_first(),
                        oi + 1,
                        ni + 1,
                    ));
                    assert(full[out@.len() as int] == (
                        DiffLineType::Context,
                        Some(oi as int + 1),
                        orest[0],
                    ));
                }
                out.push(
                    DiffLine {
                        line_type: DiffLineType::Context,
                        line_number: Some(oi + 1),
                        content: old_lines[oi].clone(),
                    },
                );
                oi = oi + 1;
                ni = ni + 1;
            } else {
                proof {
                    assert(m == seq![
                        (DiffLineType::Removed, Some(oi as int + 1), orest[0]),
                        (DiffLineType::Added, Some(ni as int + 1), nrest[0]),
                    ] + spec_diff_from(orest.drop_first(), nrest.drop_first(), oi + 1, ni + 1));
                    assert(full.skip(out@.len() as int)[0] == full[out@.len() as int]);
                    assert(full.skip(out@.len() as int)[1] == full[out@.len() as int + 1]);
                    assert(m[0] == (DiffLineType::Removed, Some(oi as int + 1), orest[0]));
                    assert(m[1] == (DiffLineType::Added, Some(ni as int + 1), nrest[0]));
                    assert(full[out@.len() as int] == (
                        DiffLineType::Removed,
                        Some(oi as int + 1),
                        orest[0],
                    ));
                    assert(full[out@.len() as int + 1] == (
                        DiffLineType::Added,
                        Some(ni as int + 1),
                        nrest[0],
                    ));
                    assert(full.skip(out@.len() as int).skip(2) =~= full.skip(out@.len() as int + 2));
                    assert(m.skip(2) =~= spec_diff_from(
                        orest.drop_first(),
                        nrest.drop_first(),
                        oi + 1,
                        ni + 1,
                    ));
                }
                out.push(
                    DiffLine {
                        line_type: DiffLineType::Removed,
                        line_number: Some(oi + 1),
                        content: old_lines[oi].clone(),
                    },
                );
                out.push(
                    DiffLine {
                        line_type: DiffLineType::Added,
                        line_number: Some(ni + 1),
                        content: new_lines[ni].clone(),
                    },
                );
                oi = oi + 1;
                ni = ni + 1;
            }
        } else if oi < old_lines.len() {
            proof {
                assert(nrest =~= Seq::<Seq<char>>::empty());
                assert(m == seq![(DiffLineType::Removed, Some(oi as int + 1), orest[0])]
                    + spec_diff_from(orest.drop_first(), nrest, oi + 1, ni as int));
                assert(full.skip(out@.len() as int)[0] == full[out@.len() as int]);
                assert(m[0] == (DiffLineType::Removed, Some(oi as int + 1), orest[0]));
                assert(full[out@.len() as int] == (
                    DiffLineType::Removed,
                    Some(oi as int + 1),
                    orest[0],
                ));
                assert(full.skip(out@.len() as int).drop_first() =~= full.skip(out@.len() as int + 1));
                assert(m.drop_first() =~= spec_diff_from(orest.drop_first(), nrest, oi + 1, ni as int));
            }
            out.push(
                DiffLine {
                    line_type: DiffLineType::Removed,
                    line_number: Some(oi + 1),
                    content: old_lines[oi].clone(),
                },
            );
            oi = oi + 1;
        } else {
            proof {
                assert(orest =~= Seq::<Seq<char>>::empty());
                assert(m == seq![(DiffLineType::Added, Some(ni as int + 1), nrest[0])]
                    + spec_diff_from(orest, nrest.drop_first(), oi as int, ni + 1));
                assert(full.skip(out@.len() as int)[0] == full[out@.len() as int]);
                assert(m[0] == (DiffLineType::Added, Some(ni as int + 1), nrest[0]));
                assert(full[out@.len() as int] == (
                    DiffLineType::Added,
                    Some(ni as int + 1),
                    nrest[0],
                ));
                assert(full.skip(out@.len() as int).drop_first() =~= full.skip(out@.len() as int + 1));
                assert(m.drop_first() =~= spec_diff_from(orest, nrest.drop_first(), oi as int, ni + 1));
            }
            out.push(
                DiffLine {
                    line_type: DiffLineType::Added,
                    line_number: Some(ni + 1),
                    content: new_lines[ni].clone(),
                },
            );
            ni = ni + 1;
        }
    }
    proof {
        assert(ol.skip(old_lines@.len() as int) =~= Seq::<Seq<char>>::empty());
        assert(nl.skip(new_lines@.len() as int) =~= Seq::<Seq<char>>::empty());
        assert(spec_diff_from(
            ol.skip(oi as int),
            nl.skip(ni as int),
            oi as int,
            ni as int,
        ) =~= Seq::<(DiffLineType, Option<int>, Seq<char>)>::empty());
        assert(full.skip(out@.len() as int).len() == 0);
        assert(out@.len() == full.len());
    }
    out
}

/// The status an artifact derives from its contents and records: created
/// when nothing is on disk, deleted when nothing is expected, modified when
/// any record adds or removes a line, unchanged otherwise.
pub open spec fn spec_diff_status(
    cur: Seq<char>,
    exp: Seq<char>,
    ms: Seq<(DiffLineType, Option<int>, Seq<char>)>,
) -> DiffStatus {
    if cur.len() == 0 {
        DiffStatus::Created
    } else if exp.len() == 0 {
        DiffStatus::Deleted
    } else if exists|i: int|
        0 <= i < ms.len() && ((#[trigger] ms[i]).0 == DiffLineType::Added || ms[i].0
            == DiffLineType::Removed) {
        DiffStatus::Modified
    } else {
        DiffStatus::Unchanged
    }
}

/// Compare one artifact's current content against its expected content.
///
/// The records are the aligned line diff; the status derives from them:
/// empty current content reads as created, empty expected content as
/// deleted, any added or removed record as modified, and anything else as
/// unchanged.
pub fn diff_file(path: String, current: &str, expected: &str) -> (r: FileDiff)
    ensures
        r.path == path,
        spec_lines_match(r.lines@, spec_diff(current@, expected@)),
        r.status == spec_diff_status(current@, expected@, spec_diff(current@, expected@)),
{
    let lines = compute_diff(current, expected, 3);
    let ghost ms = spec_diff(current@, expected@);
    let mut has_change = false;
    let mut i: usize = 0;
    while i < lines.len()
        invariant
            i <= lines@.len(),
            spec_lines_match(lines@, ms),
            has_change == exists|k: int|
                0 <= k < i && ((#[trigger] ms[k]).0 == DiffLineType::Added || ms[k].0
                    == DiffLineType::Removed),
        decreases lines@.len() - i,
    {
        let is_change = match lines[i].line_type {
            DiffLineType::Added => true,
            DiffLineType::Removed => true,
            _ => false,
        };
        proof {
            assert(spec_line_matches(lines@[i as int], ms[i as int]));
            if is_change {
                assert(ms[i as int].0 == DiffLineType::Added || ms[i as int].0
                    == DiffLineType::Removed);
            }
        }
        has_change = has_change || is_change;
        i = i + 1;
    }
    let status = if current.is_empty() {
        DiffStatus::Created
    } else if expected.is_empty() {
        DiffStatus::Deleted
    } else if has_change {
        DiffStatus::Modified
    } else {
        DiffStatus::Unchanged
    };
    FileDiff { path, status, lines }
}

/// The files of `files` that `expected` does not hold, in order, compared
/// as text.
pub open spec fn spec_orphans(files: Seq<String>, expected: Seq<String>) -> Seq<String>
    decreases files.len(),
{
    if files.len() == 0 {
        Seq::<String>::empty()
    } else {
        let rest = spec_orphans(files.drop_first(), expected);
        if !spec_contains_text(expected, files[0]@) {
            seq![files[0]] + rest
        } else {
            rest
        }
    }
}

/// Appending one file extends the orphan list exactly when the file is not
/// expected.
proof fn lemma_orphans_snoc(files: Seq<String>, x: String, expected: Seq<String>)
    ensures
        spec_orphans(files.push(x), expected) == spec_orphans(files, expected) + (
        if !spec_contains_text(expected, x@) {
            seq![x]
        } else {
            Seq::<String>::empty()
        }),
    decreases files.len(),
{
    let ghost tail = if !spec_contains_text(expected, x@) {
        seq![x]
    } else {
        Seq::<String>::empty()
    };
    if files.len() == 0 {
        assert(files.push(x)[0] == x);
        assert(files.push(x).drop_first() =~= files);
        assert(spec_orphans(files, expected) == Seq::<String>::empty());
        assert(spec_orphans(files.push(x), expected) =~= spec_orphans(files, expected) + tail);
    } else {
        assert(files.push(x).drop_first() =~= files.drop_first().push(x));
        lemma_orphans_snoc(files.drop_first(), x, expected);
        assert(files.push(x)[0] == files[0]);
        assert(spec_orphans(files, expected) == if !spec_contains_text(expected, files[0]@) {
            seq![files[0]] + spec_orphans(files.drop_first(), expected)
        } else {
            spec_orphans(files.drop_first(), expected)
        });
        assert(spec_orphans(files.push(x), expected) == if !spec_contains_text(
            expected,
            files[0]@,
        ) {
            seq![files[0]] + spec_orphans(files.drop_first().push(x), expected)
        } else {
            spec_orphans(files.drop_first().push(x), expected)
        });
        assert(spec_orphans(files.push(x), expected) =~= spec_orphans(files, expected) + tail);
    }
}

/// Find the orphaned files: those present on disk that the expected set does
/// not hold, in their on-disk order.
pub fn find_orphans(disk_files: &Vec<String>, expected: &Vec<String>) -> (r: Vec<String>)
    ensures
        r@ == spec_orphans(disk_files@, expected@),
{
    let mut out: Vec<String> = Vec::new();
    let mut i: usize = 0;
    proof {
        assert(disk_files@.take(0) =~= Seq::<String>::empty());
    }
    while i < disk_files.len()
        invariant
            i <= disk_files@.len(),
            out@ == spec_orphans(disk_files@.take(i as int), expected@),
        decreases disk_files@.len() - i,
    {
        proof {
            lemma_orphans_snoc(disk_files@.take(i as int), disk_files@[i as int], expected@);
            assert(disk_files@.take(i as int).push(disk_files@[i as int]) =~= disk_files@.take(
                i + 1,
            ));
        }
        if !contains_text(expected, disk_files[i].as_str()) {
            out.push(disk_files[i].clone());
            proof {
                assert(out@ =~= spec_orphans(disk_files@.take(i as int), expected@) + seq![
                    disk_files@[i as int],
                ]);
            }
        } else {
            proof {
                assert(out@ =~= spec_orphans(disk_files@.take(i as int), expected@)
                    + Seq::<String>::empty());
            }
        }
        i = i + 1;
    }
    proof {
        assert(disk_files@.take(disk_files@.len() as int) =~= disk_files@);
    }
    out
}

/// Orphan detection law: a file is an orphan exactly when it is on disk and
/// not expected; in particular, of on-disk files {A, B, C} with expected
/// {A, B}, exactly the files outside the expected set come back.
pub proof fn lemma_orphan_detection(files: Seq<String>, expected: Seq<String>)
    ensures
        forall|i: int|
            0 <= i < spec_orphans(files, expected).len() ==> !spec_contains_text(
                expected,
                (#[trigger] spec_orphans(files, expected)[i])@,
            ),
        forall|i: int|
            0 <= i < files.len() && !spec_contains_text(expected, (#[trigger] files[i])@)
                ==> spec_orphans(files, expected).contains(files[i]),
        forall|i: int|
            0 <= i < spec_orphans(files, expected).len() ==> files.contains(
                #[trigger] spec_orphans(files, expected)[i],
            ),
    decreases files.len(),
{
    if files.len() == 0 {
    } else {
        lemma_orphan_detection(files.drop_first(), expected);
        let rest = spec_orphans(files.drop_first(), expected);
        let whole = spec_orphans(files, expected);
        assert forall|i: int|
            0 <= i < files.len() && !spec_contains_text(expected, (#[trigger] files[i])@)
                implies whole.contains(files[i]) by {
            if i == 0 {
                assert(whole[0] == files[0]);
            } else {
                assert(files.drop_first()[i - 1] == files[i]);
                assert(rest.contains(files[i]));
                let j = choose|j: int| 0 <= j < rest.len() && rest[j] == files[i];
                if !spec_contains_text(expected, files[0]@) {
                    assert(whole[j + 1] == rest[j]);
                } else {
                    assert(whole[j] == rest[j]);
                }
            }
        }
        assert forall|i: int| 0 <= i < whole.len() implies files.contains(#[trigger] whole[i]) by {
            if !spec_contains_text(expected, files[0]@) {
                if i == 0 {
                    assert(files[0] == whole[0]);
                    assert(files.contains(files[0]));
                } else {
                    assert(whole[i] == rest[i - 1]);
                    assert(files.drop_first().contains(rest[i - 1]));
                    let j = choose|j: int|
                        0 <= j < files.drop_first().len() && files.drop_first()[j] == rest[i - 1];
                    assert(files[j + 1] == rest[i - 1]);
                }
            } else {
                assert(whole[i] == rest[i]);
                assert(files.drop_first().contains(rest[i]));
                let j = choose|j: int|
                    0 <= j < files.drop_first().len() && files.drop_first()[j] == rest[i];
                assert(files[j + 1] == rest[i]);
            }
        }
        assert forall|i: int| 0 <= i < whole.len() implies !spec_contains_text(
            expected,
            (#[trigger] whole[i])@,
        ) by {
            if !spec_contains_text(expected, files[0]@) {
                if i > 0 {
                    assert(whole[i] == rest[i - 1]);
                }
            } else {
                assert(whole[i] == rest[i]);
            }
        }
    }
}

/// Diff idempotence law: comparing any non-empty content against itself
/// yields only context records, and the derived status is unchanged.
pub proof fn lemma_diff_idempotence(content: Seq<char>)
    requires
        content.len() > 0,
    ensures
        forall|i: int|
            0 <= i < spec_diff(content, content).len() ==> (#[trigger] spec_diff(
                content,
                content,
            )[i]).0 == DiffLineType::Context,
        spec_diff(content, content).len() == spec_lines(content).len(),
        spec_diff_status(content, content, spec_diff(content, content)) == DiffStatus::Unchanged,
{
    lemma_diff_from_identical(spec_lines(content), 0);
    let ms = spec_diff(content, content);
    assert forall|i: int| 0 <= i < ms.len() implies !((#[trigger] ms[i]).0 == DiffLineType::Added
        || ms[i].0 == DiffLineType::Removed) by {
        assert(ms[i].0 == DiffLineType::Context);
    }
}

/// The expected ignore-file body of the container-configuration tree used
/// by reconciliation.
pub const DIFF_DEVCONTAINER_GITIGNORE: &'static str =
    ".assistant/\nsettings.json\n.omc/\n.vscode/\n.idea/\n";

/// The expected ignore-file body of the workspace used by reconciliation.
pub const DIFF_PROJECT_GITIGNORE: &'static str = ".assistant/\n.vscode/\n.idea/\n.DS_Store\n";

/// The expected ignore-file body of the container-configuration tree.
pub fn generate_devcontainer_gitignore() -> (r: String)
    ensures
        r@ == DIFF_DEVCONTAINER_GITIGNORE@,
{
    DIFF_DEVCONTAINER_GITIGNORE.to_owned()
}

/// The expected ignore-file body of the workspace.
pub fn generate_project_gitignore() -> (r: String)
    ensures
        r@ == DIFF_PROJECT_GITIGNORE@,
{
    DIFF_PROJECT_GITIGNORE.to_owned()
}

/// The expected build file used by reconciliation: base image and the fixed
/// minimal steps.
pub const DIFF_DOCKERFILE_TAIL: &'static str =
    "\nFROM ${BASE_IMAGE}\n\nARG USERNAME=user\nARG USER_UID=1000\nARG USER_GID=1000\n\nENV DEBIAN_FRONTEND=noninteractive\n\nRUN apt-get update && apt-get install -y \\\n    curl \\\n    git \\\n    && rm -rf /var/lib/apt/lists/*\n\nWORKDIR /workspaces\n\nUSER ${USERNAME}\n";

/// The expected build file for a configuration.
pub fn generate_dockerfile(config: &crate::config::Config) -> (r: Result<String, Error>)
    ensures
        r matches Ok(s) && s@ == "ARG BASE_IMAGE="@ + config.spec_v0_1().docker.image@
            + DIFF_DOCKERFILE_TAIL@,
{
    let mut out = "ARG BASE_IMAGE=".to_owned();
    out.append(config.docker_image());
    out.append(DIFF_DOCKERFILE_TAIL);
    Ok(out)
}

/// The expected guidance summary for a configuration.
pub fn generate_assistant_md(config: &crate::config::Config) -> (r: Result<String, Error>)
    ensures
        r matches Ok(s) && s@ == "# Assistant Configuration for "@ + config.name@
            + "\n\n## Project Overview\n\n**"@ + config.name@ + "** - Schema Version "@ + "0.1"@
            + "\n\nDocker Image: "@ + config.spec_v0_1().docker.image@ + "\nAssistant Provider: "@
            + config.spec_v0_1().assistant.provider@ + "\n"@,
{
    let mut out = "# Assistant Configuration for ".to_owned();
    out.append(config.name.as_str());
    out.append("\n\n## Project Overview\n\n**");
    out.append(config.name.as_str());
    out.append("** - Schema Version ");
    out.append(config.version.as_str());
    out.append("\n\nDocker Image: ");
    out.append(config.docker_image());
    out.append("\nAssistant Provider: ");
    out.append(config.assistant_provider());
    out.append("\n");
    Ok(out)
}

/// The expected README for a configuration.
pub const DIFF_README_TAIL: &'static str =
    "\n\nThis project was created using the Isolde devcontainer template system.\n\n## Getting Started\n\n1. Open this project in VS Code\n2. Reopen in Container when prompted\n";

/// The expected workspace README for a configuration.
pub fn generate_readme(config: &crate::config::Config) -> (r: Result<String, Error>)
    ensures
        r matches Ok(s) && s@ == "# "@ + config.name@ + DIFF_README_TAIL@,
{
    let mut out = "# ".to_owned();
    out.append(config.name.as_str());
    out.append(DIFF_README_TAIL);
    Ok(out)
}

/// The expected minimal container descriptor for a configuration.
pub const DIFF_DEVCONTAINER_PREFIX: &'static str =
    "{\n  \"build\": {\n    \"context\": \"..\",\n    \"dockerfile\": \"Dockerfile\"\n  },\n  \"features\": {\n    \"ghcr.io/devcontainers/features/common-utils:2\": {\n      \"installOhMyZsh\": false,\n      \"installZsh\": false,\n      \"upgradePackages\": false\n    }\n  },\n  \"name\": \"";

/// The expected minimal container descriptor for a configuration.
pub fn generate_devcontainer_json(config: &crate::config::Config) -> (r: Result<String, Error>)
    ensures
        r matches Ok(s) && s@ == DIFF_DEVCONTAINER_PREFIX@ + crate::text::spec_json_escaped(
            config.name@,
        ) + " - Isolde Environment\"\n}"@,
{
    let mut out = DIFF_DEVCONTAINER_PREFIX.to_owned();
    let escaped = crate::text::json_escape(config.name.as_str());
    out.append(escaped.as_str());
    out.append(" - Isolde Environment\"\n}");
    Ok(out)
}

/// The expected content of a named artifact: the descriptor, build file,
/// guidance summary, ignore file (workspace or container-configuration,
/// depending on where the artifact lives) or README; any other name has no
/// expected content.
pub fn generate_expected_content(
    file_name: &str,
    in_devcontainer: bool,
    config: &crate::config::Config,
) -> (r: Result<String, Error>)
    ensures
        r is Ok,
        file_name@ == "devcontainer.json"@ ==> r->Ok_0@ == DIFF_DEVCONTAINER_PREFIX@
            + crate::text::spec_json_escaped(config.name@) + " - Isolde Environment\"\n}"@,
        file_name@ == "Dockerfile"@ ==> r->Ok_0@ == "ARG BASE_IMAGE="@
            + config.spec_v0_1().docker.image@ + DIFF_DOCKERFILE_TAIL@,
        file_name@ == ".gitignore"@ && in_devcontainer ==> r->Ok_0@
            == DIFF_DEVCONTAINER_GITIGNORE@,
        file_name@ == ".gitignore"@ && !in_devcontainer ==> r->Ok_0@ == DIFF_PROJECT_GITIGNORE@,
        file_name@ == "README.md"@ ==> r->Ok_0@ == "# "@ + config.name@ + DIFF_README_TAIL@,
{
    proof {
        reveal_strlit("devcontainer.json");
        reveal_strlit("Dockerfile");
        reveal_strlit("ASSISTANT.md");
        reveal_strlit(".gitignore");
        reveal_strlit("README.md");
        assert("devcontainer.json"@.len() == 17);
        assert("Dockerfile"@.len() == 10);
        assert("ASSISTANT.md"@.len() == 12);
        assert(".gitignore"@.len() == 10);
        assert("README.md"@.len() == 9);
        assert("Dockerfile"@[0] != ".gitignore"@[0]);
        assert("ASSISTANT.md"@[0] != "README.md"@[0]);
    }
    if str_eq(file_name, "devcontainer.json") {
        generate_devcontainer_json(config)
    } else if str_eq(file_name, "Dockerfile") {
        generate_dockerfile(config)
    } else if str_eq(file_name, "ASSISTANT.md") {
        generate_assistant_md(config)
    } else if str_eq(file_name, ".gitignore") {
        if in_devcontainer {
            Ok(generate_devcontainer_gitignore())
        } else {
            Ok(generate_project_gitignore())
        }
    } else if str_eq(file_name, "README.md") {
        generate_readme(config)
    } else {
        Ok(String::new())
    }
}

/// The aligned diff of a line sequence against itself is all context.
proof fn lemma_diff_from_identical(l: Seq<Seq<char>>, o: int)
    ensures
        spec_diff_from(l, l, o, o).len() == l.len(),
        forall|i: int|
            0 <= i < l.len() ==> (#[trigger] spec_diff_from(l, l, o, o)[i]).0
                == DiffLineType::Context,
    decreases l.len(),
{
    if l.len() == 0 {
    } else {
        lemma_diff_from_identical(l.drop_first(), o + 1);
        let whole = spec_diff_from(l, l, o, o);
        let rest = spec_diff_from(l.drop_first(), l.drop_first(), o + 1, o + 1);
        assert(whole == seq![(DiffLineType::Context, Some(o + 1), l[0])] + rest);
        assert forall|i: int| 0 <= i < l.len() implies (#[trigger] whole[i]).0
            == DiffLineType::Context by {
            if i > 0 {
                assert(whole[i] == rest[i - 1]);
            }
        }
    }
}

} // verus!
