//! Reading ripgrep's JSON output (`rg --json`): the matches it reports, up
//! to a limit, with their paths shown relative to the workspace.
use vstd::prelude::*;

use crate::json::{json_as_str, json_as_u64, json_get, json_member, json_string, json_unsigned};
use crate::paths::{display_relative_path, relative_or, remainder_text, strip_path_prefix};
use crate::text::{chars_of, str_eq, string_from_chars, trim_end, trimmed_end};
use crate::tools::{split_lines, text_lines};

verus! {

/// A line of text that ripgrep matched.
#[derive(Debug)]
pub struct RipgrepMatch {
    pub path: String,
    pub line: u64,
    pub text: String,
}

/// A match as the contracts see it.
pub struct MatchView {
    pub path: Seq<char>,
    pub line: u64,
    pub text: Seq<char>,
}

impl View for RipgrepMatch {
    type V = MatchView;

    open spec fn view(&self) -> MatchView {
        MatchView { path: self.path@, line: self.line, text: self.text@ }
    }
}

/// The string at member `inner` of member `outer` of the JSON object
/// `doc`, or the empty string when there is none.
pub open spec fn nested_string(doc: Seq<char>, outer: Seq<char>, inner: Seq<char>) -> Seq<char> {
    match json_member(doc, outer) {
        Some(v) => match json_member(v, inner) {
            Some(w) => match json_string(w) {
                Some(s) => s,
                None => Seq::empty(),
            },
            None => Seq::empty(),
        },
        None => Seq::empty(),
    }
}

/// The path ripgrep reported, taken relative to the searched `target` when
/// it lies under it (as `target.join(path).strip_prefix(target)` gives it
/// for the absolute paths ripgrep reports), and then shown relative to the
/// workspace root.
pub open spec fn shown_path(root: Seq<char>, target: Seq<char>, path: Seq<char>) -> Seq<char> {
    let rel = if path.len() > 0 && path[0] == '/' && remainder_text(path, target) is Some {
        remainder_text(path, target).unwrap()
    } else {
        path
    };
    relative_or(root, rel, rel)
}

/// The match a line of ripgrep's output reports: a JSON object whose `type`
/// is `match`, with its `data` (an empty object when absent) giving the
/// path (`path.text`), the line number (`line_number`, 0 when absent) and
/// the line (`lines.text`, without trailing white space).
pub open spec fn line_match(root: Seq<char>, target: Seq<char>, line: Seq<char>) -> Option<MatchView> {
    match json_member(line, "type"@) {
        Some(t) => if json_string(t) == Some("match"@) {
            let data = match json_member(line, "data"@) {
                Some(d) => d,
                None => "{}"@,
            };
            Some(
                MatchView {
                    path: shown_path(root, target, nested_string(data, "path"@, "text"@)),
                    line: match json_member(data, "line_number"@) {
                        Some(n) => match json_unsigned(n) {
                            Some(u) => u,
                            None => 0,
                        },
                        None => 0,
                    },
                    text: trim_end(nested_string(data, "lines"@, "text"@)),
                },
            )
        } else {
            None
        },
        None => None,
    }
}

/// The matches of `lines` from line `i` on, after `found`: lines are read
/// until `max` matches are found, and the result is truncated when a line
/// is left at that point.
pub open spec fn matches_from(
    root: Seq<char>,
    target: Seq<char>,
    lines: Seq<Seq<char>>,
    i: int,
    found: Seq<MatchView>,
    max: nat,
) -> (Seq<MatchView>, bool)
    decreases lines.len() - i,
{
    if i < 0 || i >= lines.len() {
        (found, false)
    } else if found.len() >= max {
        (found, true)
    } else {
        match line_match(root, target, lines[i]) {
            Some(m) => matches_from(root, target, lines, i + 1, found.push(m), max),
            None => matches_from(root, target, lines, i + 1, found, max),
        }
    }
}

/// The views of a list of matches.
pub open spec fn matches_view(v: Seq<RipgrepMatch>) -> Seq<MatchView> {
    v.map_values(|m: RipgrepMatch| m@)
}

fn nested_string_of(doc: &str, outer: &str, inner: &str) -> (r: String)
    ensures
        r@ == nested_string(doc@, outer@, inner@),
{
    match json_get(doc, outer) {
        Some(v) => match json_get(v.as_str(), inner) {
            Some(w) => match json_as_str(w.as_str()) {
                Some(s) => s,
                None => String::new(),
            },
            None => String::new(),
        },
        None => String::new(),
    }
}

fn shown_path_of(root: &str, target: &str, path: &str) -> (r: String)
    ensures
        r@ == shown_path(root@, target@, path@),
{
    let chars = chars_of(path);
    let rel = if chars.len() > 0 && chars[0] == '/' {
        match strip_path_prefix(path, target) {
            Some(rest) => rest,
            None => String::from_str(path),
        }
    } else {
        String::from_str(path)
    };
    display_relative_path(root, rel.as_str())
}

/// Reads one line of ripgrep's output.
pub fn parse_match_line(root: &str, target: &str, line: &str) -> (r: Option<RipgrepMatch>)
    ensures
        match line_match(root@, target@, line@) {
            Some(m) => r matches Some(x) && x@ == m,
            None => r is None,
        },
{
    let kind = match json_get(line, "type") {
        Some(t) => t,
        None => return None,
    };
    let is_match = match json_as_str(kind.as_str()) {
        Some(s) => str_eq(s.as_str(), "match"),
        None => false,
    };
    if !is_match {
        return None;
    }
    let data = match json_get(line, "data") {
        Some(d) => d,
        None => String::from_str("{}"),
    };
    let path_text = nested_string_of(data.as_str(), "path", "text");
    let line_number = match json_get(data.as_str(), "line_number") {
        Some(n) => match json_as_u64(n.as_str()) {
            Some(u) => u,
            None => 0,
        },
        None => 0,
    };
    let raw = nested_string_of(data.as_str(), "lines", "text");
    Some(
        RipgrepMatch {
            path: shown_path_of(root, target, path_text.as_str()),
            line: line_number,
            text: trimmed_end(raw.as_str()),
        },
    )
}

/// The matches in ripgrep's JSON output for a search of `target`, at most
/// `max_results` of them, and whether lines were left unread at the limit.
pub fn ripgrep_matches(root: &str, target: &str, output: &str, max_results: usize) -> (r: (
    Vec<RipgrepMatch>,
    bool,
))
    ensures
        (matches_view(r.0@), r.1) == matches_from(
            root@,
            target@,
            text_lines(output@),
            0,
            Seq::empty(),
            max_results as nat,
        ),
{
    let chars = chars_of(output);
    let lines = split_lines(chars.as_slice());
    let ghost ls = lines@.map_values(|w: Vec<char>| w@);
    let mut found: Vec<RipgrepMatch> = Vec::new();
    let mut i: usize = 0;
    proof {
        assert(matches_view(found@) =~= Seq::<MatchView>::empty());
    }
    while i < lines.len()
        invariant
            i <= lines.len(),
            ls == lines@.map_values(|w: Vec<char>| w@),
            ls == text_lines(output@),
            matches_from(root@, target@, ls, 0, Seq::empty(), max_results as nat) == matches_from(
                root@,
                target@,
                ls,
                i as int,
                matches_view(found@),
                max_results as nat,
            ),
        decreases lines.len() - i,
    {
        if found.len() >= max_results {
            return (found, true);
        }
        let text = string_from_chars(lines[i].as_slice());
        proof {
            assert(text@ == ls[i as int]);
        }
        match parse_match_line(root, target, text.as_str()) {
            Some(m) => {
                let ghost before = matches_view(found@);
                found.push(m);
                proof {
                    assert(matches_view(found@) =~= before.push(found@.last()@));
                }
            },
            None => {},
        }
        i = i + 1;
    }
    (found, false)
}

} // verus!
