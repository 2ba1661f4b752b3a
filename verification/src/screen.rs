//! Flattening a rendered terminal frame into snapshot text.

use vstd::prelude::*;

use crate::config::{join_strings, joined, string_views};

verus! {

/// Unicode `White_Space`, the definition `str::trim_end` uses.
pub open spec fn is_white_space(c: char) -> bool {
    let u = c as u32;
    ||| 9 <= u <= 13
    ||| u == 32
    ||| u == 0x85
    ||| u == 0xA0
    ||| u == 0x1680
    ||| 0x2000 <= u <= 0x200A
    ||| u == 0x2028
    ||| u == 0x2029
    ||| u == 0x202F
    ||| u == 0x205F
    ||| u == 0x3000
}

/// `s` without its trailing white space.
pub open spec fn trimmed_end(s: Seq<char>) -> Seq<char>
    decreases s.len(),
{
    if s.len() > 0 && is_white_space(s.last()) {
        trimmed_end(s.drop_last())
    } else {
        s
    }
}

/// Whether `c` is Unicode white space.
pub fn is_white_space_char(c: char) -> (b: bool)
    ensures
        b == is_white_space(c),
{
    let u: u32 = c as u32;
    (9 <= u && u <= 13) || u == 32 || u == 0x85 || u == 0xA0 || u == 0x1680 || (0x2000 <= u && u
        <= 0x200A) || u == 0x2028 || u == 0x2029 || u == 0x202F || u == 0x205F || u == 0x3000
}

/// The slice without its trailing Unicode white space.
pub fn trim_end(s: &str) -> (r: &str)
    ensures
        r@ == trimmed_end(s@),
{
    let n: usize = s.unicode_len();
    let mut end: usize = n;
    assert(s@.subrange(0, n as int) =~= s@);
    while end > 0 && is_white_space_char(s.get_char(end - 1))
        invariant
            end <= n,
            n == s@.len(),
            trimmed_end(s@) == trimmed_end(s@.subrange(0, end as int)),
        decreases end,
    {
        let ghost cur = s@.subrange(0, end as int);
        assert(cur.drop_last() =~= s@.subrange(0, end - 1));
        end = end - 1;
    }
    s.substring_char(0, end)
}

/// `lines` without the empty lines at its end.
pub open spec fn without_trailing_blank(lines: Seq<Seq<char>>) -> Seq<Seq<char>>
    decreases lines.len(),
{
    if lines.len() > 0 && lines.last().len() == 0 {
        without_trailing_blank(lines.drop_last())
    } else {
        lines
    }
}

/// A frame as snapshot text: each row with trailing white space removed,
/// trailing blank rows dropped, rows joined by newlines.
pub open spec fn flattened(rows: Seq<Seq<char>>) -> Seq<char> {
    joined(without_trailing_blank(rows.map_values(|r: Seq<char>| trimmed_end(r))), "\n"@)
}

/// Flatten the rows of a rendered frame into snapshot-friendly text, so
/// that layout drift in unused regions does not change snapshots.
pub fn flatten_rows(rows: &Vec<String>) -> (r: String)
    ensures
        r@ == flattened(string_views(rows@)),
{
    let ghost target = string_views(rows@).map_values(|r: Seq<char>| trimmed_end(r));
    let mut lines: Vec<String> = Vec::new();
    let mut i: usize = 0;
    while i < rows.len()
        invariant
            i <= rows.len(),
            target == string_views(rows@).map_values(|r: Seq<char>| trimmed_end(r)),
            string_views(lines@) == target.take(i as int),
        decreases rows.len() - i,
    {
        assert(string_views(rows@)[i as int] == rows@[i as int]@);
        assert(target[i as int] == trimmed_end(rows@[i as int]@));
        let t = trim_end(rows[i].as_str());
        let ghost before = string_views(lines@);
        let line = String::from_str(t);
        assert(line@ == target[i as int]);
        lines.push(line);
        assert(string_views(lines@) =~= before.push(target[i as int]));
        assert(target.take(i + 1) =~= target.take(i as int).push(target[i as int]));
        i = i + 1;
    }
    assert(target.take(rows.len() as int) =~= target);
    while lines.len() > 0 && lines[lines.len() - 1].as_str().is_empty()
        invariant
            without_trailing_blank(string_views(lines@)) == without_trailing_blank(target),
        decreases lines.len(),
    {
        let ghost before = string_views(lines@);
        lines.pop();
        assert(string_views(lines@) =~= before.drop_last());
    }
    join_strings(&lines, "\n")
}

/// Trimming removes trailing white space and nothing else: the result is
/// the prefix of `s` of some length `k`, every character after it is white
/// space, and the last character kept is not.
pub proof fn law_trim_end_keeps_a_prefix(s: Seq<char>) -> (k: int)
    ensures
        0 <= k <= s.len(),
        trimmed_end(s) == s.take(k),
        forall|j: int| k <= j < s.len() ==> is_white_space(#[trigger] s[j]),
        k > 0 ==> !is_white_space(s[k - 1]),
    decreases s.len(),
{
    if s.len() > 0 && is_white_space(s.last()) {
        let k = law_trim_end_keeps_a_prefix(s.drop_last());
        assert(s.drop_last().take(k) =~= s.take(k));
        assert forall|j: int| k <= j < s.len() implies is_white_space(#[trigger] s[j]) by {
            if j < s.len() - 1 {
                assert(s.drop_last()[j] == s[j]);
            }
        }
        k
    } else {
        assert(s.take(s.len() as int) =~= s);
        s.len() as int
    }
}

/// Only blank rows at the end are dropped: the result is the prefix of
/// `lines` up to and including its last non-empty row, so every row before
/// that keeps its position, blank or not.
pub proof fn law_only_trailing_blank_rows_dropped(lines: Seq<Seq<char>>) -> (k: int)
    ensures
        0 <= k <= lines.len(),
        without_trailing_blank(lines) == lines.take(k),
        forall|j: int| k <= j < lines.len() ==> (#[trigger] lines[j]).len() == 0,
        k > 0 ==> lines[k - 1].len() > 0,
    decreases lines.len(),
{
    if lines.len() > 0 && lines.last().len() == 0 {
        let k = law_only_trailing_blank_rows_dropped(lines.drop_last());
        assert(lines.drop_last().take(k) =~= lines.take(k));
        assert forall|j: int| k <= j < lines.len() implies (#[trigger] lines[j]).len() == 0 by {
            if j < lines.len() - 1 {
                assert(lines.drop_last()[j] == lines[j]);
            }
        }
        k
    } else {
        assert(lines.take(lines.len() as int) =~= lines);
        lines.len() as int
    }
}

/// The snapshot text of a frame is its first `k` rows, each with trailing
/// white space removed, joined by newlines, where `k` is one past the last
/// row that holds anything but white space: blank rows above or between
/// content stay as empty lines.
pub proof fn law_flattened_keeps_rows_up_to_last_content(rows: Seq<Seq<char>>) -> (k: int)
    ensures
        0 <= k <= rows.len(),
        flattened(rows) == joined(rows.take(k).map_values(|r: Seq<char>| trimmed_end(r)), "\n"@),
        forall|j: int| k <= j < rows.len() ==> trimmed_end(#[trigger] rows[j]).len() == 0,
        k > 0 ==> trimmed_end(rows[k - 1]).len() > 0,
{
    let t = rows.map_values(|r: Seq<char>| trimmed_end(r));
    let k = law_only_trailing_blank_rows_dropped(t);
    assert(t.take(k) =~= rows.take(k).map_values(|r: Seq<char>| trimmed_end(r)));
    assert forall|j: int| k <= j < rows.len() implies trimmed_end(#[trigger] rows[j]).len() == 0 by {
        assert(t[j] == trimmed_end(rows[j]));
    }
    if k > 0 {
        assert(t[k - 1] == trimmed_end(rows[k - 1]));
    }
    k
}

} // verus!
