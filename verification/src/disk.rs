use vstd::prelude::*;
use vstd::string::*;
use vstd::utf8::{decode_utf8, valid_utf8};
use crate::trusted::{first_capture, path_parent, spec_first_capture, spec_path_parent, utf8_string};

verus! {

/// `i` is where the first line feed of `s` stands, or the length of `s`
/// when it has none.
pub open spec fn is_first_newline(s: Seq<char>, i: int) -> bool {
    &&& 0 <= i <= s.len()
    &&& forall|k: int| 0 <= k < i ==> s[k] != '\n'
    &&& i < s.len() ==> s[i] == '\n'
}

/// A line with one carriage return removed from its end.
pub open spec fn strip_cr(line: Seq<char>) -> Seq<char> {
    if line.len() > 0 && line.last() == '\r' {
        line.drop_last()
    } else {
        line
    }
}

/// The lines of a text: split after each line feed, each line without its
/// line feed and without a carriage return just before it; a last line
/// without a line feed is kept as it is, and no empty line follows a final
/// line feed.
pub open spec fn spec_lines(s: Seq<char>) -> Seq<Seq<char>>
    decreases s.len(),
{
    if s.len() == 0 {
        Seq::empty()
    } else {
        let i = choose|i: int| is_first_newline(s, i);
        if 0 <= i < s.len() {
            seq![strip_cr(s.take(i))] + spec_lines(s.skip(i + 1))
        } else {
            seq![s]
        }
    }
}

/// No line of a text holds a line feed.
pub proof fn lemma_lines_hold_no_line_feed(s: Seq<char>)
    ensures
        forall|i: int, k: int| 0 <= i < spec_lines(s).len() && 0 <= k < spec_lines(s)[i].len()
            ==> #[trigger] spec_lines(s)[i][k] != '\n',
    decreases s.len(),
{
    if s.len() > 0 {
        if exists|k: int| 0 <= k < s.len() && s[k] == '\n' {
            let k = choose|k: int| 0 <= k < s.len() && s[k] == '\n';
            lemma_first_newline_exists(s, k);
        } else {
            assert(is_first_newline(s, s.len() as int));
        }
        let c = choose|i: int| is_first_newline(s, i);
        assert(is_first_newline(s, c));
        if 0 <= c < s.len() {
            let rest = s.skip(c + 1);
            lemma_lines_hold_no_line_feed(rest);
            let first = strip_cr(s.take(c));
            assert(spec_lines(s) == seq![first] + spec_lines(rest));
            assert forall|i: int, k: int| 0 <= i < spec_lines(s).len() && 0 <= k < spec_lines(s)[i].len()
                implies #[trigger] spec_lines(s)[i][k] != '\n' by {
                if i == 0 {
                    assert(spec_lines(s)[0] == first);
                    assert(first.len() <= c);
                    assert(first[k] == s[k]);
                } else {
                    assert(spec_lines(s)[i] == spec_lines(rest)[i - 1]);
                }
            }
        } else {
            assert(spec_lines(s) == seq![s]);
        }
    }
}

/// A text with a line feed at `k` has a first line feed.
proof fn lemma_first_newline_exists(s: Seq<char>, k: int)
    requires
        0 <= k < s.len(),
        s[k] == '\n',
    ensures
        exists|i: int| is_first_newline(s, i),
    decreases k,
{
    if forall|j: int| 0 <= j < k ==> s[j] != '\n' {
        assert(is_first_newline(s, k));
    } else {
        let j = choose|j: int| 0 <= j < k && s[j] == '\n';
        lemma_first_newline_exists(s, j);
    }
}

/// The lines as character sequences.
pub open spec fn lines_view(lines: Seq<String>) -> Seq<Seq<char>> {
    lines.map_values(|l: String| l@)
}

/// Splits `text` into its lines.
pub fn split_lines(text: &str) -> (lines: Vec<String>)
    ensures
        lines_view(lines@) == spec_lines(text@),
{
    let len = text.unicode_len();
    let mut lines: Vec<String> = Vec::new();
    let mut start: usize = 0;
    assert(text@.skip(0) =~= text@);
    while start < len
        invariant
            len == text@.len(),
            start <= len,
            lines_view(lines@) + spec_lines(text@.skip(start as int)) == spec_lines(text@),
        decreases len - start,
    {
        let ghost rest = text@.skip(start as int);
        let mut j = start;
        while j < len && text.get_char(j) != '\n'
            invariant
                len == text@.len(),
                start <= j <= len,
                forall|k: int| start <= k < j ==> text@[k] != '\n',
            decreases len - j,
        {
            j = j + 1;
        }
        let ghost m = (j - start) as int;
        proof {
            assert(is_first_newline(rest, m));
            let c = choose|i: int| is_first_newline(rest, i);
            assert(is_first_newline(rest, c));
            if c < m {
                assert(rest[c] == '\n');
                assert(text@[start + c] != '\n');
            } else if c > m {
                assert(rest[m] != '\n');
            }
            assert(c == m);
        }
        let ghost old_lines = lines@;
        if j < len {
            let end = if j > start && text.get_char(j - 1) == '\r' { j - 1 } else { j };
            let line = String::from_str(text.substring_char(start, end));
            assert(line@ =~= strip_cr(rest.take(m)));
            lines.push(line);
            assert(rest.skip(m + 1) =~= text@.skip(j + 1));
            assert(spec_lines(rest) == seq![strip_cr(rest.take(m))] + spec_lines(rest.skip(m + 1)));
            assert(lines_view(lines@) =~= lines_view(old_lines) + seq![strip_cr(rest.take(m))]);
            start = j + 1;
        } else {
            let line = String::from_str(text.substring_char(start, len));
            assert(line@ =~= rest);
            lines.push(line);
            assert(spec_lines(rest) == seq![rest]);
            assert(lines_view(lines@) =~= lines_view(old_lines) + seq![rest]);
            assert(text@.skip(len as int) =~= Seq::<char>::empty());
            start = len;
        }
    }
    assert(text@.skip(start as int) =~= Seq::<char>::empty());
    assert(lines_view(lines@) + Seq::<Seq<char>>::empty() =~= lines_view(lines@));
    lines
}

/// The lines of the output of `blkid`, one per partition; no lines when the
/// output is not valid UTF-8.
pub fn blkid_lines(stdout: Vec<u8>) -> (lines: Vec<String>)
    ensures
        valid_utf8(stdout@) ==> lines_view(lines@) == spec_lines(decode_utf8(stdout@)),
        !valid_utf8(stdout@) ==> lines@.len() == 0,
{
    match utf8_string(stdout) {
        Some(text) => split_lines(text.as_str()),
        None => Vec::new(),
    }
}

/// The partition the user picked from a list, or another kind of answer.
pub enum Answer {
    /// The picked entry of the list.
    ListItem(String),
    /// Any answer that is not a list entry.
    Other,
}

/// The pattern that finds a filesystem UUID (`uuid`) or a partition UUID.
pub open spec fn spec_uuid_pattern(uuid: bool) -> Seq<char> {
    if uuid {
        "UUID=\"(.*?)\""@
    } else {
        "PARTUUID=\"(.*?)\""@
    }
}

/// The text found, or `NULL` when nothing was found.
pub open spec fn spec_or_null(capture: Option<Seq<char>>) -> Seq<char> {
    match capture {
        Some(c) => c,
        None => "NULL"@,
    }
}

/// The UUID that `get_uuid` gives for an answer.
pub open spec fn spec_uuid(value: Answer, uuid: bool) -> Seq<char> {
    match value {
        Answer::ListItem(text) => spec_or_null(spec_first_capture(spec_uuid_pattern(uuid), text@)),
        Answer::Other => "NULL"@,
    }
}

/// The text found, or `NULL` when nothing was found.
pub fn uuid_or_null(capture: Option<String>) -> (res: String)
    ensures
        res@ == spec_or_null(match capture { Some(c) => Some(c@), None => None }),
{
    match capture {
        Some(c) => c,
        None => String::from_str("NULL"),
    }
}

/// The filesystem UUID (when `uuid` is set) or the partition UUID of the
/// partition picked in `value`: the quoted text after `UUID=` or
/// `PARTUUID=` in its `blkid` line, or `NULL`.
pub fn get_uuid(value: Answer, uuid: bool) -> (res: String)
    ensures
        res@ == spec_uuid(value, uuid),
        value matches Answer::ListItem(text) ==> res@ == spec_or_null(spec_first_capture(
            if uuid { "UUID=\"(.*?)\""@ } else { "PARTUUID=\"(.*?)\""@ },
            text@,
        )),
        value is Other ==> res@ == "NULL"@,
{
    match value {
        Answer::ListItem(text) => {
            let pattern = if uuid { "UUID=\"(.*?)\"" } else { "PARTUUID=\"(.*?)\"" };
            uuid_or_null(first_capture(pattern, text.as_str()))
        },
        Answer::Other => String::from_str("NULL"),
    }
}

/// Whether the builder runs from a directory directly under `/mnt`.
pub fn is_valid_workdir(dir: &str) -> (res: bool)
    ensures
        res == (spec_path_parent(dir@) == Some("/mnt"@)),
{
    match path_parent(dir) {
        Some(p) => {
            let mnt = String::from_str("/mnt");
            p == mnt
        },
        None => false,
    }
}

/// The UUID of a picked partition is the first capture of the lazy
/// quoted-text pattern after `UUID="` (filesystem UUID) or `PARTUUID="`
/// (partition UUID) in its line, whatever characters the line holds, and
/// `NULL` when there is no capture; an answer that is not a list entry
/// gives `NULL`. A text that is captured is handed back unchanged.
pub proof fn lemma_uuid_is_quoted_capture(text: String, uuid: bool)
    ensures
        spec_uuid(Answer::ListItem(text), true) == spec_or_null(spec_first_capture("UUID=\"(.*?)\""@, text@)),
        spec_uuid(Answer::ListItem(text), false) == spec_or_null(spec_first_capture("PARTUUID=\"(.*?)\""@, text@)),
        spec_uuid(Answer::Other, uuid) == "NULL"@,
        spec_first_capture(spec_uuid_pattern(uuid), text@) matches Some(c)
            ==> spec_uuid(Answer::ListItem(text), uuid) == c,
{
}

} // verus!
