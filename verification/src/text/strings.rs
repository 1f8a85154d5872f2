use vstd::prelude::*;
use vstd::string::*;
use crate::text::scan::{lemma_scan, spec_in_class, spec_is_at, CharClass, Source};

verus! {

/// The character that an escape stands for: `n`, `r`, `t` and `0` stand for a
/// line feed, a carriage return, a tab and the null character, any other
/// character for itself.
pub open spec fn spec_unescape(c: char) -> char {
    if c == 'n' {
        '\n'
    } else if c == 'r' {
        '\r'
    } else if c == 't' {
        '\t'
    } else if c == '0' {
        '\0'
    } else {
        c
    }
}

/// The text that the inside of a string stands for, from `pos` on, and the
/// position where the inside ends: at a double quote, at a backslash that is
/// the last character, or at the end of the text.
pub open spec fn spec_escaped_contents(s: Seq<char>, pos: int) -> (Seq<char>, int)
    decreases s.len() - pos,
{
    if pos < 0 || pos >= s.len() {
        (Seq::empty(), pos)
    } else if s[pos] == '"' {
        (Seq::empty(), pos)
    } else if s[pos] == '\\' {
        if pos + 1 < s.len() {
            let (rest, end) = spec_escaped_contents(s, pos + 2);
            (seq![spec_unescape(s[pos + 1])] + rest, end)
        } else {
            (Seq::empty(), pos)
        }
    } else {
        let (rest, end) = spec_escaped_contents(s, pos + 1);
        (seq![s[pos]] + rest, end)
    }
}

/// An escape at `pos`: a backslash and one more character.
pub open spec fn spec_parse_escaped_block(s: Seq<char>, pos: int) -> Option<(Seq<char>, int)> {
    if spec_is_at(s, pos, '\\') && pos + 1 < s.len() {
        Some((seq![spec_unescape(s[pos + 1])], pos + 2))
    } else {
        None
    }
}

/// The inside of a string at `pos`; it may be empty.
pub open spec fn spec_parse_escaped_string_contents(s: Seq<char>, pos: int) -> Option<
    (Seq<char>, int),
> {
    Some(spec_escaped_contents(s, pos))
}

/// A string at `pos`: a double quote, the inside, a double quote.
pub open spec fn spec_parse_escaped_string(s: Seq<char>, pos: int) -> Option<(Seq<char>, int)> {
    if spec_is_at(s, pos, '"') {
        let (text, end) = spec_escaped_contents(s, pos + 1);
        if spec_is_at(s, end, '"') {
            Some((text, end + 1))
        } else {
            None
        }
    } else {
        None
    }
}

proof fn lemma_escaped_contents_bounds(s: Seq<char>, pos: int)
    requires
        0 <= pos <= s.len(),
    ensures
        pos <= spec_escaped_contents(s, pos).1 <= s.len(),
    decreases s.len() - pos,
{
    if pos < s.len() && s[pos] != '"' {
        if s[pos] == '\\' {
            if pos + 1 < s.len() {
                lemma_escaped_contents_bounds(s, pos + 2);
            }
        } else {
            lemma_escaped_contents_bounds(s, pos + 1);
        }
    }
}

proof fn lemma_escaped_contents_run(s: Seq<char>, pos: int, end: int)
    requires
        0 <= pos <= end <= s.len(),
        forall|i: int| pos <= i < end ==> spec_in_class(CharClass::StringBody, s[i]),
    ensures
        spec_escaped_contents(s, pos).0 == s.subrange(pos, end) + spec_escaped_contents(s, end).0,
        spec_escaped_contents(s, pos).1 == spec_escaped_contents(s, end).1,
    decreases end - pos,
{
    if pos < end {
        lemma_escaped_contents_run(s, pos + 1, end);
        assert(seq![s[pos]] + (s.subrange(pos + 1, end) + spec_escaped_contents(s, end).0)
            =~= s.subrange(pos, end) + spec_escaped_contents(s, end).0);
    } else {
        assert(s.subrange(pos, end) + spec_escaped_contents(s, end).0 =~= spec_escaped_contents(
            s,
            end,
        ).0);
    }
}

/// Reads the inside of a string from `pos` on.
pub fn escaped_contents_at(src: &Source, pos: usize) -> (parsed: (String, usize))
    requires
        pos <= src@.len(),
    ensures
        parsed.0@ == spec_escaped_contents(src@, pos as int).0,
        parsed.1 == spec_escaped_contents(src@, pos as int).1,
        pos <= parsed.1 <= src@.len(),
{
    let n = src.len();
    let mut text = String::new();
    let mut i = pos;
    let mut done = false;
    while !done
        invariant
            n == src@.len(),
            pos <= i <= n,
            spec_escaped_contents(src@, pos as int).0 == text@ + spec_escaped_contents(
                src@,
                i as int,
            ).0,
            spec_escaped_contents(src@, pos as int).1 == spec_escaped_contents(src@, i as int).1,
            done ==> spec_escaped_contents(src@, i as int) == (Seq::<char>::empty(), i as int),
        decreases n - i + (if done { 0int } else { 1int }),
    {
        let ghost before = text@;
        let run_end = src.scan(i, CharClass::StringBody);
        if run_end > i {
            proof {
                lemma_scan(src@, i as int, CharClass::StringBody);
                lemma_escaped_contents_run(src@, i as int, run_end as int);
                assert(before + (src@.subrange(i as int, run_end as int) + spec_escaped_contents(
                    src@,
                    run_end as int,
                ).0) =~= (before + src@.subrange(i as int, run_end as int))
                    + spec_escaped_contents(src@, run_end as int).0);
            }
            text.append(src.slice(i, run_end));
            i = run_end;
        } else if src.is_at(i, '\\') && i + 1 < n {
            let c = src.at(i + 1);
            proof {
                reveal_strlit("\n");
                reveal_strlit("\r");
                reveal_strlit("\t");
                reveal_strlit("\0");
                assert(before + (seq![spec_unescape(c)] + spec_escaped_contents(src@, i + 2).0)
                    =~= (before + seq![spec_unescape(c)]) + spec_escaped_contents(src@, i + 2).0);
                assert(src@.subrange(i + 1, i + 2) =~= seq![c]);
                assert("\n"@ =~= seq!['\n']);
                assert("\r"@ =~= seq!['\r']);
                assert("\t"@ =~= seq!['\t']);
                assert("\0"@ =~= seq!['\0']);
            }
            if c == 'n' {
                text.append("\n");
            } else if c == 'r' {
                text.append("\r");
            } else if c == 't' {
                text.append("\t");
            } else if c == '0' {
                text.append("\0");
            } else {
                text.append(src.slice(i + 1, i + 2));
            }
            i = i + 2;
        } else {
            proof {
                lemma_scan(src@, i as int, CharClass::StringBody);
            }
            done = true;
        }
    }
    proof {
        assert(text@ + Seq::<char>::empty() =~= text@);
    }
    (text, i)
}

/// Reads a string at `pos`.
pub fn escaped_string_at(src: &Source, pos: usize) -> (parsed: Option<(String, usize)>)
    requires
        pos <= src@.len(),
    ensures
        match spec_parse_escaped_string(src@, pos as int) {
            Some((text, end)) => parsed is Some && parsed->Some_0.0@ == text && parsed->Some_0.1
                == end && pos < end <= src@.len(),
            None => parsed is None,
        },
{
    if src.is_at(pos, '"') {
        let (text, end) = escaped_contents_at(src, pos + 1);
        if src.is_at(end, '"') {
            return Some((text, end + 1));
        }
    }
    None
}

/// End of the inside of a string that starts at `pos`.
pub fn escaped_contents_end_at(src: &Source, pos: usize) -> (end: usize)
    requires
        pos <= src@.len(),
    ensures
        end == spec_escaped_contents(src@, pos as int).1,
        pos <= end <= src@.len(),
{
    let n = src.len();
    let mut i = pos;
    let mut done = false;
    while !done
        invariant
            n == src@.len(),
            pos <= i <= n,
            spec_escaped_contents(src@, pos as int).1 == spec_escaped_contents(src@, i as int).1,
            done ==> spec_escaped_contents(src@, i as int).1 == i,
        decreases n - i + (if done { 0int } else { 1int }),
    {
        if i < n && src.at(i) != '"' {
            if src.at(i) == '\\' {
                if i + 1 < n {
                    i = i + 2;
                } else {
                    done = true;
                }
            } else {
                i = i + 1;
            }
        } else {
            done = true;
        }
    }
    i
}

/// End of a string at `pos`, if one stands there.
pub fn string_end_at(src: &Source, pos: usize) -> (end: Option<usize>)
    requires
        pos <= src@.len(),
    ensures
        match spec_parse_escaped_string(src@, pos as int) {
            Some((_, expected)) => end is Some && end->Some_0 == expected && pos < expected
                <= src@.len(),
            None => end is None,
        },
{
    if src.is_at(pos, '"') {
        let end = escaped_contents_end_at(src, pos + 1);
        if src.is_at(end, '"') {
            return Some(end + 1);
        }
    }
    None
}

} // verus!
