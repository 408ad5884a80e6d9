//! Character and string primitives of the input buffer.

use vstd::prelude::*;
use vstd::string::StrSliceExecFns;

verus! {

/// Whether a character has the Unicode `White_Space` property.
pub uninterp spec fn is_white_space(c: char) -> bool;

/// Trusted: `char::is_whitespace`, documented to return `true` exactly for
/// the characters with the `White_Space` property.
pub assume_specification[ char::is_whitespace ](c: char) -> (b: bool)
    ensures
        b == is_white_space(c),
;

/// Trusted: `String::push`, documented to append the character to the end
/// of the string.
pub assume_specification[ String::push ](s: &mut String, c: char)
    ensures
        final(s)@ == old(s)@.push(c),
;

/// Trusted: `String::pop`, documented to remove the last character and
/// return it, or to return `None` if the string is empty.
pub assume_specification[ String::pop ](s: &mut String) -> (last: Option<char>)
    ensures
        old(s)@.len() == 0 ==> last is None && final(s)@ == old(s)@,
        old(s)@.len() > 0 ==> last == Some(old(s)@.last()) && final(s)@ == old(s)@.drop_last(),
;

/// Trusted: `String::clear`, documented to remove all contents.
pub assume_specification[ String::clear ](s: &mut String)
    ensures
        final(s)@ == Seq::<char>::empty(),
;

/// `s` without its leading white space.
pub open spec fn skip_leading(s: Seq<char>) -> Seq<char>
    decreases s.len(),
{
    if s.len() > 0 && is_white_space(s[0]) {
        skip_leading(s.drop_first())
    } else {
        s
    }
}

/// `s` without its trailing white space.
pub open spec fn skip_trailing(s: Seq<char>) -> Seq<char>
    decreases s.len(),
{
    if s.len() > 0 && is_white_space(s.last()) {
        skip_trailing(s.drop_last())
    } else {
        s
    }
}

/// `s` without its leading and trailing white space.
pub open spec fn trimmed(s: Seq<char>) -> Seq<char> {
    skip_trailing(skip_leading(s))
}

/// Every character of `s` is white space; true of the empty sequence.
pub open spec fn is_blank(s: Seq<char>) -> bool {
    forall|i: int| 0 <= i < s.len() ==> is_white_space(#[trigger] s[i])
}

/// Leading white space is all that `skip_leading` removes: what is left is
/// empty exactly for a blank sequence, and otherwise starts with a
/// character that is not white space.
pub proof fn lemma_skip_leading(s: Seq<char>)
    ensures
        skip_leading(s).len() == 0 <==> is_blank(s),
        skip_leading(s).len() > 0 ==> !is_white_space(skip_leading(s)[0]),
    decreases s.len(),
{
    if s.len() > 0 && is_white_space(s[0]) {
        let rest = s.drop_first();
        lemma_skip_leading(rest);
        if is_blank(rest) {
            assert forall|i: int| 0 <= i < s.len() implies is_white_space(#[trigger] s[i]) by {
                if i > 0 {
                    assert(s[i] == rest[i - 1]);
                }
            }
        }
    }
}

/// Trailing white space is all that `skip_trailing` removes: what is left
/// is empty exactly for a blank sequence, and otherwise ends with a
/// character that is not white space.
pub proof fn lemma_skip_trailing(s: Seq<char>)
    ensures
        skip_trailing(s).len() == 0 <==> is_blank(s),
        skip_trailing(s).len() > 0 ==> !is_white_space(skip_trailing(s).last()),
    decreases s.len(),
{
    if s.len() > 0 && is_white_space(s.last()) {
        let rest = s.drop_last();
        lemma_skip_trailing(rest);
        if is_blank(rest) {
            assert forall|i: int| 0 <= i < s.len() implies is_white_space(#[trigger] s[i]) by {
                if i < s.len() - 1 {
                    assert(s[i] == rest[i]);
                }
            }
        }
    }
}

/// A line trims to nothing exactly when it is blank.
pub proof fn lemma_blank_trims_to_nothing(s: Seq<char>)
    ensures
        trimmed(s).len() == 0 <==> is_blank(s),
{
    lemma_skip_leading(s);
    lemma_skip_trailing(skip_leading(s));
}

/// `s[from..to]` is `s` without the white space around it: all before
/// `from` and all from `to` on is white space, and what lies between is
/// either empty or starts and ends with a character that is not.
pub open spec fn is_core(s: Seq<char>, from: int, to: int) -> bool {
    &&& 0 <= from <= to <= s.len()
    &&& forall|i: int| 0 <= i < from ==> is_white_space(#[trigger] s[i])
    &&& forall|i: int| to <= i < s.len() ==> is_white_space(#[trigger] s[i])
    &&& from < to ==> !is_white_space(s[from]) && !is_white_space(s[to - 1])
}

/// Skipping the leading white space of `s[at..]`, all of whose characters
/// before `from` are white space, gives `s[from..]` once that is empty or
/// starts with a character that is not white space.
proof fn lemma_skip_leading_to(s: Seq<char>, at: int, from: int)
    requires
        0 <= at <= from <= s.len(),
        forall|i: int| at <= i < from ==> is_white_space(#[trigger] s[i]),
        from < s.len() ==> !is_white_space(s[from]),
    ensures
        skip_leading(s.subrange(at, s.len() as int)) == s.subrange(from, s.len() as int),
    decreases from - at,
{
    let rest = s.subrange(at, s.len() as int);
    if at < from {
        assert(rest.drop_first() == s.subrange(at + 1, s.len() as int));
        lemma_skip_leading_to(s, at + 1, from);
    }
}

/// Skipping the trailing white space of `s[..at]`, all of whose characters
/// from `to` on are white space, gives `s[..to]` once that is empty or ends
/// with a character that is not white space.
proof fn lemma_skip_trailing_to(s: Seq<char>, to: int, at: int)
    requires
        0 <= to <= at <= s.len(),
        forall|i: int| to <= i < at ==> is_white_space(#[trigger] s[i]),
        0 < to ==> !is_white_space(s[to - 1]),
    ensures
        skip_trailing(s.subrange(0, at)) == s.subrange(0, to),
    decreases at - to,
{
    let rest = s.subrange(0, at);
    if to < at {
        assert(rest.drop_last() == s.subrange(0, at - 1));
        lemma_skip_trailing_to(s, to, at - 1);
    }
}

/// The trimmed line is the one slice with nothing but white space around
/// it and none at either end of it.
pub proof fn lemma_trimmed_is_core(s: Seq<char>, from: int, to: int)
    requires
        is_core(s, from, to),
    ensures
        trimmed(s) == s.subrange(from, to),
{
    let len = s.len() as int;
    if from < to {
        lemma_skip_leading_to(s, 0, from);
        assert(s.subrange(0, len) == s);
        let body = s.subrange(from, len);
        lemma_skip_trailing_to(body, to - from, body.len() as int);
        assert(body.subrange(0, body.len() as int) == body);
    } else {
        lemma_skip_leading_to(s, 0, len);
        assert(s.subrange(0, len) == s);
    }
}

/// The slice of `s` between its leading and its trailing white space.
pub fn trim(s: &str) -> (t: &str)
    ensures
        t@ == trimmed(s@),
{
    let len: usize = s.unicode_len();
    if len == 0 {
        return s;
    }
    let mut index: usize = 0;
    let mut from: usize = 0;
    let mut to: usize = 0;
    for c in chars: s.chars()
        invariant
            chars.seq() == s@,
            index == chars.index(),
            len == s@.len(),
            to == 0 ==> from == 0,
            to > 0 ==> from < to && !is_white_space(s@[from as int]) && !is_white_space(
                s@[to - 1],
            ),
            to <= index,
            forall|i: int| 0 <= i < index && !(from <= i < to) ==> is_white_space(#[trigger] s@[i]),
    {
        if !c.is_whitespace() {
            if to == 0 {
                from = index;
            }
            to = index + 1;
        }
        index = index + 1;
    }
    proof {
        lemma_trimmed_is_core(s@, from as int, to as int);
    }
    s.substring_char(from, to)
}

/// The characters of `s`, in order.
pub fn chars_of(s: &str) -> (chars: Vec<char>)
    ensures
        chars@ == s@,
{
    let mut chars: Vec<char> = Vec::new();
    for c in rest: s.chars()
        invariant
            rest.seq() == s@,
            chars@ == s@.subrange(0, rest.index()),
    {
        chars.push(c);
    }
    chars
}

/// `pattern` stands in `text` at offset `at`.
pub open spec fn occurs_at(pattern: Seq<char>, text: Seq<char>, at: int) -> bool {
    &&& 0 <= at
    &&& at + pattern.len() <= text.len()
    &&& text.subrange(at, at + pattern.len()) == pattern
}

/// `pattern` stands somewhere in `text`.
pub open spec fn occurs_in(pattern: Seq<char>, text: Seq<char>) -> bool {
    exists|at: int| occurs_at(pattern, text, at)
}

/// Whether `pattern` stands in `text` at offset `at`.
fn found_at(pattern: &Vec<char>, text: &Vec<char>, at: usize) -> (found: bool)
    requires
        at + pattern.len() <= text.len(),
    ensures
        found == occurs_at(pattern@, text@, at as int),
{
    let mut i: usize = 0;
    while i < pattern.len()
        invariant
            i <= pattern.len(),
            at + pattern.len() <= text.len(),
            text@.subrange(at as int, at + i) == pattern@.subrange(0, i as int),
        decreases pattern.len() - i,
    {
        if text[at + i] != pattern[i] {
            return false;
        }
        i = i + 1;
    }
    assert(pattern@.subrange(0, pattern.len() as int) == pattern@);
    true
}

/// Whether `pattern` stands somewhere in `text`.
pub fn occurs(pattern: &Vec<char>, text: &Vec<char>) -> (found: bool)
    ensures
        found == occurs_in(pattern@, text@),
{
    if pattern.len() > text.len() {
        return false;
    }
    let last: usize = text.len() - pattern.len();
    let mut at: usize = 0;
    loop
        invariant
            at <= last,
            last == text.len() - pattern.len(),
            forall|before: int| 0 <= before < at ==> !occurs_at(pattern@, text@, before),
        decreases last - at,
    {
        if found_at(pattern, text, at) {
            return true;
        }
        if at == last {
            return false;
        }
        at = at + 1;
    }
}

/// Whether two strings hold the same characters.
pub fn same_text(a: &str, b: &str) -> (same: bool)
    ensures
        same == (a@ == b@),
{
    let x = a.to_owned();
    let y = b.to_owned();
    x == y
}

} // verus!
