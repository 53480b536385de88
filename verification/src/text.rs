//! Small operations on text, stated over sequences of characters.

use vstd::prelude::*;
use vstd::std_specs::iter::IteratorSpec;
use vstd::string::StrSliceExecFns;
use vstd::string::StringExecFns;

verus! {

/// Whether `text` begins with `prefix`, character by character. Every text
/// begins with the empty prefix and with itself.
pub fn starts_with(text: &str, prefix: &str) -> (b: bool)
    ensures
        b == prefix@.is_prefix_of(text@),
{
    broadcast use vstd::string::group_string_axioms;

    let mut rest = text.chars();
    let mut wanted = prefix.chars();
    let ghost mut n: int = 0;
    loop
        invariant
            0 <= n <= prefix@.len(),
            n <= text@.len(),
            rest.remaining() == text@.skip(n),
            wanted.remaining() == prefix@.skip(n),
            text@.take(n) == prefix@.take(n),
        decreases prefix@.len() - n,
    {
        match wanted.next() {
            None => {
                assert(prefix@.take(n) == prefix@);
                return true;
            },
            Some(expected) => {
                match rest.next() {
                    None => {
                        return false;
                    },
                    Some(found) => {
                        if expected != found {
                            return false;
                        }
                        proof {
                            n = n + 1;
                        }
                    },
                }
            },
        }
    }
}

/// Whether two texts hold the same characters.
pub fn same_text(a: &str, b: &str) -> (r: bool)
    ensures
        r == (a@ == b@),
{
    broadcast use vstd::string::group_string_axioms;

    let mut left = a.chars();
    let mut right = b.chars();
    let ghost mut n: int = 0;
    loop
        invariant
            0 <= n <= a@.len(),
            n <= b@.len(),
            left.remaining() == a@.skip(n),
            right.remaining() == b@.skip(n),
            a@.take(n) == b@.take(n),
        decreases a@.len() - n,
    {
        match left.next() {
            None => {
                let ended = right.next().is_none();
                assert(a@.take(n) == a@);
                assert(ended ==> b@.take(n) == b@);
                return ended;
            },
            Some(x) => {
                match right.next() {
                    None => {
                        return false;
                    },
                    Some(y) => {
                        if x != y {
                            assert(a@[n] != b@[n]);
                            return false;
                        }
                        proof {
                            n = n + 1;
                        }
                    },
                }
            },
        }
    }
}

/// The first `limit` characters of a text, or all of it where it is shorter.
pub open spec fn leading(text: Seq<char>, limit: nat) -> Seq<char> {
    if text.len() <= limit {
        text
    } else {
        text.take(limit as int)
    }
}

/// Cuts a text down to its first `limit` characters. Characters are counted,
/// not bytes, so no character is ever split.
pub fn truncate_chars(text: &str, limit: usize) -> (r: String)
    ensures
        r@ == leading(text@, limit as nat),
{
    let length: usize = text.unicode_len();
    if length <= limit {
        String::from_str(text)
    } else {
        String::from_str(text.substring_char(0, limit))
    }
}

/// What `str::trim` leaves of a text: the text without the white space at
/// its beginning and at its end.
pub uninterp spec fn trimmed(text: Seq<char>) -> Seq<char>;

/// Calls `str::trim`. Which characters count as white space is Unicode's
/// table, so the result is named: it is `trimmed` of the text.
#[verifier::external_body]
pub(crate) fn trim(text: &str) -> (r: &str)
    ensures
        r@ == trimmed(text@),
{
    text.trim()
}

/// Whether a text that was already trimmed has anything left in it.
pub fn has_content(trimmed_text: &str) -> (b: bool)
    ensures
        b == (trimmed_text@.len() > 0),
{
    !trimmed_text.is_empty()
}

/// Whether a text holds anything but white space.
pub fn is_filled(text: &str) -> (b: bool)
    ensures
        b == (trimmed(text@).len() > 0),
{
    has_content(trim(text))
}

/// Makes a text of one character with `String::from`, which allocates a
/// string that holds the character and nothing else.
#[verifier::external_body]
pub(crate) fn single(c: char) -> (r: String)
    ensures
        r@ == seq![c],
{
    String::from(c)
}

/// Puts a text between two others.
pub fn enclosed(before: &str, middle: &str, after: &str) -> (r: String)
    ensures
        r@ == before@ + middle@ + after@,
{
    let mut out = String::from_str(before);
    out.append(middle);
    out.append(after);
    out
}

/// Joins a fixed label and a detail into one message.
pub fn labelled(label: &str, detail: &str) -> (r: String)
    ensures
        r@ == label@ + detail@,
{
    let mut out = String::from_str(label);
    out.append(detail);
    out
}

} // verus!
