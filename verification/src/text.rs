//! Parsing free-form text into a throw, and the continuation decision
//! of the interactive loop.
//!
//! A line names a throw when, after trailing whitespace is dropped and
//! ASCII case is folded, it is exactly one of the literals `rock`,
//! `paper` or `scissors`. Everything else — the empty line included —
//! is the invalid sentinel. Parsing never fails structurally.

use crate::game::Throw;
use vstd::prelude::*;
use vstd::string::StringSliceAdditionalSpecFns;

verus! {

/// The ASCII lowercase image of a byte: letters `A`..`Z` move to
/// `a`..`z`, every other byte stays.
pub open spec fn lower_byte(b: u8) -> u8 {
    if 65 <= b <= 90 {
        (b + 32) as u8
    } else {
        b
    }
}

/// A byte of ASCII whitespace: space, tab, line feed, vertical tab,
/// form feed or carriage return.
pub open spec fn is_ws_byte(b: u8) -> bool {
    b == 32 || (9 <= b <= 13)
}

/// The text with every byte folded to ASCII lowercase.
pub open spec fn lower_all(s: Seq<u8>) -> Seq<u8> {
    s.map_values(|b: u8| lower_byte(b))
}

/// The text with its trailing whitespace removed.
pub open spec fn trim_end_spec(s: Seq<u8>) -> Seq<u8>
    decreases s.len(),
{
    if s.len() > 0 && is_ws_byte(s.last()) {
        trim_end_spec(s.drop_last())
    } else {
        s
    }
}

/// The normal form against which the literals are matched: trailing
/// whitespace removed, ASCII case folded.
pub open spec fn norm_spec(s: Seq<u8>) -> Seq<u8> {
    lower_all(trim_end_spec(s))
}

/// The bytes of the literal naming the rock throw.
pub open spec fn rock_bytes() -> Seq<u8> {
    seq![114u8, 111u8, 99u8, 107u8]
}

/// The bytes of the literal naming the paper throw.
pub open spec fn paper_bytes() -> Seq<u8> {
    seq![112u8, 97u8, 112u8, 101u8, 114u8]
}

/// The bytes of the literal naming the scissors throw.
pub open spec fn scissors_bytes() -> Seq<u8> {
    seq![115u8, 99u8, 105u8, 115u8, 115u8, 111u8, 114u8, 115u8]
}

/// What a text parses to: the throw whose literal equals the text's
/// normal form, or the invalid sentinel when none does.
pub open spec fn parse_spec(s: Seq<u8>) -> Throw {
    if norm_spec(s) == rock_bytes() {
        Throw::Rock
    } else if norm_spec(s) == paper_bytes() {
        Throw::Paper
    } else if norm_spec(s) == scissors_bytes() {
        Throw::Scissors
    } else {
        Throw::Invalid
    }
}

/// ASCII-lowercases one byte.
fn lower(b: u8) -> (r: u8)
    ensures
        r == lower_byte(b),
{
    if 65 <= b && b <= 90 {
        b + 32
    } else {
        b
    }
}

/// Decides ASCII whitespace.
fn is_ws(b: u8) -> (r: bool)
    ensures
        r == is_ws_byte(b),
{
    b == 32 || (9 <= b && b <= 13)
}

/// The length of the text once its trailing whitespace is removed.
fn trimmed_len(s: &[u8]) -> (end: usize)
    ensures
        end <= s@.len(),
        trim_end_spec(s@) == s@.take(end as int),
        end > 0 ==> !is_ws_byte(s@[end - 1]),
{
    let mut end = s.len();
    proof {
        assert(s@.take(end as int) =~= s@);
    }
    while end > 0 && is_ws(s[end - 1])
        invariant
            end <= s@.len(),
            trim_end_spec(s@) == trim_end_spec(s@.take(end as int)),
        decreases end,
    {
        proof {
            assert(s@.take(end as int).drop_last() =~= s@.take(end as int - 1));
        }
        end = end - 1;
    }
    proof {
        assert(trim_end_spec(s@.take(end as int)) == s@.take(end as int));
    }
    end
}

/// The normal form of the text, as a fresh byte vector.
fn normalize(s: &[u8]) -> (v: Vec<u8>)
    ensures
        v@ == norm_spec(s@),
{
    let end = trimmed_len(s);
    let mut v: Vec<u8> = Vec::new();
    let mut i: usize = 0;
    while i < end
        invariant
            i <= end,
            end <= s@.len(),
            trim_end_spec(s@) == s@.take(end as int),
            v@.len() == i,
            forall|j: int| 0 <= j < i ==> v@[j] == lower_byte(s@[j]),
        decreases end - i,
    {
        v.push(lower(s[i]));
        i = i + 1;
    }
    proof {
        assert(v@ =~= norm_spec(s@));
    }
    v
}

/// Decides whether a normal form is the rock literal.
fn is_rock(v: &Vec<u8>) -> (r: bool)
    ensures
        r == (v@ == rock_bytes()),
{
    let r = v.len() == 4 && v[0] == 114 && v[1] == 111 && v[2] == 99 && v[3] == 107;
    proof {
        if r {
            assert(v@ =~= rock_bytes());
        }
    }
    r
}

/// Decides whether a normal form is the paper literal.
fn is_paper(v: &Vec<u8>) -> (r: bool)
    ensures
        r == (v@ == paper_bytes()),
{
    let r = v.len() == 5 && v[0] == 112 && v[1] == 97 && v[2] == 112 && v[3] == 101 && v[4] == 114;
    proof {
        if r {
            assert(v@ =~= paper_bytes());
        }
    }
    r
}

/// Decides whether a normal form is the scissors literal.
fn is_scissors(v: &Vec<u8>) -> (r: bool)
    ensures
        r == (v@ == scissors_bytes()),
{
    let r = v.len() == 8 && v[0] == 115 && v[1] == 99 && v[2] == 105 && v[3] == 115 && v[4] == 115
        && v[5] == 111 && v[6] == 114 && v[7] == 115;
    proof {
        if r {
            assert(v@ =~= scissors_bytes());
        }
    }
    r
}

/// Parses one line of text into a throw, per the normal form above.
pub fn parse_throw(s: &str) -> (t: Throw)
    ensures
        t == parse_spec(s.spec_bytes()),
{
    let v = normalize(s.as_bytes());
    if is_rock(&v) {
        Throw::Rock
    } else if is_paper(&v) {
        Throw::Paper
    } else if is_scissors(&v) {
        Throw::Scissors
    } else {
        Throw::Invalid
    }
}

/// Folding a byte to lowercase changes neither its whitespace nature
/// nor its lowercase image.
proof fn lemma_lower_byte_props(b: u8)
    ensures
        is_ws_byte(lower_byte(b)) == is_ws_byte(b),
        lower_byte(lower_byte(b)) == lower_byte(b),
{
}

/// Trimming commutes with lowercasing: the trailing whitespace of a
/// lowercased text is the trailing whitespace of the text.
proof fn lemma_trim_commutes_lower(s: Seq<u8>)
    ensures
        trim_end_spec(lower_all(s)) == lower_all(trim_end_spec(s)),
    decreases s.len(),
{
    if s.len() > 0 {
        assert(lower_all(s).last() == lower_byte(s.last()));
        lemma_lower_byte_props(s.last());
        if is_ws_byte(s.last()) {
            assert(lower_all(s).drop_last() =~= lower_all(s.drop_last()));
            lemma_trim_commutes_lower(s.drop_last());
        }
    }
}

/// Lowercasing is idempotent.
proof fn lemma_lower_all_idempotent(s: Seq<u8>)
    ensures
        lower_all(lower_all(s)) == lower_all(s),
{
    assert forall|i: int| 0 <= i < s.len() implies lower_all(lower_all(s))[i] == lower_all(s)[i] by {
        lemma_lower_byte_props(s[i]);
    }
    assert(lower_all(lower_all(s)) =~= lower_all(s));
}

/// Parsing is case-insensitive: a text and its ASCII-lowercased image
/// parse to the same throw.
pub proof fn lemma_parse_case_insensitive(s: Seq<u8>)
    ensures
        parse_spec(lower_all(s)) == parse_spec(s),
{
    lemma_trim_commutes_lower(s);
    lemma_lower_all_idempotent(trim_end_spec(s));
}

/// Parsing ignores trailing whitespace: appending a whitespace byte
/// changes nothing.
pub proof fn lemma_parse_trailing_ws(s: Seq<u8>, w: u8)
    requires
        is_ws_byte(w),
    ensures
        parse_spec(s.push(w)) == parse_spec(s),
{
    assert(s.push(w).last() == w);
    assert(s.push(w).drop_last() =~= s);
}

/// A text parses to the invalid sentinel exactly when its normal form
/// is none of the three literals — the empty line included.
pub proof fn lemma_invalid_iff_no_literal(s: Seq<u8>)
    ensures
        parse_spec(s) == Throw::Invalid <==> (norm_spec(s) != rock_bytes() && norm_spec(s)
            != paper_bytes() && norm_spec(s) != scissors_bytes()),
{
}

/// The continuation decision of the interactive loop: another round is
/// played exactly when the reply, trimmed of trailing whitespace, is
/// empty.
pub fn play_again(reply: &str) -> (again: bool)
    ensures
        again <==> norm_spec(reply.spec_bytes()).len() == 0,
{
    let bytes = reply.as_bytes();
    let end = trimmed_len(bytes);
    end == 0
}

} // verus!
