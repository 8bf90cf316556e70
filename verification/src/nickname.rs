//! Nickname derivation: a session's nickname is the first three characters
//! of its first message (fewer when the message is shorter), upper-cased.

use vstd::prelude::*;

verus! {

/// The upper-case image of one character: a lower-case ASCII letter maps to
/// its upper-case counterpart, every other character is unchanged.
pub open spec fn spec_upper_char(c: char) -> char {
    if 'a' <= c && c <= 'z' {
        (((c as u8) - 32) as char)
    } else {
        c
    }
}

/// A character sequence upper-cased character by character.
pub open spec fn upper_seq(s: Seq<char>) -> Seq<char> {
    s.map_values(|c: char| spec_upper_char(c))
}

/// How many characters of a message of length `n` make up the nickname.
pub open spec fn nickname_take(n: nat) -> int {
    if n < 3 {
        n as int
    } else {
        3
    }
}

/// The nickname a message derives to: its first three characters (fewer when
/// the message is shorter), upper-cased.
pub open spec fn spec_nickname(s: Seq<char>) -> Seq<char> {
    upper_seq(s.take(nickname_take(s.len())))
}

/// Upper-cases one character.
pub fn upper_char(c: char) -> (r: char)
    ensures
        r == spec_upper_char(c),
{
    if c >= 'a' && c <= 'z' {
        ((c as u8) - 32) as char
    } else {
        c
    }
}

/// Relies on String::push: appends exactly the given character.
#[verifier::external_body]
pub(crate) fn push_char(s: &mut String, c: char)
    ensures
        final(s)@ == old(s)@.push(c),
{
    s.push(c);
}

/// Derives a session's nickname from its first message: the first
/// `min(3, length)` characters, upper-cased. Total: it succeeds on every
/// input, and a non-empty input yields a non-empty nickname.
pub fn derive_nickname(s: &str) -> (r: String)
    ensures
        r@ == spec_nickname(s@),
{
    let n = s.unicode_len();
    let take: usize = if n < 3 {
        n
    } else {
        3
    };
    let mut out = String::new();
    let mut i: usize = 0;
    proof {
        assert(out@ =~= upper_seq(s@.take(0)));
    }
    while i < take
        invariant
            i <= take,
            take <= s@.len(),
            take == nickname_take(s@.len()),
            out@ == upper_seq(s@.take(i as int)),
        decreases take - i,
    {
        let c = s.get_char(i);
        let u = upper_char(c);
        push_char(&mut out, u);
        proof {
            assert(out@ =~= upper_seq(s@.take(i + 1)));
        }
        i = i + 1;
    }
    out
}

/// Nickname derivation is total and idempotent: every message maps to at
/// most three upper-cased characters, a non-empty message maps to a
/// non-empty nickname, and deriving a nickname from a nickname returns it
/// unchanged.
pub proof fn lemma_nickname_idempotent_total(s: Seq<char>)
    ensures
        spec_nickname(s).len() <= 3,
        s.len() > 0 ==> spec_nickname(s).len() > 0,
        spec_nickname(spec_nickname(s)) == spec_nickname(s),
{
    let nick = spec_nickname(s);
    assert forall|c: char| #[trigger] spec_upper_char(spec_upper_char(c)) == spec_upper_char(
        c,
    ) by {
        if 'a' <= c && c <= 'z' {
            assert(!('a' <= spec_upper_char(c) && spec_upper_char(c) <= 'z'));
        }
    }
    assert(spec_nickname(nick) =~= nick);
}

} // verus!
