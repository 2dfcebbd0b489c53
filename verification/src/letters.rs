//! Characters and guess normalization: which characters count as letters,
//! how a letter maps to its alphabet position, and how a raw input line is
//! reduced to a single uppercase letter or rejected.

use vstd::prelude::*;

verus! {

/// The ASCII uppercase letters, the only characters a secret may hold.
pub open spec fn is_upper_letter(c: char) -> bool {
    'A' <= c && c <= 'Z'
}

/// The ASCII lowercase letters.
pub open spec fn is_lower_letter(c: char) -> bool {
    'a' <= c && c <= 'z'
}

/// The characters accepted as a guess before uppercasing.
pub open spec fn is_ascii_letter(c: char) -> bool {
    is_upper_letter(c) || is_lower_letter(c)
}

/// Alphabet position of an uppercase letter: 'A' is 0, 'Z' is 25.
pub open spec fn letter_index(c: char) -> int {
    c as int - 65
}

/// Uppercase letter at an alphabet position: 0 is 'A', 25 is 'Z'.
pub open spec fn letter_at(i: int) -> char
    recommends
        0 <= i < 26,
{
    ((65 + i) as u8) as char
}

/// ASCII uppercasing of one character: lowercase letters move up, all else stays.
pub open spec fn upper_of(c: char) -> char {
    if is_lower_letter(c) {
        ((c as int - 32) as u8) as char
    } else {
        c
    }
}

/// ASCII whitespace, stripped from around a guess before it is judged.
pub open spec fn is_ws(c: char) -> bool {
    c == ' ' || c == '\t' || c == '\n' || c == '\r' || c == '\u{c}'
}

/// The non-whitespace characters of a line, in order.
pub open spec fn non_ws(s: Seq<char>) -> Seq<char>
    decreases s.len(),
{
    if s.len() == 0 {
        Seq::empty()
    } else if is_ws(s.last()) {
        non_ws(s.drop_last())
    } else {
        non_ws(s.drop_last()).push(s.last())
    }
}

/// What a raw guess line means: strip surrounding whitespace, demand exactly
/// one ASCII letter, and uppercase it; anything else is invalid.
pub open spec fn normalized(s: Seq<char>) -> Option<char> {
    let t = non_ws(s);
    if t.len() == 1 && is_ascii_letter(t[0]) {
        Some(upper_of(t[0]))
    } else {
        None
    }
}

/// Uppercasing an ASCII letter yields an uppercase letter, at the position
/// of the letter in the alphabet.
pub proof fn lemma_upper_of_letter(c: char)
    requires
        is_ascii_letter(c),
    ensures
        is_upper_letter(upper_of(c)),
        0 <= letter_index(upper_of(c)) < 26,
{
}

/// ASCII uppercasing of one character.
pub fn to_upper(c: char) -> (r: char)
    ensures
        r == upper_of(c),
{
    if 'a' <= c && c <= 'z' {
        (((c as u32) - 32) as u8) as char
    } else {
        c
    }
}

/// Alphabet position of a character, with an out-of-range marker for
/// anything outside 'A'..='Z'.
pub fn char_to_index(c: char) -> (r: usize)
    ensures
        is_upper_letter(c) ==> r == letter_index(c),
        !is_upper_letter(c) ==> r == 255,
{
    if 'A' <= c && c <= 'Z' {
        ((c as u32) - 65) as usize
    } else {
        255
    }
}

/// Reduce a raw input line to a single uppercase letter, or reject it.
pub fn normalize_guess(input: &[char]) -> (r: Option<char>)
    ensures
        r == normalized(input@),
{
    let mut count: usize = 0;
    let mut cand: char = ' ';
    let mut i: usize = 0;
    while i < input.len()
        invariant
            0 <= i <= input.len(),
            count <= i,
            count == non_ws(input@.take(i as int)).len(),
            count == 1 ==> non_ws(input@.take(i as int)) == seq![cand],
        decreases input.len() - i,
    {
        let c = input[i];
        proof {
            assert(input@.take(i + 1).drop_last() =~= input@.take(i as int));
            assert(input@.take(i + 1).last() == c);
        }
        if !(c == ' ' || c == '\t' || c == '\n' || c == '\r' || c == '\u{c}') {
            count = count + 1;
            cand = c;
            proof {
                if count == 1 {
                    assert(non_ws(input@.take(i + 1)) =~= seq![cand]);
                }
            }
        }
        i = i + 1;
    }
    proof {
        assert(input@.take(input@.len() as int) =~= input@);
    }
    if count == 1 && (('A' <= cand && cand <= 'Z') || ('a' <= cand && cand <= 'z')) {
        Some(to_upper(cand))
    } else {
        None
    }
}

} // verus!
