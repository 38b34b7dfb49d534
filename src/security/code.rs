use crate::random::random_in;
use vstd::math::min;
use vstd::prelude::*;
use vstd::string::StrSliceExecFns;

verus! {

/// Number of positions below `n` where `code` and `guess` hold the same digit.
pub open spec fn exact_upto(code: Seq<u8>, guess: Seq<u8>, n: int) -> nat
    decreases n,
{
    if n <= 0 {
        0
    } else {
        exact_upto(code, guess, n - 1) + if code[n - 1] == guess[n - 1] {
            1nat
        } else {
            0nat
        }
    }
}

/// Number of positions below `n` where `a` holds `d` and `b` differs from `a`:
/// how often `d` occurs in the part of `a` that is not an exact match.
pub open spec fn unmatched_upto(a: Seq<u8>, b: Seq<u8>, d: int, n: int) -> nat
    decreases n,
{
    if n <= 0 {
        0
    } else {
        unmatched_upto(a, b, d, n - 1) + if a[n - 1] != b[n - 1] && a[n - 1] == d {
            1nat
        } else {
            0nat
        }
    }
}

/// The multiset intersection of the unmatched digits, summed over digit values below `m`.
pub open spec fn misplaced_upto(code: Seq<u8>, guess: Seq<u8>, m: int) -> nat
    decreases m,
{
    if m <= 0 {
        0
    } else {
        misplaced_upto(code, guess, m - 1) + min(
            unmatched_upto(code, guess, m - 1, 4) as int,
            unmatched_upto(guess, code, m - 1, 4) as int,
        ) as nat
    }
}

/// Digits in the right place.
pub open spec fn exact_count(code: Seq<u8>, guess: Seq<u8>) -> nat {
    exact_upto(code, guess, 4)
}

/// Digits present in both unmatched remainders, counted with multiplicity.
pub open spec fn misplaced_count(code: Seq<u8>, guess: Seq<u8>) -> nat {
    misplaced_upto(code, guess, 256)
}

/// Positions below `n` that are not exact matches and whose code digit is below `m`.
spec fn mismatched_below(code: Seq<u8>, guess: Seq<u8>, m: int, n: int) -> nat
    decreases n,
{
    if n <= 0 {
        0
    } else {
        mismatched_below(code, guess, m, n - 1) + if code[n - 1] != guess[n - 1]
            && code[n - 1] < m {
            1nat
        } else {
            0nat
        }
    }
}

proof fn lemma_mismatched_step(code: Seq<u8>, guess: Seq<u8>, m: int, n: int)
    requires
        0 <= n <= code.len(),
        n <= guess.len(),
    ensures
        mismatched_below(code, guess, m + 1, n) == mismatched_below(code, guess, m, n)
            + unmatched_upto(code, guess, m, n),
    decreases n,
{
    if n > 0 {
        lemma_mismatched_step(code, guess, m, n - 1);
    }
}

proof fn lemma_misplaced_bounded(code: Seq<u8>, guess: Seq<u8>, m: int)
    requires
        code.len() == 4,
        guess.len() == 4,
        0 <= m,
    ensures
        misplaced_upto(code, guess, m) <= mismatched_below(code, guess, m, 4),
    decreases m,
{
    if m > 0 {
        lemma_misplaced_bounded(code, guess, m - 1);
        lemma_mismatched_step(code, guess, m - 1, 4);
    }
}

proof fn lemma_mismatched_all(code: Seq<u8>, guess: Seq<u8>, n: int)
    requires
        0 <= n <= 4,
        code.len() == 4,
        guess.len() == 4,
    ensures
        mismatched_below(code, guess, 256, n) + exact_upto(code, guess, n) == n,
    decreases n,
{
    if n > 0 {
        lemma_mismatched_all(code, guess, n - 1);
    }
}

/// A guess never scores more than four: exact and misplaced matches together
/// are at most the code's length.
pub proof fn feedback_total_at_most_four(code: [u8; 4], guess: [u8; 4])
    ensures
        exact_count(code@, guess@) + misplaced_count(code@, guess@) <= 4,
{
    lemma_misplaced_bounded(code@, guess@, 256);
    lemma_mismatched_all(code@, guess@, 4);
}

proof fn lemma_no_unmatched_against_itself(code: Seq<u8>, d: int, n: int)
    requires
        0 <= n <= code.len(),
    ensures
        unmatched_upto(code, code, d, n) == 0,
    decreases n,
{
    if n > 0 {
        lemma_no_unmatched_against_itself(code, d, n - 1);
    }
}

proof fn lemma_misplaced_against_itself(code: Seq<u8>, m: int)
    requires
        code.len() == 4,
        0 <= m,
    ensures
        misplaced_upto(code, code, m) == 0,
    decreases m,
{
    if m > 0 {
        lemma_misplaced_against_itself(code, m - 1);
        lemma_no_unmatched_against_itself(code, m - 1, 4);
    }
}

proof fn lemma_exact_against_itself(code: Seq<u8>, n: int)
    requires
        0 <= n <= code.len(),
    ensures
        exact_upto(code, code, n) == n,
    decreases n,
{
    if n > 0 {
        lemma_exact_against_itself(code, n - 1);
    }
}

/// The code scored against itself gives four exact matches and nothing misplaced.
pub proof fn feedback_of_code_itself(code: [u8; 4])
    ensures
        exact_count(code@, code@) == 4,
        misplaced_count(code@, code@) == 0,
{
    lemma_exact_against_itself(code@, 4);
    lemma_misplaced_against_itself(code@, 256);
}

/// Four digits, each drawn independently and uniformly from 0 to 9.
pub fn generate_code() -> (r: [u8; 4])
    ensures
        forall|i: int| 0 <= i < 4 ==> r[i] < 10,
{
    let mut arr: [u8; 4] = [0; 4];
    let mut i: usize = 0;
    while i < 4
        invariant
            i <= 4,
            forall|j: int| 0 <= j < 4 ==> arr[j] < 10,
        decreases 4 - i,
    {
        arr[i] = random_in(0, 10) as u8;
        i += 1;
    }
    arr
}

pub open spec fn is_digit_char(c: char) -> bool {
    '0' <= c && c <= '9'
}

/// Exactly four characters, each an ASCII digit.
pub open spec fn valid_guess_text(s: Seq<char>) -> bool {
    s.len() == 4 && forall|i: int| 0 <= i < 4 ==> is_digit_char(#[trigger] s[i])
}

/// The value of an ASCII digit.
pub open spec fn digit_value(c: char) -> int {
    c as int - '0' as int
}

/// Reads a code guess: `Some` of the four digit values exactly when `raw` is
/// four ASCII digits, `None` otherwise.
pub fn parse_code_guess(raw: &str) -> (r: Option<[u8; 4]>)
    ensures
        r is Some <==> valid_guess_text(raw@),
        r matches Some(g) ==> forall|i: int| 0 <= i < 4 ==> g[i] as int == digit_value(raw@[i]),
{
    if raw.unicode_len() != 4 {
        return None;
    }
    let mut arr: [u8; 4] = [0; 4];
    let mut i: usize = 0;
    while i < 4
        invariant
            i <= 4,
            raw@.len() == 4,
            forall|j: int| 0 <= j < i ==> is_digit_char(#[trigger] raw@[j]),
            forall|j: int| 0 <= j < i ==> arr[j] as int == digit_value(#[trigger] raw@[j]),
        decreases 4 - i,
    {
        let ch = raw.get_char(i);
        if !('0' <= ch && ch <= '9') {
            return None;
        }
        arr[i] = (ch as u32 - '0' as u32) as u8;
        i += 1;
    }
    Some(arr)
}

/// Counts how often `d` appears among the positions where `a` and `b` differ.
fn unmatched_digit_count(a: &[u8; 4], b: &[u8; 4], d: u8) -> (r: usize)
    ensures
        r == unmatched_upto(a@, b@, d as int, 4),
{
    let mut count: usize = 0;
    let mut i: usize = 0;
    while i < 4
        invariant
            i <= 4,
            count == unmatched_upto(a@, b@, d as int, i as int),
            count <= i,
        decreases 4 - i,
    {
        if a[i] != b[i] && a[i] == d {
            count += 1;
        }
        i += 1;
    }
    count
}

/// Scores `guess` against `code`: the digits in the right place, and the
/// digits that occur in both remainders but elsewhere, each counted at most
/// as often as it occurs in either remainder.
pub fn mastermind_feedback(code: &[u8; 4], guess: &[u8; 4]) -> (r: (usize, usize))
    ensures
        r.0 == exact_count(code@, guess@),
        r.1 == misplaced_count(code@, guess@),
{
    let mut correct: usize = 0;
    let mut i: usize = 0;
    while i < 4
        invariant
            i <= 4,
            correct == exact_upto(code@, guess@, i as int),
            correct <= i,
        decreases 4 - i,
    {
        if code[i] == guess[i] {
            correct += 1;
        }
        i += 1;
    }
    let mut misplaced: usize = 0;
    let mut d: u16 = 0;
    while d < 256
        invariant
            d <= 256,
            misplaced == misplaced_upto(code@, guess@, d as int),
        decreases 256 - d,
    {
        proof {
            lemma_misplaced_bounded(code@, guess@, d as int + 1);
            lemma_mismatched_all(code@, guess@, 4);
            assert(mismatched_below(code@, guess@, d as int + 1, 4) <= mismatched_below(code@, guess@, 256, 4)) by {
                lemma_mismatched_monotone(code@, guess@, d as int + 1, 4);
            }
        }
        let in_code = unmatched_digit_count(code, guess, d as u8);
        let in_guess = unmatched_digit_count(guess, code, d as u8);
        if in_code < in_guess {
            misplaced += in_code;
        } else {
            misplaced += in_guess;
        }
        d += 1;
    }
    (correct, misplaced)
}

proof fn lemma_mismatched_monotone(code: Seq<u8>, guess: Seq<u8>, m: int, n: int)
    requires
        0 <= n <= code.len(),
        n <= guess.len(),
        m <= 256,
    ensures
        mismatched_below(code, guess, m, n) <= mismatched_below(code, guess, 256, n),
    decreases n,
{
    if n > 0 {
        lemma_mismatched_monotone(code, guess, m, n - 1);
    }
}

} // verus!
