use rand::Rng;
use vstd::prelude::*;

verus! {

/// The result of comparing a guess against the secret target.
#[derive(Debug, Clone, Copy, PartialEq, Eq, Structural)]
pub enum Outcome {
    Less,
    Greater,
    Equal,
}

/// Why a line of input produced no comparison.
#[derive(Debug, Clone, Copy, PartialEq, Eq, Structural)]
pub enum GuessError {
    /// The input is not a valid integer.
    ParseError,
    /// The input is empty (closed or empty read).
    EmptyInputError,
}

/// Whether `c` is a decimal digit.
pub open spec fn is_digit(c: char) -> bool {
    48 <= c as int && c as int <= 57
}

/// The numeric value of a decimal digit.
pub open spec fn digit_val(c: char) -> int {
    c as int - 48
}

/// Whether every character of `s` is a decimal digit.
pub open spec fn all_digits(s: Seq<char>) -> bool {
    forall|i: int| 0 <= i < s.len() ==> is_digit(s[i])
}

/// The value of `s` read as a decimal numeral.
pub open spec fn digits_val(s: Seq<char>) -> int
    decreases s.len(),
{
    if s.len() == 0 {
        0
    } else {
        10 * digits_val(s.drop_last()) + digit_val(s.last())
    }
}

/// What parsing a line of input as a guess yields: the empty input is
/// rejected as such; a nonempty all-digit numeral that fits in the integer
/// type is its value; anything else is a parse error.
pub open spec fn parse_spec(s: Seq<char>) -> Result<u32, GuessError> {
    if s.len() == 0 {
        Err(GuessError::EmptyInputError)
    } else if all_digits(s) && digits_val(s) <= u32::MAX {
        Ok(digits_val(s) as u32)
    } else {
        Err(GuessError::ParseError)
    }
}

/// An all-digit numeral has a nonnegative value.
proof fn lemma_digits_val_nonneg(s: Seq<char>)
    requires
        all_digits(s),
    ensures
        digits_val(s) >= 0,
    decreases s.len(),
{
    if s.len() > 0 {
        assert(all_digits(s.drop_last()));
        lemma_digits_val_nonneg(s.drop_last());
    }
}

/// Extending an all-digit numeral on the right never shrinks its value.
proof fn lemma_digits_val_prefix_le(s: Seq<char>, k: int)
    requires
        0 <= k <= s.len(),
        all_digits(s),
    ensures
        digits_val(s.subrange(0, k)) <= digits_val(s),
    decreases s.len() - k,
{
    if k == s.len() {
        assert(s.subrange(0, k) =~= s);
    } else {
        lemma_digits_val_prefix_le(s, k + 1);
        assert(s.subrange(0, k + 1).drop_last() =~= s.subrange(0, k));
        assert(s.subrange(0, k + 1).last() == s[k]);
        assert(all_digits(s.subrange(0, k)));
        lemma_digits_val_nonneg(s.subrange(0, k));
    }
}

/// Parse one line of input as a guess: the value of a nonempty decimal
/// numeral that fits in the integer type, and the exact error otherwise.
pub fn parse_guess(s: &str) -> (r: Result<u32, GuessError>)
    ensures
        r == parse_spec(s@),
{
    let n: usize = s.unicode_len();
    if n == 0 {
        return Err(GuessError::EmptyInputError);
    }
    let mut v: u64 = 0;
    let mut i: usize = 0;
    while i < n
        invariant
            0 < n == s@.len(),
            i <= n,
            forall|j: int| 0 <= j < i ==> is_digit(s@[j]),
            v == digits_val(s@.subrange(0, i as int)),
            v <= u32::MAX,
        decreases n - i,
    {
        let c = s.get_char(i);
        let cv = c as u32;
        if cv < 48 || cv > 57 {
            assert(!is_digit(s@[i as int]));
            return Err(GuessError::ParseError);
        }
        let d: u64 = (cv - 48) as u64;
        let v2: u64 = 10 * v + d;
        proof {
            assert(s@.subrange(0, i + 1).drop_last() =~= s@.subrange(0, i as int));
            assert(s@.subrange(0, i + 1).last() == s@[i as int]);
        }
        if v2 > 0xffff_ffff {
            proof {
                if all_digits(s@) {
                    lemma_digits_val_prefix_le(s@, i + 1);
                }
            }
            return Err(GuessError::ParseError);
        }
        v = v2;
        i = i + 1;
    }
    proof {
        assert(s@.subrange(0, n as int) =~= s@);
    }
    Ok(v as u32)
}

/// How `g` stands to `t`: below it, above it, or equal to it.
pub open spec fn outcome_of(g: int, t: int) -> Outcome {
    if g < t {
        Outcome::Less
    } else if g > t {
        Outcome::Greater
    } else {
        Outcome::Equal
    }
}

/// Compare a guess against the target and report the ordering outcome.
pub fn compare_guess(g: u32, t: u32) -> (r: Outcome)
    ensures
        r == outcome_of(g as int, t as int),
{
    if g < t {
        Outcome::Less
    } else if g > t {
        Outcome::Greater
    } else {
        Outcome::Equal
    }
}

/// Comparing a guess to a target yields exactly one of the three outcomes:
/// each outcome holds exactly when the corresponding ordering holds, and in
/// particular the equal outcome holds exactly when guess and target agree.
pub proof fn lemma_outcome_trichotomy(g: int, t: int)
    requires
        1 <= g < 101,
        1 <= t < 101,
    ensures
        outcome_of(g, t) == Outcome::Less <==> g < t,
        outcome_of(g, t) == Outcome::Greater <==> g > t,
        outcome_of(g, t) == Outcome::Equal <==> g == t,
{
}

/// What one round of the game yields on a line of input: the parse error if
/// the line is no valid guess, and the ordering outcome against the target
/// otherwise.
pub open spec fn round_spec(s: Seq<char>, t: int) -> Result<Outcome, GuessError> {
    match parse_spec(s) {
        Ok(g) => Ok(outcome_of(g as int, t)),
        Err(e) => Err(e),
    }
}

/// Play one round: parse the input line and, if it is a valid guess,
/// compare it against the target.
pub fn check_guess(input: &str, target: u32) -> (r: Result<Outcome, GuessError>)
    ensures
        r == round_spec(input@, target as int),
{
    match parse_guess(input) {
        Ok(g) => Ok(compare_guess(g, target)),
        Err(e) => Err(e),
    }
}

/// A non-numeric line of input yields a parse error and no comparison
/// outcome, whatever the target is.
pub proof fn lemma_non_numeric_no_comparison(s: Seq<char>, t: int)
    requires
        s.len() > 0,
        !all_digits(s),
    ensures
        parse_spec(s) == Err::<u32, GuessError>(GuessError::ParseError),
        round_spec(s, t) == Err::<Outcome, GuessError>(GuessError::ParseError),
{
}

/// Relies on rand::Rng::gen_range: a value sampled from the given half-open
/// range; it panics only when the range is empty.
#[verifier::external_body]
fn random_in_range(lo: u32, hi: u32) -> (r: u32)
    requires
        lo < hi,
    ensures
        lo <= r < hi,
{
    rand::thread_rng().gen_range(lo..hi)
}

/// Draw the secret target for one run of the game, in the range the game
/// fixes.
pub fn new_target() -> (t: u32)
    ensures
        1 <= t < 101,
{
    random_in_range(1, 101)
}

} // verus!
