use vstd::prelude::*;

verus! {

/// The offset of the first separator (space) at or after `i`, or the length
/// of the buffer when no separator follows.
pub open spec fn token_end_from(s: Seq<char>, i: int) -> int
    decreases s.len() - i,
{
    if i < 0 || i >= s.len() {
        s.len() as int
    } else if s[i] == ' ' {
        i
    } else {
        token_end_from(s, i + 1)
    }
}

/// The exclusive end offset of the leading token: the offset of the first
/// separator, or the length of the buffer when it has none.
pub open spec fn token_end(s: Seq<char>) -> int {
    token_end_from(s, 0)
}

/// The leading token of a text buffer: everything before the first separator.
pub open spec fn first_word_spec(s: Seq<char>) -> Seq<char> {
    s.subrange(0, token_end(s))
}

/// The token end lies within the buffer, no separator stands before it, and
/// a separator stands at it unless the buffer ran out.
pub proof fn lemma_token_end_props(s: Seq<char>, i: int)
    requires
        0 <= i <= s.len(),
    ensures
        i <= token_end_from(s, i) <= s.len(),
        forall|j: int| i <= j < token_end_from(s, i) ==> s[j] != ' ',
        token_end_from(s, i) < s.len() ==> s[token_end_from(s, i)] == ' ',
    decreases s.len() - i,
{
    if i < s.len() && s[i] != ' ' {
        lemma_token_end_props(s, i + 1);
    }
}

/// Scanning may skip any separator-free prefix: the token end seen from the
/// start equals the token end seen from offset `i`.
pub proof fn lemma_token_end_skip(s: Seq<char>, i: int)
    requires
        0 <= i <= s.len(),
        forall|j: int| 0 <= j < i ==> s[j] != ' ',
    ensures
        token_end(s) == token_end_from(s, i),
    decreases i,
{
    if i > 0 {
        lemma_token_end_skip(s, i - 1);
    }
}

/// A buffer with no separator character yields the whole buffer as its
/// leading token.
pub proof fn lemma_first_word_whole(s: Seq<char>)
    requires
        forall|j: int| 0 <= j < s.len() ==> s[j] != ' ',
    ensures
        first_word_spec(s) == s,
{
    lemma_token_end_skip(s, s.len() as int);
    assert(first_word_spec(s) =~= s);
}

/// A buffer whose first separator stands at offset `i` yields a leading
/// token of length exactly `i`.
pub proof fn lemma_first_word_at_separator(s: Seq<char>, i: int)
    requires
        0 <= i < s.len(),
        s[i] == ' ',
        forall|j: int| 0 <= j < i ==> s[j] != ' ',
    ensures
        first_word_spec(s).len() == i,
{
    lemma_token_end_skip(s, i);
}

/// Return the leading token of `s` as a borrowed view: everything up to
/// (excluding) the first separator, or the whole buffer when it has none.
pub fn first_word(s: &String) -> (w: &str)
    ensures
        w@ == first_word_spec(s@),
        w@.len() <= s@.len(),
        forall|j: int| 0 <= j < w@.len() ==> s@[j] != ' ',
        w@.len() < s@.len() ==> s@[w@.len() as int] == ' ',
{
    proof {
        lemma_token_end_props(s@, 0);
    }
    let st: &str = s.as_str();
    let n: usize = st.unicode_len();
    let mut i: usize = 0;
    while i < n
        invariant
            n == s@.len(),
            st@ == s@,
            i <= n,
            forall|j: int| 0 <= j < i ==> s@[j] != ' ',
        decreases n - i,
    {
        if st.get_char(i) == ' ' {
            proof {
                lemma_token_end_skip(s@, i as int);
            }
            return st.substring_char(0, i);
        }
        i = i + 1;
    }
    proof {
        lemma_token_end_skip(s@, n as int);
    }
    st.substring_char(0, n)
}

} // verus!
