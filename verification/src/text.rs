//! Character-level text utilities: prefix tests, character search,
//! whitespace trimming and whitespace-separated tokens, with exact
//! specifications over `Seq<char>`.

use vstd::prelude::*;
use vstd::string::StrSliceExecFns;

verus! {

/// ASCII whitespace, the only whitespace the wire protocol produces.
pub open spec fn is_ws(c: char) -> bool {
    c == ' ' || c == '\t' || c == '\n' || c == '\r' || c == '\x0b' || c == '\x0c'
}

/// Runtime test for [`is_ws`].
pub fn is_ws_char(c: char) -> (r: bool)
    ensures
        r == is_ws(c),
{
    c == ' ' || c == '\t' || c == '\n' || c == '\r' || c == '\x0b' || c == '\x0c'
}

/// `p` is a prefix of `s`.
pub open spec fn spec_starts_with(s: Seq<char>, p: Seq<char>) -> bool {
    p.len() <= s.len() && s.subrange(0, p.len() as int) == p
}

/// Whether `s` starts with the prefix `p`, by characters.
pub fn starts_with(s: &str, p: &str) -> (r: bool)
    ensures
        r == spec_starts_with(s@, p@),
{
    let sn: usize = s.unicode_len();
    let n: usize = p.unicode_len();
    if n > sn {
        return false;
    }
    let mut i: usize = 0;
    while i < n
        invariant
            i <= n,
            n == p@.len(),
            n <= s@.len(),
            forall|j: int| 0 <= j < i ==> s@[j] == p@[j],
        decreases n - i,
    {
        if s.get_char(i) != p.get_char(i) {
            proof {
                assert(s@.subrange(0, n as int)[i as int] != p@[i as int]);
            }
            return false;
        }
        i = i + 1;
    }
    proof {
        assert(s@.subrange(0, n as int) =~= p@);
    }
    true
}

/// The smallest index of `c` in `s`, if any.
pub open spec fn spec_find(s: Seq<char>, c: char) -> Option<int>
    decreases s.len(),
{
    if s.len() == 0 {
        None
    } else if s[0] == c {
        Some(0int)
    } else {
        match spec_find(s.drop_first(), c) {
            None => None,
            Some(i) => Some(i + 1),
        }
    }
}

/// If `c` first occurs at index `i`, then [`spec_find`] returns `i`.
proof fn lemma_find_at(s: Seq<char>, c: char, i: int)
    requires
        0 <= i < s.len(),
        s[i] == c,
        forall|j: int| 0 <= j < i ==> s[j] != c,
    ensures
        spec_find(s, c) == Some(i),
    decreases i,
{
    if i > 0 {
        lemma_find_at(s.drop_first(), c, i - 1);
    }
}

/// If `c` does not occur in `s`, then [`spec_find`] returns `None`.
proof fn lemma_find_absent(s: Seq<char>, c: char)
    requires
        forall|j: int| 0 <= j < s.len() ==> s[j] != c,
    ensures
        spec_find(s, c) == None::<int>,
    decreases s.len(),
{
    if s.len() > 0 {
        lemma_find_absent(s.drop_first(), c);
    }
}

/// The smallest index of `c` in `s` at or after `start`, reported against
/// [`spec_find`] on the remaining characters.
pub fn find_from(s: &str, start: usize, c: char) -> (r: Option<usize>)
    requires
        start <= s@.len(),
    ensures
        match r {
            Some(i) => start <= i < s@.len() && spec_find(s@.skip(start as int), c) == Some(
                i - start,
            ),
            None => spec_find(s@.skip(start as int), c) == None::<int>,
        },
{
    let n: usize = s.unicode_len();
    let mut i: usize = start;
    while i < n
        invariant
            start <= i <= n,
            n == s@.len(),
            forall|j: int| start <= j < i ==> s@[j] != c,
        decreases n - i,
    {
        if s.get_char(i) == c {
            proof {
                assert forall|j: int| 0 <= j < i - start implies s@.skip(start as int)[j]
                    != c by {
                    assert(s@.skip(start as int)[j] == s@[start + j]);
                }
                assert(s@.skip(start as int)[i - start] == c);
                lemma_find_at(s@.skip(start as int), c, i - start);
            }
            return Some(i);
        }
        i = i + 1;
    }
    proof {
        assert forall|j: int| 0 <= j < s@.skip(start as int).len() implies s@.skip(
            start as int,
        )[j] != c by {
            assert(s@.skip(start as int)[j] == s@[start + j]);
        }
        lemma_find_absent(s@.skip(start as int), c);
    }
    None
}

/// `s` without leading ASCII whitespace.
pub open spec fn spec_trim_start(s: Seq<char>) -> Seq<char>
    decreases s.len(),
{
    if s.len() > 0 && is_ws(s[0]) {
        spec_trim_start(s.drop_first())
    } else {
        s
    }
}

/// `s` without trailing ASCII whitespace.
pub open spec fn spec_trim_end(s: Seq<char>) -> Seq<char>
    decreases s.len(),
{
    if s.len() > 0 && is_ws(s.last()) {
        spec_trim_end(s.drop_last())
    } else {
        s
    }
}

/// `s` without leading and trailing ASCII whitespace.
pub open spec fn spec_trim(s: Seq<char>) -> Seq<char> {
    spec_trim_end(spec_trim_start(s))
}

proof fn lemma_trim_start_skip(s: Seq<char>, a: int)
    requires
        0 <= a <= s.len(),
        forall|j: int| 0 <= j < a ==> is_ws(s[j]),
        a == s.len() || !is_ws(s[a]),
    ensures
        spec_trim_start(s) == s.skip(a),
    decreases a,
{
    if a == 0 {
        assert(s.skip(0) =~= s);
    } else {
        lemma_trim_start_skip(s.drop_first(), a - 1);
        assert(s.drop_first().skip(a - 1) =~= s.skip(a));
    }
}

proof fn lemma_trim_end_take(s: Seq<char>, b: int)
    requires
        0 <= b <= s.len(),
        forall|j: int| b <= j < s.len() ==> is_ws(s[j]),
        b == 0 || !is_ws(s[b - 1]),
    ensures
        spec_trim_end(s) == s.take(b),
    decreases s.len() - b,
{
    if b == s.len() {
        assert(s.take(b) =~= s);
    } else {
        lemma_trim_end_take(s.drop_last(), b);
        assert(s.drop_last().take(b) =~= s.take(b));
    }
}

/// `s` with ASCII whitespace removed from both ends.
pub fn trim(s: &str) -> (r: &str)
    ensures
        r@ == spec_trim(s@),
{
    let n: usize = s.unicode_len();
    let mut a: usize = 0;
    loop
        invariant_except_break
            a <= n,
            n == s@.len(),
            forall|j: int| 0 <= j < a ==> is_ws(s@[j]),
        ensures
            a <= n,
            n == s@.len(),
            forall|j: int| 0 <= j < a ==> is_ws(s@[j]),
            a == n || !is_ws(s@[a as int]),
        decreases n - a,
    {
        if a == n {
            break ;
        }
        if !is_ws_char(s.get_char(a)) {
            break ;
        }
        a = a + 1;
    }
    let mut b: usize = n;
    loop
        invariant_except_break
            a <= b <= n,
            n == s@.len(),
            forall|j: int| b <= j < n ==> is_ws(s@[j]),
        ensures
            a <= b <= n,
            n == s@.len(),
            forall|j: int| b <= j < n ==> is_ws(s@[j]),
            b == a || !is_ws(s@[b - 1]),
        decreases b,
    {
        if b == a {
            break ;
        }
        if !is_ws_char(s.get_char(b - 1)) {
            break ;
        }
        b = b - 1;
    }
    proof {
        lemma_trim_start_skip(s@, a as int);
        let t = s@.skip(a as int);
        if a == n {
            assert(t =~= Seq::<char>::empty());
            assert(spec_trim_end(t) == t);
            assert(t.take(b - a) =~= t);
        } else {
            assert forall|j: int| b - a <= j < t.len() implies is_ws(t[j]) by {
                assert(t[j] == s@[a + j]);
            }
            if b > a {
                assert(t[b - a - 1] == s@[b - 1]);
                // the end scan stopped either at a non-whitespace character
                // or at index a, which is non-whitespace here
                assert(!is_ws(s@[b - 1]));
            }
            lemma_trim_end_take(t, b - a);
        }
        assert(t.take(b - a) =~= s@.subrange(a as int, b as int));
    }
    s.substring_char(a, b)
}

/// The length of the leading run of non-whitespace characters of `s`.
pub open spec fn token_len(s: Seq<char>) -> int
    decreases s.len(),
{
    if s.len() == 0 || is_ws(s[0]) {
        0
    } else {
        1 + token_len(s.drop_first())
    }
}

proof fn lemma_token_len_bounds(s: Seq<char>)
    ensures
        0 <= token_len(s) <= s.len(),
        s.len() > 0 && !is_ws(s[0]) ==> token_len(s) >= 1,
    decreases s.len(),
{
    if s.len() > 0 && !is_ws(s[0]) {
        lemma_token_len_bounds(s.drop_first());
    }
}

proof fn lemma_token_len_at(s: Seq<char>, k: int)
    requires
        0 <= k <= s.len(),
        forall|j: int| 0 <= j < k ==> !is_ws(s[j]),
        k == s.len() || is_ws(s[k]),
    ensures
        token_len(s) == k,
    decreases k,
{
    if k > 0 {
        lemma_token_len_at(s.drop_first(), k - 1);
    }
}

#[via_fn]
proof fn ws_tokens_decreases(s: Seq<char>) {
    lemma_token_len_bounds(s);
}

/// The maximal runs of non-whitespace characters of `s`, in order, as
/// `str::split_ascii_whitespace` yields them: no empty runs, leading and
/// trailing whitespace dropped.
pub open spec fn spec_ws_tokens(s: Seq<char>) -> Seq<Seq<char>>
    decreases s.len(),
    via ws_tokens_decreases
{
    if s.len() == 0 {
        Seq::<Seq<char>>::empty()
    } else if is_ws(s[0]) {
        spec_ws_tokens(s.drop_first())
    } else {
        seq![s.take(token_len(s))] + spec_ws_tokens(s.skip(token_len(s)))
    }
}

/// The whitespace-separated tokens of `s`, in order.
pub fn ws_tokens(s: &str) -> (r: Vec<String>)
    ensures
        r.deep_view() == spec_ws_tokens(s@),
{
    let n: usize = s.unicode_len();
    let mut out: Vec<String> = Vec::new();
    let mut i: usize = 0;
    proof {
        assert(s@.skip(0) =~= s@);
        assert(out.deep_view() + spec_ws_tokens(s@) =~= spec_ws_tokens(s@));
    }
    while i < n
        invariant
            i <= n,
            n == s@.len(),
            spec_ws_tokens(s@) == out.deep_view() + spec_ws_tokens(s@.skip(i as int)),
        decreases n - i,
    {
        if is_ws_char(s.get_char(i)) {
            proof {
                assert(s@.skip(i as int).drop_first() =~= s@.skip(i + 1));
                assert(s@.skip(i as int)[0] == s@[i as int]);
            }
            i = i + 1;
        } else {
            let mut j: usize = i + 1;
            loop
                invariant_except_break
                    i < j <= n,
                    n == s@.len(),
                    forall|k: int| i <= k < j ==> !is_ws(s@[k]),
                ensures
                    i < j <= n,
                    n == s@.len(),
                    forall|k: int| i <= k < j ==> !is_ws(s@[k]),
                    j == n || is_ws(s@[j as int]),
                decreases n - j,
            {
                if j == n {
                    break ;
                }
                if is_ws_char(s.get_char(j)) {
                    break ;
                }
                j = j + 1;
            }
            let tok = s.substring_char(i, j).to_owned();
            proof {
                let t = s@.skip(i as int);
                assert forall|k: int| 0 <= k < j - i implies !is_ws(t[k]) by {
                    assert(t[k] == s@[i + k]);
                }
                if j < n {
                    assert(t[j - i] == s@[j as int]);
                }
                lemma_token_len_at(t, j - i);
                assert(t.take(j - i) =~= s@.subrange(i as int, j as int));
                assert(t.skip(j - i) =~= s@.skip(j as int));
                assert(!is_ws(t[0]));
                assert(spec_ws_tokens(t) == seq![tok@] + spec_ws_tokens(s@.skip(j as int)));
            }
            let ghost prev = out.deep_view();
            out.push(tok);
            proof {
                assert(out.deep_view() =~= prev + seq![tok@]);
                assert((prev + seq![tok@]) + spec_ws_tokens(s@.skip(j as int)) =~= prev + (seq![
                    tok@,
                ] + spec_ws_tokens(s@.skip(j as int))));
            }
            i = j;
        }
    }
    proof {
        assert(s@.skip(n as int) =~= Seq::<char>::empty());
        assert(out.deep_view() + Seq::<Seq<char>>::empty() =~= out.deep_view());
    }
    out
}

} // verus!
