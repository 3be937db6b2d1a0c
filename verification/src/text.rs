//! Character-level text utilities: first-match search over sequences,
//! string equality, whitespace trimming and line splitting. These carry
//! the descriptor parsing and the path composition.

use vstd::prelude::*;

verus! {

/// Index of the first element satisfying `p`, or a negative value when
/// none does.
pub open spec fn find_first<A>(s: Seq<A>, p: spec_fn(A) -> bool) -> int
    decreases s.len(),
{
    if s.len() == 0 {
        -1
    } else if p(s[0]) {
        0
    } else {
        let r = find_first(s.drop_first(), p);
        if r < 0 {
            -1
        } else {
            r + 1
        }
    }
}

/// The least hit determines `find_first`.
pub proof fn lemma_find_first_at<A>(s: Seq<A>, p: spec_fn(A) -> bool, k: int)
    requires
        0 <= k < s.len(),
        p(s[k]),
        forall|i: int| 0 <= i < k ==> !p(s[i]),
    ensures
        find_first(s, p) == k,
    decreases s.len(),
{
    if k == 0 {
    } else {
        let rest = s.drop_first();
        assert(!p(s[0]));
        assert(rest[k - 1] == s[k]);
        assert(forall|i: int| 0 <= i < k - 1 ==> rest[i] == s[i + 1] && !p(rest[i]));
        lemma_find_first_at(rest, p, k - 1);
    }
}

/// A miss everywhere makes `find_first` negative.
pub proof fn lemma_find_first_none<A>(s: Seq<A>, p: spec_fn(A) -> bool)
    requires
        forall|i: int| 0 <= i < s.len() ==> !p(s[i]),
    ensures
        find_first(s, p) < 0,
    decreases s.len(),
{
    if s.len() == 0 {
    } else {
        let rest = s.drop_first();
        assert(forall|i: int| 0 <= i < rest.len() ==> rest[i] == s[i + 1] && !p(rest[i]));
        lemma_find_first_none(rest, p);
    }
}

/// Exact character-wise string equality.
pub fn str_eq(a: &str, b: &str) -> (r: bool)
    ensures
        r == (a@ == b@),
{
    let la = a.unicode_len();
    let lb = b.unicode_len();
    if la != lb {
        return false;
    }
    let mut i: usize = 0;
    while i < la
        invariant
            i <= la,
            la == a@.len(),
            la == b@.len(),
            forall|j: int| 0 <= j < i ==> a@[j] == b@[j],
        decreases la - i,
    {
        if a.get_char(i) != b.get_char(i) {
            return false;
        }
        i += 1;
    }
    proof {
        assert(a@ =~= b@);
    }
    true
}

/// ASCII-case-insensitive equality of two characters.
pub open spec fn ascii_ci_eq(a: char, b: char) -> bool {
    a == b || (65 <= a as int <= 90 && b as int == a as int + 32) || (65 <= b as int <= 90
        && a as int == b as int + 32)
}

/// Character-wise ASCII-case-insensitive equality of two strings.
pub open spec fn ci_matches(a: Seq<char>, b: Seq<char>) -> bool {
    a.len() == b.len() && (forall|i: int| 0 <= i < a.len() ==> ascii_ci_eq(a[i], b[i]))
}

pub fn str_ci_eq(a: &str, b: &str) -> (r: bool)
    ensures
        r == ci_matches(a@, b@),
{
    let la = a.unicode_len();
    let lb = b.unicode_len();
    if la != lb {
        return false;
    }
    let mut i: usize = 0;
    while i < la
        invariant
            i <= la,
            la == a@.len(),
            la == b@.len(),
            forall|j: int| 0 <= j < i ==> ascii_ci_eq(a@[j], b@[j]),
        decreases la - i,
    {
        let ca = a.get_char(i);
        let cb = b.get_char(i);
        let na = ca as u32;
        let nb = cb as u32;
        let hit = ca == cb || (65 <= na && na <= 90 && nb == na + 32) || (65 <= nb && nb <= 90
            && na == nb + 32);
        if !hit {
            return false;
        }
        i += 1;
    }
    true
}

/// The whitespace that surrounds keys and values: blanks, tabs, and the
/// carriage returns left by Windows line endings.
pub open spec fn spec_is_ws(c: char) -> bool {
    c == ' ' || c == '\t' || c == '\r'
}

fn is_ws(c: char) -> (r: bool)
    ensures
        r == spec_is_ws(c),
{
    c == ' ' || c == '\t' || c == '\r'
}

pub open spec fn trim_front(s: Seq<char>) -> Seq<char>
    decreases s.len(),
{
    if s.len() == 0 {
        s
    } else if spec_is_ws(s[0]) {
        trim_front(s.drop_first())
    } else {
        s
    }
}

pub open spec fn trim_back(s: Seq<char>) -> Seq<char>
    decreases s.len(),
{
    if s.len() == 0 {
        s
    } else if spec_is_ws(s.last()) {
        trim_back(s.drop_last())
    } else {
        s
    }
}

/// The string with leading and trailing whitespace removed.
pub open spec fn spec_trim(s: Seq<char>) -> Seq<char> {
    trim_back(trim_front(s))
}

pub fn trim_str(s: &str) -> (r: &str)
    ensures
        r@ == spec_trim(s@),
{
    let len = s.unicode_len();
    proof {
        assert(s@.subrange(0, len as int) =~= s@);
    }
    let mut start: usize = 0;
    while start < len && is_ws(s.get_char(start))
        invariant
            start <= len,
            len == s@.len(),
            trim_front(s@) == trim_front(s@.subrange(start as int, len as int)),
        decreases len - start,
    {
        proof {
            let cur = s@.subrange(start as int, len as int);
            assert(cur.drop_first() =~= s@.subrange(start as int + 1, len as int));
        }
        start += 1;
    }
    let ghost tf = trim_front(s@);
    proof {
        if start < len {
            assert(!spec_is_ws(s@.subrange(start as int, len as int)[0]));
        }
        assert(tf =~= s@.subrange(start as int, len as int));
    }
    let mut end: usize = len;
    while end > start && is_ws(s.get_char(end - 1))
        invariant
            start <= end <= len,
            len == s@.len(),
            tf == s@.subrange(start as int, len as int),
            spec_trim(s@) == trim_back(s@.subrange(start as int, end as int)),
        decreases end,
    {
        proof {
            let cur = s@.subrange(start as int, end as int);
            assert(cur.last() == s@[end - 1]);
            assert(cur.drop_last() =~= s@.subrange(start as int, end as int - 1));
        }
        end -= 1;
    }
    let r = s.substring_char(start, end);
    proof {
        let cur = s@.subrange(start as int, end as int);
        if end > start {
            assert(!spec_is_ws(cur.last()));
        }
        assert(r@ =~= spec_trim(s@));
    }
    r
}

/// The line-break predicate used for splitting.
pub open spec fn nl_pred() -> spec_fn(char) -> bool {
    |c: char| c == '\n'
}

/// The text cut at each newline. A text without newlines is a single
/// line; every newline ends a line, and what follows the last newline
/// (possibly nothing) is the final line.
pub open spec fn spec_lines(s: Seq<char>) -> Seq<Seq<char>>
    decreases s.len(),
{
    let n = find_first(s, nl_pred());
    if n < 0 || n >= s.len() {
        seq![s]
    } else {
        seq![s.subrange(0, n)] + spec_lines(s.subrange(n + 1, s.len() as int))
    }
}

pub fn split_lines(s: &str) -> (r: Vec<String>)
    ensures
        r.deep_view() == spec_lines(s@),
{
    let len = s.unicode_len();
    let mut out: Vec<String> = Vec::new();
    proof {
        assert(s@.subrange(0, len as int) =~= s@);
        assert(out.deep_view() =~= Seq::<Seq<char>>::empty());
        assert(out.deep_view() + spec_lines(s@) =~= spec_lines(s@));
    }
    let mut start: usize = 0;
    let mut i: usize = 0;
    while i < len
        invariant
            start <= i <= len,
            len == s@.len(),
            forall|j: int| start <= j < i ==> s@[j] != '\n',
            spec_lines(s@) == out.deep_view() + spec_lines(
                s@.subrange(start as int, len as int),
            ),
        decreases len - i,
    {
        let c = s.get_char(i);
        if c == '\n' {
            let line = s.substring_char(start, i);
            let ghost old_out = out.deep_view();
            out.push(String::from_str(line));
            proof {
                let tail = s@.subrange(start as int, len as int);
                assert(forall|j: int|
                    0 <= j < i - start ==> tail[j] == s@[start + j] && !(nl_pred()(tail[j])));
                assert(tail[i - start] == s@[i as int]);
                assert(nl_pred()(tail[i - start]));
                lemma_find_first_at(tail, nl_pred(), i - start);
                assert(tail.subrange(0, i - start) =~= s@.subrange(start as int, i as int));
                assert(tail.subrange(i - start + 1, tail.len() as int) =~= s@.subrange(
                    i as int + 1,
                    len as int,
                ));
                assert(spec_lines(tail) == seq![line@] + spec_lines(
                    s@.subrange(i as int + 1, len as int),
                ));
                assert(out.deep_view() =~= old_out.push(line@));
                assert(out.deep_view() + spec_lines(s@.subrange(i as int + 1, len as int))
                    =~= old_out + spec_lines(tail));
            }
            start = i + 1;
        }
        i += 1;
    }
    let line = s.substring_char(start, len);
    let ghost old_out = out.deep_view();
    out.push(String::from_str(line));
    proof {
        let tail = s@.subrange(start as int, len as int);
        assert(forall|j: int| 0 <= j < tail.len() ==> tail[j] == s@[start + j] && !(nl_pred()(
            tail[j],
        )));
        lemma_find_first_none(tail, nl_pred());
        assert(spec_lines(tail) == seq![tail]);
        assert(line@ == tail);
        assert(out.deep_view() =~= old_out.push(line@));
        assert(out.deep_view() =~= old_out + spec_lines(tail));
    }
    out
}

} // verus!
