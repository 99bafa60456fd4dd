//! Verified string helpers: short-SHA prefixes, first-line extraction,
//! lexicographic comparison, comma joining, and substring search.

use vstd::prelude::*;
use vstd::string::StringExecFns;
use vstd::string::StrSliceExecFns;

verus! {

/// The first seven characters of a commit SHA, or the whole SHA when it is
/// shorter than seven characters.
pub open spec fn short_sha_of(sha: Seq<char>) -> Seq<char> {
    if sha.len() >= 7 {
        sha.subrange(0, 7)
    } else {
        sha
    }
}

pub fn short_sha(sha: &str) -> (r: String)
    ensures
        r@ == short_sha_of(sha@),
{
    let n = sha.unicode_len();
    if n >= 7 {
        String::from_str(sha.substring_char(0, 7))
    } else {
        String::from_str(sha)
    }
}

/// Number of characters before the first newline, or the whole length when
/// the sequence holds no newline.
pub open spec fn line_prefix_len(s: Seq<char>) -> int
    decreases s.len(),
{
    if s.len() == 0 {
        0
    } else if s[0] == '\n' {
        0
    } else {
        1 + line_prefix_len(s.drop_first())
    }
}

pub open spec fn strip_trailing_cr(s: Seq<char>) -> Seq<char> {
    if s.len() > 0 && s[s.len() - 1] == '\r' {
        s.drop_last()
    } else {
        s
    }
}

/// The first line of a text, as the standard line iterator yields it: the
/// prefix before the first newline, with a carriage return stripped when the
/// line was terminated by a newline.
pub open spec fn first_line_of(s: Seq<char>) -> Seq<char> {
    let n = line_prefix_len(s);
    if n < s.len() {
        strip_trailing_cr(s.subrange(0, n))
    } else {
        s
    }
}

proof fn lemma_line_prefix_len_at(s: Seq<char>, i: int)
    requires
        0 <= i <= s.len(),
        forall|j: int| 0 <= j < i ==> s[j] != '\n',
        i < s.len() ==> s[i] == '\n',
    ensures
        line_prefix_len(s) == i,
    decreases i,
{
    if i == 0 {
    } else {
        assert(s[0] != '\n');
        let t = s.drop_first();
        assert(forall|j: int| 0 <= j < i - 1 ==> t[j] == s[j + 1] && t[j] != '\n');
        assert(i - 1 < t.len() ==> t[i - 1] == s[i]);
        lemma_line_prefix_len_at(t, i - 1);
    }
}

pub fn first_line(s: &str) -> (r: String)
    ensures
        r@ == first_line_of(s@),
{
    let n = s.unicode_len();
    let mut i: usize = 0;
    while i < n && s.get_char(i) != '\n'
        invariant
            0 <= i <= n,
            n == s@.len(),
            forall|j: int| 0 <= j < i ==> s@[j] != '\n',
        decreases n - i,
    {
        i = i + 1;
    }
    proof {
        lemma_line_prefix_len_at(s@, i as int);
    }
    if i < n {
        // A newline terminates the first line: strip a trailing '\r' as well.
        if i > 0 && s.get_char(i - 1) == '\r' {
            String::from_str(s.substring_char(0, i - 1))
        } else {
            String::from_str(s.substring_char(0, i))
        }
    } else {
        String::from_str(s)
    }
}

/// Lexicographic order on character sequences by code point, matching the
/// standard library's ordering of strings.
pub open spec fn lex_le(a: Seq<char>, b: Seq<char>) -> bool
    decreases a.len(),
{
    if a.len() == 0 {
        true
    } else if b.len() == 0 {
        false
    } else if (a[0] as u32) == (b[0] as u32) {
        lex_le(a.drop_first(), b.drop_first())
    } else {
        (a[0] as u32) < (b[0] as u32)
    }
}

proof fn lemma_lex_le_at(a: Seq<char>, b: Seq<char>, i: int)
    requires
        0 <= i <= a.len(),
        i <= b.len(),
        forall|j: int| 0 <= j < i ==> (a[j] as u32) == (b[j] as u32),
        i == a.len() || i == b.len() || (a[i] as u32) != (b[i] as u32),
    ensures
        lex_le(a, b) == (if i == a.len() {
            true
        } else if i == b.len() {
            false
        } else {
            (a[i] as u32) < (b[i] as u32)
        }),
    decreases i,
{
    if i == 0 {
    } else {
        assert((a[0] as u32) == (b[0] as u32));
        let at = a.drop_first();
        let bt = b.drop_first();
        assert(forall|j: int| 0 <= j < i - 1 ==> at[j] == a[j + 1] && bt[j] == b[j + 1]);
        lemma_lex_le_at(at, bt, i - 1);
    }
}

pub proof fn lemma_lex_le_refl(a: Seq<char>)
    ensures
        lex_le(a, a),
    decreases a.len(),
{
    if a.len() > 0 {
        lemma_lex_le_refl(a.drop_first());
    }
}

pub proof fn lemma_lex_le_total(a: Seq<char>, b: Seq<char>)
    ensures
        lex_le(a, b) || lex_le(b, a),
    decreases a.len(),
{
    if a.len() == 0 || b.len() == 0 {
    } else if (a[0] as u32) == (b[0] as u32) {
        lemma_lex_le_total(a.drop_first(), b.drop_first());
    }
}

pub proof fn lemma_lex_le_trans(a: Seq<char>, b: Seq<char>, c: Seq<char>)
    requires
        lex_le(a, b),
        lex_le(b, c),
    ensures
        lex_le(a, c),
    decreases a.len(),
{
    if a.len() == 0 || b.len() == 0 || c.len() == 0 {
    } else if (a[0] as u32) == (b[0] as u32) && (b[0] as u32) == (c[0] as u32) {
        lemma_lex_le_trans(a.drop_first(), b.drop_first(), c.drop_first());
    }
}

pub fn str_lex_le(a: &str, b: &str) -> (r: bool)
    ensures
        r == lex_le(a@, b@),
{
    let an = a.unicode_len();
    let bn = b.unicode_len();
    let mut i: usize = 0;
    loop
        invariant
            0 <= i <= an,
            i <= bn,
            an == a@.len(),
            bn == b@.len(),
            forall|j: int| 0 <= j < i ==> (a@[j] as u32) == (b@[j] as u32),
        decreases an - i,
    {
        if i >= an {
            proof {
                lemma_lex_le_at(a@, b@, i as int);
            }
            return true;
        }
        if i >= bn {
            proof {
                lemma_lex_le_at(a@, b@, i as int);
            }
            return false;
        }
        let ca = a.get_char(i) as u32;
        let cb = b.get_char(i) as u32;
        if ca != cb {
            proof {
                lemma_lex_le_at(a@, b@, i as int);
            }
            return ca < cb;
        }
        i = i + 1;
    }
}

/// The items joined by a comma and a space, in order.
pub open spec fn join_commas(items: Seq<Seq<char>>) -> Seq<char>
    decreases items.len(),
{
    if items.len() == 0 {
        Seq::empty()
    } else if items.len() == 1 {
        items[0]
    } else {
        items[0] + ", "@ + join_commas(items.drop_first())
    }
}

proof fn lemma_join_commas_push(items: Seq<Seq<char>>, x: Seq<char>)
    requires
        items.len() > 0,
    ensures
        join_commas(items.push(x)) == join_commas(items) + ", "@ + x,
    decreases items.len(),
{
    let p = items.push(x);
    if items.len() == 1 {
        assert(p.drop_first() =~= seq![x]);
        assert(join_commas(seq![x]) == x);
        assert(join_commas(p) == items[0] + ", "@ + x);
    } else {
        assert(p.drop_first() =~= items.drop_first().push(x));
        lemma_join_commas_push(items.drop_first(), x);
        assert(join_commas(p) == p[0] + ", "@ + join_commas(items.drop_first().push(x)));
    }
}

pub fn join_comma(v: &Vec<String>) -> (r: String)
    ensures
        r@ == join_commas(v@.map_values(|s: String| s@)),
{
    let ghost items = v@.map_values(|s: String| s@);
    let mut r = String::new();
    let mut i: usize = 0;
    while i < v.len()
        invariant
            0 <= i <= v.len(),
            items == v@.map_values(|s: String| s@),
            items.len() == v.len(),
            r@ == join_commas(items.take(i as int)),
        decreases v.len() - i,
    {
        if i > 0 {
            r.append(", ");
        }
        r.append(v[i].as_str());
        proof {
            if i == 0 {
                assert(items.take(1) =~= seq![items[0]]);
            } else {
                assert(items.take(i + 1) =~= items.take(i as int).push(items[i as int]));
                lemma_join_commas_push(items.take(i as int), items[i as int]);
            }
        }
        i = i + 1;
    }
    proof {
        assert(items.take(v.len() as int) =~= items);
    }
    r
}

/// True when `n` occurs in `h` starting at index `i`.
pub open spec fn has_substring_at(h: Seq<char>, n: Seq<char>, i: int) -> bool {
    0 <= i && i + n.len() <= h.len() && h.subrange(i, i + n.len()) == n
}

/// True when `n` occurs anywhere in `h`.
pub open spec fn contains_seq(h: Seq<char>, n: Seq<char>) -> bool {
    exists|i: int| has_substring_at(h, n, i)
}

pub fn contains_sub(h: &str, n: &str) -> (r: bool)
    ensures
        r == contains_seq(h@, n@),
{
    let hn = h.unicode_len();
    let nn = n.unicode_len();
    if nn == 0 {
        proof {
            assert(h@.subrange(0, 0) =~= n@);
            assert(has_substring_at(h@, n@, 0));
        }
        return true;
    }
    if nn > hn {
        proof {
            assert forall|i: int| !has_substring_at(h@, n@, i) by {
                assert(i < 0 || i + n@.len() > h@.len());
            }
        }
        return false;
    }
    let mut i: usize = 0;
    while i <= hn - nn
        invariant
            0 <= i <= hn - nn + 1,
            1 <= nn <= hn,
            hn == h@.len(),
            nn == n@.len(),
            forall|k: int| 0 <= k < i ==> !has_substring_at(h@, n@, k),
        decreases hn - nn - i + 1,
    {
        let mut j: usize = 0;
        let mut matched = true;
        while matched && j < nn
            invariant
                0 <= j <= nn,
                0 <= i <= hn - nn,
                hn == h@.len(),
                nn == n@.len(),
                matched ==> forall|l: int| 0 <= l < j ==> h@[i + l] == n@[l],
                !matched ==> exists|l: int| 0 <= l < n@.len() && h@[i + l] != n@[l],
            decreases nn - j, (if matched { 1int } else { 0int }),
        {
            let hc = h.get_char(i + j);
            let nc = n.get_char(j);
            if hc != nc {
                matched = false;
                proof {
                    assert(h@[i + j] != n@[j as int]);
                }
            } else {
                j = j + 1;
            }
        }
        if matched {
            proof {
                assert(h@.subrange(i as int, i + n@.len()) =~= n@);
                assert(has_substring_at(h@, n@, i as int));
            }
            return true;
        }
        proof {
            assert(h@.subrange(i as int, i + n@.len()) != n@) by {
                let l = choose|l: int| 0 <= l < n@.len() && h@[i + l] != n@[l];
                assert(h@.subrange(i as int, i + n@.len())[l] != n@[l]);
            }
        }
        i = i + 1;
    }
    proof {
        assert forall|k: int| !has_substring_at(h@, n@, k) by {
            if 0 <= k && k + n@.len() <= h@.len() {
                assert(k < i);
            }
        }
    }
    false
}

/// A pointwise property of the elements carries over to any permutation.
pub proof fn lemma_perm_preserves_pointwise<T>(a: Seq<T>, b: Seq<T>, p: spec_fn(T) -> bool)
    requires
        a.to_multiset() == b.to_multiset(),
        forall|i: int| 0 <= i < a.len() ==> p(a[i]),
    ensures
        forall|i: int| 0 <= i < b.len() ==> p(b[i]),
{
    broadcast use vstd::seq_lib::group_to_multiset_ensures;

    assert forall|i: int| 0 <= i < b.len() implies p(b[i]) by {
        assert(b.contains(b[i]));
        assert(a.to_multiset().count(b[i]) > 0);
        assert(a.contains(b[i]));
        let k = choose|k: int| 0 <= k < a.len() && a[k] == b[i];
        assert(p(a[k]));
    }
}

} // verus!
