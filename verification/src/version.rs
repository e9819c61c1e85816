//! Derivation of the short version strings used in rendered templates.
//!
//! From a full interpreter version such as `"3.13.5"` the scaffolder derives
//! `mm` (`"3.13"`, everything before the second dot) and `mm_nodec`
//! (`"313"`, `mm` with the dot removed).

use vstd::prelude::*;

verus! {

/// Index of the `(n + 1)`-th dot of `s`, or `s.len()` when `s` holds `n`
/// dots or fewer: the cut point just past the first `n + 1` dot-separated
/// components' text.
pub open spec fn cut_at_dot(s: Seq<char>, n: nat) -> int
    decreases s.len(),
{
    if s.len() == 0 {
        0
    } else if s.first() == '.' {
        if n == 0 {
            0
        } else {
            1 + cut_at_dot(s.drop_first(), (n - 1) as nat)
        }
    } else {
        1 + cut_at_dot(s.drop_first(), n)
    }
}

/// The `mm` form of a full version string: everything before the second
/// dot, which for `"X.Y.Z"` is `"X.Y"`; the whole string when it has fewer
/// than two dots.
pub open spec fn mm_of(s: Seq<char>) -> Seq<char> {
    s.take(cut_at_dot(s, 1))
}

/// `s` with every dot removed; for `"X.Y"` this is `"XY"`.
pub open spec fn strip_dots(s: Seq<char>) -> Seq<char>
    decreases s.len(),
{
    if s.len() == 0 {
        Seq::empty()
    } else if s.first() == '.' {
        strip_dots(s.drop_first())
    } else {
        seq![s.first()] + strip_dots(s.drop_first())
    }
}

proof fn lemma_cut_at_dot_le_len(s: Seq<char>, n: nat)
    ensures
        0 <= cut_at_dot(s, n) <= s.len(),
    decreases s.len(),
{
    if s.len() == 0 {
    } else if s.first() == '.' {
        if n > 0 {
            lemma_cut_at_dot_le_len(s.drop_first(), (n - 1) as nat);
        }
    } else {
        lemma_cut_at_dot_le_len(s.drop_first(), n);
    }
}

fn cut_index(s: &str, n: u32) -> (r: usize)
    ensures
        r == cut_at_dot(s@, n as nat),
    decreases s@.len(),
{
    let len = s.unicode_len();
    if len == 0 {
        0
    } else {
        let c = s.get_char(0);
        let rest = s.substring_char(1, len);
        proof {
            assert(rest@ =~= s@.drop_first());
        }
        if c == '.' && n == 0 {
            0
        } else if c == '.' {
            proof {
                lemma_cut_at_dot_le_len(rest@, (n - 1) as nat);
            }
            1 + cut_index(rest, n - 1)
        } else {
            proof {
                lemma_cut_at_dot_le_len(rest@, n as nat);
            }
            1 + cut_index(rest, n)
        }
    }
}

/// Everything of `py_full` before its second dot: `"3.13.5"` gives
/// `"3.13"`, a string with fewer than two dots is returned whole.
pub fn derive_mm(py_full: &str) -> (r: String)
    ensures
        r@ == mm_of(py_full@),
{
    proof {
        lemma_cut_at_dot_le_len(py_full@, 1);
    }
    let j = cut_index(py_full, 1);
    let pre = py_full.substring_char(0, j);
    proof {
        assert(pre@ =~= mm_of(py_full@));
    }
    String::from_str(pre)
}

proof fn lemma_strip_dots_push(t: Seq<char>, c: char)
    ensures
        strip_dots(t.push(c)) == strip_dots(t) + (if c == '.' {
            Seq::<char>::empty()
        } else {
            seq![c]
        }),
    decreases t.len(),
{
    if t.len() == 0 {
        assert(t.push(c).drop_first() =~= Seq::<char>::empty());
        if c != '.' {
            assert(seq![c] + strip_dots(Seq::<char>::empty()) =~= strip_dots(t) + seq![c]);
        }
    } else {
        assert(t.push(c).drop_first() =~= t.drop_first().push(c));
        lemma_strip_dots_push(t.drop_first(), c);
        if c != '.' && t.first() != '.' {
            assert(seq![t.first()] + (strip_dots(t.drop_first()) + seq![c]) =~= (seq![t.first()]
                + strip_dots(t.drop_first())) + seq![c]);
        }
    }
}

/// `mm` with every dot removed: `"3.13"` gives `"313"`.
pub fn derive_mm_nodec(mm: &str) -> (r: String)
    ensures
        r@ == strip_dots(mm@),
{
    let len = mm.unicode_len();
    let mut out = String::new();
    let mut i: usize = 0;
    while i < len
        invariant
            i <= len,
            len == mm@.len(),
            out@ == strip_dots(mm@.take(i as int)),
        decreases len - i,
    {
        let c = mm.get_char(i);
        if c != '.' {
            let piece = mm.substring_char(i, i + 1);
            proof {
                assert(piece@ =~= seq![mm@[i as int]]);
            }
            out.append(piece);
        }
        proof {
            lemma_strip_dots_push(mm@.take(i as int), mm@[i as int]);
            assert(mm@.take(i as int).push(mm@[i as int]) =~= mm@.take(i as int + 1));
        }
        i = i + 1;
    }
    proof {
        assert(mm@.take(len as int) =~= mm@);
    }
    out
}

proof fn lemma_cut_at_first_dot(s: Seq<char>, j: int)
    requires
        0 <= j < s.len(),
        s[j] == '.',
        forall|k: int| 0 <= k < j ==> s[k] != '.',
    ensures
        cut_at_dot(s, 0) == j,
    decreases s.len(),
{
    if j > 0 {
        lemma_cut_at_first_dot(s.drop_first(), j - 1);
    }
}

proof fn lemma_cut_at_second_dot(s: Seq<char>, i: int, j: int)
    requires
        0 <= i < j < s.len(),
        s[i] == '.',
        s[j] == '.',
        forall|k: int| 0 <= k < j && k != i ==> s[k] != '.',
    ensures
        cut_at_dot(s, 1) == j,
    decreases s.len(),
{
    if i == 0 {
        lemma_cut_at_first_dot(s.drop_first(), j - 1);
    } else {
        lemma_cut_at_second_dot(s.drop_first(), i - 1, j - 1);
    }
}

proof fn lemma_strip_dots_concat(a: Seq<char>, b: Seq<char>)
    ensures
        strip_dots(a + b) == strip_dots(a) + strip_dots(b),
    decreases a.len(),
{
    if a.len() == 0 {
        assert(a + b =~= b);
        assert(strip_dots(a) + strip_dots(b) =~= strip_dots(b));
    } else {
        assert((a + b).drop_first() =~= a.drop_first() + b);
        lemma_strip_dots_concat(a.drop_first(), b);
        if a.first() != '.' {
            assert(seq![a.first()] + (strip_dots(a.drop_first()) + strip_dots(b)) =~= (seq![
                a.first(),
            ] + strip_dots(a.drop_first())) + strip_dots(b));
        }
    }
}

proof fn lemma_strip_dots_dotless(a: Seq<char>)
    requires
        forall|k: int| 0 <= k < a.len() ==> a[k] != '.',
    ensures
        strip_dots(a) == a,
    decreases a.len(),
{
    if a.len() > 0 {
        lemma_strip_dots_dotless(a.drop_first());
        assert(seq![a.first()] + a.drop_first() =~= a);
    }
}

/// For a version string whose first two dots stand at `i` and `j`, the
/// derived `mm` is the first two dot-separated components joined by a dot,
/// and `mm_nodec` is those two components side by side with the dot gone.
pub proof fn lemma_mm_of_version(s: Seq<char>, i: int, j: int)
    requires
        0 <= i < j < s.len(),
        s[i] == '.',
        s[j] == '.',
        forall|k: int| 0 <= k < j && k != i ==> s[k] != '.',
    ensures
        mm_of(s) == s.subrange(0, i) + seq!['.'] + s.subrange(i + 1, j),
        strip_dots(mm_of(s)) == s.subrange(0, i) + s.subrange(i + 1, j),
{
    lemma_cut_at_second_dot(s, i, j);
    assert(s.take(j) =~= s.subrange(0, i) + seq!['.'] + s.subrange(i + 1, j));
    lemma_strip_dots_concat(s.subrange(0, i) + seq!['.'], s.subrange(i + 1, j));
    lemma_strip_dots_concat(s.subrange(0, i), seq!['.']);
    lemma_strip_dots_dotless(s.subrange(0, i));
    lemma_strip_dots_dotless(s.subrange(i + 1, j));
    assert(seq!['.'].drop_first() =~= Seq::<char>::empty());
    assert(strip_dots(Seq::<char>::empty()) =~= Seq::<char>::empty());
    assert(strip_dots(seq!['.']) =~= Seq::<char>::empty());
    assert((s.subrange(0, i) + seq!['.']) + s.subrange(i + 1, j) =~= s.subrange(0, i) + seq!['.']
        + s.subrange(i + 1, j));
    assert(strip_dots(s.subrange(0, i)) + Seq::<char>::empty() =~= strip_dots(s.subrange(0, i)));
    assert(s.subrange(0, i) + Seq::<char>::empty() + s.subrange(i + 1, j) =~= s.subrange(0, i)
        + s.subrange(i + 1, j));
}

} // verus!
