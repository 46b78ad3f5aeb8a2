//! Character-level helpers shared by configuration and rendering.

use crate::row_text::{decimal, digit_char};
use vstd::prelude::*;
use vstd::string::StringExecFns;

verus! {

/// Append `n` in decimal to `out`.
pub fn append_decimal(out: &mut String, n: u64)
    ensures
        final(out)@ == old(out)@ + decimal(n as nat),
    decreases n,
{
    if n >= 10 {
        append_decimal(out, n / 10);
    }
    let digits = "0123456789";
    let d = (n % 10) as usize;
    proof {
        reveal_strlit("0123456789");
        assert(digits@[d as int] == digit_char(d as nat));
    }
    let digit = digits.substring_ascii(d, d + 1);
    proof {
        assert(digit@ == seq![digit_char((n % 10) as nat)]);
    }
    out.append(digit);
}

/// The characters of a string.
pub fn chars_of(s: &str) -> (v: Vec<char>)
    ensures
        v@ == s@,
{
    let mut v: Vec<char> = Vec::new();
    for c in it: s.chars()
        invariant
            v@ == it.seq().subrange(0, it.index() as int),
    {
        v.push(c);
    }
    v
}

} // verus!

verus! {

/// Lexicographic order of character sequences by code point (for UTF-8
/// strings, the same order as their bytes).
pub open spec fn chars_lt(a: Seq<char>, b: Seq<char>) -> bool
    decreases a.len(),
{
    if a.len() == 0 {
        b.len() > 0
    } else if b.len() == 0 {
        false
    } else if (a[0] as u32) < (b[0] as u32) {
        true
    } else if a[0] == b[0] {
        chars_lt(a.drop_first(), b.drop_first())
    } else {
        false
    }
}

pub proof fn lemma_chars_lt_irreflexive(a: Seq<char>)
    ensures
        !chars_lt(a, a),
    decreases a.len(),
{
    if a.len() > 0 {
        lemma_chars_lt_irreflexive(a.drop_first());
    }
}

pub proof fn lemma_chars_lt_transitive(a: Seq<char>, b: Seq<char>, c: Seq<char>)
    requires
        chars_lt(a, b),
        chars_lt(b, c),
    ensures
        chars_lt(a, c),
    decreases a.len(),
{
    if a.len() > 0 && b.len() > 0 && c.len() > 0 {
        if a[0] == b[0] && b[0] == c[0] {
            lemma_chars_lt_transitive(a.drop_first(), b.drop_first(), c.drop_first());
        }
    }
}

pub proof fn lemma_chars_lt_total(a: Seq<char>, b: Seq<char>)
    ensures
        a == b || chars_lt(a, b) || chars_lt(b, a),
    decreases a.len(),
{
    if a.len() > 0 && b.len() > 0 {
        if a[0] == b[0] {
            lemma_chars_lt_total(a.drop_first(), b.drop_first());
            if a.drop_first() == b.drop_first() {
                assert(a == seq![a[0]] + a.drop_first());
                assert(b == seq![b[0]] + b.drop_first());
            }
        } else {
            assert((a[0] as u32) != (b[0] as u32)) by {
                vstd::utf8::char_u32_cast(a[0], a[0] as u32);
                vstd::utf8::char_u32_cast(b[0], b[0] as u32);
            }
        }
    } else if a.len() == 0 && b.len() == 0 {
        assert(a == b);
    }
}

pub proof fn lemma_chars_lt_asymmetric(a: Seq<char>, b: Seq<char>)
    requires
        chars_lt(a, b),
    ensures
        !chars_lt(b, a),
{
    if chars_lt(b, a) {
        lemma_chars_lt_transitive(a, b, a);
        lemma_chars_lt_irreflexive(a);
    }
}

/// Compare two strings in `chars_lt` order: `-1`, `0` or `1`.
pub fn compare_chars(a: &str, b: &str) -> (r: i8)
    ensures
        r == -1 <==> chars_lt(a@, b@),
        r == 0 <==> a@ == b@,
        r == 1 <==> chars_lt(b@, a@),
        -1 <= r <= 1,
{
    let x = chars_of(a);
    let y = chars_of(b);
    let mut i: usize = 0;
    proof {
        lemma_chars_lt_total(a@, b@);
        lemma_chars_lt_irreflexive(a@);
        assert(x@.subrange(0, x@.len() as int) == x@);
        assert(y@.subrange(0, y@.len() as int) == y@);
    }
    while i < x.len() && i < y.len()
        invariant
            i <= x@.len(),
            i <= y@.len(),
            x@ == a@,
            y@ == b@,
            x@.subrange(0, i as int) == y@.subrange(0, i as int),
            chars_lt(a@, b@) == chars_lt(x@.subrange(i as int, x@.len() as int), y@.subrange(i as int, y@.len() as int)),
            chars_lt(b@, a@) == chars_lt(y@.subrange(i as int, y@.len() as int), x@.subrange(i as int, x@.len() as int)),
        decreases x@.len() - i,
    {
        let cx = x[i];
        let cy = y[i];
        let ghost xs = x@.subrange(i as int, x@.len() as int);
        let ghost ys = y@.subrange(i as int, y@.len() as int);
        assert(xs[0] == cx && ys[0] == cy);
        if (cx as u32) < (cy as u32) {
            proof {
                lemma_chars_lt_asymmetric(xs, ys);
                if a@ == b@ {
                    lemma_chars_lt_irreflexive(a@);
                }
            }
            return -1;
        }
        if (cy as u32) < (cx as u32) {
            proof {
                lemma_chars_lt_asymmetric(ys, xs);
                if a@ == b@ {
                    lemma_chars_lt_irreflexive(a@);
                }
            }
            return 1;
        }
        proof {
            vstd::utf8::char_u32_cast(cx, cx as u32);
            vstd::utf8::char_u32_cast(cy, cy as u32);
            assert(cx == cy);
            assert(xs.drop_first() == x@.subrange(i + 1, x@.len() as int));
            assert(ys.drop_first() == y@.subrange(i + 1, y@.len() as int));
            assert(x@.subrange(0, i + 1) == x@.subrange(0, i as int).push(cx));
            assert(y@.subrange(0, i + 1) == y@.subrange(0, i as int).push(cy));
        }
        i = i + 1;
    }
    let ghost xs = x@.subrange(i as int, x@.len() as int);
    let ghost ys = y@.subrange(i as int, y@.len() as int);
    if x.len() == y.len() {
        proof {
            assert(x@ == x@.subrange(0, i as int));
            assert(y@ == y@.subrange(0, i as int));
            lemma_chars_lt_irreflexive(a@);
        }
        0
    } else if x.len() < y.len() {
        proof {
            assert(xs.len() == 0 && ys.len() > 0);
            lemma_chars_lt_asymmetric(a@, b@);
            assert(a@.len() != b@.len());
        }
        -1
    } else {
        proof {
            assert(ys.len() == 0 && xs.len() > 0);
            lemma_chars_lt_asymmetric(b@, a@);
            assert(a@.len() != b@.len());
        }
        1
    }
}

} // verus!
