//! Which texts `f64::from_str` accepts.
use vstd::prelude::*;
use crate::naming::{all_digits, first_index_of, is_digit};

verus! {

/// Whether `c` is the character `l` or, for a lower-case ASCII letter `l`, its upper-case form.
pub open spec fn same_letter(c: char, l: char) -> bool {
    c == l || ('a' <= l && l <= 'z' && (c as u32) + 32 == (l as u32))
}

/// Whether `s` equals the lower-case text `lit` when ASCII case is ignored.
pub open spec fn eq_ignore_case(s: Seq<char>, lit: Seq<char>) -> bool {
    s.len() == lit.len() && forall|i: int| 0 <= i < s.len() ==> same_letter(#[trigger] s[i], lit[i])
}

/// A sign character.
pub open spec fn is_sign(c: char) -> bool {
    c == '+' || c == '-'
}

/// `s` without one leading sign.
pub open spec fn unsigned_part(s: Seq<char>) -> Seq<char> {
    if s.len() > 0 && is_sign(s[0]) {
        s.drop_first()
    } else {
        s
    }
}

/// `Digit+ | Digit+ '.' Digit* | Digit* '.' Digit+`.
pub open spec fn is_mantissa(m: Seq<char>) -> bool {
    match first_index_of(m, '.') {
        None => m.len() > 0 && all_digits(m),
        Some(k) => m.len() > 1 && all_digits(m.subrange(0, k)) && all_digits(
            m.subrange(k + 1, m.len() as int),
        ),
    }
}

/// `Sign? Digit+`.
pub open spec fn is_exponent(x: Seq<char>) -> bool {
    let d = unsigned_part(x);
    d.len() > 0 && all_digits(d)
}

/// Position of the first `e` or `E`.
pub open spec fn first_exp_mark(s: Seq<char>) -> Option<int>
    decreases s.len(),
{
    if s.len() == 0 {
        None
    } else if s[0] == 'e' || s[0] == 'E' {
        Some(0)
    } else {
        match first_exp_mark(s.drop_first()) {
            Some(i) => Some(i + 1),
            None => None,
        }
    }
}

/// `Mantissa Exp?` with `Exp ::= ('e' | 'E') Sign? Digit+`.
pub open spec fn is_number(b: Seq<char>) -> bool {
    match first_exp_mark(b) {
        None => is_mantissa(b),
        Some(k) => is_mantissa(b.subrange(0, k)) && is_exponent(b.subrange(k + 1, b.len() as int)),
    }
}

/// The texts `f64::from_str` accepts: an optional sign, then `inf`, `infinity` or `nan` in any
/// case, or a decimal number with an optional exponent.
pub open spec fn is_float_text(s: Seq<char>) -> bool {
    let b = unsigned_part(s);
    eq_ignore_case(b, "inf"@) || eq_ignore_case(b, "infinity"@) || eq_ignore_case(b, "nan"@)
        || is_number(b)
}

fn chars_eq_ignore_case(s: &Vec<char>, from: usize, lit: &str) -> (r: bool)
    requires
        from <= s.len(),
    ensures
        r == eq_ignore_case(s@.subrange(from as int, s.len() as int), lit@),
{
    let l = crate::text::chars_of(lit);
    let ghost t = s@.subrange(from as int, s.len() as int);
    if s.len() - from != l.len() {
        return false;
    }
    let mut i: usize = 0;
    while i < l.len()
        invariant
            t == s@.subrange(from as int, s.len() as int),
            l@ == lit@,
            s.len() - from == l.len(),
            i <= l.len(),
            forall|j: int| 0 <= j < i ==> same_letter(#[trigger] t[j], l@[j]),
        decreases l.len() - i,
    {
        let c = s[from + i];
        let d = l[i];
        if !(c == d || ('a' <= d && d <= 'z' && (c as u32) == (d as u32) - 32)) {
            assert(!same_letter(t[i as int], l@[i as int]));
            return false;
        }
        i += 1;
    }
    true
}

fn digits_in(s: &Vec<char>, from: usize, to: usize) -> (r: bool)
    requires
        from <= to <= s.len(),
    ensures
        r == all_digits(s@.subrange(from as int, to as int)),
{
    let ghost t = s@.subrange(from as int, to as int);
    let mut i = from;
    while i < to
        invariant
            t == s@.subrange(from as int, to as int),
            from <= i <= to <= s.len(),
            forall|j: int| 0 <= j < i - from ==> is_digit(#[trigger] t[j]),
        decreases to - i,
    {
        if !('0' <= s[i] && s[i] <= '9') {
            assert(!is_digit(t[i - from]));
            return false;
        }
        i += 1;
    }
    true
}

proof fn lemma_first_dot(m: Seq<char>, k: int)
    requires
        0 <= k <= m.len(),
        k < m.len() ==> m[k] == '.',
        forall|j: int| 0 <= j < k ==> m[j] != '.',
    ensures
        first_index_of(m, '.') == (if k < m.len() {
            Some(k)
        } else {
            None::<int>
        }),
    decreases m.len(),
{
    if m.len() > 0 && m[0] != '.' {
        lemma_first_dot(m.drop_first(), k - 1);
    }
}

fn mantissa_in(s: &Vec<char>, from: usize, to: usize) -> (r: bool)
    requires
        from <= to <= s.len(),
    ensures
        r == is_mantissa(s@.subrange(from as int, to as int)),
{
    let ghost m = s@.subrange(from as int, to as int);
    let mut k = from;
    while k < to && s[k] != '.'
        invariant
            m == s@.subrange(from as int, to as int),
            from <= k <= to,
            to <= s.len(),
            forall|j: int| 0 <= j < k - from ==> m[j] != '.',
        decreases to - k,
    {
        k += 1;
    }
    proof {
        lemma_first_dot(m, k - from);
    }
    if k == to {
        to > from && digits_in(s, from, to)
    } else {
        proof {
            assert(m.subrange(0, k - from) =~= s@.subrange(from as int, k as int));
            assert(m.subrange(k - from + 1, m.len() as int) =~= s@.subrange(k + 1, to as int));
        }
        to - from > 1 && digits_in(s, from, k) && digits_in(s, k + 1, to)
    }
}

proof fn lemma_first_exp_mark(m: Seq<char>, k: int)
    requires
        0 <= k <= m.len(),
        k < m.len() ==> (m[k] == 'e' || m[k] == 'E'),
        forall|j: int| 0 <= j < k ==> !(m[j] == 'e' || m[j] == 'E'),
    ensures
        first_exp_mark(m) == (if k < m.len() {
            Some(k)
        } else {
            None::<int>
        }),
    decreases m.len(),
{
    if m.len() > 0 && !(m[0] == 'e' || m[0] == 'E') {
        lemma_first_exp_mark(m.drop_first(), k - 1);
    }
}

/// Whether `f64::from_str` accepts `s`.
pub fn is_float_chars(s: &Vec<char>) -> (r: bool)
    ensures
        r == is_float_text(s@),
{
    let start: usize = if s.len() > 0 && (s[0] == '+' || s[0] == '-') {
        1
    } else {
        0
    };
    let ghost b = unsigned_part(s@);
    assert(b =~= s@.subrange(start as int, s.len() as int));
    if chars_eq_ignore_case(s, start, "inf") || chars_eq_ignore_case(s, start, "infinity")
        || chars_eq_ignore_case(s, start, "nan") {
        return true;
    }
    let mut k = start;
    while k < s.len() && !(s[k] == 'e' || s[k] == 'E')
        invariant
            b == s@.subrange(start as int, s.len() as int),
            start <= k <= s.len(),
            forall|j: int| 0 <= j < k - start ==> !(b[j] == 'e' || b[j] == 'E'),
        decreases s.len() - k,
    {
        k += 1;
    }
    proof {
        lemma_first_exp_mark(b, k - start);
    }
    if k == s.len() {
        mantissa_in(s, start, s.len())
    } else {
        proof {
            assert(b.subrange(0, k - start) =~= s@.subrange(start as int, k as int));
            assert(b.subrange(k - start + 1, b.len() as int) =~= s@.subrange(
                k + 1,
                s.len() as int,
            ));
        }
        if !mantissa_in(s, start, k) {
            return false;
        }
        let e = k + 1;
        let d = if e < s.len() && (s[e] == '+' || s[e] == '-') {
            e + 1
        } else {
            e
        };
        proof {
            let x = s@.subrange(e as int, s.len() as int);
            assert(unsigned_part(x) =~= s@.subrange(d as int, s.len() as int));
        }
        d < s.len() && digits_in(s, d, s.len())
    }
}

} // verus!
