//! Byte-level helpers for the line protocol: searching, trimming, splitting
//! `key: value` lines and reading numbers.
use vstd::prelude::*;
use vstd::slice::slice_subrange;

verus! {

pub open spec fn first_index(s: Seq<u8>, c: u8, from: int) -> int
    decreases s.len() - from,
{
    if from < 0 || from >= s.len() {
        s.len() as int
    } else if s[from] == c {
        from
    } else {
        first_index(s, c, from + 1)
    }
}

/// Position of the first `c` at or after `from`, or the length of `s` if none.
pub fn find_byte(s: &[u8], c: u8, from: usize) -> (r: usize)
    requires
        from <= s@.len(),
    ensures
        r == first_index(s@, c, from as int),
        from <= r <= s@.len(),
        r < s@.len() ==> s@[r as int] == c,
        forall|j: int| from <= j < r ==> s@[j] != c,
{
    let mut i = from;
    while i < s.len()
        invariant
            from <= i <= s@.len(),
            first_index(s@, c, from as int) == first_index(s@, c, i as int),
            forall|j: int| from <= j < i ==> s@[j] != c,
        decreases s@.len() - i,
    {
        if s[i] == c {
            return i;
        }
        i = i + 1;
    }
    i
}

/// Whether two byte strings are equal.
pub fn same_bytes(a: &[u8], b: &[u8]) -> (r: bool)
    ensures
        r == (a@ == b@),
{
    if a.len() != b.len() {
        return false;
    }
    let mut i: usize = 0;
    while i < a.len()
        invariant
            a@.len() == b@.len(),
            i <= a@.len(),
            forall|j: int| 0 <= j < i ==> a@[j] == b@[j],
        decreases a@.len() - i,
    {
        if a[i] != b[i] {
            return false;
        }
        i = i + 1;
    }
    assert(a@ =~= b@);
    true
}

pub open spec fn starts_with(s: Seq<u8>, p: Seq<u8>) -> bool {
    p.len() <= s.len() && s.subrange(0, p.len() as int) == p
}

/// Whether `s` begins with `p`.
pub fn has_prefix(s: &[u8], p: &[u8]) -> (r: bool)
    ensures
        r == starts_with(s@, p@),
{
    if p.len() > s.len() {
        return false;
    }
    let head = slice_subrange(s, 0, p.len());
    same_bytes(head, p)
}

/// ASCII white space, as `str::trim` removes it from ASCII text.
pub open spec fn is_space(b: u8) -> bool {
    b == 0x20 || b == 0x09 || b == 0x0a || b == 0x0b || b == 0x0c || b == 0x0d
}

/// First position at or after `i` that holds no white space.
pub open spec fn skip_space(s: Seq<u8>, i: int) -> int
    decreases s.len() - i,
{
    if i < 0 || i >= s.len() {
        s.len() as int
    } else if is_space(s[i]) {
        skip_space(s, i + 1)
    } else {
        i
    }
}

/// End of `s[..j]` once trailing white space is dropped.
pub open spec fn drop_space(s: Seq<u8>, j: int) -> int
    decreases j,
{
    if j <= 0 || j > s.len() {
        0
    } else if is_space(s[j - 1]) {
        drop_space(s, j - 1)
    } else {
        j
    }
}

/// `s` without white space at either end.
pub open spec fn trimmed(s: Seq<u8>) -> Seq<u8> {
    let a = skip_space(s, 0);
    let b = drop_space(s, s.len() as int);
    if a < b {
        s.subrange(a, b)
    } else {
        Seq::empty()
    }
}

/// Removes white space from both ends of `s`.
pub fn trim(s: &[u8]) -> (r: &[u8])
    ensures
        r@ == trimmed(s@),
{
    let mut a: usize = 0;
    while a < s.len() && (s[a] == 0x20 || s[a] == 0x09 || s[a] == 0x0a || s[a] == 0x0b
        || s[a] == 0x0c || s[a] == 0x0d)
        invariant
            a <= s@.len(),
            skip_space(s@, 0) == skip_space(s@, a as int),
        decreases s@.len() - a,
    {
        a = a + 1;
    }
    let mut b: usize = s.len();
    while b > 0 && (s[b - 1] == 0x20 || s[b - 1] == 0x09 || s[b - 1] == 0x0a || s[b - 1] == 0x0b
        || s[b - 1] == 0x0c || s[b - 1] == 0x0d)
        invariant
            b <= s@.len(),
            drop_space(s@, s@.len() as int) == drop_space(s@, b as int),
        decreases b,
    {
        b = b - 1;
    }
    if a < b {
        slice_subrange(s, a, b)
    } else {
        proof {
            assert(s@.subrange(0, 0) =~= Seq::<u8>::empty());
        }
        slice_subrange(s, 0, 0)
    }
}

/// The key of a `key: value` line: what stands before the first colon,
/// trimmed; empty when the line has no colon.
pub open spec fn field_key(line: Seq<u8>) -> Seq<u8> {
    let c = first_index(line, 0x3a, 0);
    if c < line.len() {
        trimmed(line.subrange(0, c))
    } else {
        Seq::empty()
    }
}

/// The value of a `key: value` line: what follows the first colon, trimmed;
/// empty when the line has no colon.
pub open spec fn field_value(line: Seq<u8>) -> Seq<u8> {
    let c = first_index(line, 0x3a, 0);
    if c < line.len() {
        trimmed(line.subrange(c + 1, line.len() as int))
    } else {
        Seq::empty()
    }
}

/// Splits a line on its first colon into a trimmed key and a trimmed value.
pub fn split_field(line: &[u8]) -> (r: (&[u8], &[u8]))
    ensures
        r.0@ == field_key(line@),
        r.1@ == field_value(line@),
{
    let c = find_byte(line, 0x3a, 0);
    if c < line.len() {
        let k = trim(slice_subrange(line, 0, c));
        let v = trim(slice_subrange(line, c + 1, line.len()));
        (k, v)
    } else {
        let e = slice_subrange(line, 0, 0);
        proof {
            assert(e@ =~= Seq::<u8>::empty());
        }
        (e, e)
    }
}

pub open spec fn is_digit(b: u8) -> bool {
    0x30 <= b <= 0x39
}

pub open spec fn all_digits(s: Seq<u8>) -> bool {
    forall|i: int| 0 <= i < s.len() ==> is_digit(#[trigger] s[i])
}

/// The number that a string of decimal digits writes.
pub open spec fn digits_value(s: Seq<u8>) -> nat
    decreases s.len(),
{
    if s.len() == 0 {
        0
    } else {
        digits_value(s.drop_last()) * 10 + (s.last() - 0x30) as nat
    }
}

/// The digits of an unsigned number: `s` without one leading `+`.
pub open spec fn unsigned_digits(s: Seq<u8>) -> Seq<u8> {
    if s.len() > 0 && s[0] == 0x2b {
        s.subrange(1, s.len() as int)
    } else {
        s
    }
}

/// What `usize::from_str` accepts: an optional `+`, then one or more digits
/// whose value fits in `usize`.
pub open spec fn unsigned_of(s: Seq<u8>) -> Option<usize> {
    let d = unsigned_digits(s);
    if d.len() > 0 && all_digits(d) && digits_value(d) <= usize::MAX {
        Some(digits_value(d) as usize)
    } else {
        None
    }
}

proof fn lemma_digits_value_grows(s: Seq<u8>, i: int, j: int)
    requires
        0 <= i <= j <= s.len(),
        all_digits(s),
    ensures
        digits_value(s.subrange(0, i)) <= digits_value(s.subrange(0, j)),
    decreases j - i,
{
    if i < j {
        lemma_digits_value_grows(s, i, j - 1);
        assert(s.subrange(0, j).drop_last() =~= s.subrange(0, j - 1));
    }
}

/// Reads an unsigned decimal number, as `usize::from_str` does.
pub fn parse_unsigned(s: &[u8]) -> (r: Option<usize>)
    ensures
        r == unsigned_of(s@),
{
    let start: usize = if s.len() > 0 && s[0] == 0x2b {
        1
    } else {
        0
    };
    let d = slice_subrange(s, start, s.len());
    proof {
        if start == 0 {
            assert(d@ =~= s@);
        }
    }
    if d.len() == 0 {
        return None;
    }
    let mut i: usize = 0;
    while i < d.len()
        invariant
            i <= d@.len(),
            d@ == unsigned_digits(s@),
            forall|j: int| 0 <= j < i ==> is_digit(#[trigger] d@[j]),
        decreases d@.len() - i,
    {
        if d[i] < 0x30 || d[i] > 0x39 {
            assert(!is_digit(d@[i as int]));
            return None;
        }
        i = i + 1;
    }
    let mut acc: usize = 0;
    let mut k: usize = 0;
    while k < d.len()
        invariant
            k <= d@.len(),
            d@ == unsigned_digits(s@),
            all_digits(d@),
            acc as nat == digits_value(d@.subrange(0, k as int)),
        decreases d@.len() - k,
    {
        proof {
            assert(d@.subrange(0, k + 1).drop_last() =~= d@.subrange(0, k as int));
            assert(d@.subrange(0, k + 1).last() == d@[k as int]);
            assert(is_digit(d@[k as int]));
        }
        let digit = (d[k] - 0x30) as usize;
        match acc.checked_mul(10) {
            Some(m) => match m.checked_add(digit) {
                Some(n) => {
                    acc = n;
                },
                None => {
                    proof {
                        lemma_digits_value_grows(d@, k + 1, d@.len() as int);
                        assert(d@.subrange(0, d@.len() as int) =~= d@);
                    }
                    return None;
                },
            },
            None => {
                proof {
                    lemma_digits_value_grows(d@, k + 1, d@.len() as int);
                    assert(d@.subrange(0, d@.len() as int) =~= d@);
                }
                return None;
            },
        }
        k = k + 1;
    }
    proof {
        assert(d@.subrange(0, d@.len() as int) =~= d@);
    }
    Some(acc)
}

/// Whether every byte of `s` is a decimal digit.
pub fn only_digits(s: &[u8]) -> (r: bool)
    ensures
        r == all_digits(s@),
{
    let mut i: usize = 0;
    while i < s.len()
        invariant
            i <= s@.len(),
            forall|j: int| 0 <= j < i ==> is_digit(#[trigger] s@[j]),
        decreases s@.len() - i,
    {
        if s[i] < 0x30 || s[i] > 0x39 {
            assert(!is_digit(s@[i as int]));
            return false;
        }
        i = i + 1;
    }
    true
}

/// `s` without one leading sign.
pub open spec fn unsigned_part(s: Seq<u8>) -> Seq<u8> {
    if s.len() > 0 && (s[0] == 0x2b || s[0] == 0x2d) {
        s.subrange(1, s.len() as int)
    } else {
        s
    }
}

/// The mantissa of a fractional number: digits with at most one decimal
/// point, at least one digit in all.
pub open spec fn is_mantissa(u: Seq<u8>) -> bool {
    let p = first_index(u, 0x2e, 0);
    let whole = u.subrange(0, p);
    let frac = if p < u.len() {
        u.subrange(p + 1, u.len() as int)
    } else {
        Seq::<u8>::empty()
    };
    all_digits(whole) && all_digits(frac) && whole.len() + frac.len() > 0
}

/// An exponent after `e`: an optional sign and one or more digits.
pub open spec fn is_exponent(x: Seq<u8>) -> bool {
    let y = unsigned_part(x);
    y.len() > 0 && all_digits(y)
}

/// Position of the first `e` or `E` at or after `from`, or the length.
pub open spec fn first_exp(s: Seq<u8>, from: int) -> int
    decreases s.len() - from,
{
    if from < 0 || from >= s.len() {
        s.len() as int
    } else if s[from] == 0x65 || s[from] == 0x45 {
        from
    } else {
        first_exp(s, from + 1)
    }
}

/// ASCII letters folded to lower case.
pub open spec fn lower(b: u8) -> u8 {
    if 0x41 <= b <= 0x5a {
        (b + 0x20) as u8
    } else {
        b
    }
}

/// `u` equals `word` (lower case) up to the case of ASCII letters.
pub open spec fn same_word(u: Seq<u8>, word: Seq<u8>) -> bool {
    u.len() == word.len() && forall|i: int| 0 <= i < u.len() ==> lower(#[trigger] u[i]) == word[i]
}

pub open spec fn word_inf() -> Seq<u8> {
    seq!['i' as u8, 'n' as u8, 'f' as u8]
}

pub open spec fn word_infinity() -> Seq<u8> {
    seq!['i' as u8, 'n' as u8, 'f' as u8, 'i' as u8, 'n' as u8, 'i' as u8, 't' as u8, 'y' as u8]
}

pub open spec fn word_nan() -> Seq<u8> {
    seq!['n' as u8, 'a' as u8, 'n' as u8]
}

/// What `f32::from_str` accepts: an optional sign, then `inf`, `infinity`
/// or `nan` in any case, or a mantissa with an optional exponent.
pub open spec fn is_float_text(s: Seq<u8>) -> bool {
    let u = unsigned_part(s);
    let e = first_exp(u, 0);
    same_word(u, word_inf()) || same_word(u, word_infinity()) || same_word(u, word_nan()) || (
    is_mantissa(u.subrange(0, e)) && (e == u.len() || is_exponent(
        u.subrange(e + 1, u.len() as int),
    )))
}

fn matches_word(u: &[u8], word: &[u8]) -> (r: bool)
    ensures
        r == same_word(u@, word@),
{
    if u.len() != word.len() {
        return false;
    }
    let mut i: usize = 0;
    while i < u.len()
        invariant
            u@.len() == word@.len(),
            i <= u@.len(),
            forall|j: int| 0 <= j < i ==> lower(#[trigger] u@[j]) == word@[j],
        decreases u@.len() - i,
    {
        let c = if 0x41 <= u[i] && u[i] <= 0x5a {
            u[i] + 0x20
        } else {
            u[i]
        };
        if c != word[i] {
            return false;
        }
        i = i + 1;
    }
    true
}

fn strip_sign(s: &[u8]) -> (r: &[u8])
    ensures
        r@ == unsigned_part(s@),
{
    let start: usize = if s.len() > 0 && (s[0] == 0x2b || s[0] == 0x2d) {
        1
    } else {
        0
    };
    let u = slice_subrange(s, start, s.len());
    proof {
        if start == 0 {
            assert(u@ =~= s@);
        }
    }
    u
}

fn check_mantissa(u: &[u8]) -> (r: bool)
    ensures
        r == is_mantissa(u@),
{
    let p = find_byte(u, 0x2e, 0);
    let whole = slice_subrange(u, 0, p);
    let frac = if p < u.len() {
        slice_subrange(u, p + 1, u.len())
    } else {
        let e = slice_subrange(u, 0, 0);
        assert(e@ =~= Seq::<u8>::empty());
        e
    };
    only_digits(whole) && only_digits(frac) && whole.len() + frac.len() > 0
}

/// The text of the number zero, the default of a fractional field.
pub open spec fn zero_text() -> Seq<u8> {
    seq!['0' as u8]
}

/// The text of the number zero.
pub fn zero() -> (r: Vec<u8>)
    ensures
        r@ == zero_text(),
{
    let mut v: Vec<u8> = Vec::new();
    v.push('0' as u8);
    assert(v@ =~= zero_text());
    v
}

/// Whether `s` reads as a fractional number, as `f32::from_str` decides.
pub fn check_float(s: &[u8]) -> (r: bool)
    ensures
        r == is_float_text(s@),
{
    let u = strip_sign(s);
    let inf: [u8; 3] = ['i' as u8, 'n' as u8, 'f' as u8];
    let infinity: [u8; 8] = [
        'i' as u8,
        'n' as u8,
        'f' as u8,
        'i' as u8,
        'n' as u8,
        'i' as u8,
        't' as u8,
        'y' as u8,
    ];
    let nan: [u8; 3] = ['n' as u8, 'a' as u8, 'n' as u8];
    assert(inf@ == word_inf());
    assert(infinity@ == word_infinity());
    assert(nan@ == word_nan());
    if matches_word(u, &inf) || matches_word(u, &infinity) || matches_word(u, &nan) {
        return true;
    }
    let mut e: usize = 0;
    while e < u.len() && u[e] != 0x65 && u[e] != 0x45
        invariant
            e <= u@.len(),
            first_exp(u@, 0) == first_exp(u@, e as int),
        decreases u@.len() - e,
    {
        e = e + 1;
    }
    if !check_mantissa(slice_subrange(u, 0, e)) {
        return false;
    }
    if e == u.len() {
        return true;
    }
    let x = strip_sign(slice_subrange(u, e + 1, u.len()));
    x.len() > 0 && only_digits(x)
}

} // verus!
