//! Character-level helpers over strings, with their specifications.
use vstd::prelude::*;
use vstd::std_specs::iter::IteratorSpec;
use vstd::string::*;

verus! {

broadcast use vstd::string::group_string_axioms;

/// `prefix` is a prefix of `s`.
pub open spec fn is_prefix_of(prefix: Seq<char>, s: Seq<char>) -> bool {
    prefix.len() <= s.len() && s.subrange(0, prefix.len() as int) == prefix
}

/// `pat` occurs in `s` starting at position `i`.
pub open spec fn matches_at(s: Seq<char>, pat: Seq<char>, i: int) -> bool {
    0 <= i && i + pat.len() <= s.len() && s.subrange(i, i + pat.len()) == pat
}

/// `pat` occurs somewhere in `s`.
pub open spec fn occurs_in(pat: Seq<char>, s: Seq<char>) -> bool {
    exists|i: int| #[trigger] matches_at(s, pat, i)
}

/// Some element of `prefixes` is a prefix of `s`.
pub open spec fn has_prefix_among(s: Seq<char>, prefixes: Seq<Seq<char>>) -> bool {
    exists|i: int| 0 <= i < prefixes.len() && is_prefix_of(#[trigger] prefixes[i], s)
}

/// The views of a sequence of string slices.
pub open spec fn str_views(v: Seq<&str>) -> Seq<Seq<char>> {
    v.map_values(|s: &str| s@)
}

/// The characters of `s`, in order.
pub fn char_vec(s: &str) -> (v: Vec<char>)
    ensures
        v@ == s@,
{
    let mut v: Vec<char> = Vec::new();
    for c in it: s.chars()
        invariant
            v@ == it.history(),
            it.seq() == s@,
    {
        v.push(c);
    }
    v
}

/// Whether the characters `p` form a prefix of the characters `s`.
pub fn chars_start_with(s: &Vec<char>, p: &Vec<char>) -> (r: bool)
    ensures
        r == is_prefix_of(p@, s@),
{
    if p.len() > s.len() {
        return false;
    }
    let mut i: usize = 0;
    while i < p.len()
        invariant
            0 <= i <= p.len(),
            p.len() <= s.len(),
            forall|j: int| 0 <= j < i ==> s@[j] == p@[j],
        decreases p.len() - i,
    {
        if s[i] != p[i] {
            assert(s@.subrange(0, p@.len() as int)[i as int] != p@[i as int]);
            return false;
        }
        i = i + 1;
    }
    assert(s@.subrange(0, p@.len() as int) =~= p@);
    true
}

/// Whether `a` and `b` hold the same characters.
pub fn same_text(a: &str, b: &str) -> (r: bool)
    ensures
        r == (a@ == b@),
{
    let av = char_vec(a);
    let bv = char_vec(b);
    if av.len() != bv.len() {
        return false;
    }
    let r = chars_start_with(&av, &bv);
    proof {
        assert(av@.subrange(0, bv@.len() as int) =~= av@);
    }
    r
}

/// Whether some element of `prefixes` is a prefix of `s`.
pub fn starts_with_any(s: &str, prefixes: &Vec<&str>) -> (r: bool)
    ensures
        r == has_prefix_among(s@, str_views(prefixes@)),
{
    let sv = char_vec(s);
    let mut i: usize = 0;
    while i < prefixes.len()
        invariant
            0 <= i <= prefixes.len(),
            sv@ == s@,
            forall|j: int| 0 <= j < i ==> !is_prefix_of(#[trigger] str_views(prefixes@)[j], s@),
        decreases prefixes.len() - i,
    {
        let pv = char_vec(prefixes[i]);
        if chars_start_with(&sv, &pv) {
            assert(str_views(prefixes@)[i as int] == pv@);
            return true;
        }
        i = i + 1;
    }
    false
}

/// Whether `pat` occurs in `s`.
pub fn contains(s: &str, pat: &str) -> (r: bool)
    ensures
        r == occurs_in(pat@, s@),
{
    let sv = char_vec(s);
    let pv = char_vec(pat);
    if pv.len() > sv.len() {
        assert forall|i: int| !matches_at(s@, pat@, i) by {}
        return false;
    }
    let last = sv.len() - pv.len();
    let mut i: usize = 0;
    while i <= last
        invariant
            sv@ == s@,
            pv@ == pat@,
            last == sv.len() - pv.len(),
            pv.len() <= sv.len(),
            0 <= i <= last + 1,
            forall|k: int| 0 <= k < i ==> !#[trigger] matches_at(s@, pat@, k),
        decreases last + 1 - i,
    {
        let mut j: usize = 0;
        let mut ok = true;
        while j < pv.len()
            invariant
                0 <= j <= pv.len(),
                i <= last,
                last == sv.len() - pv.len(),
                ok ==> forall|m: int| 0 <= m < j ==> sv@[i + m] == pv@[m],
                !ok ==> exists|m: int| 0 <= m < pv.len() && sv@[i + m] != pv@[m],
            decreases pv.len() - j,
        {
            if sv[i + j] != pv[j] {
                ok = false;
            }
            j = j + 1;
        }
        if ok {
            assert(sv@.subrange(i as int, i + pv@.len()) =~= pv@);
            assert(matches_at(s@, pat@, i as int));
            return true;
        }
        proof {
            let m = choose|m: int| 0 <= m < pv.len() && sv@[i + m] != pv@[m];
            assert(sv@.subrange(i as int, i + pv@.len())[m] != pv@[m]);
        }
        i = i + 1;
    }
    assert forall|k: int| !matches_at(s@, pat@, k) by {
        if 0 <= k && k + pat@.len() <= s@.len() {
            assert(k < i);
        }
    }
    false
}

/// The characters `c`, `k` times.
pub open spec fn repeat_char(c: char, k: nat) -> Seq<char> {
    Seq::new(k, |_i: int| c)
}

/// The decimal digit for `d`, where `d < 10`.
pub open spec fn digit_char(d: nat) -> char {
    if d == 0 { '0' }
    else if d == 1 { '1' }
    else if d == 2 { '2' }
    else if d == 3 { '3' }
    else if d == 4 { '4' }
    else if d == 5 { '5' }
    else if d == 6 { '6' }
    else if d == 7 { '7' }
    else if d == 8 { '8' }
    else { '9' }
}

/// The decimal representation of `n`, without leading zeros.
pub open spec fn decimal_digits(n: nat) -> Seq<char>
    decreases n,
{
    if n < 10 {
        seq![digit_char(n)]
    } else {
        decimal_digits(n / 10).push(digit_char(n % 10))
    }
}

/// `s` right-aligned in a field of `width` characters, padded with spaces.
pub open spec fn pad_left(s: Seq<char>, width: nat) -> Seq<char> {
    if s.len() < width {
        repeat_char(' ', (width - s.len()) as nat) + s
    } else {
        s
    }
}

/// `s` centred in a field of `width` characters filled with `fill`; where
/// the padding is odd, the extra character goes to the right.
pub open spec fn center(s: Seq<char>, width: nat, fill: char) -> Seq<char> {
    if s.len() < width {
        let pad = (width - s.len()) as nat;
        repeat_char(fill, pad / 2) + s + repeat_char(fill, (pad + 1) / 2)
    } else {
        s
    }
}

/// Appends `c` to `s`, by `String::push` of the standard library, which
/// adds the character at the end of the string; the contract claims just
/// that.
#[verifier::external_body]
pub fn push_char(s: &mut String, c: char)
    ensures
        final(s)@ == old(s)@.push(c),
{
    s.push(c);
}

/// A string holding the characters of `s`.
pub fn string_of(s: &str) -> (r: String)
    ensures
        r@ == s@,
{
    String::from_str(s)
}

fn digit_of(d: u64) -> (c: char)
    requires
        d < 10,
    ensures
        c == digit_char(d as nat),
{
    if d == 0 { '0' }
    else if d == 1 { '1' }
    else if d == 2 { '2' }
    else if d == 3 { '3' }
    else if d == 4 { '4' }
    else if d == 5 { '5' }
    else if d == 6 { '6' }
    else if d == 7 { '7' }
    else if d == 8 { '8' }
    else { '9' }
}

/// The decimal representation of `n`.
pub fn decimal(n: u64) -> (r: String)
    ensures
        r@ == decimal_digits(n as nat),
    decreases n,
{
    if n < 10 {
        let mut s = String::new();
        push_char(&mut s, digit_of(n));
        assert(s@ =~= seq![digit_char(n as nat)]);
        s
    } else {
        let mut s = decimal(n / 10);
        push_char(&mut s, digit_of(n % 10));
        s
    }
}

/// Appends `k` copies of `c` to `s`.
pub fn push_repeated(s: &mut String, c: char, k: usize)
    ensures
        final(s)@ == old(s)@ + repeat_char(c, k as nat),
{
    let mut i: usize = 0;
    while i < k
        invariant
            0 <= i <= k,
            s@ == old(s)@ + repeat_char(c, i as nat),
        decreases k - i,
    {
        push_char(s, c);
        i = i + 1;
        assert(s@ =~= old(s)@ + repeat_char(c, i as nat));
    }
}

/// `s` right-aligned in a field of `width` characters.
pub fn right_align(s: &str, width: usize) -> (r: String)
    ensures
        r@ == pad_left(s@, width as nat),
{
    let len = s.unicode_len();
    let mut r = String::new();
    if len < width {
        push_repeated(&mut r, ' ', width - len);
    }
    r.append(s);
    assert(r@ =~= pad_left(s@, width as nat));
    r
}

/// `s` centred in a field of `width` characters filled with `fill`.
pub fn centered(s: &str, width: usize, fill: char) -> (r: String)
    ensures
        r@ == center(s@, width as nat, fill),
{
    let len = s.unicode_len();
    let mut r = String::new();
    if len < width {
        let pad = width - len;
        push_repeated(&mut r, fill, pad / 2);
        r.append(s);
        push_repeated(&mut r, fill, pad - pad / 2);
        assert(pad - pad / 2 == (pad + 1) / 2);
    } else {
        r.append(s);
    }
    assert(r@ =~= center(s@, width as nat, fill));
    r
}

} // verus!
