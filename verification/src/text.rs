use vstd::prelude::*;
use vstd::std_specs::iter::IteratorSpec;

verus! {

// ----------------------------------------------------------------------------
// Specifications
// ----------------------------------------------------------------------------

/// `p` is a prefix of `s`.
pub open spec fn is_prefix_of(p: Seq<char>, s: Seq<char>) -> bool {
    p.len() <= s.len() && s.subrange(0, p.len() as int) == p
}

/// The code point of `c` after ASCII lowercasing (`A`..`Z` become `a`..`z`,
/// every other character is left alone).
pub open spec fn lower_code(c: char) -> int {
    if 65 <= (c as int) <= 90 {
        (c as int) + 32
    } else {
        c as int
    }
}

/// Code points of `s` after ASCII lowercasing.
pub open spec fn ascii_lowercase(s: Seq<char>) -> Seq<int> {
    s.map_values(|c: char| lower_code(c))
}

/// Code points of `s`.
pub open spec fn codes(s: Seq<char>) -> Seq<int> {
    s.map_values(|c: char| c as int)
}

/// `needle` occurs as a contiguous run inside `hay`.
pub open spec fn has_infix(hay: Seq<int>, needle: Seq<int>) -> bool {
    exists|i: int|
        0 <= i && i + needle.len() <= hay.len() && #[trigger] hay.subrange(i, i + needle.len())
            == needle
}

/// `text`, lowercased in its ASCII letters, contains `phrase` (the way
/// `text.to_ascii_lowercase().contains(phrase)` reads).
pub open spec fn mentions(text: Seq<char>, phrase: Seq<char>) -> bool {
    has_infix(ascii_lowercase(text), codes(phrase))
}

/// The ten decimal digits.
pub open spec fn digit(d: int) -> char {
    seq!['0', '1', '2', '3', '4', '5', '6', '7', '8', '9'][d]
}

/// Decimal notation of a natural number, without leading zeros.
pub open spec fn decimal_nat(n: nat) -> Seq<char>
    decreases n,
{
    if n < 10 {
        seq![digit(n as int)]
    } else {
        decimal_nat(n / 10).push(digit((n % 10) as int))
    }
}

/// Decimal notation of an integer, with a leading `-` when negative.
pub open spec fn decimal(n: int) -> Seq<char> {
    if n < 0 {
        seq!['-'] + decimal_nat((-n) as nat)
    } else {
        decimal_nat(n as nat)
    }
}

/// The characters of each string of `v`.
pub open spec fn strings_view(v: Seq<String>) -> Seq<Seq<char>> {
    v.map_values(|s: String| s@)
}

/// The characters of an optional string.
pub open spec fn opt_view(o: Option<String>) -> Option<Seq<char>> {
    match o {
        Some(s) => Some(s@),
        None => None,
    }
}

// ----------------------------------------------------------------------------
// Executable helpers
// ----------------------------------------------------------------------------

/// The characters of `s`, in order.
pub fn chars_of(s: &str) -> (r: Vec<char>)
    ensures
        r@ == s@,
{
    let mut r: Vec<char> = Vec::new();
    for c in it: s.chars()
        invariant
            r@ == it.seq().take(it.index()),
    {
        r.push(c);
    }
    r
}

/// A copy of a list of strings.
pub fn copy_strings(v: &Vec<String>) -> (r: Vec<String>)
    ensures
        strings_view(r@) == strings_view(v@),
{
    let mut r: Vec<String> = Vec::new();
    let mut i: usize = 0;
    while i < v.len()
        invariant
            i <= v.len(),
            r@.len() == i,
            forall|k: int| 0 <= k < i ==> (#[trigger] r@[k])@ == v@[k]@,
        decreases v.len() - i,
    {
        r.push(v[i].clone());
        i += 1;
    }
    assert(strings_view(r@) =~= strings_view(v@));
    r
}

/// A copy of a byte string.
pub fn copy_bytes(v: &Vec<u8>) -> (r: Vec<u8>)
    ensures
        r@ == v@,
{
    let mut r: Vec<u8> = Vec::new();
    let mut i: usize = 0;
    while i < v.len()
        invariant
            i <= v.len(),
            r@ == v@.take(i as int),
        decreases v.len() - i,
    {
        r.push(v[i]);
        i += 1;
        assert(r@ =~= v@.take(i as int));
    }
    assert(v@.take(v.len() as int) =~= v@);
    r
}

/// A copy of an optional string.
pub fn copy_opt(o: &Option<String>) -> (r: Option<String>)
    ensures
        opt_view(r) == opt_view(*o),
{
    match o {
        Some(s) => Some(s.clone()),
        None => None,
    }
}

/// True when `a` and `b` are the same text.
pub fn same_text(a: &str, b: &str) -> (r: bool)
    ensures
        r == (a@ == b@),
{
    let ac = chars_of(a);
    let bc = chars_of(b);
    if ac.len() != bc.len() {
        return false;
    }
    let mut j: usize = 0;
    while j < ac.len()
        invariant
            ac@ == a@,
            bc@ == b@,
            ac.len() == bc.len(),
            j <= ac.len(),
            forall|k: int| 0 <= k < j ==> ac@[k] == bc@[k],
        decreases ac.len() - j,
    {
        if ac[j] != bc[j] {
            return false;
        }
        j += 1;
    }
    assert(a@ =~= b@);
    true
}

/// True when `s` starts with `prefix`.
pub fn starts_with(s: &str, prefix: &str) -> (r: bool)
    ensures
        r == is_prefix_of(prefix@, s@),
{
    let sc = chars_of(s);
    let pc = chars_of(prefix);
    if pc.len() > sc.len() {
        return false;
    }
    let mut j: usize = 0;
    while j < pc.len()
        invariant
            pc@ == prefix@,
            sc@ == s@,
            pc.len() <= sc.len(),
            j <= pc.len(),
            forall|k: int| 0 <= k < j ==> sc@[k] == pc@[k],
        decreases pc.len() - j,
    {
        if sc[j] != pc[j] {
            assert(s@.subrange(0, prefix@.len() as int)[j as int] != prefix@[j as int]);
            return false;
        }
        j += 1;
    }
    assert(s@.subrange(0, prefix@.len() as int) =~= prefix@);
    true
}

/// Code point of `c` after ASCII lowercasing.
fn lower_code_of(c: char) -> (r: u32)
    ensures
        r as int == lower_code(c),
{
    let n = c as u32;
    if 65 <= n && n <= 90 {
        n + 32
    } else {
        n
    }
}

/// Code point of `c`.
fn code_of(c: char) -> (r: u32)
    ensures
        r as int == c as int,
{
    c as u32
}

/// Does `phrase` occur in `hay`, ASCII-lowercased, starting at `i`?
fn phrase_at(hay: &Vec<char>, i: usize, phrase: &Vec<char>) -> (r: bool)
    requires
        i + phrase.len() <= hay.len(),
    ensures
        r == (ascii_lowercase(hay@).subrange(i as int, i + phrase.len()) == codes(phrase@)),
{
    let mut j: usize = 0;
    while j < phrase.len()
        invariant
            i + phrase.len() <= hay.len(),
            j <= phrase.len(),
            forall|k: int| 0 <= k < j ==> lower_code(#[trigger] hay@[i + k]) == phrase@[k] as int,
        decreases phrase.len() - j,
    {
        if lower_code_of(hay[i + j]) != code_of(phrase[j]) {
            assert(ascii_lowercase(hay@).subrange(i as int, i + phrase.len())[j as int]
                != codes(phrase@)[j as int]);
            return false;
        }
        j += 1;
    }
    assert forall|k: int| 0 <= k < phrase.len() implies
        ascii_lowercase(hay@).subrange(i as int, i + phrase.len())[k] == codes(phrase@)[k] by {
        assert(lower_code(hay@[i + k]) == phrase@[k] as int);
    }
    assert(ascii_lowercase(hay@).subrange(i as int, i + phrase.len()) =~= codes(phrase@));
    true
}

/// True when `text`, lowercased in its ASCII letters, contains `phrase`.
pub fn mentions_phrase(text: &str, phrase: &str) -> (r: bool)
    ensures
        r == mentions(text@, phrase@),
{
    let hay = chars_of(text);
    let needle = chars_of(phrase);
    if needle.len() > hay.len() {
        return false;
    }
    if needle.len() == 0 {
        assert(ascii_lowercase(text@).subrange(0int, 0int + codes(phrase@).len()) =~= codes(phrase@));
        return true;
    }
    let last = hay.len() - needle.len();
    let mut i: usize = 0;
    while i <= last
        invariant
            hay@ == text@,
            needle@ == phrase@,
            last == hay.len() - needle.len(),
            0 < needle.len() <= hay.len(),
            i <= last + 1,
            forall|k: int|
                0 <= k < i ==> #[trigger] ascii_lowercase(hay@).subrange(k, k + needle.len())
                    != codes(needle@),
        decreases last + 1 - i,
    {
        if phrase_at(&hay, i, &needle) {
            assert(ascii_lowercase(text@).subrange(i as int, i + codes(phrase@).len())
                == codes(phrase@));
            return true;
        }
        i += 1;
    }
    assert forall|k: int|
        0 <= k && k + codes(phrase@).len() <= ascii_lowercase(text@).len() implies
        #[trigger] ascii_lowercase(text@).subrange(k, k + codes(phrase@).len()) != codes(phrase@)
    by {
        assert(k < i);
    }
    false
}

/// The one-character string holding digit `d`.
fn digit_text(d: u64) -> (r: &'static str)
    requires
        d < 10,
    ensures
        r@ == seq![digit(d as int)],
{
    proof {
        reveal_strlit("0");
        reveal_strlit("1");
        reveal_strlit("2");
        reveal_strlit("3");
        reveal_strlit("4");
        reveal_strlit("5");
        reveal_strlit("6");
        reveal_strlit("7");
        reveal_strlit("8");
        reveal_strlit("9");
    }
    match d {
        0 => "0",
        1 => "1",
        2 => "2",
        3 => "3",
        4 => "4",
        5 => "5",
        6 => "6",
        7 => "7",
        8 => "8",
        _ => "9",
    }
}

/// Appends the decimal notation of `n` to `out`.
pub fn push_decimal_u64(out: &mut String, n: u64)
    ensures
        final(out)@ == old(out)@ + decimal_nat(n as nat),
    decreases n,
{
    if n >= 10 {
        push_decimal_u64(out, n / 10);
    }
    out.append(digit_text(n % 10));
    assert(old(out)@ + decimal_nat(n as nat) =~= old(out)@ + (if n >= 10 {
        decimal_nat((n / 10) as nat)
    } else {
        Seq::empty()
    }) + seq![digit((n % 10) as int)]);
}

/// Appends the decimal notation of `n` to `out` (`-` first when negative).
pub fn push_decimal_i64(out: &mut String, n: i64)
    ensures
        final(out)@ == old(out)@ + decimal(n as int),
{
    if n < 0 {
        out.append("-");
        proof {
            reveal_strlit("-");
        }
        let magnitude: u64 = if n == i64::MIN {
            9223372036854775808u64
        } else {
            (-n) as u64
        };
        push_decimal_u64(out, magnitude);
        assert(final(out)@ =~= old(out)@ + decimal(n as int));
    } else {
        push_decimal_u64(out, n as u64);
    }
}

} // verus!
