//! Character-level helpers on strings used when building requests.

use vstd::prelude::*;

verus! {

broadcast use vstd::string::group_string_axioms;

/// The ASCII upper-case form of one character: `a..=z` become `A..=Z`,
/// every other character is left alone.
pub open spec fn ascii_upper_char(c: char) -> char {
    if 'a' <= c && c <= 'z' {
        ((c as u32) - 32) as char
    } else {
        c
    }
}

/// The ASCII upper-case form of a whole string, character by character.
pub open spec fn ascii_upper(s: Seq<char>) -> Seq<char> {
    s.map_values(|c: char| ascii_upper_char(c))
}

/// Upper-casing an upper-cased string changes nothing.
pub proof fn lemma_ascii_upper_idempotent(s: Seq<char>)
    ensures
        ascii_upper(ascii_upper(s)) == ascii_upper(s),
{
    assert(ascii_upper(ascii_upper(s)) =~= ascii_upper(s));
}

/// Upper-casing moves each ASCII lower-case letter 32 code points down, onto
/// its upper-case letter in `A..=Z`, and leaves every other character alone;
/// so the result has the same length and no ASCII lower-case letter.
pub proof fn lemma_ascii_upper_letters(s: Seq<char>)
    ensures
        ascii_upper(s).len() == s.len(),
        forall|i: int|
            0 <= i < s.len() && 'a' <= #[trigger] s[i] <= 'z' ==> ascii_upper(s)[i] as u32 + 32 == s[i] as u32
                && 'A' <= ascii_upper(s)[i] <= 'Z',
        forall|i: int|
            0 <= i < s.len() && !('a' <= #[trigger] s[i] <= 'z') ==> ascii_upper(s)[i] == s[i],
        forall|i: int| 0 <= i < s.len() ==> !('a' <= #[trigger] ascii_upper(s)[i] <= 'z'),
{
    assert forall|i: int| 0 <= i < s.len() implies !('a' <= #[trigger] ascii_upper(s)[i] <= 'z') by {
        lemma_ascii_upper_char_letter(s[i]);
    }
    assert forall|i: int| 0 <= i < s.len() && 'a' <= #[trigger] s[i] <= 'z' implies ascii_upper(s)[i] as u32
        + 32 == s[i] as u32 && 'A' <= ascii_upper(s)[i] <= 'Z' by {
        lemma_ascii_upper_char_letter(s[i]);
    }
}

/// One character: a letter in `a..=z` becomes the character 32 code points
/// lower, which lies in `A..=Z`; any other character stays; the result is
/// never in `a..=z`.
pub proof fn lemma_ascii_upper_char_letter(c: char)
    ensures
        'a' <= c <= 'z' ==> ascii_upper_char(c) as u32 + 32 == c as u32 && 'A' <= ascii_upper_char(c) <= 'Z',
        !('a' <= c <= 'z') ==> ascii_upper_char(c) == c,
        !('a' <= ascii_upper_char(c) <= 'z'),
{
}

/// Appends one character to a string (`String::push`).
#[verifier::external_body]
pub(crate) fn push_char(s: &mut String, c: char)
    ensures
        final(s)@ == old(s)@.push(c),
{
    s.push(c);
}

/// Upper-cases one character in the ASCII range.
pub fn upper_char(c: char) -> (r: char)
    ensures
        r == ascii_upper_char(c),
        'a' <= c <= 'z' ==> r as u32 + 32 == c as u32 && 'A' <= r <= 'Z',
        !('a' <= c <= 'z') ==> r == c,
{
    if 'a' <= c && c <= 'z' {
        let b: u8 = (c as u8) - 32;
        b as char
    } else {
        c
    }
}

/// `s` with every trailing occurrence of `c` removed.
pub open spec fn trim_end_char(s: Seq<char>, c: char) -> Seq<char>
    decreases s.len(),
{
    if s.len() > 0 && s.last() == c {
        trim_end_char(s.drop_last(), c)
    } else {
        s
    }
}

/// The trimmed string is a prefix of the original, does not end with `c`,
/// and what was cut off consists of `c` only.
pub proof fn lemma_trim_end_char_shape(s: Seq<char>, c: char)
    ensures
        trim_end_char(s, c).len() <= s.len(),
        trim_end_char(s, c) =~= s.take(trim_end_char(s, c).len() as int),
        trim_end_char(s, c).len() == 0 || trim_end_char(s, c).last() != c,
        forall|i: int| trim_end_char(s, c).len() <= i < s.len() ==> s[i] == c,
    decreases s.len(),
{
    if s.len() > 0 && s.last() == c {
        lemma_trim_end_char_shape(s.drop_last(), c);
        assert forall|i: int| trim_end_char(s, c).len() <= i < s.len() implies s[i] == c by {
            if i < s.len() - 1 {
                assert(s.drop_last()[i] == s[i]);
            }
        }
    }
}

/// Trimming twice is trimming once.
pub proof fn lemma_trim_end_char_idempotent(s: Seq<char>, c: char)
    ensures
        trim_end_char(trim_end_char(s, c), c) == trim_end_char(s, c),
{
    lemma_trim_end_char_shape(s, c);
}

/// Appending a trailing `c` does not change the trimmed form.
pub proof fn lemma_trim_end_char_push(s: Seq<char>, c: char)
    ensures
        trim_end_char(s.push(c), c) == trim_end_char(s, c),
{
    assert(s.push(c).drop_last() =~= s);
}

/// The characters of a string, in order.
fn chars_of(s: &str) -> (v: Vec<char>)
    ensures
        v@ == s@,
{
    let mut v: Vec<char> = Vec::new();
    for c in it: s.chars()
        invariant
            it.seq() == s@,
            v@ == s@.take(it.index()),
    {
        proof {
            assert(s@.take(it.index() + 1) =~= s@.take(it.index()).push(c));
        }
        v.push(c);
    }
    assert(s@.take(s@.len() as int) =~= s@);
    v
}

/// Returns `s` with all trailing occurrences of `c` removed
/// (`str::trim_end_matches` with a single character).
pub fn trim_end_matches_char(s: &str, c: char) -> (r: String)
    ensures
        r@ == trim_end_char(s@, c),
{
    let v = chars_of(s);
    let mut end: usize = v.len();
    assert(v@.take(end as int) =~= s@);
    while end > 0 && v[end - 1] == c
        invariant
            end <= v@.len(),
            v@ == s@,
            trim_end_char(v@.take(end as int), c) == trim_end_char(s@, c),
        decreases end,
    {
        assert(v@.take(end as int).drop_last() =~= v@.take(end - 1));
        end = end - 1;
    }
    let mut out = String::new();
    let mut i: usize = 0;
    while i < end
        invariant
            i <= end <= v@.len(),
            out@ == v@.take(i as int),
        decreases end - i,
    {
        assert(v@.take(i + 1) =~= v@.take(i as int).push(v@[i as int]));
        push_char(&mut out, v[i]);
        i = i + 1;
    }
    out
}

/// `parts` joined with the separator `sep` between neighbours.
pub open spec fn join_with(parts: Seq<Seq<char>>, sep: char) -> Seq<char>
    decreases parts.len(),
{
    if parts.len() == 0 {
        Seq::empty()
    } else if parts.len() == 1 {
        parts[0]
    } else {
        join_with(parts.drop_last(), sep).push(sep) + parts.last()
    }
}

/// Splitting the parts anywhere splits the joined string there: the parts
/// before the cut, joined, then one separator, then the parts after the cut,
/// joined. So the separator stands between every two neighbouring parts.
pub proof fn lemma_join_with_split(parts: Seq<Seq<char>>, sep: char, k: int)
    requires
        1 <= k < parts.len(),
    ensures
        join_with(parts, sep) == join_with(parts.take(k), sep).push(sep) + join_with(parts.skip(k), sep),
    decreases parts.len(),
{
    let n = parts.len() as int;
    assert(parts.drop_last() =~= parts.take(n - 1));
    if k == n - 1 {
        assert(parts.skip(k) =~= seq![parts.last()]);
    } else {
        lemma_join_with_split(parts.drop_last(), sep, k);
        assert(parts.drop_last().take(k) =~= parts.take(k));
        assert(parts.skip(k).drop_last() =~= parts.drop_last().skip(k));
        assert(parts.skip(k).last() == parts.last());
        let a = join_with(parts.take(k), sep);
        let b = join_with(parts.drop_last().skip(k), sep);
        assert(join_with(parts, sep) == (a.push(sep) + b).push(sep) + parts.last());
        assert(join_with(parts.skip(k), sep) == b.push(sep) + parts.last());
        assert((a.push(sep) + b).push(sep) + parts.last() =~= a.push(sep) + (b.push(sep) + parts.last()));
    }
}

/// How many times `c` occurs in `s`.
pub open spec fn count_char(s: Seq<char>, c: char) -> nat
    decreases s.len(),
{
    if s.len() == 0 {
        0
    } else {
        count_char(s.drop_last(), c) + if s.last() == c { 1nat } else { 0nat }
    }
}

/// Occurrences in a concatenation add up.
pub proof fn lemma_count_char_add(a: Seq<char>, b: Seq<char>, c: char)
    ensures
        count_char(a + b, c) == count_char(a, c) + count_char(b, c),
    decreases b.len(),
{
    if b.len() == 0 {
        assert(a + b =~= a);
    } else {
        lemma_count_char_add(a, b.drop_last(), c);
        assert((a + b).drop_last() =~= a + b.drop_last());
        assert((a + b).last() == b.last());
    }
}

/// A string that does not hold `c` counts no `c`.
pub proof fn lemma_count_char_absent(s: Seq<char>, c: char)
    requires
        !s.contains(c),
    ensures
        count_char(s, c) == 0,
    decreases s.len(),
{
    if s.len() > 0 {
        assert(s[s.len() - 1] == s.last());
        assert(!s.drop_last().contains(c)) by {
            if s.drop_last().contains(c) {
                let j = choose|j: int| 0 <= j < s.drop_last().len() && s.drop_last()[j] == c;
                assert(s[j] == c);
            }
        }
        lemma_count_char_absent(s.drop_last(), c);
    }
}

/// Joined parts that do not hold the separator hold it exactly once fewer
/// times than there are parts.
pub proof fn lemma_join_with_count(parts: Seq<Seq<char>>, sep: char)
    requires
        parts.len() >= 1,
        forall|i: int| 0 <= i < parts.len() ==> !(#[trigger] parts[i]).contains(sep),
    ensures
        count_char(join_with(parts, sep), sep) == parts.len() - 1,
    decreases parts.len(),
{
    if parts.len() == 1 {
        lemma_count_char_absent(parts[0], sep);
    } else {
        assert forall|i: int| 0 <= i < parts.drop_last().len() implies !(#[trigger] parts.drop_last()[i]).contains(sep) by {
            assert(parts.drop_last()[i] == parts[i]);
        }
        lemma_join_with_count(parts.drop_last(), sep);
        let a = join_with(parts.drop_last(), sep);
        lemma_count_char_add(a.push(sep), parts.last(), sep);
        assert(a.push(sep).drop_last() =~= a);
        assert(parts[parts.len() - 1] == parts.last());
        lemma_count_char_absent(parts.last(), sep);
    }
}

/// The decimal digit character for `d`, which must be below ten.
pub open spec fn digit_char(d: nat) -> char {
    ((d + 48) as u8) as char
}

/// The decimal representation of `n`, without sign or leading zeros.
pub open spec fn decimal(n: nat) -> Seq<char>
    decreases n,
{
    if n < 10 {
        seq![digit_char(n)]
    } else {
        decimal(n / 10).push(digit_char(n % 10))
    }
}

/// Appends the decimal representation of `n` to `out`.
pub fn push_decimal(out: &mut String, n: u16)
    ensures
        final(out)@ == old(out)@ + decimal(n as nat),
    decreases n,
{
    if n >= 10 {
        push_decimal(out, n / 10);
    }
    let d: u8 = (n % 10) as u8;
    let c: char = (d + 48) as char;
    push_char(out, c);
    proof {
        if n >= 10 {
            assert(decimal(n as nat) == decimal((n / 10) as nat).push(digit_char((n % 10) as nat)));
        }
    }
}

/// The number that a string of decimal digits stands for.
pub open spec fn digits_value(s: Seq<char>) -> nat
    decreases s.len(),
{
    if s.len() == 0 {
        0
    } else {
        digits_value(s.drop_last()) * 10 + ((s.last() as u32) - 48) as nat
    }
}

/// The decimal representation is made of digits only and reads back as the
/// number it was made from.
pub proof fn lemma_decimal_roundtrip(n: nat)
    ensures
        forall|i: int| 0 <= i < decimal(n).len() ==> '0' <= #[trigger] decimal(n)[i] <= '9',
        digits_value(decimal(n)) == n,
    decreases n,
{
    let d = n % 10;
    assert(d < 10);
    assert(digit_char(d) as u32 == d + 48);
    if n >= 10 {
        lemma_decimal_roundtrip(n / 10);
        let s = decimal(n);
        assert(s.drop_last() =~= decimal(n / 10));
        assert(s.last() == digit_char(d));
        assert(digits_value(s) == digits_value(decimal(n / 10)) * 10 + d);
        assert(n == (n / 10) * 10 + n % 10) by (nonlinear_arith);
    } else {
        assert(decimal(n) =~= seq![digit_char(n)]);
        assert(decimal(n).drop_last() =~= Seq::<char>::empty());
        assert(digits_value(decimal(n).drop_last()) == 0);
        assert(d == n);
        assert(digits_value(decimal(n)) == d);
    }
}

} // verus!
