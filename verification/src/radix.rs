use vstd::prelude::*;
use vstd::arithmetic::div_mod::{lemma_fundamental_div_mod, lemma_fundamental_div_mod_converse};
use crate::natural::Natural;

verus! {

/// Smallest radix in which a numeral can be written.
pub const MIN_RADIX: u32 = 2;

/// Largest radix the digit alphabet `0-9a-z` can serve.
pub const MAX_RADIX: u32 = 36;

/// Whether `radix` lies within the range the digit alphabet supports.
pub open spec fn radix_in_range(radix: u32) -> bool {
    MIN_RADIX <= radix <= MAX_RADIX
}

/// The value of a character read as a digit; letters count from ten in either
/// case, and every other character gets the out-of-range value 36.
pub open spec fn digit_of(c: char) -> nat {
    if '0' <= c <= '9' {
        (c as u32 - '0' as u32) as nat
    } else if 'a' <= c <= 'z' {
        (c as u32 - 'a' as u32 + 10) as nat
    } else if 'A' <= c <= 'Z' {
        (c as u32 - 'A' as u32 + 10) as nat
    } else {
        36
    }
}

/// Whether `c` belongs to the digit alphabet of `radix`, for a radix of at
/// most 36.
pub open spec fn is_digit(c: char, radix: u32) -> bool {
    digit_of(c) < radix
}

/// A numeral of `radix`: a non-empty text in which every character is a digit
/// of that radix.
pub open spec fn is_numeral(s: Seq<char>, radix: u32) -> bool {
    s.len() > 0 && forall|i: int| 0 <= i < s.len() ==> is_digit(#[trigger] s[i], radix)
}

/// The number a text denotes when read as digits of `radix`, most significant
/// digit first.
pub open spec fn numeral_value(s: Seq<char>, radix: u32) -> nat
    decreases s.len(),
{
    if s.len() == 0 {
        0
    } else {
        numeral_value(s.drop_last(), radix) * (radix as nat) + digit_of(s.last())
    }
}

/// The character that writes the digit `d`: `0-9`, then `a-z`.
pub open spec fn digit_char(d: nat) -> char {
    if d < 10 {
        ((48 + d) as u8) as char
    } else {
        ((87 + d) as u8) as char
    }
}

/// The canonical numeral of `n` in `radix`: lowercase, and as short as
/// possible, so zero is the single digit `0`.  The digits are found by
/// repeated division, the least significant one last.
pub open spec fn numeral(n: nat, radix: u32) -> Seq<char>
    decreases n,
    via numeral_terminates
{
    if n < radix || radix < 2 {
        seq![digit_char(n)]
    } else {
        numeral(n / (radix as nat), radix).push(digit_char(n % (radix as nat)))
    }
}

#[via_fn]
proof fn numeral_terminates(n: nat, radix: u32) {
    if n >= radix && radix >= 2 {
        lemma_quotient_smaller(n, radix);
    }
}

/// Dividing a number that is at least the radix by the radix gives a smaller
/// number.
pub proof fn lemma_quotient_smaller(n: nat, radix: u32)
    requires
        n >= radix >= 2,
    ensures
        n / (radix as nat) < n,
{
    assert(n / (radix as nat) < n) by (nonlinear_arith)
        requires
            n >= radix as nat,
            radix as nat >= 2,
    ;
}

/// A canonical numeral has no uppercase digit and no leading zero, except
/// that zero itself is written `0`.
pub open spec fn is_canonical(s: Seq<char>, radix: u32) -> bool {
    &&& is_numeral(s, radix)
    &&& forall|i: int| 0 <= i < s.len() ==> !('A' <= #[trigger] s[i] <= 'Z')
    &&& (s.len() > 1 ==> s[0] != '0')
}

/// A text with every lowercase ASCII letter replaced by its uppercase form.
pub open spec fn upper(s: Seq<char>) -> Seq<char> {
    Seq::new(s.len(), |i: int| upper_char(s[i]))
}

/// Tells whether `c` belongs to the digit alphabet of `radix`.
pub fn is_radix_digit(c: char, radix: u32) -> (ok: bool)
    ensures
        ok == is_digit(c, radix),
{
    let code: u32 = c as u32;
    let d: u32 = if '0' <= c && c <= '9' {
        code - 48
    } else if 'a' <= c && c <= 'z' {
        code - 97 + 10
    } else if 'A' <= c && c <= 'Z' {
        code - 65 + 10
    } else {
        36
    };
    d < radix
}

/// The uppercase form of a lowercase ASCII letter; every other character is
/// left as it is.
pub open spec fn upper_char(c: char) -> char {
    if 'a' <= c <= 'z' {
        ((c as u32 - 32) as u8) as char
    } else {
        c
    }
}

/// The uppercase form of a lowercase ASCII letter; every other character is
/// left as it is.
pub fn to_upper_char(c: char) -> (u: char)
    ensures
        u == upper_char(c),
{
    if 'a' <= c && c <= 'z' {
        let b: u8 = c as u8;
        (b - 32) as char
    } else {
        c
    }
}

/// Every digit below 36 is written by a character that reads back as that
/// digit and is not an uppercase letter.
pub proof fn lemma_digit_char(d: nat)
    requires
        d < 36,
    ensures
        digit_of(digit_char(d)) == d,
        !('A' <= digit_char(d) <= 'Z'),
        d < 10 ==> upper_char(digit_char(d)) == digit_char(d),
        (digit_char(d) == '0') == (d == 0),
{
}

/// A digit that is not an uppercase letter is the character that writes its
/// own value.
pub proof fn lemma_digit_of_char(c: char)
    requires
        digit_of(c) < 36,
        !('A' <= c <= 'Z'),
    ensures
        digit_char(digit_of(c)) == c,
        (c == '0') == (digit_of(c) == 0),
{
}

/// Appending one digit multiplies the value by the radix and adds the digit.
pub proof fn lemma_value_push(s: Seq<char>, c: char, radix: u32)
    ensures
        numeral_value(s.push(c), radix) == numeral_value(s, radix) * (radix as nat) + digit_of(c),
{
    assert(s.push(c).drop_last() =~= s);
    assert(s.push(c).last() == c);
}

/// The numeral written for a number is canonical: a numeral of the radix,
/// lowercase, with no leading zero unless the number is zero, in which case
/// it is exactly `0`.
pub proof fn lemma_numeral_canonical(n: nat, radix: u32)
    requires
        radix_in_range(radix),
    ensures
        is_canonical(numeral(n, radix), radix),
        n > 0 ==> numeral(n, radix)[0] != '0',
        n == 0 ==> numeral(n, radix) =~= seq!['0'],
    decreases n,
{
    let s = numeral(n, radix);
    if n < radix {
        lemma_digit_char(n);
        assert(s =~= seq![digit_char(n)]);
    } else {
        let q = n / (radix as nat);
        let d = n % (radix as nat);
        lemma_fundamental_div_mod(n as int, radix as int);
        assert(q >= 1) by (nonlinear_arith)
            requires
                n >= radix as nat,
                radix as nat >= 2,
                n == (radix as nat) * q + d,
                d < radix as nat,
        ;
        lemma_quotient_smaller(n, radix);
        lemma_numeral_canonical(q, radix);
        lemma_digit_char(d);
        let t = numeral(q, radix);
        assert(s =~= t.push(digit_char(d)));
        assert forall|i: int| 0 <= i < s.len() implies is_digit(#[trigger] s[i], radix) && !('A'
            <= s[i] <= 'Z') by {
            if i < t.len() {
                assert(s[i] == t[i]);
            }
        }
        assert(s[0] == t[0]);
    }
}

/// Reading back the numeral written for a number gives the number.
pub proof fn lemma_numeral_round_trip(n: nat, radix: u32)
    requires
        radix_in_range(radix),
    ensures
        is_numeral(numeral(n, radix), radix),
        numeral_value(numeral(n, radix), radix) == n,
    decreases n,
{
    lemma_numeral_canonical(n, radix);
    if n < radix {
        lemma_digit_char(n);
        lemma_value_push(Seq::<char>::empty(), digit_char(n), radix);
        assert(Seq::<char>::empty().push(digit_char(n)) =~= numeral(n, radix));
        assert(numeral_value(Seq::<char>::empty(), radix) == 0);
        assert(0 * (radix as nat) == 0);
    } else {
        let q = n / (radix as nat);
        let d = n % (radix as nat);
        lemma_fundamental_div_mod(n as int, radix as int);
        lemma_quotient_smaller(n, radix);
        lemma_numeral_round_trip(q, radix);
        lemma_digit_char(d);
        lemma_value_push(numeral(q, radix), digit_char(d), radix);
        assert(q * (radix as nat) == (radix as nat) * q) by (nonlinear_arith);
    }
}

/// A numeral that does not start with the digit zero denotes a positive
/// number.
pub proof fn lemma_value_positive(s: Seq<char>, radix: u32)
    requires
        radix_in_range(radix),
        is_numeral(s, radix),
        s[0] != '0',
    ensures
        numeral_value(s, radix) > 0,
    decreases s.len(),
{
    if s.len() == 1 {
        assert(s.drop_last() =~= Seq::<char>::empty());
        assert(numeral_value(s.drop_last(), radix) == 0);
        assert(s.last() == s[0]);
        assert(is_digit(s[0], radix));
    } else {
        let t = s.drop_last();
        assert forall|i: int| 0 <= i < t.len() implies is_digit(#[trigger] t[i], radix) by {
            assert(t[i] == s[i]);
        }
        assert(t[0] == s[0]);
        lemma_value_positive(t, radix);
        assert(numeral_value(t, radix) * (radix as nat) > 0) by (nonlinear_arith)
            requires
                numeral_value(t, radix) > 0,
                radix as nat >= 2,
        ;
    }
}

/// Writing the number that a canonical numeral denotes gives the same
/// numeral back: each number has exactly one canonical numeral.
pub proof fn lemma_canonical_unique(s: Seq<char>, radix: u32)
    requires
        radix_in_range(radix),
        is_canonical(s, radix),
    ensures
        numeral(numeral_value(s, radix), radix) == s,
    decreases s.len(),
{
    let c = s.last();
    let t = s.drop_last();
    let d = digit_of(c);
    assert(is_digit(s[s.len() - 1], radix));
    lemma_digit_of_char(c);
    if s.len() == 1 {
        assert(t =~= Seq::<char>::empty());
        assert(numeral_value(t, radix) == 0);
        assert(0 * (radix as nat) == 0);
        assert(s =~= seq![c]);
    } else {
        assert forall|i: int| 0 <= i < t.len() implies is_digit(#[trigger] t[i], radix) && !('A'
            <= t[i] <= 'Z') by {
            assert(t[i] == s[i]);
        }
        assert(t[0] == s[0]);
        lemma_value_positive(t, radix);
        lemma_canonical_unique(t, radix);
        let q = numeral_value(t, radix);
        let v = numeral_value(s, radix);
        assert(v == q * (radix as nat) + d);
        lemma_fundamental_div_mod_converse(v as int, radix as int, q as int, d as int);
        assert(v >= radix) by (nonlinear_arith)
            requires
                v == q * (radix as nat) + d,
                q > 0,
        ;
        assert(numeral(v, radix) == numeral(q, radix).push(digit_char(d)));
        assert(t.push(c) =~= s);
    }
}

/// Uppercasing does not change which texts are numerals, nor what they
/// denote: digits are read without regard to case.
pub proof fn lemma_upper_same_value(s: Seq<char>, radix: u32)
    ensures
        is_numeral(upper(s), radix) == is_numeral(s, radix),
        numeral_value(upper(s), radix) == numeral_value(s, radix),
    decreases s.len(),
{
    let u = upper(s);
    assert forall|i: int| 0 <= i < s.len() implies digit_of(#[trigger] u[i]) == digit_of(s[i]) by {}
    if is_numeral(s, radix) {
        assert forall|i: int| 0 <= i < u.len() implies is_digit(#[trigger] u[i], radix) by {
            assert(is_digit(s[i], radix));
        }
    }
    if is_numeral(u, radix) {
        assert forall|i: int| 0 <= i < s.len() implies is_digit(#[trigger] s[i], radix) by {
            assert(is_digit(u[i], radix));
        }
    }
    if s.len() > 0 {
        lemma_upper_same_value(s.drop_last(), radix);
        assert(u.drop_last() =~= upper(s.drop_last()));
        assert(u.last() == u[s.len() - 1]);
    }
}

/// In a radix of at most ten the canonical numeral holds no letter, so
/// uppercasing leaves it as it is.
pub proof fn lemma_upper_without_letters(n: nat, radix: u32)
    requires
        radix_in_range(radix),
        radix <= 10,
    ensures
        upper(numeral(n, radix)) == numeral(n, radix),
{
    let s = numeral(n, radix);
    lemma_numeral_canonical(n, radix);
    assert forall|i: int| 0 <= i < s.len() implies upper_char(#[trigger] s[i]) == s[i] by {
        assert(is_digit(s[i], radix));
    }
    assert(upper(s) =~= s);
}

/// Decides whether `text` is a numeral of `radix`.
pub fn check_numeral(text: &str, radix: u32) -> (ok: bool)
    ensures
        ok == is_numeral(text@, radix),
{
    let mut ok = !text.is_empty();
    for c in it: text.chars()
        invariant
            it.seq() == text@,
            ok == (text@.len() > 0 && forall|i: int|
                0 <= i < it.index() ==> is_digit(#[trigger] text@[i], radix)),
    {
        if !is_radix_digit(c, radix) {
            ok = false;
        }
    }
    ok
}

/// The text with its lowercase ASCII letters turned into uppercase.
pub fn uppercase(text: &str) -> (out: String)
    ensures
        out@ == upper(text@),
{
    let mut out = String::new();
    for c in it: text.chars()
        invariant
            it.seq() == text@,
            out@ =~= upper(text@).take(it.index() as int),
    {
        out.push(to_upper_char(c));
    }
    assert(upper(text@).take(text@.len() as int) =~= upper(text@));
    out
}

/// Reads `text` as a number written in `radix`.
///
/// The text is accepted exactly when it is a numeral of the radix; letters
/// are read in either case.  Anything else, the empty text included, gives
/// `None`.
pub fn parse(radix: u32, text: &str) -> (r: Option<Natural>)
    requires
        radix_in_range(radix),
    ensures
        r.is_some() == is_numeral(text@, radix),
        r.is_some() ==> r.unwrap()@ == numeral_value(text@, radix),
{
    if check_numeral(text, radix) {
        Natural::parse_bytes(text, radix)
    } else {
        None
    }
}

/// Writes `n` in `radix` as its canonical numeral.
pub fn to_string(radix: u32, n: &Natural) -> (out: String)
    requires
        radix_in_range(radix),
    ensures
        out@ == numeral(n@, radix),
        is_canonical(out@, radix),
        numeral_value(out@, radix) == n@,
{
    proof {
        lemma_numeral_canonical(n@, radix);
        lemma_numeral_round_trip(n@, radix);
    }
    n.to_str_radix(radix)
}

/// The character that writes the digit `d`.
pub fn digit_to_char(d: u8) -> (c: char)
    requires
        d < 36,
    ensures
        c == digit_char(d as nat),
{
    if d < 10 {
        (48 + d) as char
    } else {
        (87 + d) as char
    }
}

/// Appends the decimal numeral of `n` to `out`.
pub fn push_decimal(out: &mut String, n: usize)
    ensures
        final(out)@ == old(out)@ + numeral(n as nat, 10),
    decreases n,
{
    if n >= 10 {
        push_decimal(out, n / 10);
    }
    out.push(digit_to_char((n % 10) as u8));
    assert(out@ =~= old(out)@ + numeral(n as nat, 10));
}

} // verus!
