use vstd::prelude::*;

use crate::text::{lemma_pow16_8, lemma_pow16_monotonic, pow16, string_from_chars};

verus! {

/// A one-time password: a 32-bit value shown to the user as eight characters.
#[derive(Debug)]
pub struct Otp(pub u32);

/// The eight 4-bit groups of `n`, most significant first.
pub open spec fn nibbles(n: u32) -> Seq<u8> {
    seq![
        ((n >> 28u32) & 0xFu32) as u8,
        ((n >> 24u32) & 0xFu32) as u8,
        ((n >> 20u32) & 0xFu32) as u8,
        ((n >> 16u32) & 0xFu32) as u8,
        ((n >> 12u32) & 0xFu32) as u8,
        ((n >> 8u32) & 0xFu32) as u8,
        ((n >> 4u32) & 0xFu32) as u8,
        (n & 0xFu32) as u8,
    ]
}

/// The character of a decimal digit `d < 10`.
pub open spec fn digit_char(d: int) -> char {
    (d + 48) as char
}

/// Whether `c` is one of the ASCII characters `0` to `9`.
pub open spec fn is_digit_char(c: char) -> bool {
    '0' <= c && c <= '9'
}

/// The decimal rendering of a 4-bit value `d < 16`: one or two characters.
pub open spec fn nibble_text(d: u8) -> Seq<char> {
    if d < 10 {
        seq![digit_char(d as int)]
    } else {
        seq!['1', digit_char(d - 10)]
    }
}

/// The decimal renderings of `ds`, one after the other.
pub open spec fn nibbles_text(ds: Seq<u8>) -> Seq<char>
    decreases ds.len(),
{
    if ds.len() == 0 {
        Seq::empty()
    } else {
        nibbles_text(ds.drop_last()) + nibble_text(ds.last())
    }
}

/// The text of an OTP: the renderings of its nibbles, cut to eight characters.
pub open spec fn otp_text(n: u32) -> Seq<char> {
    nibbles_text(nibbles(n)).take(8)
}

/// The value of a decimal digit character.
pub open spec fn digit_value(c: char) -> int {
    c as int - 48
}

/// The first `k` characters of `s` read as base-16 digits, each character
/// standing for one nibble.
pub open spec fn nibble_digits_value(s: Seq<char>, k: int) -> int
    decreases k,
{
    if k <= 0 {
        0
    } else {
        nibble_digits_value(s, k - 1) * 16 + digit_value(s[k - 1])
    }
}

/// What `Otp::from_str` gives for `s`: exactly eight decimal digit
/// characters, one per nibble, most significant first; anything else is no OTP.
pub open spec fn otp_from_text(s: Seq<char>) -> Option<u32> {
    if s.len() == 8 && forall|i: int| 0 <= i < 8 ==> is_digit_char(#[trigger] s[i]) {
        Some(nibble_digits_value(s, 8) as u32)
    } else {
        None
    }
}

proof fn lemma_nibble_digits_value_bound(s: Seq<char>, k: int)
    requires
        0 <= k <= s.len(),
        forall|i: int| 0 <= i < k ==> is_digit_char(#[trigger] s[i]),
    ensures
        0 <= nibble_digits_value(s, k) < pow16(k as nat),
    decreases k,
{
    if k > 0 {
        lemma_nibble_digits_value_bound(s, k - 1);
        assert(is_digit_char(s[k - 1]));
    }
}

proof fn lemma_nibble_digits_value_8(s: Seq<char>)
    ensures
        nibble_digits_value(s, 8) == digit_value(s[0]) * 0x10000000 + digit_value(s[1]) * 0x1000000
            + digit_value(s[2]) * 0x100000 + digit_value(s[3]) * 0x10000 + digit_value(s[4])
            * 0x1000 + digit_value(s[5]) * 0x100 + digit_value(s[6]) * 0x10 + digit_value(s[7]),
{
    reveal_with_fuel(nibble_digits_value, 9);
}

/// Eight nibbles put together and taken apart again.
proof fn lemma_compose_nibbles(
    d0: u32,
    d1: u32,
    d2: u32,
    d3: u32,
    d4: u32,
    d5: u32,
    d6: u32,
    d7: u32,
    v: u32,
)
    requires
        d0 < 16 && d1 < 16 && d2 < 16 && d3 < 16 && d4 < 16 && d5 < 16 && d6 < 16 && d7 < 16,
        v == d0 * 0x10000000 + d1 * 0x1000000 + d2 * 0x100000 + d3 * 0x10000 + d4 * 0x1000 + d5
            * 0x100 + d6 * 0x10 + d7,
    ensures
        (v >> 28u32) & 0xFu32 == d0,
        (v >> 24u32) & 0xFu32 == d1,
        (v >> 20u32) & 0xFu32 == d2,
        (v >> 16u32) & 0xFu32 == d3,
        (v >> 12u32) & 0xFu32 == d4,
        (v >> 8u32) & 0xFu32 == d5,
        (v >> 4u32) & 0xFu32 == d6,
        v & 0xFu32 == d7,
{
    assert(((v >> 28u32) & 0xFu32 == d0) && ((v >> 24u32) & 0xFu32 == d1) && ((v >> 20u32)
        & 0xFu32 == d2) && ((v >> 16u32) & 0xFu32 == d3) && ((v >> 12u32) & 0xFu32 == d4) && ((v
        >> 8u32) & 0xFu32 == d5) && ((v >> 4u32) & 0xFu32 == d6) && (v & 0xFu32 == d7))
        by (bit_vector)
        requires
            d0 < 16 && d1 < 16 && d2 < 16 && d3 < 16 && d4 < 16 && d5 < 16 && d6 < 16 && d7 < 16,
            v == d0 * 0x10000000 + d1 * 0x1000000 + d2 * 0x100000 + d3 * 0x10000 + d4 * 0x1000
                + d5 * 0x100 + d6 * 0x10 + d7,
    ;
}

/// A value is the sum of its nibbles, each at its place.
proof fn lemma_decompose_nibbles(n: u32)
    ensures
        n == ((n >> 28u32) & 0xFu32) * 0x10000000 + ((n >> 24u32) & 0xFu32) * 0x1000000 + ((n
            >> 20u32) & 0xFu32) * 0x100000 + ((n >> 16u32) & 0xFu32) * 0x10000 + ((n >> 12u32)
            & 0xFu32) * 0x1000 + ((n >> 8u32) & 0xFu32) * 0x100 + ((n >> 4u32) & 0xFu32) * 0x10 + (n
            & 0xFu32),
{
    assert(n == ((n >> 28u32) & 0xFu32) * 0x10000000 + ((n >> 24u32) & 0xFu32) * 0x1000000 + ((n
        >> 20u32) & 0xFu32) * 0x100000 + ((n >> 16u32) & 0xFu32) * 0x10000 + ((n >> 12u32)
        & 0xFu32) * 0x1000 + ((n >> 8u32) & 0xFu32) * 0x100 + ((n >> 4u32) & 0xFu32) * 0x10 + (n
        & 0xFu32)) by (bit_vector);
}

proof fn lemma_nibbles_below_16(n: u32)
    ensures
        forall|i: int| 0 <= i < 8 ==> #[trigger] nibbles(n)[i] < 16,
        nibbles(n)[0] == ((n >> 28u32) & 0xFu32),
        nibbles(n)[1] == ((n >> 24u32) & 0xFu32),
        nibbles(n)[2] == ((n >> 20u32) & 0xFu32),
        nibbles(n)[3] == ((n >> 16u32) & 0xFu32),
        nibbles(n)[4] == ((n >> 12u32) & 0xFu32),
        nibbles(n)[5] == ((n >> 8u32) & 0xFu32),
        nibbles(n)[6] == ((n >> 4u32) & 0xFu32),
        nibbles(n)[7] == (n & 0xFu32),
{
    assert(((n >> 28u32) & 0xFu32) < 16 && ((n >> 24u32) & 0xFu32) < 16
        && ((n >> 20u32) & 0xFu32) < 16 && ((n >> 16u32) & 0xFu32) < 16
        && ((n >> 12u32) & 0xFu32) < 16 && ((n >> 8u32) & 0xFu32) < 16
        && ((n >> 4u32) & 0xFu32) < 16 && (n & 0xFu32) < 16) by (bit_vector);
}

proof fn lemma_nibbles_text_len(ds: Seq<u8>)
    requires
        forall|i: int| 0 <= i < ds.len() ==> #[trigger] ds[i] < 16,
    ensures
        nibbles_text(ds).len() >= ds.len(),
        forall|i: int| 0 <= i < nibbles_text(ds).len() ==> is_digit_char(#[trigger] nibbles_text(ds)[i]),
    decreases ds.len(),
{
    if ds.len() > 0 {
        let init = ds.drop_last();
        assert forall|i: int| 0 <= i < init.len() implies #[trigger] init[i] < 16 by {
            assert(init[i] == ds[i]);
        }
        lemma_nibbles_text_len(init);
        assert(ds.last() == ds[ds.len() - 1]);
    }
}

proof fn lemma_nibbles_text_single_digits(ds: Seq<u8>)
    requires
        forall|i: int| 0 <= i < ds.len() ==> #[trigger] ds[i] < 10,
    ensures
        nibbles_text(ds) =~= Seq::new(ds.len(), |i: int| digit_char(ds[i] as int)),
    decreases ds.len(),
{
    if ds.len() > 0 {
        let init = ds.drop_last();
        assert forall|i: int| 0 <= i < init.len() implies #[trigger] init[i] < 10 by {
            assert(init[i] == ds[i]);
        }
        lemma_nibbles_text_single_digits(init);
        assert(ds.last() == ds[ds.len() - 1]);
    }
}

/// A uniformly drawn `u32` (`rand::random`). Nothing is claimed of the value:
/// it comes from the thread-local generator.
#[verifier::external_body]
fn random_u32() -> u32 {
    rand::random()
}

/// The characters of a nibble's decimal rendering.
fn push_nibble_text(out: &mut Vec<char>, d: u8)
    requires
        d < 16,
    ensures
        final(out)@ == old(out)@ + nibble_text(d),
{
    if d < 10 {
        out.push((d + 48) as char);
    } else {
        out.push('1');
        out.push((d - 10 + 48) as char);
    }
}

/// Every text that `Otp::from_str` accepts is exactly the text of the OTP it
/// gives back.
pub proof fn law_from_str_renders_back(s: Seq<char>)
    requires
        otp_from_text(s) is Some,
    ensures
        otp_text(otp_from_text(s).unwrap()) == s,
{
    let v = nibble_digits_value(s, 8);
    assert(forall|i: int| 0 <= i < 8 ==> is_digit_char(#[trigger] s[i]));
    assert(is_digit_char(s[0]) && is_digit_char(s[1]) && is_digit_char(s[2]) && is_digit_char(s[3]));
    assert(is_digit_char(s[4]) && is_digit_char(s[5]) && is_digit_char(s[6]) && is_digit_char(s[7]));
    lemma_nibble_digits_value_8(s);
    lemma_nibble_digits_value_bound(s, 8);
    lemma_pow16_8();
    let n = v as u32;
    lemma_compose_nibbles(
        digit_value(s[0]) as u32,
        digit_value(s[1]) as u32,
        digit_value(s[2]) as u32,
        digit_value(s[3]) as u32,
        digit_value(s[4]) as u32,
        digit_value(s[5]) as u32,
        digit_value(s[6]) as u32,
        digit_value(s[7]) as u32,
        n,
    );
    let ds = nibbles(n);
    assert forall|i: int| 0 <= i < 8 implies #[trigger] ds[i] as int == digit_value(s[i]) by {
        assert(is_digit_char(s[i]));
    }
    lemma_nibbles_text_single_digits(ds);
    assert(nibbles_text(ds) =~= s);
    assert(nibbles_text(ds).take(8) =~= s);
}

/// An OTP whose nibbles are all below ten is read back from its own text.
pub proof fn law_text_reads_back(n: u32)
    requires
        forall|i: int| 0 <= i < 8 ==> #[trigger] nibbles(n)[i] < 10,
    ensures
        otp_from_text(otp_text(n)) == Some(n),
{
    let ds = nibbles(n);
    lemma_nibbles_text_single_digits(ds);
    let t = otp_text(n);
    assert(nibbles_text(ds).take(8) =~= nibbles_text(ds));
    assert forall|i: int| 0 <= i < 8 implies is_digit_char(#[trigger] t[i]) && digit_value(t[i])
        == ds[i] as int by {
        assert(ds[i] < 10);
    }
    assert(t.len() == 8);
    lemma_nibble_digits_value_8(t);
    lemma_decompose_nibbles(n);
    lemma_nibbles_below_16(n);
    assert(digit_value(t[0]) == ((n >> 28u32) & 0xFu32));
    assert(digit_value(t[1]) == ((n >> 24u32) & 0xFu32));
    assert(digit_value(t[2]) == ((n >> 20u32) & 0xFu32));
    assert(digit_value(t[3]) == ((n >> 16u32) & 0xFu32));
    assert(digit_value(t[4]) == ((n >> 12u32) & 0xFu32));
    assert(digit_value(t[5]) == ((n >> 8u32) & 0xFu32));
    assert(digit_value(t[6]) == ((n >> 4u32) & 0xFu32));
    assert(digit_value(t[7]) == (n & 0xFu32));
    assert(nibble_digits_value(t, 8) == n);
}

/// The ordinary base-10 numeral of a natural number, most significant digit
/// first.
pub open spec fn decimal_numeral(v: nat) -> Seq<char>
    decreases v,
{
    if v < 10 {
        seq![(v + 48) as char]
    } else {
        decimal_numeral(v / 10) + seq![((v % 10) + 48) as char]
    }
}

/// The base-16 digit of `n` at place `i`, counted from the most significant
/// of its eight places (`0 <= i < 8`).
pub open spec fn hex_digit_at(n: u32, i: int) -> nat {
    ((n as int / pow16((7 - i) as nat) as int) % 16) as nat
}

/// The base-10 numerals of the first `k` base-16 digits of `n`, one after
/// the other.
pub open spec fn digit_numerals(n: u32, k: int) -> Seq<char>
    decreases k,
{
    if k <= 0 {
        Seq::empty()
    } else {
        digit_numerals(n, k - 1) + decimal_numeral(hex_digit_at(n, k - 1))
    }
}

proof fn lemma_pow16_places()
    ensures
        pow16(0) == 1,
        pow16(1) == 0x10,
        pow16(2) == 0x100,
        pow16(3) == 0x1000,
        pow16(4) == 0x10000,
        pow16(5) == 0x100000,
        pow16(6) == 0x1000000,
        pow16(7) == 0x10000000,
{
    reveal_with_fuel(pow16, 8);
}

proof fn lemma_nibbles_are_hex_digits(n: u32)
    ensures
        forall|i: int| 0 <= i < 8 ==> #[trigger] nibbles(n)[i] as nat == hex_digit_at(n, i),
{
    lemma_pow16_places();
    lemma_nibbles_below_16(n);
    assert((n >> 28u32) & 0xFu32 == (n / 0x10000000u32) % 16u32) by (bit_vector);
    assert((n >> 24u32) & 0xFu32 == (n / 0x1000000u32) % 16u32) by (bit_vector);
    assert((n >> 20u32) & 0xFu32 == (n / 0x100000u32) % 16u32) by (bit_vector);
    assert((n >> 16u32) & 0xFu32 == (n / 0x10000u32) % 16u32) by (bit_vector);
    assert((n >> 12u32) & 0xFu32 == (n / 0x1000u32) % 16u32) by (bit_vector);
    assert((n >> 8u32) & 0xFu32 == (n / 0x100u32) % 16u32) by (bit_vector);
    assert((n >> 4u32) & 0xFu32 == (n / 0x10u32) % 16u32) by (bit_vector);
    assert(n & 0xFu32 == (n / 1u32) % 16u32) by (bit_vector);
}

proof fn lemma_nibble_text_is_numeral(d: u8)
    requires
        d < 16,
    ensures
        nibble_text(d) == decimal_numeral(d as nat),
{
    if d >= 10 {
        assert(decimal_numeral(1) == seq!['1']);
        assert(decimal_numeral(d as nat) =~= seq!['1', digit_char(d - 10)]);
    }
}

proof fn lemma_nibbles_text_prefix(n: u32, k: int)
    requires
        0 <= k <= 8,
    ensures
        nibbles_text(nibbles(n).take(k)) == digit_numerals(n, k),
    decreases k,
{
    if k > 0 {
        lemma_nibbles_text_prefix(n, k - 1);
        lemma_nibbles_are_hex_digits(n);
        lemma_nibbles_below_16(n);
        let ds = nibbles(n).take(k);
        assert(ds.drop_last() =~= nibbles(n).take(k - 1));
        assert(ds.last() == nibbles(n)[k - 1]);
        lemma_nibble_text_is_numeral(nibbles(n)[k - 1]);
    }
}

/// The text of an OTP is the ordinary base-10 numerals of its eight
/// base-16 digits, most significant first, one after the other, cut to the
/// first eight characters.
pub proof fn law_otp_text_is_digit_numerals(n: u32)
    ensures
        otp_text(n) == digit_numerals(n, 8).take(8),
{
    lemma_nibbles_text_prefix(n, 8);
    assert(nibbles(n).take(8) =~= nibbles(n));
}

impl Otp {
    /// Decomposes the OTP into 8 4-bit values.
    pub fn decompose(&self) -> (digits: [u8; 8])
        ensures
            digits@ == nibbles(self.0),
            forall|i: int| 0 <= i < 8 ==> #[trigger] digits@[i] < 16,
            self.0 == digits@[0] * 0x10000000 + digits@[1] * 0x1000000 + digits@[2] * 0x100000
                + digits@[3] * 0x10000 + digits@[4] * 0x1000 + digits@[5] * 0x100 + digits@[6]
                * 0x10 + digits@[7],
    {
        let n = self.0;
        proof {
            lemma_nibbles_below_16(n);
            lemma_decompose_nibbles(n);
        }
        [
            ((n >> 28) & 0xF) as u8,
            ((n >> 24) & 0xF) as u8,
            ((n >> 20) & 0xF) as u8,
            ((n >> 16) & 0xF) as u8,
            ((n >> 12) & 0xF) as u8,
            ((n >> 8) & 0xF) as u8,
            ((n >> 4) & 0xF) as u8,
            (n & 0xF) as u8,
        ]
    }

    /// The OTP as a plain number.
    pub fn as_u32(&self) -> (n: u32)
        ensures
            n == self.0,
    {
        self.0
    }

    /// A fresh OTP drawn by the thread-local random number generator.
    pub fn random() -> (otp: Self) {
        Otp(random_u32())
    }

    /// Reads an OTP typed back by a user: exactly eight characters `0`-`9`,
    /// one per nibble, most significant first.
    pub fn from_str(s: &str) -> (otp: Option<Self>)
        ensures
            otp is Some <==> otp_from_text(s@) is Some,
            otp matches Some(o) ==> otp_from_text(s@) == Some(o.0),
    {
        let len = s.unicode_len();
        if len != 8 {
            return None;
        }
        let mut acc: u32 = 0;
        for i in 0..8
            invariant
                len == s@.len(),
                len == 8,
                forall|k: int| 0 <= k < i ==> is_digit_char(#[trigger] s@[k]),
                acc == nibble_digits_value(s@, i as int),
        {
            let c = s.get_char(i);
            if !('0' <= c && c <= '9') {
                assert(!is_digit_char(s@[i as int]));
                return None;
            }
            proof {
                lemma_nibble_digits_value_bound(s@, i + 1);
                lemma_pow16_monotonic((i + 1) as nat, 8);
                lemma_pow16_8();
            }
            acc = acc * 16 + (c as u32 - 48);
        }
        Some(Otp(acc))
    }

    /// The OTP's text: each nibble in decimal, the whole cut to eight characters.
    pub fn to_string(&self) -> (text: String)
        ensures
            text@ == otp_text(self.0),
            text@ == digit_numerals(self.0, 8).take(8),
            text@.len() == 8,
            forall|i: int| 0 <= i < 8 ==> is_digit_char(#[trigger] text@[i]),
    {
        let digits = self.decompose();
        let ghost ds = nibbles(self.0);
        proof {
            lemma_nibbles_below_16(self.0);
        }
        let mut full: Vec<char> = Vec::new();
        for i in 0..8
            invariant
                digits@ == ds,
                forall|k: int| 0 <= k < 8 ==> #[trigger] ds[k] < 16,
                full@ == nibbles_text(ds.take(i as int)),
        {
            assert(ds.take(i + 1).drop_last() =~= ds.take(i as int));
            push_nibble_text(&mut full, digits[i]);
        }
        assert(ds.take(8) =~= ds);
        proof {
            lemma_nibbles_text_len(ds);
        }
        let mut contained: Vec<char> = Vec::new();
        for i in 0..8
            invariant
                full@ == nibbles_text(ds),
                full@.len() >= 8,
                contained@ == full@.take(i as int),
        {
            assert(full@.take(i + 1) =~= full@.take(i as int).push(full@[i as int]));
            contained.push(full[i]);
        }
        proof {
            law_otp_text_is_digit_numerals(self.0);
        }
        string_from_chars(contained)
    }
}

} // verus!
