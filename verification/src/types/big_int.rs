//! Integers of unbounded size, kept as their decimal digits.
//!
//! Costs, budgets and balances leave the chain as 64-bit and 128-bit numbers
//! and are handed on as numbers without a bound, so that nothing downstream
//! has to know how wide the chain's numbers are. The model of a [`BigInt`] is
//! a mathematical integer; its text is the usual decimal numeral.

use vstd::prelude::*;

verus! {

/// The decimal digits of `n`, most significant first and without leading
/// zeros. Zero is the single digit 0.
pub open spec fn decimal_digits(n: nat) -> Seq<u8>
    decreases n,
{
    if n < 10 {
        seq![n as u8]
    } else {
        decimal_digits(n / 10).push((n % 10) as u8)
    }
}

/// The number that a sequence of decimal digits denotes, most significant
/// digit first. Leading zeros do not count; no digits denote zero.
pub open spec fn digits_value(ds: Seq<u8>) -> nat
    decreases ds.len(),
{
    if ds.len() == 0 {
        0
    } else {
        digits_value(ds.drop_last()) * 10 + ds.last() as nat
    }
}

/// Every element is a decimal digit.
pub open spec fn all_digits(ds: Seq<u8>) -> bool {
    forall|i: int| 0 <= i < ds.len() ==> #[trigger] ds[i] < 10
}

/// The digits are the one way to write their number: there is at least one
/// digit and, unless the number is a single digit, the first is not zero.
pub open spec fn canonical_digits(ds: Seq<u8>) -> bool {
    &&& ds.len() >= 1
    &&& all_digits(ds)
    &&& ds.len() > 1 ==> ds[0] != 0
}

/// The character that stands for a decimal digit.
pub open spec fn digit_char(d: u8) -> char {
    (d + 48) as char
}

/// The character is one of `0` to `9`.
pub open spec fn is_digit_char(c: char) -> bool {
    '0' <= c <= '9'
}

/// The digit that a character of `0` to `9` stands for.
pub open spec fn char_digit(c: char) -> u8 {
    (c as u32 - 48) as u8
}

/// The characters of a sequence of digits.
pub open spec fn digits_text(ds: Seq<u8>) -> Seq<char> {
    Seq::new(ds.len(), |i: int| digit_char(ds[i]))
}

/// The digits of a sequence of digit characters.
pub open spec fn text_digits(s: Seq<char>) -> Seq<u8> {
    Seq::new(s.len(), |i: int| char_digit(s[i]))
}

/// The decimal numeral of an integer: a minus sign for a negative number,
/// then the digits of its magnitude without leading zeros.
pub open spec fn decimal_text(v: int) -> Seq<char> {
    if v < 0 {
        seq!['-'] + digits_text(decimal_digits((-v) as nat))
    } else {
        digits_text(decimal_digits(v as nat))
    }
}

/// The text starts with a minus sign.
pub open spec fn has_minus(s: Seq<char>) -> bool {
    s.len() > 0 && s[0] == '-'
}

/// The text without its minus sign, if it has one.
pub open spec fn unsigned_part(s: Seq<char>) -> Seq<char> {
    if has_minus(s) {
        s.skip(1)
    } else {
        s
    }
}

/// The text is a decimal numeral: an optional minus sign followed by one or
/// more of the digits `0` to `9`. Leading zeros are allowed, and so is `-0`.
pub open spec fn is_decimal(s: Seq<char>) -> bool {
    let body = unsigned_part(s);
    &&& body.len() > 0
    &&& forall|i: int| 0 <= i < body.len() ==> is_digit_char(#[trigger] body[i])
}

/// The integer that a decimal numeral denotes.
pub open spec fn decimal_value(s: Seq<char>) -> int {
    let magnitude = digits_value(text_digits(unsigned_part(s)));
    if has_minus(s) {
        -magnitude
    } else {
        magnitude as int
    }
}

/// The digits of a number are canonical and denote that number.
pub proof fn lemma_decimal_digits_value(n: nat)
    ensures
        canonical_digits(decimal_digits(n)),
        digits_value(decimal_digits(n)) == n,
    decreases n,
{
    if n < 10 {
        let ds = decimal_digits(n);
        assert(digits_value(ds.drop_last()) == 0);
    } else {
        lemma_decimal_digits_value(n / 10);
        let hi = decimal_digits(n / 10);
        let ds = hi.push((n % 10) as u8);
        assert(ds.drop_last() =~= hi);
        assert(hi.len() == 1 ==> hi[0] != 0) by {
            if hi.len() == 1 {
                assert(digits_value(hi.drop_last()) == 0);
            }
        }
    }
}

/// Canonical digits are the digits of the number they denote: a number has
/// one canonical way of being written.
pub proof fn lemma_canonical_digits_unique(ds: Seq<u8>)
    requires
        canonical_digits(ds),
    ensures
        decimal_digits(digits_value(ds)) == ds,
    decreases ds.len(),
{
    if ds.len() == 1 {
        assert(digits_value(ds.drop_last()) == 0);
    } else {
        let hi = ds.drop_last();
        assert(canonical_digits(hi)) by {
            assert forall|i: int| 0 <= i < hi.len() implies #[trigger] hi[i] < 10 by {}
        }
        lemma_canonical_digits_unique(hi);
        lemma_leading_digit_bounds(hi);
    }
}

/// Canonical digits of more than one place denote a number of at least one:
/// more exactly, a number is zero only if it is written as the digit 0.
pub proof fn lemma_leading_digit_bounds(ds: Seq<u8>)
    requires
        canonical_digits(ds),
    ensures
        digits_value(ds) == 0 <==> (ds.len() == 1 && ds[0] == 0),
        ds.len() > 1 ==> digits_value(ds) >= 10,
    decreases ds.len(),
{
    if ds.len() == 1 {
        assert(digits_value(ds.drop_last()) == 0);
    } else {
        let hi = ds.drop_last();
        assert(canonical_digits(hi)) by {
            assert forall|i: int| 0 <= i < hi.len() implies #[trigger] hi[i] < 10 by {}
        }
        lemma_leading_digit_bounds(hi);
    }
}

/// Zeros in front of a sequence of digits do not change its value.
pub proof fn lemma_leading_zeros(ds: Seq<u8>, k: int)
    requires
        0 <= k <= ds.len(),
        forall|i: int| 0 <= i < k ==> ds[i] == 0,
    ensures
        digits_value(ds) == digits_value(ds.skip(k)),
    decreases ds.len(),
{
    if k == ds.len() {
        if ds.len() > 0 {
            lemma_leading_zeros(ds.drop_last(), k - 1);
        }
    } else {
        lemma_leading_zeros(ds.drop_last(), k);
        assert(ds.skip(k).drop_last() =~= ds.drop_last().skip(k));
    }
}

/// Writing digits as characters and reading them back gives the digits.
pub proof fn lemma_digits_text_round_trip(ds: Seq<u8>)
    requires
        all_digits(ds),
    ensures
        text_digits(digits_text(ds)) == ds,
        forall|i: int| 0 <= i < ds.len() ==> is_digit_char(#[trigger] digits_text(ds)[i]),
        ds.len() > 0 ==> !has_minus(digits_text(ds)),
{
}

/// The numeral of an integer is a decimal numeral, and it denotes that
/// integer: writing a number and reading it back loses nothing.
pub proof fn lemma_decimal_text_round_trip(v: int)
    ensures
        is_decimal(decimal_text(v)),
        decimal_value(decimal_text(v)) == v,
{
    let m: nat = if v < 0 {
        (-v) as nat
    } else {
        v as nat
    };
    let ds = decimal_digits(m);
    lemma_decimal_digits_value(m);
    lemma_digits_text_round_trip(ds);
    if v < 0 {
        let body = digits_text(ds);
        assert((seq!['-'] + body).skip(1) =~= body);
    }
}

/// A decimal numeral is made of ASCII characters.
pub proof fn lemma_decimal_is_ascii(s: Seq<char>)
    requires
        is_decimal(s),
    ensures
        vstd::utf8::is_ascii_chars(s),
{
    let body = unsigned_part(s);
    assert forall|i: int| 0 <= i < s.len() implies '\0' <= #[trigger] s[i] <= '\u{7f}' by {
        if has_minus(s) && i > 0 {
            assert(is_digit_char(body[i - 1]));
        }
    }
}

/// A text that is no decimal numeral.
#[derive(Clone, Debug, PartialEq, Eq)]
pub struct NotANumber {
    /// The text as it was given.
    pub text: String,
}

/// An integer of unbounded size.
///
/// The digits are kept most significant first and in canonical form, so two
/// values are equal exactly when they hold the same sign and digits.
#[derive(Debug, PartialEq, Eq, Hash)]
pub struct BigInt {
    negative: bool,
    digits: Vec<u8>,
}

impl View for BigInt {
    type V = int;

    closed spec fn view(&self) -> int {
        if self.negative {
            -(digits_value(self.digits@) as int)
        } else {
            digits_value(self.digits@) as int
        }
    }
}

/// The one-character text of a decimal digit.
fn digit_str(d: u8) -> (s: &'static str)
    requires
        d < 10,
    ensures
        s@ == seq![digit_char(d)],
{
    proof {
        reveal_strlit("0");
        reveal_strlit("1");
        reveal_strlit("2");
        reveal_strlit("3");
        reveal_strlit("4");
        reveal_strlit("5");
        reveal_strlit("6");
        reveal_strlit("7");
        reveal_strlit("8");
        reveal_strlit("9");
    }
    if d == 0 {
        "0"
    } else if d == 1 {
        "1"
    } else if d == 2 {
        "2"
    } else if d == 3 {
        "3"
    } else if d == 4 {
        "4"
    } else if d == 5 {
        "5"
    } else if d == 6 {
        "6"
    } else if d == 7 {
        "7"
    } else if d == 8 {
        "8"
    } else {
        "9"
    }
}

impl Clone for BigInt {
    fn clone(&self) -> (r: BigInt)
        ensures
            r@ == self@,
    {
        proof {
            use_type_invariant(self);
        }
        let digits = self.digits.clone();
        BigInt { negative: self.negative, digits }
    }
}

impl BigInt {
    #[verifier::type_invariant]
    spec fn well_formed(&self) -> bool {
        &&& canonical_digits(self.digits@)
        &&& self.negative ==> digits_value(self.digits@) != 0
    }

    /// The number `n`.
    pub fn from_u128(n: u128) -> (r: BigInt)
        ensures
            r@ == n,
    {
        // The digits below the leading one, least significant first.
        let mut low: Vec<u8> = Vec::new();
        let mut m: u128 = n;
        while m >= 10
            invariant
                decimal_digits(n as nat) == decimal_digits(m as nat) + low@.reverse(),
            decreases m,
        {
            let d: u8 = (m % 10) as u8;
            low.push(d);
            m = m / 10;
        }
        let mut digits: Vec<u8> = Vec::new();
        digits.push(m as u8);
        let mut i: usize = low.len();
        while i > 0
            invariant
                i <= low.len(),
                digits@ == seq![m as u8] + low@.reverse().take(low.len() - i),
            decreases i,
        {
            i = i - 1;
            digits.push(low[i]);
        }
        proof {
            assert(digits@ == decimal_digits(n as nat));
            lemma_decimal_digits_value(n as nat);
        }
        BigInt { negative: false, digits }
    }

    /// The number `n`.
    pub fn from_u64(n: u64) -> (r: BigInt)
        ensures
            r@ == n,
    {
        BigInt::from_u128(n as u128)
    }

    /// Reads a decimal numeral: an optional minus sign, then one or more
    /// digits. Any other text is handed back as [`NotANumber`].
    pub fn from_str(s: &str) -> (r: Result<BigInt, NotANumber>)
        ensures
            r is Ok <==> is_decimal(s@),
            r matches Ok(v) ==> v@ == decimal_value(s@),
            r matches Err(e) ==> e.text@ == s@,
    {
        if !s.is_ascii() {
            proof {
                if is_decimal(s@) {
                    lemma_decimal_is_ascii(s@);
                }
            }
            return Err(NotANumber { text: s.to_owned() });
        }
        let bytes = s.as_bytes();
        let n = bytes.len();
        proof {
            vstd::string::is_ascii_spec_bytes(s);
            assert forall|i: int| 0 <= i < n implies bytes@[i] == #[trigger] s@[i] as u8 by {}
        }
        let minus = n > 0 && bytes[0] == 45;
        let start: usize = if minus {
            1
        } else {
            0
        };
        let ghost body = unsigned_part(s@);
        if start == n {
            return Err(NotANumber { text: s.to_owned() });
        }
        let mut j: usize = start;
        while j < n
            invariant
                start <= j <= n,
                n == bytes@.len(),
                n == s@.len(),
                body == s@.skip(start as int),
                body == unsigned_part(s@),
                vstd::utf8::is_ascii_chars(s@),
                forall|i: int| 0 <= i < n ==> bytes@[i] == #[trigger] s@[i] as u8,
                forall|i: int| 0 <= i < j - start ==> is_digit_char(#[trigger] body[i]),
            decreases n - j,
        {
            let b = bytes[j];
            if b < 48 || b > 57 {
                assert(!is_digit_char(body[j - start]));
                return Err(NotANumber { text: s.to_owned() });
            }
            j = j + 1;
        }
        let ghost all = text_digits(body);
        // Leading zeros are dropped, but for the last digit.
        let mut k: usize = start;
        while k + 1 < n && bytes[k] == 48
            invariant
                start <= k < n,
                n == bytes@.len(),
                n == s@.len(),
                body == s@.skip(start as int),
                all == text_digits(body),
                forall|i: int| 0 <= i < n ==> bytes@[i] == #[trigger] s@[i] as u8,
                forall|i: int| 0 <= i < body.len() ==> is_digit_char(#[trigger] body[i]),
                forall|i: int| 0 <= i < k - start ==> #[trigger] all[i] == 0,
            decreases n - k,
        {
            k = k + 1;
        }
        let mut digits: Vec<u8> = Vec::new();
        let mut m: usize = k;
        while m < n
            invariant
                start <= k <= m <= n,
                n == bytes@.len(),
                n == s@.len(),
                body == s@.skip(start as int),
                all == text_digits(body),
                forall|i: int| 0 <= i < n ==> bytes@[i] == #[trigger] s@[i] as u8,
                forall|i: int| 0 <= i < body.len() ==> is_digit_char(#[trigger] body[i]),
                digits@ == all.subrange(k - start, m - start),
            decreases n - m,
        {
            assert(is_digit_char(body[m - start]));
            let d: u8 = bytes[m] - 48;
            digits.push(d);
            m = m + 1;
        }
        proof {
            lemma_leading_zeros(all, k - start);
            assert forall|i: int| 0 <= i < digits@.len() implies #[trigger] digits@[i] < 10 by {}
            lemma_leading_digit_bounds(digits@);
        }
        let zero = digits.len() == 1 && digits[0] == 0;
        Ok(BigInt { negative: minus && !zero, digits })
    }

    /// The decimal numeral of the number.
    pub fn to_string(&self) -> (s: String)
        ensures
            s@ == decimal_text(self@),
    {
        proof {
            use_type_invariant(self);
            lemma_canonical_digits_unique(self.digits@);
        }
        let mut out = String::new();
        if self.negative {
            proof {
                reveal_strlit("-");
            }
            out.append("-");
        }
        let ghost sign = out@;
        assert(sign =~= if self.negative {
            seq!['-']
        } else {
            Seq::<char>::empty()
        });
        let n = self.digits.len();
        let mut i: usize = 0;
        while i < n
            invariant
                i <= n,
                n == self.digits@.len(),
                all_digits(self.digits@),
                out@ == sign + digits_text(self.digits@.take(i as int)),
            decreases n - i,
        {
            let d = self.digits[i];
            out.append(digit_str(d));
            i = i + 1;
        }
        out
    }
}

} // verus!
