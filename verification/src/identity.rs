//! Identities that are 128-bit unique identifiers, and their text.

use crate::assoc::Key;
use vstd::arithmetic::power::{lemma_pow0, lemma_pow1, lemma_pow_adds, lemma_pow_positive, pow};
use vstd::prelude::*;

verus! {

/// Lower-case hexadecimal digit.
pub open spec fn hex_char(d: int) -> char {
    if d < 10 {
        (48 + d) as char
    } else {
        (87 + d) as char
    }
}

/// The `k`-th of the 32 hexadecimal digits of a 128-bit number, from the left.
pub open spec fn hex_digit_at(value: u128, k: int) -> int {
    (value as int / pow(16, (31 - k) as nat)) % 16
}

/// The text of an identifier: 32 lower-case hexadecimal digits in groups of
/// 8, 4, 4, 4 and 12 with hyphens between them.
pub open spec fn uuid_text(value: u128) -> Seq<char> {
    Seq::new(
        36,
        |i: int|
            if i == 8 || i == 13 || i == 18 || i == 23 {
                '-'
            } else if i < 8 {
                hex_char(hex_digit_at(value, i))
            } else if i < 13 {
                hex_char(hex_digit_at(value, i - 1))
            } else if i < 18 {
                hex_char(hex_digit_at(value, i - 2))
            } else if i < 23 {
                hex_char(hex_digit_at(value, i - 3))
            } else {
                hex_char(hex_digit_at(value, i - 4))
            },
    )
}

/// Writes a 128-bit number as `uuid::Uuid` displays it. The contract claims
/// the hyphenated lower-case form: digits from the most significant one down,
/// in groups of 8, 4, 4, 4 and 12.
#[verifier::external_body]
fn display_uuid(value: u128) -> (r: String)
    ensures
        r@ == uuid_text(value),
{
    uuid::Uuid::from_u128(value).to_string()
}

/// A random identifier from `uuid::Uuid::new_v4`. The contract claims only
/// what every outcome has: version 4 and the variant bits of RFC 9562.
#[verifier::external_body]
fn random_uuid() -> (r: u128)
    ensures
        r / 0x10000000000000000000u128 % 16 == 4,
        r / 0x4000000000000000u128 % 4 == 2,
{
    uuid::Uuid::new_v4().as_u128()
}

/// Whether a number is a version 4 identifier.
pub open spec fn is_random_uuid(value: u128) -> bool {
    &&& value / 0x10000000000000000000u128 % 16 == 4
    &&& value / 0x4000000000000000u128 % 4 == 2
}

/// Identity of a transaction.
#[derive(Clone, Copy, Debug, PartialEq, Eq, Structural)]
pub struct TransactionId {
    /// The identifier.
    pub value: u128,
}

impl View for TransactionId {
    type V = TransactionId;

    open spec fn view(&self) -> TransactionId {
        *self
    }
}

impl Key for TransactionId {
    fn same(&self, other: &Self) -> (r: bool) {
        *self == *other
    }
}

impl TransactionId {
    /// The identity as text.
    pub open spec fn text(self) -> Seq<char> {
        uuid_text(self.value)
    }

    /// A fresh random identity.
    pub fn generate() -> (r: Self)
        ensures
            is_random_uuid(r.value),
    {
        TransactionId { value: random_uuid() }
    }

    /// The identity as text.
    pub fn to_text(&self) -> (r: String)
        ensures
            r@ == self.text(),
    {
        display_uuid(self.value)
    }
}

/// Identity of one exchange with a model.
#[derive(Clone, Copy, Debug, PartialEq, Eq, Structural)]
pub struct ExchangeId {
    /// The identifier.
    pub value: u128,
}

impl ExchangeId {
    /// The identity as text.
    pub open spec fn text(self) -> Seq<char> {
        uuid_text(self.value)
    }

    /// A fresh random identity.
    pub fn generate() -> (r: Self)
        ensures
            is_random_uuid(r.value),
    {
        ExchangeId { value: random_uuid() }
    }

    /// The identity as text.
    pub fn to_text(&self) -> (r: String)
        ensures
            r@ == self.text(),
    {
        display_uuid(self.value)
    }
}

/// Identity of one tool execution.
#[derive(Clone, Copy, Debug, PartialEq, Eq, Structural)]
pub struct ToolExecutionId {
    /// The identifier.
    pub value: u128,
}

impl ToolExecutionId {
    /// A fresh random identity.
    pub fn generate() -> (r: Self)
        ensures
            is_random_uuid(r.value),
    {
        ToolExecutionId { value: random_uuid() }
    }
}

/// A fresh random identifier as text.
pub fn fresh_id_text() -> (r: String)
    ensures
        exists|v: u128| is_random_uuid(v) && r@ == #[trigger] uuid_text(v),
{
    let v: u128 = random_uuid();
    display_uuid(v)
}

proof fn lemma_square(e: nat, p: int)
    requires
        pow(16, e) == p,
    ensures
        pow(16, e + e) == p * p,
{
    lemma_pow_adds(16, e, e);
}

proof fn lemma_leading_digits(a: u128, b: u128, j: nat)
    requires
        j <= 32,
        forall|k: int| 0 <= k < 32 ==> hex_digit_at(a, k) == hex_digit_at(b, k),
    ensures
        a as int / pow(16, j) == b as int / pow(16, j),
    decreases 32 - j,
{
    lemma_pow_positive(16, j);
    if j == 32 {
        assert(pow(16, 32) == 0x100000000000000000000000000000000int) by {
            lemma_pow1(16);
            lemma_square(1, 16);
            lemma_square(2, 0x100);
            lemma_square(4, 0x10000);
            lemma_square(8, 0x100000000);
            lemma_square(16, 0x10000000000000000int);
        }
        assert(a as int / 0x100000000000000000000000000000000int == 0);
        assert(b as int / 0x100000000000000000000000000000000int == 0);
    } else {
        lemma_leading_digits(a, b, j + 1);
        lemma_pow_adds(16, j, 1);
        lemma_pow1(16);
        let p = pow(16, j);
        let x = a as int;
        let y = b as int;
        assert(pow(16, j + 1) == p * 16);
        vstd::arithmetic::div_mod::lemma_div_denominator(x, p, 16);
        vstd::arithmetic::div_mod::lemma_div_denominator(y, p, 16);
        assert(hex_digit_at(a, 31 - j) == hex_digit_at(b, 31 - j));
        vstd::arithmetic::div_mod::lemma_fundamental_div_mod(x / p, 16);
        vstd::arithmetic::div_mod::lemma_fundamental_div_mod(y / p, 16);
    }
}

/// Different identifiers have different texts.
pub proof fn uuid_text_is_injective(a: u128, b: u128)
    requires
        uuid_text(a) == uuid_text(b),
    ensures
        a == b,
{
    let s = uuid_text(a);
    let t = uuid_text(b);
    assert forall|k: int| 0 <= k < 32 implies hex_digit_at(a, k) == hex_digit_at(b, k) by {
        let i = if k < 8 {
            k
        } else if k < 12 {
            k + 1
        } else if k < 16 {
            k + 2
        } else if k < 20 {
            k + 3
        } else {
            k + 4
        };
        assert(s[i] == t[i]);
        assert(s[i] == hex_char(hex_digit_at(a, k)));
        assert(t[i] == hex_char(hex_digit_at(b, k)));
    }
    lemma_leading_digits(a, b, 0);
    lemma_pow0(16);
}

} // verus!
