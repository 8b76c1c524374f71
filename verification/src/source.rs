//! The sources of time and of fresh ids.

use crate::signature;
use vstd::prelude::*;

verus! {

/// The latest instant that `chrono` can represent, in milliseconds since the
/// Unix epoch.
pub const MAX_MILLIS: i64 = 8210266876799999;

/// An instant that the clock can give.
pub open spec fn is_instant(now_ms: i64) -> bool {
    0 <= now_ms <= MAX_MILLIS
}

/// `chrono::Utc::now` reads the clock of the machine, and `timestamp_millis`
/// gives the milliseconds since the Unix epoch. The instant is not before the
/// epoch and not after the latest date that `chrono` represents; which instant
/// it is depends on the clock. A clock set before the epoch makes the call panic.
#[verifier::external_body]
pub(crate) fn now_millis() -> (r: i64)
    ensures
        is_instant(r),
{
    chrono::Utc::now().timestamp_millis()
}

/// A random UUID, as a number: version 4 of the standard variant.
pub open spec fn is_random_uuid(id: u128) -> bool {
    (id >> 76) & 0xf == 4 && (id >> 62) & 0x3 == 2
}

/// `uuid::Uuid::new_v4` draws a random UUID. Its version and variant bits are
/// set; the rest depends on chance.
#[verifier::external_body]
pub(crate) fn new_uuid() -> (r: u128)
    ensures
        is_random_uuid(r),
{
    uuid::Uuid::new_v4().as_u128()
}

/// The last `n` hexadecimal digits of a number.
pub open spec fn hex_digits(id: nat, n: nat) -> Seq<char>
    decreases n,
{
    if n == 0 {
        Seq::empty()
    } else {
        hex_digits(id / 16, (n - 1) as nat).push(signature::hex_char(id % 16))
    }
}

/// The text of a UUID: its digits in groups of 8, 4, 4, 4 and 12, with hyphens
/// between them.
pub open spec fn uuid_spec(id: u128) -> Seq<char> {
    let digits = hex_digits(id as nat, 32);
    digits.subrange(0, 8) + seq!['-'] + digits.subrange(8, 12) + seq!['-'] + digits.subrange(
        12,
        16,
    ) + seq!['-'] + digits.subrange(16, 20) + seq!['-'] + digits.subrange(20, 32)
}

/// `Uuid` as text: 32 lower case hexadecimal digits, the most significant first,
/// with a hyphen after the eighth, twelfth, sixteenth and twentieth.
#[verifier::external_body]
pub(crate) fn uuid_text(id: u128) -> (r: String)
    ensures
        r@ == uuid_spec(id),
{
    uuid::Uuid::from_u128(id).to_string()
}

/// What a step needs from outside: the present, an id for a conversation that has
/// none, and an id for a resume token.
#[derive(Clone, Copy, Debug)]
pub struct Draw {
    pub now_ms: i64,
    pub conversation: u128,
    pub token: u128,
}

impl Draw {
    /// A draw that the clock and the generator can give.
    pub open spec fn is_fresh(self) -> bool {
        is_instant(self.now_ms) && is_random_uuid(self.conversation) && is_random_uuid(self.token)
    }

    /// The text of the resume token.
    pub open spec fn token_text(self) -> Seq<char> {
        uuid_spec(self.token)
    }

    /// Reads the clock and draws two ids.
    pub fn take() -> (r: Draw)
        ensures
            r.is_fresh(),
    {
        Draw { now_ms: now_millis(), conversation: new_uuid(), token: new_uuid() }
    }
}

proof fn lemma_hex_char_injective(a: nat, b: nat)
    requires
        a < 16,
        b < 16,
        signature::hex_char(a) == signature::hex_char(b),
    ensures
        a == b,
{
}

proof fn lemma_hex_digits(a: nat, b: nat, n: nat)
    requires
        hex_digits(a, n) == hex_digits(b, n),
        a < vstd::arithmetic::power::pow(16, n),
        b < vstd::arithmetic::power::pow(16, n),
    ensures
        a == b,
    decreases n,
{
    vstd::arithmetic::power::lemma_pow0(16);
    if n > 0 {
        let m = (n - 1) as nat;
        let x = hex_digits(a / 16, m);
        let y = hex_digits(b / 16, m);
        assert(x =~= hex_digits(a, n).drop_last());
        assert(y =~= hex_digits(b, n).drop_last());
        assert(hex_digits(a, n).last() == signature::hex_char(a % 16));
        assert(hex_digits(b, n).last() == signature::hex_char(b % 16));
        lemma_hex_char_injective(a % 16, b % 16);
        assert(vstd::arithmetic::power::pow(16, n) == 16 * vstd::arithmetic::power::pow(16, m)) by {
            reveal(vstd::arithmetic::power::pow);
        }
        lemma_hex_digits(a / 16, b / 16, m);
    }
}

proof fn lemma_hex_digits_len(id: nat, n: nat)
    ensures
        hex_digits(id, n).len() == n,
    decreases n,
{
    if n > 0 {
        lemma_hex_digits_len(id / 16, (n - 1) as nat);
    }
}

/// The texts of two UUIDs are the same only where the UUIDs are.
pub proof fn law_uuid_text_injective(a: u128, b: u128)
    requires
        uuid_spec(a) == uuid_spec(b),
    ensures
        a == b,
{
    let x = hex_digits(a as nat, 32);
    let y = hex_digits(b as nat, 32);
    lemma_hex_digits_len(a as nat, 32);
    lemma_hex_digits_len(b as nat, 32);
    let s = uuid_spec(a);
    let t = uuid_spec(b);
    assert forall|i: int| 0 <= i < 32 implies x[i] == y[i] by {
        let k: int = if i < 8 {
            i
        } else if i < 12 {
            i + 1
        } else if i < 16 {
            i + 2
        } else if i < 20 {
            i + 3
        } else {
            i + 4
        };
        assert(s[k] == x[i]);
        assert(t[k] == y[i]);
    }
    assert(x =~= y);
    assert(vstd::arithmetic::power::pow(16, 32) == 0x1_0000_0000_0000_0000_0000_0000_0000_0000) by {
        reveal(vstd::arithmetic::power::pow);
        reveal_with_fuel(vstd::arithmetic::power::pow, 33);
    }
    lemma_hex_digits(a as nat, b as nat, 32);
}

} // verus!
