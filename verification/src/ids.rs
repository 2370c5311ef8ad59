//! Positions in streams.
use crate::text::{
    decimal, decimal_digits_value, decimal_value, digit_char, digit_value, hexadecimal,
    hexadecimal_text, hexadecimal_value, parse_hexadecimal,
};
use vstd::arithmetic::power::pow;
use vstd::prelude::*;
use vstd::string::*;

verus! {

/// Width of the text form of a stream item id.
pub const STREAM_ITEM_ID_DIGITS: usize = 24;

/// The id of a row of a stream: twelve bytes, ordered as one big-endian number.
#[derive(Clone, Copy, Debug, PartialEq, Eq, Hash, Structural)]
pub struct StreamItemId {
    pub high: u32,
    pub low: u64,
}

impl StreamItemId {
    /// The id as a number.
    pub open spec fn number(self) -> nat {
        (self.high * 0x1_0000_0000_0000_0000 + self.low) as nat
    }

    /// The text under which the id is stored.
    pub open spec fn text(self) -> Seq<char> {
        hexadecimal(self.number(), STREAM_ITEM_ID_DIGITS as nat)
    }

    /// The id that a stored text denotes.
    pub open spec fn from_text(s: Seq<char>) -> Option<StreamItemId> {
        if s.len() == STREAM_ITEM_ID_DIGITS {
            match hexadecimal_value(s) {
                Some(n) => Some(StreamItemId::of_number(n)),
                None => None,
            }
        } else {
            None
        }
    }

    /// The id with a given number (its low 96 bits).
    pub open spec fn of_number(n: nat) -> StreamItemId {
        StreamItemId {
            high: ((n / 0x1_0000_0000_0000_0000) % 0x1_0000_0000) as u32,
            low: (n % 0x1_0000_0000_0000_0000) as u64,
        }
    }

    /// The smallest id.
    pub fn nil() -> (r: StreamItemId)
        ensures
            r == (StreamItemId { high: 0, low: 0 }),
            forall|id: StreamItemId| r.number() <= #[trigger] id.number(),
    {
        StreamItemId { high: 0, low: 0 }
    }

    /// The largest id.
    pub fn max() -> (r: StreamItemId)
        ensures
            r == (StreamItemId { high: 0xffff_ffff, low: 0xffff_ffff_ffff_ffff }),
            forall|id: StreamItemId| #[trigger] id.number() <= r.number(),
    {
        StreamItemId { high: u32::MAX, low: u64::MAX }
    }

    /// Whether an id has, where a UUID has them, the version and the variant of those that
    /// are drawn from the time.
    pub open spec fn is_version_7(self) -> bool {
        (self.number() / 0x1000_0000_0000) % 16 == 7 && (self.number() / 0x4000_0000) % 4 == 2
    }

    /// The id of the leading twelve bytes of a UUID.
    pub fn from_uuid(uuid: u128) -> (r: StreamItemId)
        ensures
            r.number() == uuid as nat / 0x1_0000_0000,
    {
        let n: u128 = uuid / 0x1_0000_0000;
        StreamItemId {
            high: (n / 0x1_0000_0000_0000_0000) as u32,
            low: (n % 0x1_0000_0000_0000_0000) as u64,
        }
    }

    /// The id under which an item's stream keeps a version.
    pub fn from_version(version: u64) -> (r: StreamItemId)
        ensures
            r == (StreamItemId { high: 0, low: version }),
            r.number() == version,
    {
        StreamItemId { high: 0, low: version }
    }

    /// The version that an id of an item's stream stands for.
    pub fn version(self) -> (r: u64)
        ensures
            r == self.low,
    {
        self.low
    }

    /// The next id; the largest has none and stays.
    pub open spec fn next(self) -> StreamItemId {
        if self.low < u64::MAX {
            StreamItemId { high: self.high, low: (self.low + 1) as u64 }
        } else if self.high < u32::MAX {
            StreamItemId { high: (self.high + 1) as u32, low: 0 }
        } else {
            self
        }
    }

    /// The next id; the largest has none and stays.
    pub fn increment(self) -> (r: StreamItemId)
        ensures
            r == self.next(),
            r.number() == self.number() + 1 || (r == self && forall|id: StreamItemId|
                #[trigger] id.number() <= self.number()),
    {
        if self.low < u64::MAX {
            StreamItemId { high: self.high, low: self.low + 1 }
        } else if self.high < u32::MAX {
            StreamItemId { high: self.high + 1, low: 0 }
        } else {
            self
        }
    }

    /// Writes an id as it is stored.
    pub fn to_text(self) -> (r: String)
        ensures
            r@ == self.text(),
    {
        let n: u128 = (self.high as u128) * 0x1_0000_0000_0000_0000 + self.low as u128;
        hexadecimal_text(n, STREAM_ITEM_ID_DIGITS)
    }

    /// Reads a stored id.
    pub fn parse(s: &str) -> (r: Option<StreamItemId>)
        ensures
            r == StreamItemId::from_text(s@),
    {
        let len: usize = s.unicode_len();
        if len != STREAM_ITEM_ID_DIGITS {
            return None;
        }
        match parse_hexadecimal(s) {
            Some(n) => {
                proof {
                    lemma_pow_16_24();
                }
                Some(
                    StreamItemId {
                        high: (n / 0x1_0000_0000_0000_0000) as u32,
                        low: (n % 0x1_0000_0000_0000_0000) as u64,
                    },
                )
            },
            None => None,
        }
    }
}

proof fn lemma_pow_16_24()
    ensures
        pow(16, 24) == 0x1_0000_0000_0000_0000_0000_0000,
{
    vstd::arithmetic::power::lemma_pow_adds(16, 12, 12);
    assert(pow(16, 12) == 0x1_0000_0000_0000) by {
        reveal_with_fuel(vstd::arithmetic::power::pow, 14);
    }
}

proof fn lemma_digit_round_trip(d: int)
    requires
        0 <= d < 16,
    ensures
        digit_value(digit_char(d)) == Some(d),
{
}

proof fn lemma_hexadecimal_len(n: nat, width: nat)
    ensures
        hexadecimal(n, width).len() == width,
    decreases width,
{
    if width > 0 {
        lemma_hexadecimal_len(n / 16, (width - 1) as nat);
    }
}

proof fn lemma_hexadecimal_round_trip(n: nat, width: nat)
    requires
        n < pow(16, width),
    ensures
        hexadecimal_value(hexadecimal(n, width)) == Some(n),
    decreases width,
{
    if width == 0 {
        vstd::arithmetic::power::lemma_pow0(16);
    } else {
        let high = hexadecimal(n / 16, (width - 1) as nat);
        vstd::arithmetic::power::lemma_pow1(16);
        vstd::arithmetic::power::lemma_pow_adds(16, (width - 1) as nat, 1);
        lemma_hexadecimal_round_trip(n / 16, (width - 1) as nat);
        lemma_digit_round_trip((n % 16) as int);
        assert(hexadecimal(n, width).drop_last() =~= high);
    }
}

/// Whether one text comes before another, character by character; a text comes
/// after its own proper prefixes.
pub open spec fn text_before(a: Seq<char>, b: Seq<char>) -> bool
    decreases a.len(),
{
    if b.len() == 0 {
        false
    } else if a.len() == 0 {
        true
    } else if a[0] == b[0] {
        text_before(a.drop_first(), b.drop_first())
    } else {
        a[0] < b[0]
    }
}

/// A stored id reads back as itself.
pub proof fn law_stream_item_id_round_trip(id: StreamItemId)
    ensures
        StreamItemId::from_text(id.text()) == Some(id),
{
    lemma_pow_16_24();
    lemma_hexadecimal_len(id.number(), 24);
    lemma_hexadecimal_round_trip(id.number(), 24);
}

/// Texts of one width that differ first at one place are ordered by that place.
proof fn lemma_text_before_at(a: Seq<char>, b: Seq<char>, k: int)
    requires
        a.len() == b.len(),
        0 <= k < a.len(),
        forall|j: int| 0 <= j < k ==> a[j] == b[j],
        a[k] < b[k],
    ensures
        text_before(a, b),
        !text_before(b, a),
    decreases k,
{
    if k > 0 {
        let a1 = a.drop_first();
        let b1 = b.drop_first();
        assert forall|j: int| 0 <= j < k - 1 implies a1[j] == b1[j] by {
            assert(a[j + 1] == b[j + 1]);
        }
        lemma_text_before_at(a1, b1, k - 1);
    }
}

/// The first place in which the texts of two numbers differ, the smaller first.
proof fn lemma_hexadecimal_first_difference(m: nat, n: nat, width: nat) -> (k: int)
    requires
        m < n,
        n < pow(16, width),
    ensures
        0 <= k < width,
        forall|j: int| 0 <= j < k ==> hexadecimal(m, width)[j] == hexadecimal(n, width)[j],
        hexadecimal(m, width)[k] < hexadecimal(n, width)[k],
    decreases width,
{
    if width == 0 {
        vstd::arithmetic::power::lemma_pow0(16);
        0
    } else {
        let w = (width - 1) as nat;
        vstd::arithmetic::power::lemma_pow1(16);
        vstd::arithmetic::power::lemma_pow_adds(16, w, 1);
        lemma_hexadecimal_len(m / 16, w);
        lemma_hexadecimal_len(n / 16, w);
        if m / 16 == n / 16 {
            w as int
        } else {
            lemma_hexadecimal_first_difference(m / 16, n / 16, w)
        }
    }
}

/// Stored ids are ordered as text exactly as they are ordered as numbers.
pub proof fn law_stream_item_id_text_order(a: StreamItemId, b: StreamItemId)
    ensures
        text_before(a.text(), b.text()) <==> a.number() < b.number(),
{
    lemma_pow_16_24();
    lemma_hexadecimal_len(a.number(), 24);
    lemma_hexadecimal_len(b.number(), 24);
    if a.number() < b.number() {
        let k = lemma_hexadecimal_first_difference(a.number(), b.number(), 24);
        lemma_text_before_at(a.text(), b.text(), k);
    } else if b.number() < a.number() {
        let k = lemma_hexadecimal_first_difference(b.number(), a.number(), 24);
        lemma_text_before_at(b.text(), a.text(), k);
    } else {
        lemma_text_not_before_itself(a.text());
    }
}

proof fn lemma_text_not_before_itself(s: Seq<char>)
    ensures
        !text_before(s, s),
    decreases s.len(),
{
    if s.len() > 0 {
        lemma_text_not_before_itself(s.drop_first());
    }
}

/// The number of digits is right and each is a decimal one.
proof fn lemma_decimal_digits(n: nat)
    ensures
        decimal(n).len() > 0,
        forall|i: int| 0 <= i < decimal(n).len() ==> '0' <= #[trigger] decimal(n)[i] && decimal(n)[i] <= '9',
    decreases n,
{
    if n >= 10 {
        lemma_decimal_digits(n / 10);
    }
}

/// Reading the digits of `n`, then one more, reads ten times `n` plus that digit.
proof fn lemma_decimal_read(n: nat, rest: Seq<char>)
    requires
        n <= u64::MAX,
    ensures
        decimal_digits_value(decimal(n) + rest, 0, 0) == decimal_digits_value(
            decimal(n) + rest,
            decimal(n).len() as int,
            n,
        ),
    decreases n,
{
    lemma_decimal_digits(n);
    if n < 10 {
        let s = decimal(n) + rest;
        assert(s[0] == digit_char(n as int));
        assert(decimal_digits_value(s, 0, 0) == decimal_digits_value(s, 1, n));
    } else {
        let d = digit_char((n % 10) as int);
        let more = seq![d] + rest;
        lemma_decimal_read(n / 10, more);
        let s = decimal(n) + rest;
        assert(decimal(n / 10) + more =~= s);
        let k = decimal(n / 10).len() as int;
        assert(s[k] == d);
        assert(decimal_digits_value(s, k, n / 10) == decimal_digits_value(s, k + 1, n));
    }
}

/// A version written in decimal reads back as itself.
pub proof fn law_version_text_round_trip(version: u64)
    ensures
        decimal_value(decimal(version as nat)) == Ok::<u64, crate::text::DecimalError>(version),
{
    let n = version as nat;
    let s = decimal(n);
    lemma_decimal_digits(n);
    lemma_decimal_read(n, Seq::empty());
    assert(s + Seq::<char>::empty() =~= s);
    assert('0' <= s[0] && s[0] <= '9');
}

} // verus!
