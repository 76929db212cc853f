//! A collection of newtypes defining type-strong IDs.
//!
//! A snowflake id is a 64-bit value whose high bits encode a creation
//! timestamp; the all-ones value is reserved, so every id is strictly below
//! `u64::MAX`.

use vstd::prelude::*;
use vstd::string::StrSliceExecFns;
use crate::timestamp::{Timestamp, DISCORD_EPOCH};

verus! {

/// Error returned when parsing an id from a string fails.
#[derive(Clone, Copy, Debug, Eq, PartialEq, Structural)]
pub struct ParseIdError;

/// Whether `c` is an ASCII decimal digit.
pub open spec fn is_ascii_digit(c: char) -> bool {
    48 <= (c as u32) && (c as u32) <= 57
}

/// The value of one ASCII decimal digit.
pub open spec fn ascii_digit_value(c: char) -> int {
    (c as u32) - 48
}

/// Whether every character of the string is an ASCII decimal digit.
pub open spec fn all_ascii_digits(s: Seq<char>) -> bool {
    forall|i: int| 0 <= i < s.len() ==> is_ascii_digit(#[trigger] s[i])
}

/// The number the digit string denotes.
pub open spec fn digits_value(s: Seq<char>) -> int
    decreases s.len(),
{
    if s.len() == 0 {
        0
    } else {
        digits_value(s.drop_last()) * 10 + ascii_digit_value(s.last())
    }
}

/// The digit part of an id string: like the integer parser of std, a single
/// leading plus sign is accepted.
pub open spec fn digits_part(s: Seq<char>) -> Seq<char> {
    if s.len() > 0 && s[0] == '+' {
        s.drop_first()
    } else {
        s
    }
}

/// Whether a string denotes an id: an optional plus sign, then at least one
/// digit, with a value below the reserved all-ones id.
pub open spec fn is_valid_id_string(s: Seq<char>) -> bool {
    let d = digits_part(s);
    d.len() > 0 && all_ascii_digits(d) && digits_value(d) < u64::MAX
}

proof fn lemma_digits_value_nonneg(s: Seq<char>)
    requires
        all_ascii_digits(s),
    ensures
        digits_value(s) >= 0,
    decreases s.len(),
{
    if s.len() > 0 {
        assert(all_ascii_digits(s.drop_last())) by {
            assert(forall|i: int|
                0 <= i < s.drop_last().len() ==> #[trigger] s.drop_last()[i] == s[i]);
        }
        lemma_digits_value_nonneg(s.drop_last());
    }
}

/// A digit string's value only grows as more digits are taken.
proof fn lemma_digits_value_monotone(s: Seq<char>, i: int, j: int)
    requires
        all_ascii_digits(s),
        0 <= i <= j <= s.len(),
    ensures
        digits_value(s.take(i)) <= digits_value(s.take(j)),
    decreases j - i,
{
    if i < j {
        lemma_digits_value_monotone(s, i, j - 1);
        assert(s.take(j).drop_last() =~= s.take(j - 1));
        assert(all_ascii_digits(s.take(j - 1))) by {
            assert(forall|k: int|
                0 <= k < s.take(j - 1).len() ==> #[trigger] s.take(j - 1)[k] == s[k]);
        }
        lemma_digits_value_nonneg(s.take(j - 1));
    }
}

/// Parses the decimal value of an id string: an optional leading plus sign,
/// then at least one digit, denoting a value below `u64::MAX` (the reserved
/// all-ones id). Returns exactly that value, and an error on exactly the
/// strings that do not have this shape.
pub fn parse_id(s: &str) -> (r: Result<u64, ParseIdError>)
    ensures
        r matches Ok(n) ==> is_valid_id_string(s@) && n == digits_value(digits_part(s@)),
        (r is Err) <==> !is_valid_id_string(s@),
{
    let len = s.unicode_len();
    let start: usize = if len > 0 && s.get_char(0) == '+' {
        1
    } else {
        0
    };
    if len == start {
        proof {
            assert(digits_part(s@).len() == 0);
        }
        return Err(ParseIdError);
    }
    let ghost d: Seq<char> = digits_part(s@);
    let mut value: u64 = 0;
    let mut i: usize = start;
    while i < len
        invariant
            start <= i <= len,
            len == s@.len(),
            start == 1 ==> len > 0 && s@[0] == '+',
            start == 0 ==> !(s@.len() > 0 && s@[0] == '+'),
            d == digits_part(s@),
            d.len() == len - start,
            forall|k: int| 0 <= k < d.len() ==> d[k] == s@[k + start],
            all_ascii_digits(d.take(i - start)),
            value == digits_value(d.take(i - start)),
            i == len ==> value < u64::MAX,
        decreases len - i,
    {
        let c = s.get_char(i);
        let code: u32 = c as u32;
        if code < 48 || code > 57 {
            proof {
                assert(!is_ascii_digit(d[i - start]));
            }
            return Err(ParseIdError);
        }
        let digit: u64 = (code - 48) as u64;
        proof {
            vstd::arithmetic::div_mod::lemma_fundamental_div_mod(
                u64::MAX - digit,
                10,
            );
        }
        if value > (u64::MAX - digit) / 10 {
            proof {
                assert(d.take(i - start + 1).drop_last() =~= d.take(i - start));
                assert(all_ascii_digits(d.take(i - start + 1)));
                assert(digits_value(d.take(i - start + 1)) > u64::MAX);
                if all_ascii_digits(d) {
                    lemma_digits_value_monotone(d, i - start + 1, d.len() as int);
                    assert(d.take(d.len() as int) =~= d);
                }
                assert(!is_valid_id_string(s@));
            }
            return Err(ParseIdError);
        }
        value = value * 10 + digit;
        proof {
            assert(d.take(i - start + 1).drop_last() =~= d.take(i - start));
            assert(all_ascii_digits(d.take(i - start + 1)));
            assert(value == digits_value(d.take(i - start + 1)));
        }
        i = i + 1;
        if i == len && value == u64::MAX {
            proof {
                assert(d.take(d.len() as int) =~= d);
            }
            return Err(ParseIdError);
        }
    }
    proof {
        assert(d.take(d.len() as int) =~= d);
    }
    Ok(value)
}

/// An identifier for an Application.
#[derive(Clone, Copy, Debug, Eq, Hash, Ord, PartialEq, PartialOrd, Structural)]
pub struct ApplicationId {
    id: u64,
}

impl ApplicationId {
    /// The id value.
    pub closed spec fn spec_get(self) -> u64 {
        self.id
    }

    /// Creates a new ApplicationId from a u64; the all-ones value is reserved.
    pub fn new(id: u64) -> (r: Self)
        requires
            id != u64::MAX,
        ensures
            r.spec_get() == id,
    {
        ApplicationId { id }
    }

    /// Retrieves the inner id as a u64.
    pub fn get(self) -> (r: u64)
        ensures
            r == self.spec_get(),
    {
        self.id
    }

    /// Retrieves the time that the id was created.
    pub fn created_at(&self) -> (r: Timestamp)
        ensures
            r.spec_millis() == (self.spec_get() >> 22) + DISCORD_EPOCH,
            r.wf(),
    {
        Timestamp::from_discord_id(self.id)
    }
}

/// An identifier for a Guild.
#[derive(Clone, Copy, Debug, Eq, Hash, Ord, PartialEq, PartialOrd, Structural)]
pub struct GuildId {
    id: u64,
}

impl GuildId {
    /// The id value.
    pub closed spec fn spec_get(self) -> u64 {
        self.id
    }

    /// Creates a new GuildId from a u64; the all-ones value is reserved.
    pub fn new(id: u64) -> (r: Self)
        requires
            id != u64::MAX,
        ensures
            r.spec_get() == id,
    {
        GuildId { id }
    }

    /// Retrieves the inner id as a u64.
    pub fn get(self) -> (r: u64)
        ensures
            r == self.spec_get(),
    {
        self.id
    }

    /// Retrieves the time that the id was created.
    pub fn created_at(&self) -> (r: Timestamp)
        ensures
            r.spec_millis() == (self.spec_get() >> 22) + DISCORD_EPOCH,
            r.wf(),
    {
        Timestamp::from_discord_id(self.id)
    }
}

/// An identifier for a User.
#[derive(Clone, Copy, Debug, Eq, Hash, Ord, PartialEq, PartialOrd, Structural)]
pub struct UserId {
    id: u64,
}

impl UserId {
    /// The id value.
    pub closed spec fn spec_get(self) -> u64 {
        self.id
    }

    /// Creates a new UserId from a u64; the all-ones value is reserved.
    pub fn new(id: u64) -> (r: Self)
        requires
            id != u64::MAX,
        ensures
            r.spec_get() == id,
    {
        UserId { id }
    }

    /// Retrieves the inner id as a u64.
    pub fn get(self) -> (r: u64)
        ensures
            r == self.spec_get(),
    {
        self.id
    }

    /// Retrieves the time that the id was created.
    pub fn created_at(&self) -> (r: Timestamp)
        ensures
            r.spec_millis() == (self.spec_get() >> 22) + DISCORD_EPOCH,
            r.wf(),
    {
        Timestamp::from_discord_id(self.id)
    }
}

/// An identifier for a SKU.
#[derive(Clone, Copy, Debug, Eq, Hash, Ord, PartialEq, PartialOrd, Structural)]
pub struct SkuId {
    id: u64,
}

impl SkuId {
    /// The id value.
    pub closed spec fn spec_get(self) -> u64 {
        self.id
    }

    /// Creates a new SkuId from a u64; the all-ones value is reserved.
    pub fn new(id: u64) -> (r: Self)
        requires
            id != u64::MAX,
        ensures
            r.spec_get() == id,
    {
        SkuId { id }
    }

    /// Retrieves the inner id as a u64.
    pub fn get(self) -> (r: u64)
        ensures
            r == self.spec_get(),
    {
        self.id
    }

    /// Retrieves the time that the id was created.
    pub fn created_at(&self) -> (r: Timestamp)
        ensures
            r.spec_millis() == (self.spec_get() >> 22) + DISCORD_EPOCH,
            r.wf(),
    {
        Timestamp::from_discord_id(self.id)
    }
}

/// An identifier for an entitlement.
#[derive(Clone, Copy, Debug, Eq, Hash, Ord, PartialEq, PartialOrd, Structural)]
pub struct EntitlementId {
    id: u64,
}

impl EntitlementId {
    /// The id value.
    pub closed spec fn spec_get(self) -> u64 {
        self.id
    }

    /// Creates a new EntitlementId from a u64; the all-ones value is reserved.
    pub fn new(id: u64) -> (r: Self)
        requires
            id != u64::MAX,
        ensures
            r.spec_get() == id,
    {
        EntitlementId { id }
    }

    /// Retrieves the inner id as a u64.
    pub fn get(self) -> (r: u64)
        ensures
            r == self.spec_get(),
    {
        self.id
    }

    /// Retrieves the time that the id was created.
    pub fn created_at(&self) -> (r: Timestamp)
        ensures
            r.spec_millis() == (self.spec_get() >> 22) + DISCORD_EPOCH,
            r.wf(),
    {
        Timestamp::from_discord_id(self.id)
    }
}

/// An identifier for a Shard.
///
/// This identifier is special: it models internal ids for type safety and is
/// not a snowflake.
#[derive(Clone, Copy, Debug, Eq, Hash, Ord, PartialEq, PartialOrd, Structural)]
pub struct ShardId(pub u16);

impl ShardId {
    /// Retrieves the value as a u16.
    pub fn get(self) -> (r: u16)
        ensures
            r == self.0,
    {
        self.0
    }
}

/// An identifier for a poll answer; a small sequential index, not a
/// snowflake. The all-ones value is reserved.
#[derive(Clone, Copy, Debug, Eq, Hash, Ord, PartialEq, PartialOrd, Structural)]
pub struct AnswerId {
    id: u8,
}

impl AnswerId {
    /// The id value.
    pub closed spec fn spec_get(self) -> u8 {
        self.id
    }

    /// Creates a new AnswerId from a u8; the all-ones value is reserved.
    pub fn new(id: u8) -> (r: Self)
        requires
            id != u8::MAX,
        ensures
            r.spec_get() == id,
    {
        AnswerId { id }
    }

    /// Retrieves the value as a u64.
    pub fn get(self) -> (r: u64)
        ensures
            r == self.spec_get(),
    {
        self.id as u64
    }
}


impl core::str::FromStr for ApplicationId {
    type Err = ParseIdError;

    fn from_str(s: &str) -> Result<Self, ParseIdError> {
        match parse_id(s) {
            Ok(n) => Ok(ApplicationId::new(n)),
            Err(e) => Err(e),
        }
    }
}

impl core::str::FromStr for GuildId {
    type Err = ParseIdError;

    fn from_str(s: &str) -> Result<Self, ParseIdError> {
        match parse_id(s) {
            Ok(n) => Ok(GuildId::new(n)),
            Err(e) => Err(e),
        }
    }
}

impl core::str::FromStr for UserId {
    type Err = ParseIdError;

    fn from_str(s: &str) -> Result<Self, ParseIdError> {
        match parse_id(s) {
            Ok(n) => Ok(UserId::new(n)),
            Err(e) => Err(e),
        }
    }
}

impl core::str::FromStr for SkuId {
    type Err = ParseIdError;

    fn from_str(s: &str) -> Result<Self, ParseIdError> {
        match parse_id(s) {
            Ok(n) => Ok(SkuId::new(n)),
            Err(e) => Err(e),
        }
    }
}

impl core::str::FromStr for EntitlementId {
    type Err = ParseIdError;

    fn from_str(s: &str) -> Result<Self, ParseIdError> {
        match parse_id(s) {
            Ok(n) => Ok(EntitlementId::new(n)),
            Err(e) => Err(e),
        }
    }
}

} // verus!
