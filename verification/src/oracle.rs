//! The price oracle reader: validates a feed account's owner and blob, then
//! extracts the signed price. No price is ever returned from a feed that
//! fails a check.

use vstd::prelude::*;
use crate::encoding::{bytes32_eq, read_i64_le, spec_i64_from_le_bytes, Pubkey};

verus! {

/// First accepted marker: the ASCII bytes `PYTH`.
pub const MAGIC_PYTH: [u8; 4] = [0x50, 0x59, 0x54, 0x48];

/// Second accepted marker.
pub const MAGIC_P2UV: [u8; 4] = [0x50, 0x32, 0x55, 0x56];

/// The two feed layouts this engine reads.
#[derive(Clone, Copy, PartialEq, Eq, Debug, Structural)]
pub enum FeedFormat {
    /// At least 64 bytes, price at offset 40.
    Validated,
    /// Poll-based layout: at least 32 bytes, price at offset 8.
    Legacy,
}

impl FeedFormat {
    /// The least length a blob of this layout may have.
    pub open spec fn spec_min_len(self) -> usize {
        match self {
            FeedFormat::Validated => 64,
            FeedFormat::Legacy => 32,
        }
    }

    /// Where the price starts in a blob of this layout.
    pub open spec fn spec_price_offset(self) -> usize {
        match self {
            FeedFormat::Validated => 40,
            FeedFormat::Legacy => 8,
        }
    }

    #[verifier::when_used_as_spec(spec_min_len)]
    pub fn min_len(self) -> (len: usize)
        ensures
            len == self.spec_min_len(),
    {
        match self {
            FeedFormat::Validated => 64,
            FeedFormat::Legacy => 32,
        }
    }

    #[verifier::when_used_as_spec(spec_price_offset)]
    pub fn price_offset(self) -> (offset: usize)
        ensures
            offset == self.spec_price_offset(),
    {
        match self {
            FeedFormat::Validated => 40,
            FeedFormat::Legacy => 8,
        }
    }
}

/// Whether a blob starts with one of the two accepted markers.
pub open spec fn has_magic(data: Seq<u8>) -> bool {
    data.len() >= 4 && (data.subrange(0, 4) == MAGIC_PYTH@ || data.subrange(0, 4) == MAGIC_P2UV@)
}

/// Whether a feed passes every check, in the order they are made: owner,
/// length, marker.
pub open spec fn feed_is_valid(
    format: FeedFormat,
    expected_owner: Seq<u8>,
    feed_owner: Seq<u8>,
    data: Seq<u8>,
) -> bool {
    &&& feed_owner == expected_owner
    &&& data.len() >= format.spec_min_len()
    &&& has_magic(data)
}

/// The price a valid feed carries.
pub open spec fn feed_price(format: FeedFormat, data: Seq<u8>) -> i64 {
    spec_i64_from_le_bytes(
        data.subrange(format.spec_price_offset() as int, format.spec_price_offset() + 8),
    )
}

/// Whether `data` starts with the four bytes of `magic`.
fn starts_with(data: &[u8], magic: &[u8; 4]) -> (matches: bool)
    requires
        data.len() >= 4,
    ensures
        matches == (data@.subrange(0, 4) == magic@),
{
    let mut i: usize = 0;
    while i < 4
        invariant
            i <= 4,
            data.len() >= 4,
            forall|j: int| 0 <= j < i ==> data@[j] == magic@[j],
        decreases 4 - i,
    {
        if data[i] != magic[i] {
            assert(data@.subrange(0, 4)[i as int] != magic@[i as int]);
            return false;
        }
        i = i + 1;
    }
    assert(data@.subrange(0, 4) =~= magic@);
    true
}

/// Reads the price of a feed, or `None` where the feed fails a check.
pub fn read_price(
    format: FeedFormat,
    expected_owner: &Pubkey,
    feed_owner: &Pubkey,
    data: &[u8],
) -> (price: Option<i64>)
    ensures
        feed_is_valid(format, expected_owner@, feed_owner@, data@) ==> price == Some(
            feed_price(format, data@),
        ),
        !feed_is_valid(format, expected_owner@, feed_owner@, data@) ==> price is None,
{
    if !bytes32_eq(feed_owner, expected_owner) {
        return None;
    }
    if data.len() < format.min_len() {
        return None;
    }
    if !starts_with(data, &MAGIC_PYTH) && !starts_with(data, &MAGIC_P2UV) {
        return None;
    }
    Some(read_i64_le(data, format.price_offset()))
}

} // verus!
