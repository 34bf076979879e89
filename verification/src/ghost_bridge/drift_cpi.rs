//! The settlement call builder: the exact bytes of a place-order call to
//! the perpetual-futures venue.
//!
//! Layout of the 40 bytes:
//!
//! ```text
//! [0..8)   method selector
//! [8]      order type
//! [9]      market category, always perpetual
//! [10]     direction (long 0, short 1)
//! [11]     caller-assigned order id, 0 = assigned by the venue
//! [12..20) base size, little-endian
//! [20..28) limit price, little-endian, 0 for market orders
//! [28..30) market index, little-endian
//! [30]     reduce-only flag
//! [31]     post-only mode, 0 = none
//! [32]     bit flags
//! [33]     max timestamp present, 0 = absent
//! [34]     trigger price present, 0 = absent
//! [35]     trigger direction, ignored while the trigger price is absent
//! [36]     oracle price offset present, 0 = absent
//! [37]     auction duration present, 0 = absent
//! [38]     auction start price present, 0 = absent
//! [39]     auction end price present, 0 = absent
//! ```

use vstd::prelude::*;
use vstd::bytes::{
    lemma_auto_spec_u16_to_from_le_bytes, lemma_auto_spec_u64_to_from_le_bytes,
    spec_u16_from_le_bytes, spec_u16_to_le_bytes, spec_u64_from_le_bytes, spec_u64_to_le_bytes,
};
use crate::encoding::{bool_byte, push_bytes, push_u16_le, push_u64_le};
use crate::ghost_bridge::state::compressed_order::OrderSide;

verus! {

/// Selector of the venue's place-order method: the first eight bytes of
/// SHA-256 of `global:place_perp_order`.
pub const PLACE_PERP_ORDER_DISCRIMINATOR: [u8; 8] = [0x45, 0xa1, 0x5d, 0xca, 0x78, 0x7e, 0x4c, 0xb9];

#[derive(Clone, Copy, PartialEq, Eq, Debug, Structural)]
pub enum DriftOrderType {
    Market,
    Limit,
    TriggerMarket,
    TriggerLimit,
    Oracle,
}

impl DriftOrderType {
    pub open spec fn spec_to_u8(self) -> u8 {
        match self {
            DriftOrderType::Market => 0u8,
            DriftOrderType::Limit => 1u8,
            DriftOrderType::TriggerMarket => 2u8,
            DriftOrderType::TriggerLimit => 3u8,
            DriftOrderType::Oracle => 4u8,
        }
    }

    #[verifier::when_used_as_spec(spec_to_u8)]
    pub fn to_u8(self) -> (byte: u8)
        ensures
            byte == self.spec_to_u8(),
    {
        match self {
            DriftOrderType::Market => 0,
            DriftOrderType::Limit => 1,
            DriftOrderType::TriggerMarket => 2,
            DriftOrderType::TriggerLimit => 3,
            DriftOrderType::Oracle => 4,
        }
    }
}

#[derive(Clone, Copy, PartialEq, Eq, Debug, Structural)]
pub enum DriftMarketType {
    Spot,
    Perp,
}

impl DriftMarketType {
    pub open spec fn spec_to_u8(self) -> u8 {
        match self {
            DriftMarketType::Spot => 0u8,
            DriftMarketType::Perp => 1u8,
        }
    }

    #[verifier::when_used_as_spec(spec_to_u8)]
    pub fn to_u8(self) -> (byte: u8)
        ensures
            byte == self.spec_to_u8(),
    {
        match self {
            DriftMarketType::Spot => 0,
            DriftMarketType::Perp => 1,
        }
    }
}

#[derive(Clone, Copy, PartialEq, Eq, Debug, Structural)]
pub enum DriftPostOnlyParam {
    NoPostOnly,
    MustPostOnly,
    TryPostOnly,
    Slide,
}

impl DriftPostOnlyParam {
    pub open spec fn spec_to_u8(self) -> u8 {
        match self {
            DriftPostOnlyParam::NoPostOnly => 0u8,
            DriftPostOnlyParam::MustPostOnly => 1u8,
            DriftPostOnlyParam::TryPostOnly => 2u8,
            DriftPostOnlyParam::Slide => 3u8,
        }
    }

    #[verifier::when_used_as_spec(spec_to_u8)]
    pub fn to_u8(self) -> (byte: u8)
        ensures
            byte == self.spec_to_u8(),
    {
        match self {
            DriftPostOnlyParam::NoPostOnly => 0,
            DriftPostOnlyParam::MustPostOnly => 1,
            DriftPostOnlyParam::TryPostOnly => 2,
            DriftPostOnlyParam::Slide => 3,
        }
    }
}

/// The call data of a place-order call, field by field.
pub open spec fn place_perp_order_bytes(
    order_type: DriftOrderType,
    market_index: u16,
    side: OrderSide,
    base_asset_amount: u64,
    price: u64,
    reduce_only: bool,
    bit_flags: u8,
) -> Seq<u8> {
    PLACE_PERP_ORDER_DISCRIMINATOR@ + seq![
        order_type.spec_to_u8(),
        DriftMarketType::Perp.spec_to_u8(),
        side.spec_to_u8(),
        0u8,
    ] + spec_u64_to_le_bytes(base_asset_amount) + spec_u64_to_le_bytes(price)
        + spec_u16_to_le_bytes(market_index) + seq![
        bool_byte(reduce_only),
        DriftPostOnlyParam::NoPostOnly.spec_to_u8(),
        bit_flags,
        0u8,
        0u8,
        0u8,
        0u8,
        0u8,
        0u8,
        0u8,
    ]
}

/// The call data of a plain market order: no limit price, no flags.
pub open spec fn market_order_bytes(
    market_index: u16,
    side: OrderSide,
    base_asset_amount: u64,
    reduce_only: bool,
) -> Seq<u8> {
    place_perp_order_bytes(
        DriftOrderType::Market,
        market_index,
        side,
        base_asset_amount,
        0,
        reduce_only,
        0,
    )
}

/// Where each field of the call data lies, and what decodes from it.
pub proof fn lemma_place_perp_order_layout(
    order_type: DriftOrderType,
    market_index: u16,
    side: OrderSide,
    base_asset_amount: u64,
    price: u64,
    reduce_only: bool,
    bit_flags: u8,
)
    ensures
        ({
            let data = place_perp_order_bytes(
                order_type,
                market_index,
                side,
                base_asset_amount,
                price,
                reduce_only,
                bit_flags,
            );
            &&& data.len() == 40
            &&& data.subrange(0, 8) == PLACE_PERP_ORDER_DISCRIMINATOR@
            &&& data[8] == order_type.spec_to_u8()
            &&& data[9] == 1
            &&& data[10] == side.spec_to_u8()
            &&& data[11] == 0
            &&& data.subrange(12, 20) == spec_u64_to_le_bytes(base_asset_amount)
            &&& spec_u64_from_le_bytes(data.subrange(12, 20)) == base_asset_amount
            &&& data.subrange(20, 28) == spec_u64_to_le_bytes(price)
            &&& spec_u64_from_le_bytes(data.subrange(20, 28)) == price
            &&& data.subrange(28, 30) == spec_u16_to_le_bytes(market_index)
            &&& spec_u16_from_le_bytes(data.subrange(28, 30)) == market_index
            &&& data[30] == bool_byte(reduce_only)
            &&& data[31] == 0
            &&& data[32] == bit_flags
            &&& forall|i: int| 33 <= i < 40 ==> data[i] == 0
        }),
{
    lemma_auto_spec_u64_to_from_le_bytes();
    lemma_auto_spec_u16_to_from_le_bytes();
    let data = place_perp_order_bytes(
        order_type,
        market_index,
        side,
        base_asset_amount,
        price,
        reduce_only,
        bit_flags,
    );
    assert(spec_u64_to_le_bytes(base_asset_amount).len() == 8);
    assert(spec_u64_to_le_bytes(price).len() == 8);
    assert(spec_u16_to_le_bytes(market_index).len() == 2);
    assert(PLACE_PERP_ORDER_DISCRIMINATOR@.len() == 8);
    assert(data.len() == 40);
    assert(data.subrange(0, 8) =~= PLACE_PERP_ORDER_DISCRIMINATOR@);
    assert(data.subrange(12, 20) =~= spec_u64_to_le_bytes(base_asset_amount));
    assert(data.subrange(20, 28) =~= spec_u64_to_le_bytes(price));
    assert(data.subrange(28, 30) =~= spec_u16_to_le_bytes(market_index));
}

/// Builds the call data of a plain market order.
pub fn build_drift_place_perp_order(
    market_index: u16,
    side: OrderSide,
    base_asset_amount: u64,
    reduce_only: bool,
) -> (data: Vec<u8>)
    ensures
        data@ == market_order_bytes(market_index, side, base_asset_amount, reduce_only),
        data@.len() == 40,
{
    build_drift_place_perp_order_full(
        DriftOrderType::Market,
        market_index,
        side,
        base_asset_amount,
        0,
        reduce_only,
        0,
    )
}

/// Builds the call data of a place-order call with every option given.
pub fn build_drift_place_perp_order_full(
    order_type: DriftOrderType,
    market_index: u16,
    side: OrderSide,
    base_asset_amount: u64,
    price: u64,
    reduce_only: bool,
    bit_flags: u8,
) -> (data: Vec<u8>)
    ensures
        data@ == place_perp_order_bytes(
            order_type,
            market_index,
            side,
            base_asset_amount,
            price,
            reduce_only,
            bit_flags,
        ),
        data@.len() == 40,
{
    let mut data: Vec<u8> = Vec::with_capacity(40);
    push_bytes(&mut data, PLACE_PERP_ORDER_DISCRIMINATOR.as_slice());
    data.push(order_type.to_u8());
    data.push(DriftMarketType::Perp.to_u8());
    data.push(side.to_u8());
    data.push(0u8);
    push_u64_le(&mut data, base_asset_amount);
    push_u64_le(&mut data, price);
    push_u16_le(&mut data, market_index);
    data.push(if reduce_only { 1 } else { 0 });
    data.push(DriftPostOnlyParam::NoPostOnly.to_u8());
    data.push(bit_flags);
    data.push(0u8);
    data.push(0u8);
    data.push(0u8);
    data.push(0u8);
    data.push(0u8);
    data.push(0u8);
    data.push(0u8);
    proof {
        lemma_place_perp_order_layout(
            order_type,
            market_index,
            side,
            base_asset_amount,
            price,
            reduce_only,
            bit_flags,
        );
        assert(data@ =~= place_perp_order_bytes(
            order_type,
            market_index,
            side,
            base_asset_amount,
            price,
            reduce_only,
            bit_flags,
        ));
    }
    data
}

} // verus!
