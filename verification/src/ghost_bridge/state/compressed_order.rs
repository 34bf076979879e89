//! The hash-committed order: its parameters, the canonical bytes they
//! serialize to, the digest published in their place, and the two predicates
//! (trigger, expiry) that gate execution.

use vstd::prelude::*;
use vstd::bytes::{spec_u16_to_le_bytes, spec_u64_to_le_bytes};
use crate::digest::{blake3_digest, blake3_hash};
use crate::encoding::{
    bool_byte, lemma_i64_le_injective, lemma_u16_le_injective, lemma_u64_le_injective,
    push_bytes, push_i64_le, push_u16_le, push_u64_le, spec_i64_to_le_bytes, zero_key, Pubkey,
};

verus! {

/// Which side of the trigger price fires the order.
#[derive(Clone, Copy, PartialEq, Eq, Debug, Structural)]
pub enum TriggerCondition {
    Above,
    Below,
}

impl Default for TriggerCondition {
    fn default() -> (condition: Self)
        ensures
            condition == TriggerCondition::Above,
    {
        TriggerCondition::Above
    }
}

impl TriggerCondition {
    /// The wire byte of this condition: 0 for `Above`, 1 for `Below`.
    pub open spec fn spec_to_u8(self) -> u8 {
        match self {
            TriggerCondition::Above => 0u8,
            TriggerCondition::Below => 1u8,
        }
    }

    /// Whether `current_price` satisfies this condition against
    /// `trigger_price`; both bounds are inclusive.
    pub open spec fn holds(self, trigger_price: int, current_price: int) -> bool {
        match self {
            TriggerCondition::Above => current_price >= trigger_price,
            TriggerCondition::Below => current_price <= trigger_price,
        }
    }

    #[verifier::when_used_as_spec(spec_to_u8)]
    pub fn to_u8(self) -> (byte: u8)
        ensures
            byte == self.spec_to_u8(),
    {
        match self {
            TriggerCondition::Above => 0,
            TriggerCondition::Below => 1,
        }
    }

    /// Decodes a wire byte; any byte but 0 and 1 is no condition.
    pub fn from_u8(byte: u8) -> (condition: Option<Self>)
        ensures
            byte == 0 ==> condition == Some(TriggerCondition::Above),
            byte == 1 ==> condition == Some(TriggerCondition::Below),
            byte > 1 ==> condition is None,
    {
        if byte == 0 {
            Some(TriggerCondition::Above)
        } else if byte == 1 {
            Some(TriggerCondition::Below)
        } else {
            None
        }
    }
}

/// The direction of the trade.
#[derive(Clone, Copy, PartialEq, Eq, Debug, Structural)]
pub enum OrderSide {
    Long,
    Short,
}

impl Default for OrderSide {
    fn default() -> (side: Self)
        ensures
            side == OrderSide::Long,
    {
        OrderSide::Long
    }
}

impl OrderSide {
    /// The wire byte of this side: 0 for `Long`, 1 for `Short`.
    pub open spec fn spec_to_u8(self) -> u8 {
        match self {
            OrderSide::Long => 0u8,
            OrderSide::Short => 1u8,
        }
    }

    #[verifier::when_used_as_spec(spec_to_u8)]
    pub fn to_u8(self) -> (byte: u8)
        ensures
            byte == self.spec_to_u8(),
    {
        match self {
            OrderSide::Long => 0,
            OrderSide::Short => 1,
        }
    }

    /// Decodes a wire byte; any byte but 0 and 1 is no side.
    pub fn from_u8(byte: u8) -> (side: Option<Self>)
        ensures
            byte == 0 ==> side == Some(OrderSide::Long),
            byte == 1 ==> side == Some(OrderSide::Short),
            byte > 1 ==> side is None,
    {
        if byte == 0 {
            Some(OrderSide::Long)
        } else if byte == 1 {
            Some(OrderSide::Short)
        } else {
            None
        }
    }
}

/// An order whose parameters stay private: only `compute_hash` of it is
/// ever stored.
#[derive(Clone, Debug, PartialEq, Eq)]
pub struct CompressedGhostOrder {
    pub owner: Pubkey,
    pub order_id: u64,
    pub market_index: u16,
    pub trigger_price: i64,
    pub trigger_condition: TriggerCondition,
    pub order_side: OrderSide,
    pub base_asset_amount: u64,
    pub reduce_only: bool,
    pub expiry: i64,
    pub feed_id: [u8; 32],
    pub salt: [u8; 16],
}

impl Default for CompressedGhostOrder {
    fn default() -> (order: Self)
        ensures
            order.owner@ == zero_key(),
            order.order_id == 0,
            order.market_index == 0,
            order.trigger_price == 0,
            order.trigger_condition == TriggerCondition::Above,
            order.order_side == OrderSide::Long,
            order.base_asset_amount == 0,
            !order.reduce_only,
            order.expiry == 0,
            order.feed_id@ == zero_key(),
            order.salt@ == Seq::new(16, |i: int| 0u8),
    {
        let order = CompressedGhostOrder {
            owner: [0u8; 32],
            order_id: 0,
            market_index: 0,
            trigger_price: 0,
            trigger_condition: TriggerCondition::Above,
            order_side: OrderSide::Long,
            base_asset_amount: 0,
            reduce_only: false,
            expiry: 0,
            feed_id: [0u8; 32],
            salt: [0u8; 16],
        };
        assert(order.owner@ =~= zero_key());
        assert(order.feed_id@ =~= zero_key());
        assert(order.salt@ =~= Seq::new(16, |i: int| 0u8));
        order
    }
}

impl CompressedGhostOrder {
    /// The canonical serialization: every field in declaration order,
    /// integers little-endian, enums and flags as one byte each.
    pub open spec fn preimage(&self) -> Seq<u8> {
        self.owner@ + spec_u64_to_le_bytes(self.order_id) + spec_u16_to_le_bytes(
            self.market_index,
        ) + spec_i64_to_le_bytes(self.trigger_price) + seq![self.trigger_condition.spec_to_u8()]
            + seq![self.order_side.spec_to_u8()] + spec_u64_to_le_bytes(self.base_asset_amount)
            + seq![bool_byte(self.reduce_only)] + spec_i64_to_le_bytes(self.expiry)
            + self.feed_id@ + self.salt@
    }

    /// The commitment: the BLAKE3 digest of the canonical serialization.
    pub open spec fn spec_hash(&self) -> Seq<u8> {
        blake3_digest(self.preimage())
    }

    /// Whether two orders agree on every field.
    pub open spec fn same_fields(&self, other: &Self) -> bool {
        &&& self.owner@ == other.owner@
        &&& self.order_id == other.order_id
        &&& self.market_index == other.market_index
        &&& self.trigger_price == other.trigger_price
        &&& self.trigger_condition == other.trigger_condition
        &&& self.order_side == other.order_side
        &&& self.base_asset_amount == other.base_asset_amount
        &&& self.reduce_only == other.reduce_only
        &&& self.expiry == other.expiry
        &&& self.feed_id@ == other.feed_id@
        &&& self.salt@ == other.salt@
    }

    /// Whether the order is void at `current_time`; an expiry of 0 never
    /// passes.
    pub open spec fn spec_is_expired(&self, current_time: i64) -> bool {
        self.expiry > 0 && current_time > self.expiry
    }

    /// Serializes the order into its canonical bytes.
    pub fn serialize(&self) -> (data: Vec<u8>)
        ensures
            data@ == self.preimage(),
    {
        let mut data: Vec<u8> = Vec::with_capacity(144);
        push_bytes(&mut data, self.owner.as_slice());
        push_u64_le(&mut data, self.order_id);
        push_u16_le(&mut data, self.market_index);
        push_i64_le(&mut data, self.trigger_price);
        data.push(self.trigger_condition.to_u8());
        data.push(self.order_side.to_u8());
        push_u64_le(&mut data, self.base_asset_amount);
        data.push(if self.reduce_only { 1 } else { 0 });
        push_i64_le(&mut data, self.expiry);
        push_bytes(&mut data, self.feed_id.as_slice());
        push_bytes(&mut data, self.salt.as_slice());
        assert(data@ =~= self.preimage());
        data
    }

    /// The 32-byte commitment to this order.
    pub fn compute_hash(&self) -> (digest: [u8; 32])
        ensures
            digest@ == self.spec_hash(),
    {
        let data = self.serialize();
        blake3_hash(data.as_slice())
    }

    /// Whether `current_price` fires the order.
    pub fn check_trigger(&self, current_price: i64) -> (fired: bool)
        ensures
            fired == self.trigger_condition.holds(self.trigger_price as int, current_price as int),
    {
        match self.trigger_condition {
            TriggerCondition::Above => current_price >= self.trigger_price,
            TriggerCondition::Below => current_price <= self.trigger_price,
        }
    }

    /// Whether the order is void at `current_time`.
    pub fn is_expired(&self, current_time: i64) -> (expired: bool)
        ensures
            expired == self.spec_is_expired(current_time),
    {
        self.expiry > 0 && current_time > self.expiry
    }
}

/// Both conditions are inclusive at the boundary, and away from it
/// exactly one of them holds.
pub proof fn lemma_trigger_boundary(trigger_price: int, current_price: int)
    ensures
        TriggerCondition::Above.holds(trigger_price, trigger_price),
        TriggerCondition::Below.holds(trigger_price, trigger_price),
        current_price != trigger_price ==> (TriggerCondition::Above.holds(
            trigger_price,
            current_price,
        ) != TriggerCondition::Below.holds(trigger_price, current_price)),
        TriggerCondition::Above.holds(trigger_price, current_price) <==> current_price
            >= trigger_price,
        TriggerCondition::Below.holds(trigger_price, current_price) <==> current_price
            <= trigger_price,
{
}

/// An order with an expiry of 0 never expires; any other order is expired
/// exactly when the time has gone strictly past a positive expiry.
pub proof fn lemma_expiry(order: &CompressedGhostOrder, current_time: i64)
    ensures
        order.expiry == 0 ==> !order.spec_is_expired(current_time),
        order.expiry > 0 ==> (order.spec_is_expired(current_time) <==> current_time > order.expiry),
        order.expiry < 0 ==> !order.spec_is_expired(current_time),
{
}

/// The canonical serialization has 117 bytes and lays the fields out at
/// fixed offsets.
pub proof fn lemma_preimage_layout(order: &CompressedGhostOrder)
    ensures
        order.preimage().len() == 117,
        order.preimage().subrange(0, 32) == order.owner@,
        order.preimage().subrange(32, 40) == spec_u64_to_le_bytes(order.order_id),
        order.preimage().subrange(40, 42) == spec_u16_to_le_bytes(order.market_index),
        order.preimage().subrange(42, 50) == spec_i64_to_le_bytes(order.trigger_price),
        order.preimage()[50] == order.trigger_condition.spec_to_u8(),
        order.preimage()[51] == order.order_side.spec_to_u8(),
        order.preimage().subrange(52, 60) == spec_u64_to_le_bytes(order.base_asset_amount),
        order.preimage()[60] == bool_byte(order.reduce_only),
        order.preimage().subrange(61, 69) == spec_i64_to_le_bytes(order.expiry),
        order.preimage().subrange(69, 101) == order.feed_id@,
        order.preimage().subrange(101, 117) == order.salt@,
{
    lemma_u64_le_injective(order.order_id, 0);
    lemma_u16_le_injective(order.market_index, 0);
    lemma_i64_le_injective(order.trigger_price, 0);
    lemma_u64_le_injective(order.base_asset_amount, 0);
    lemma_i64_le_injective(order.expiry, 0);
    let p = order.preimage();
    assert(p.len() == 117);
    assert(p.subrange(0, 32) =~= order.owner@);
    assert(p.subrange(32, 40) =~= spec_u64_to_le_bytes(order.order_id));
    assert(p.subrange(40, 42) =~= spec_u16_to_le_bytes(order.market_index));
    assert(p.subrange(42, 50) =~= spec_i64_to_le_bytes(order.trigger_price));
    assert(p.subrange(52, 60) =~= spec_u64_to_le_bytes(order.base_asset_amount));
    assert(p.subrange(61, 69) =~= spec_i64_to_le_bytes(order.expiry));
    assert(p.subrange(69, 101) =~= order.feed_id@);
    assert(p.subrange(101, 117) =~= order.salt@);
}

/// Two computations over identical fields commit to the same digest.
pub proof fn lemma_hash_deterministic(a: &CompressedGhostOrder, b: &CompressedGhostOrder)
    requires
        a.same_fields(b),
    ensures
        a.preimage() == b.preimage(),
        a.spec_hash() == b.spec_hash(),
{
}

/// Every field takes part in the commitment's input: orders that differ in
/// any field serialize to different bytes.
pub proof fn lemma_preimage_injective(a: &CompressedGhostOrder, b: &CompressedGhostOrder)
    requires
        a.preimage() == b.preimage(),
    ensures
        a.same_fields(b),
{
    lemma_preimage_layout(a);
    lemma_preimage_layout(b);
    lemma_u64_le_injective(a.order_id, b.order_id);
    lemma_u16_le_injective(a.market_index, b.market_index);
    lemma_i64_le_injective(a.trigger_price, b.trigger_price);
    lemma_u64_le_injective(a.base_asset_amount, b.base_asset_amount);
    lemma_i64_le_injective(a.expiry, b.expiry);
}

} // verus!
