//! The typed events the target program emits, their specification-level
//! models, and the outcome vocabulary of the ingestion path.
use vstd::prelude::*;

verus! {

/// Number of bytes in a discriminator, the tag that opens every payload.
pub const DISCRIMINATOR_LEN: usize = 8;

/// Number of bytes in a program address.
pub const ADDRESS_LEN: usize = 32;

/// The two known event kinds.
#[derive(Clone, Copy, Debug, PartialEq, Eq, Structural)]
pub enum EventKind {
    MarketUpdate,
    ClosePosition,
}

/// A market-liquidity-update event: net flows for one market.
#[derive(Clone, Copy, Debug, PartialEq, Eq, Structural)]
pub struct MarketUpdateEvent {
    pub market_id: u64,
    pub base_flow: u64,
    pub quote_flow: u64,
}

/// A position-close event: who closed, when the position ran, and the amounts
/// moved. `position_authority` is the closing authority's 32-byte address.
#[derive(Debug)]
pub struct ClosePositionEvent {
    pub position_authority: Vec<u8>,
    pub market_id: u64,
    pub start_slot: u64,
    pub end_slot: u64,
    pub deposit_amount: u64,
    pub swapped_amount: u64,
    pub remaining_amount: u64,
    pub fee_amount: u64,
    pub is_buy: u8,
}

/// Tagged union over the known event kinds.
#[derive(Debug)]
pub enum KeeperEvent {
    MarketUpdate(MarketUpdateEvent),
    ClosePosition(ClosePositionEvent),
}

/// Specification-level model of a position-close event.
pub struct ClosePositionModel {
    pub position_authority: Seq<u8>,
    pub market_id: u64,
    pub start_slot: u64,
    pub end_slot: u64,
    pub deposit_amount: u64,
    pub swapped_amount: u64,
    pub remaining_amount: u64,
    pub fee_amount: u64,
    pub is_buy: u8,
}

/// Specification-level model of a decoded event.
pub enum EventModel {
    MarketUpdate(MarketUpdateEvent),
    ClosePosition(ClosePositionModel),
}

impl View for ClosePositionEvent {
    type V = ClosePositionModel;

    open spec fn view(&self) -> ClosePositionModel {
        ClosePositionModel {
            position_authority: self.position_authority@,
            market_id: self.market_id,
            start_slot: self.start_slot,
            end_slot: self.end_slot,
            deposit_amount: self.deposit_amount,
            swapped_amount: self.swapped_amount,
            remaining_amount: self.remaining_amount,
            fee_amount: self.fee_amount,
            is_buy: self.is_buy,
        }
    }
}

impl View for KeeperEvent {
    type V = EventModel;

    open spec fn view(&self) -> EventModel {
        match self {
            KeeperEvent::MarketUpdate(e) => EventModel::MarketUpdate(*e),
            KeeperEvent::ClosePosition(e) => EventModel::ClosePosition(e@),
        }
    }
}

impl EventModel {
    /// The kind tag of a modeled event.
    pub open spec fn kind(self) -> EventKind {
        match self {
            EventModel::MarketUpdate(_) => EventKind::MarketUpdate,
            EventModel::ClosePosition(_) => EventKind::ClosePosition,
        }
    }

    /// A modeled event is well formed when its address field has the
    /// address length.
    pub open spec fn wf(self) -> bool {
        match self {
            EventModel::MarketUpdate(_) => true,
            EventModel::ClosePosition(e) => e.position_authority.len() == ADDRESS_LEN,
        }
    }
}

impl ClosePositionEvent {
    /// A field-wise copy whose model equals this event's.
    pub fn duplicate(&self) -> (r: ClosePositionEvent)
        ensures
            r@ == self@,
    {
        let position_authority = crate::bytes::sub_vec(
            &self.position_authority,
            0,
            self.position_authority.len(),
        );
        assert(position_authority@ =~= self.position_authority@);
        ClosePositionEvent {
            position_authority,
            market_id: self.market_id,
            start_slot: self.start_slot,
            end_slot: self.end_slot,
            deposit_amount: self.deposit_amount,
            swapped_amount: self.swapped_amount,
            remaining_amount: self.remaining_amount,
            fee_amount: self.fee_amount,
            is_buy: self.is_buy,
        }
    }
}

impl KeeperEvent {
    /// The kind tag of an event.
    pub fn kind(&self) -> (r: EventKind)
        ensures
            r == self@.kind(),
    {
        match self {
            KeeperEvent::MarketUpdate(_) => EventKind::MarketUpdate,
            KeeperEvent::ClosePosition(_) => EventKind::ClosePosition,
        }
    }
}

/// How one delivered event fared in the ingestion path. Never fatal to the
/// caller; used to drive the health counters.
#[derive(Clone, Copy, Debug, PartialEq, Eq, Structural)]
pub enum IngestOutcome {
    Persisted,
    DuplicateIgnored,
    UnknownDiscriminator,
    DecodeError,
    PersistenceError,
}

} // verus!
