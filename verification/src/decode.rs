//! The event decoder: extracts the base64 payload from an attributed log
//! line, matches its discriminator against the registry, and reads the fixed
//! little-endian field layout of the matched kind.
//!
//! Layouts, after the 8-byte discriminator:
//! - market update: `market_id`, `base_flow`, `quote_flow`, each a
//!   little-endian `u64` (24 bytes).
//! - position close: a 32-byte authority address, then seven little-endian
//!   `u64` fields (`market_id`, `start_slot`, `end_slot`, `deposit_amount`,
//!   `swapped_amount`, `remaining_amount`, `fee_amount`), then one `is_buy`
//!   byte (89 bytes).
//!
//! A payload longer than its kind's layout decodes all the same: a reader
//! consumes what it needs and leaves trailing bytes alone.
use vstd::prelude::*;

use crate::bytes::{is_prefix_of, le_u64_at, read_le_u64, starts_with, sub_vec};
use crate::events::{
    ClosePositionEvent, EventModel, KeeperEvent, MarketUpdateEvent, ADDRESS_LEN, DISCRIMINATOR_LEN,
};
use crate::markers::{
    program_data_prefix, program_data_prefix_vec, program_log_prefix, program_log_prefix_vec,
};
use crate::registry::EventSchemaRegistry;

verus! {

/// Bytes of a market-update payload after the discriminator.
pub const MARKET_UPDATE_BODY_LEN: usize = 24;

/// Bytes of a position-close payload after the discriminator.
pub const CLOSE_POSITION_BODY_LEN: usize = 89;

/// What the standard-alphabet base64 decoding of `s` yields: `None` exactly
/// when `s` is not a valid encoding. The result depends on `s` alone.
pub uninterp spec fn base64_standard_decoded(s: Seq<u8>) -> Option<Seq<u8>>;

/// Relies on base64's `Engine::decode` with the standard engine: decoding is
/// a pure function of the input bytes, `Err` exactly on invalid encodings.
#[verifier::external_body]
fn base64_decode(input: &Vec<u8>) -> (r: Option<Vec<u8>>)
    ensures
        r is Some <==> base64_standard_decoded(input@) is Some,
        r matches Some(v) ==> base64_standard_decoded(input@) == Some(v@),
{
    match base64::Engine::decode(&base64::engine::general_purpose::STANDARD, input.as_slice()) {
        Ok(v) => Some(v),
        Err(_) => None,
    }
}

/// Specification-level result of decoding one payload.
pub enum DecodeModel {
    /// The payload carried a known event.
    Decoded(EventModel),
    /// Fewer than 8 bytes: too short to carry a discriminator; ignored.
    TooShort,
    /// An 8-byte discriminator that matches no registered kind.
    Unknown(Seq<u8>),
    /// A registered discriminator whose body is shorter than its layout.
    Malformed,
}

/// Result of decoding one payload.
pub enum DecodeOutcome {
    Decoded(KeeperEvent),
    TooShort,
    Unknown(Vec<u8>),
    Malformed,
}

impl View for DecodeOutcome {
    type V = DecodeModel;

    open spec fn view(&self) -> DecodeModel {
        match self {
            DecodeOutcome::Decoded(e) => DecodeModel::Decoded(e@),
            DecodeOutcome::TooShort => DecodeModel::TooShort,
            DecodeOutcome::Unknown(k) => DecodeModel::Unknown(k@),
            DecodeOutcome::Malformed => DecodeModel::Malformed,
        }
    }
}

/// The market-update event held in `p` after the discriminator.
pub open spec fn market_update_model(p: Seq<u8>) -> MarketUpdateEvent {
    MarketUpdateEvent {
        market_id: le_u64_at(p, 8) as u64,
        base_flow: le_u64_at(p, 16) as u64,
        quote_flow: le_u64_at(p, 24) as u64,
    }
}

/// The position-close event held in `p` after the discriminator.
pub open spec fn close_position_model(p: Seq<u8>) -> crate::events::ClosePositionModel {
    crate::events::ClosePositionModel {
        position_authority: p.subrange(8, 40),
        market_id: le_u64_at(p, 40) as u64,
        start_slot: le_u64_at(p, 48) as u64,
        end_slot: le_u64_at(p, 56) as u64,
        deposit_amount: le_u64_at(p, 64) as u64,
        swapped_amount: le_u64_at(p, 72) as u64,
        remaining_amount: le_u64_at(p, 80) as u64,
        fee_amount: le_u64_at(p, 88) as u64,
        is_buy: p[96],
    }
}

/// Decoding one payload against the registry keys: the discriminator is
/// matched first, then the matched kind's fixed layout is read.
pub open spec fn decode_model(mkey: Seq<u8>, ckey: Seq<u8>, p: Seq<u8>) -> DecodeModel {
    if p.len() < DISCRIMINATOR_LEN {
        DecodeModel::TooShort
    } else if is_prefix_of(mkey, p) {
        if p.len() >= DISCRIMINATOR_LEN + MARKET_UPDATE_BODY_LEN {
            DecodeModel::Decoded(EventModel::MarketUpdate(market_update_model(p)))
        } else {
            DecodeModel::Malformed
        }
    } else if is_prefix_of(ckey, p) {
        if p.len() >= DISCRIMINATOR_LEN + CLOSE_POSITION_BODY_LEN {
            DecodeModel::Decoded(EventModel::ClosePosition(close_position_model(p)))
        } else {
            DecodeModel::Malformed
        }
    } else {
        DecodeModel::Unknown(p.subrange(0, DISCRIMINATOR_LEN as int))
    }
}

/// Decode one payload: too short, unknown discriminator, malformed body, or
/// a fully populated event of the matched kind.
pub fn decode_event(reg: &EventSchemaRegistry, payload: &Vec<u8>) -> (r: DecodeOutcome)
    requires
        reg.wf(),
    ensures
        r@ == decode_model(reg.market_update_key@, reg.close_position_key@, payload@),
        r@ matches DecodeModel::Decoded(e) ==> e.wf(),
{
    if payload.len() < DISCRIMINATOR_LEN {
        return DecodeOutcome::TooShort;
    }
    if starts_with(payload, &reg.market_update_key) {
        if payload.len() >= DISCRIMINATOR_LEN + MARKET_UPDATE_BODY_LEN {
            let event = MarketUpdateEvent {
                market_id: read_le_u64(payload, 8),
                base_flow: read_le_u64(payload, 16),
                quote_flow: read_le_u64(payload, 24),
            };
            return DecodeOutcome::Decoded(KeeperEvent::MarketUpdate(event));
        }
        return DecodeOutcome::Malformed;
    }
    if starts_with(payload, &reg.close_position_key) {
        if payload.len() >= DISCRIMINATOR_LEN + CLOSE_POSITION_BODY_LEN {
            let event = ClosePositionEvent {
                position_authority: sub_vec(payload, 8, 8 + ADDRESS_LEN),
                market_id: read_le_u64(payload, 40),
                start_slot: read_le_u64(payload, 48),
                end_slot: read_le_u64(payload, 56),
                deposit_amount: read_le_u64(payload, 64),
                swapped_amount: read_le_u64(payload, 72),
                remaining_amount: read_le_u64(payload, 80),
                fee_amount: read_le_u64(payload, 88),
                is_buy: payload[96],
            };
            return DecodeOutcome::Decoded(KeeperEvent::ClosePosition(event));
        }
        return DecodeOutcome::Malformed;
    }
    DecodeOutcome::Unknown(sub_vec(payload, 0, DISCRIMINATOR_LEN))
}

/// A payload shorter than a discriminator is ignored: never reported
/// unknown, never an error, whatever the registry keys are.
pub proof fn lemma_short_payload_ignored(mkey: Seq<u8>, ckey: Seq<u8>, p: Seq<u8>)
    requires
        p.len() < DISCRIMINATOR_LEN,
    ensures
        decode_model(mkey, ckey, p) is TooShort,
{
}

/// A payload that opens with a registered discriminator but whose body is
/// shorter than that kind's layout decodes to an error — never to a
/// partially populated event.
pub proof fn lemma_truncated_body_is_decode_error(mkey: Seq<u8>, ckey: Seq<u8>, p: Seq<u8>)
    requires
        p.len() >= DISCRIMINATOR_LEN,
        is_prefix_of(mkey, p) || is_prefix_of(ckey, p),
        is_prefix_of(mkey, p) ==> p.len() < DISCRIMINATOR_LEN + MARKET_UPDATE_BODY_LEN,
        is_prefix_of(ckey, p) ==> p.len() < DISCRIMINATOR_LEN + CLOSE_POSITION_BODY_LEN,
    ensures
        decode_model(mkey, ckey, p) is Malformed,
{
}

/// The payload bytes a log line carries: the base64 decoding of what follows
/// its data or log prefix, `None` when it has neither prefix or the encoding
/// is invalid.
pub open spec fn payload_of(line: Seq<u8>) -> Option<Seq<u8>> {
    if is_prefix_of(program_data_prefix(), line) {
        base64_standard_decoded(line.skip(program_data_prefix().len() as int))
    } else if is_prefix_of(program_log_prefix(), line) {
        base64_standard_decoded(line.skip(program_log_prefix().len() as int))
    } else {
        None
    }
}

/// Strip the payload prefix from `line` and base64-decode the remainder.
pub fn extract_event_payload(line: &Vec<u8>) -> (r: Option<Vec<u8>>)
    ensures
        r is Some <==> payload_of(line@) is Some,
        r matches Some(v) ==> payload_of(line@) == Some(v@),
{
    let data_prefix = program_data_prefix_vec();
    let log_prefix = program_log_prefix_vec();
    if starts_with(line, &data_prefix) {
        let encoded = sub_vec(line, data_prefix.len(), line.len());
        assert(encoded@ =~= line@.skip(program_data_prefix().len() as int));
        base64_decode(&encoded)
    } else if starts_with(line, &log_prefix) {
        let encoded = sub_vec(line, log_prefix.len(), line.len());
        assert(encoded@ =~= line@.skip(program_log_prefix().len() as int));
        base64_decode(&encoded)
    } else {
        None
    }
}

} // verus!
