//! The event schema registry: the static mapping from an 8-byte
//! discriminator to an event kind. Construction checks that the keys are
//! distinct and of the right length.
use vstd::prelude::*;

use crate::bytes::{bytes_eq, is_prefix_of, starts_with};
use crate::events::{EventKind, DISCRIMINATOR_LEN};

verus! {

/// Maps each known discriminator to its event kind. Keys are validated at
/// construction: both 8 bytes long and pairwise distinct.
pub struct EventSchemaRegistry {
    pub market_update_key: Vec<u8>,
    pub close_position_key: Vec<u8>,
}

impl EventSchemaRegistry {
    /// Keys have discriminator length and are distinct across kinds.
    pub open spec fn wf(self) -> bool {
        &&& self.market_update_key@.len() == DISCRIMINATOR_LEN
        &&& self.close_position_key@.len() == DISCRIMINATOR_LEN
        &&& self.market_update_key@ != self.close_position_key@
    }

    /// Build a registry from the two discriminators; refused unless both are
    /// 8 bytes long and distinct.
    pub fn new(market_update_key: Vec<u8>, close_position_key: Vec<u8>) -> (r: Option<Self>)
        ensures
            match r {
                Some(reg) => reg.wf() && reg.market_update_key@ == market_update_key@
                    && reg.close_position_key@ == close_position_key@,
                None => !(market_update_key@.len() == DISCRIMINATOR_LEN
                    && close_position_key@.len() == DISCRIMINATOR_LEN && market_update_key@
                    != close_position_key@),
            },
    {
        if market_update_key.len() != DISCRIMINATOR_LEN {
            return None;
        }
        if close_position_key.len() != DISCRIMINATOR_LEN {
            return None;
        }
        if bytes_eq(&market_update_key, &close_position_key) {
            return None;
        }
        Some(EventSchemaRegistry { market_update_key, close_position_key })
    }

    /// The kind whose discriminator opens `payload`, if any.
    pub fn match_discriminator(&self, payload: &Vec<u8>) -> (r: Option<EventKind>)
        requires
            self.wf(),
        ensures
            match r {
                Some(EventKind::MarketUpdate) => is_prefix_of(self.market_update_key@, payload@),
                Some(EventKind::ClosePosition) => is_prefix_of(self.close_position_key@, payload@),
                None => !is_prefix_of(self.market_update_key@, payload@) && !is_prefix_of(
                    self.close_position_key@,
                    payload@,
                ),
            },
    {
        if starts_with(payload, &self.market_update_key) {
            Some(EventKind::MarketUpdate)
        } else if starts_with(payload, &self.close_position_key) {
            Some(EventKind::ClosePosition)
        } else {
            None
        }
    }
}

} // verus!
