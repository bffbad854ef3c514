//! How a plugin asks the host for the identifier of an event space, by the space's name.

use crate::common::EventSpaceId;
use vstd::prelude::*;

verus! {

/// The host side of the event registry: it hands out a stable, unique identifier for each event
/// space it knows.
pub trait HostEventRegistryImpl {
    /// The identifier of the event space with the given name (without its nul terminator), if
    /// the host knows it.
    fn query(&self, space_name: &[u8]) -> Option<EventSpaceId>;
}

/// What the host hands back for the identifier it found: whether it found one, and the raw value
/// to write, the reserved value where there was none.
pub fn query_answer(result: Option<EventSpaceId>) -> (answer: (bool, u16))
    ensures
        answer.0 == result.is_some(),
        answer.1 == EventSpaceId::spec_optional_id(result),
{
    let id = EventSpaceId::optional_id(&result);
    (result.is_some(), id)
}

/// What a plugin makes of the host's answer: no identifier where the host reported a failure or
/// wrote the reserved value, else the identifier it wrote.
pub fn query_reply(success: bool, raw_id: u16) -> (id: Option<EventSpaceId>)
    ensures
        id == (if success {
            EventSpaceId::spec_new(raw_id)
        } else {
            None
        }),
{
    if !success {
        return None;
    }
    EventSpaceId::new(raw_id)
}

/// A plugin that reads back the host's answer gets the very identifier the host found, or none.
pub proof fn lemma_query_roundtrip(result: Option<EventSpaceId>)
    requires
        result matches Some(e) ==> e.wf(),
    ensures
        ({
            let success = result.is_some();
            let raw_id = EventSpaceId::spec_optional_id(result);
            (if success {
                EventSpaceId::spec_new(raw_id)
            } else {
                None
            }) == result
        }),
{
    if let Some(e) = result {
        EventSpaceId::lemma_from_id_spec(e);
    }
}

} // verus!
