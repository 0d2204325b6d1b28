//! Events: self-identifying signed messages, carried as their canonical JSON
//! text.
use vstd::prelude::*;
use crate::types::{EventId, bytes32_eq, bytes_eq};

verus! {

/// The id that the signed event held by a JSON text carries, or `None` where
/// the text does not hold a validly signed event.
pub uninterp spec fn nostr_event_id(json: Seq<u8>) -> Option<Seq<u8>>;

/// The id recomputed from the content of the signed event held by a JSON
/// text, or `None` where the text does not hold a validly signed event.
pub uninterp spec fn nostr_content_id(json: Seq<u8>) -> Option<Seq<u8>>;

/// The canonical JSON rendering of the signed event held by a JSON text, or
/// `None` where the text does not hold a validly signed event.
pub uninterp spec fn nostr_canonical_json(json: Seq<u8>) -> Option<Seq<u8>>;

/// Relies on `nostr_sdk::Event::from_json`, which parses the text (read as
/// UTF-8 by `std::str::from_utf8`) and checks the event's signature over its
/// content; the id returned is the one that the parsed event carries.
#[verifier::external_body]
fn parse_nostr_event(json: &[u8]) -> (r: Option<[u8; 32]>)
    ensures
        match r {
            Some(id) => nostr_event_id(json@) == Some(id@),
            None => nostr_event_id(json@) is None,
        },
{
    let text = std::str::from_utf8(json).ok()?;
    let event = nostr_sdk::Event::from_json(text).ok()?;
    Some(nostr_sdk::prelude::Hash::to_byte_array(event.id.inner()))
}

/// Relies on `nostr_sdk::EventId::new`: the id computed from the author,
/// time, kind, tags and content of the event that `Event::from_json` reads
/// from the text.
#[verifier::external_body]
fn recompute_nostr_event_id(json: &[u8]) -> (r: Option<[u8; 32]>)
    ensures
        match r {
            Some(id) => nostr_content_id(json@) == Some(id@),
            None => nostr_content_id(json@) is None,
        },
{
    let text = std::str::from_utf8(json).ok()?;
    let e = nostr_sdk::Event::from_json(text).ok()?;
    let id = nostr_sdk::EventId::new(&e.pubkey, e.created_at, &e.kind, &e.tags, &e.content);
    Some(nostr_sdk::prelude::Hash::to_byte_array(id.inner()))
}

/// Relies on `nostr_sdk::Event::as_json`: the rendering of the event that
/// `Event::from_json` reads from the text, through a `serde_json` value
/// whose object keys are sorted.
#[verifier::external_body]
fn canonical_nostr_json(json: &[u8]) -> (r: Option<Vec<u8>>)
    ensures
        match r {
            Some(c) => nostr_canonical_json(json@) == Some(c@),
            None => nostr_canonical_json(json@) is None,
        },
{
    let text = std::str::from_utf8(json).ok()?;
    let event = nostr_sdk::Event::from_json(text).ok()?;
    Some(event.as_json().into_bytes())
}

/// A text that can stand as an event: it is its own canonical rendering, and
/// the id it carries is the one its content gives.
pub open spec fn canonical_event_text(json: Seq<u8>) -> bool {
    &&& nostr_canonical_json(json) == Some(json)
    &&& nostr_event_id(json) is Some
    &&& nostr_content_id(json) == nostr_event_id(json)
}

/// What an event is to the logic: its JSON text and the id it carries.
pub struct EventView {
    pub json: Seq<u8>,
    pub id: Seq<u8>,
}

/// A signed event, as its canonical JSON text and its id.
#[derive(Debug)]
pub struct Event {
    json: Vec<u8>,
    id: EventId,
}

impl View for Event {
    type V = EventView;

    closed spec fn view(&self) -> EventView {
        EventView { json: self.json@, id: self.id@ }
    }
}

impl Event {
    #[verifier::type_invariant]
    spec fn parses(self) -> bool {
        canonical_event_text(self.json@) && nostr_event_id(self.json@) == Some(self.id@)
    }

    /// Reads an event from a text that must already be canonical, checking
    /// its id against its content.
    pub fn from_canonical(json: Vec<u8>) -> (r: Option<Event>)
        ensures
            r is Some <==> canonical_event_text(json@),
            r matches Some(e) ==> e@.json == json@ && nostr_event_id(json@) == Some(e@.id),
    {
        let canonical = match canonical_nostr_json(json.as_slice()) {
            Some(c) => c,
            None => return None,
        };
        if !bytes_eq(canonical.as_slice(), json.as_slice()) {
            return None;
        }
        let carried = match parse_nostr_event(json.as_slice()) {
            Some(id) => id,
            None => return None,
        };
        let computed = match recompute_nostr_event_id(json.as_slice()) {
            Some(id) => id,
            None => return None,
        };
        if !bytes32_eq(&carried, &computed) {
            return None;
        }
        Some(Event { json, id: EventId { bytes: carried } })
    }

    /// Reads an event from any JSON text of it, keeping its canonical
    /// rendering.
    pub fn from_json(json: Vec<u8>) -> (r: Option<Event>)
        ensures
            r is Some <==> (nostr_canonical_json(json@) matches Some(c) && canonical_event_text(c)),
            r matches Some(e) ==> nostr_canonical_json(json@) == Some(e@.json) && nostr_event_id(
                e@.json,
            ) == Some(e@.id),
    {
        match canonical_nostr_json(json.as_slice()) {
            Some(c) => Event::from_canonical(c),
            None => None,
        }
    }

    /// The event's id; its text is canonical and carries that id, which its
    /// content gives.
    pub fn id(&self) -> (r: EventId)
        ensures
            r@ == self@.id,
            canonical_event_text(self@.json),
            nostr_event_id(self@.json) == Some(r@),
    {
        proof {
            use_type_invariant(self);
        }
        self.id
    }

    pub fn json(&self) -> (r: &Vec<u8>)
        ensures
            r@ == self@.json,
    {
        &self.json
    }

    /// A copy of the event.
    pub fn copy(&self) -> (r: Event)
        ensures
            r@ == self@,
    {
        proof {
            use_type_invariant(self);
        }
        let json = self.json.clone();
        assert(json@ =~= self.json@);
        Event { json, id: self.id }
    }
}

} // verus!
