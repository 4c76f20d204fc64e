//! Partial effect records and the response merge.
//!
//! Every module invocation yields a partial effect record: emitted events,
//! key/value attributes, outbound messages for the host to run after commit,
//! and optional opaque return data.  A composite operation merges the records
//! of its modules, in invocation order, into the one response handed back to
//! the host: attributes, events and messages are concatenated; the opaque
//! data channel is deliberately last-writer-wins, so the merged response
//! exposes only the last module's data.
use vstd::prelude::*;

use crate::types::Coin;

verus! {

/// One emitted key/value pair.
#[derive(Debug, PartialEq, Eq)]
pub struct Attribute {
    pub key: String,
    pub value: String,
}

impl Clone for Attribute {
    fn clone(&self) -> (res: Self)
        ensures
            res == *self,
    {
        Attribute { key: self.key.clone(), value: self.value.clone() }
    }
}

/// One emitted event: a type tag plus attributes.
#[derive(Debug, PartialEq, Eq)]
pub struct Event {
    pub ty: String,
    pub attributes: Vec<Attribute>,
}

/// A request queued for the host to execute after the call commits.
#[derive(Debug, PartialEq, Eq)]
pub enum OutboundMsg {
    /// Forward funds to an address.
    Send { to_address: String, amount: Vec<Coin> },
    /// Ask the hub contract to record `seat` as its seat contract.
    RegisterSeat { hub: String, seat: String },
}

/// The effects of one call, or the partial effects of one module invocation.
#[derive(Debug, PartialEq, Eq)]
pub struct Response {
    pub events: Vec<Event>,
    pub attributes: Vec<Attribute>,
    pub messages: Vec<OutboundMsg>,
    pub data: Option<String>,
}

impl Response {
    /// An empty effect record.
    pub fn new() -> (r: Response)
        ensures
            r.events@.len() == 0,
            r.attributes@.len() == 0,
            r.messages@.len() == 0,
            r.data is None,
    {
        Response { events: Vec::new(), attributes: Vec::new(), messages: Vec::new(), data: None }
    }
}

/// A partial effect record with no effects at all.
pub open spec fn empty_effects(r: Response) -> bool {
    &&& r.events@.len() == 0
    &&& r.attributes@.len() == 0
    &&& r.messages@.len() == 0
    &&& r.data is None
}

/// All events of a sequence of partial records, in record order.
pub open spec fn all_events(parts: Seq<Response>) -> Seq<Event>
    decreases parts.len(),
{
    if parts.len() == 0 {
        Seq::empty()
    } else {
        parts[0].events@ + all_events(parts.skip(1))
    }
}

/// All attributes of a sequence of partial records, in record order.
pub open spec fn all_attributes(parts: Seq<Response>) -> Seq<Attribute>
    decreases parts.len(),
{
    if parts.len() == 0 {
        Seq::empty()
    } else {
        parts[0].attributes@ + all_attributes(parts.skip(1))
    }
}

/// All outbound messages of a sequence of partial records, in record order.
pub open spec fn all_messages(parts: Seq<Response>) -> Seq<OutboundMsg>
    decreases parts.len(),
{
    if parts.len() == 0 {
        Seq::empty()
    } else {
        parts[0].messages@ + all_messages(parts.skip(1))
    }
}

/// The data channel after the merge: each record overwrites it, so the last
/// record wins; with no records the base response's data stands.
pub open spec fn merged_data(base: Option<String>, parts: Seq<Response>) -> Option<String> {
    if parts.len() == 0 {
        base
    } else {
        parts.last().data
    }
}

/// A sequence of effect-free partial records merges to nothing.
pub proof fn lemma_all_empty(parts: Seq<Response>)
    requires
        forall|i: int| 0 <= i < parts.len() ==> empty_effects(#[trigger] parts[i]),
    ensures
        all_events(parts).len() == 0,
        all_attributes(parts).len() == 0,
        all_messages(parts).len() == 0,
        parts.len() > 0 ==> merged_data(None::<String>, parts) is None,
    decreases parts.len(),
{
    if parts.len() > 0 {
        assert(forall|i: int|
            0 <= i < parts.skip(1).len() ==> empty_effects(#[trigger] parts.skip(1)[i]));
        lemma_all_empty(parts.skip(1));
    }
}

/// Merges the partial effect records of a composite operation into one
/// response: events, attributes and messages are concatenated in record
/// order after the base response's own; the data channel is overwritten by
/// each record in turn (last writer wins).
pub fn merge_responses(base: Response, parts: Vec<Response>) -> (r: Response)
    ensures
        r.events@ == base.events@ + all_events(parts@),
        r.attributes@ == base.attributes@ + all_attributes(parts@),
        r.messages@ == base.messages@ + all_messages(parts@),
        r.data == merged_data(base.data, parts@),
{
    let ghost orig_parts: Seq<Response> = parts@;
    let mut r = base;
    let mut rest = parts;
    proof {
        assert(r.events@ + all_events(rest@) =~= r.events@ + all_events(orig_parts));
    }
    while rest.len() > 0
        invariant
            r.events@ + all_events(rest@) == base.events@ + all_events(orig_parts),
            r.attributes@ + all_attributes(rest@) == base.attributes@ + all_attributes(orig_parts),
            r.messages@ + all_messages(rest@) == base.messages@ + all_messages(orig_parts),
            merged_data(r.data, rest@) == merged_data(base.data, orig_parts),
        decreases rest@.len(),
    {
        let ghost before: Seq<Response> = rest@;
        let mut p = rest.remove(0);
        let ghost p0: Response = p;
        proof {
            assert(rest@ =~= before.skip(1));
            assert(all_events(before) == p.events@ + all_events(rest@));
            assert(all_attributes(before) == p.attributes@ + all_attributes(rest@));
            assert(all_messages(before) == p.messages@ + all_messages(rest@));
        }
        let ghost r_events: Seq<Event> = r.events@;
        let ghost r_attributes: Seq<Attribute> = r.attributes@;
        let ghost r_messages: Seq<OutboundMsg> = r.messages@;
        r.events.append(&mut p.events);
        r.attributes.append(&mut p.attributes);
        r.messages.append(&mut p.messages);
        r.data = p.data;
        proof {
            assert(r.events@ + all_events(rest@) =~= r_events + all_events(before));
            assert(r.attributes@ + all_attributes(rest@) =~= r_attributes + all_attributes(before));
            assert(r.messages@ + all_messages(rest@) =~= r_messages + all_messages(before));
            if rest@.len() == 0 {
                assert(before.last() == p0);
                assert(r.data == p0.data);
            } else {
                assert(before.last() == rest@.last());
            }
        }
    }
    proof {
        assert(r.events@ + all_events(rest@) =~= r.events@);
        assert(r.attributes@ + all_attributes(rest@) =~= r.attributes@);
        assert(r.messages@ + all_messages(rest@) =~= r.messages@);
    }
    r
}

} // verus!
