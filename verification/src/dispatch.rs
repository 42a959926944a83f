//! The event dispatcher: validates a decoded batch, records each entry's
//! first messaging event for observability, and acknowledges receipt.

use vstd::prelude::*;
use vstd::string::StringExecFns;
use crate::model::{BatchView, EventBatch, EventView};
use crate::response::{Response, ResponseView, STATUS_BAD_REQUEST, STATUS_NOT_FOUND, STATUS_OK};
use crate::text::str_eq;

verus! {

/// Why a request body could not be turned into an [`EventBatch`]:
/// the byte stream failed, the bytes were not UTF-8, or the text did not
/// have the batch's structure.
#[derive(Clone, Copy, PartialEq, Eq, Structural, Debug)]
pub enum PayloadError {
    StreamFailed,
    InvalidUtf8,
    MalformedStructure,
}

/// One observability record: the sender and text of an extracted event.
pub struct Emission {
    pub sender: String,
    pub text: String,
}

/// Mathematical image of an [`Emission`].
pub ghost struct EmissionView {
    pub sender: Seq<char>,
    pub text: Seq<char>,
}

impl View for Emission {
    type V = EmissionView;

    open spec fn view(&self) -> EmissionView {
        EmissionView { sender: self.sender@, text: self.text@ }
    }
}

/// What dispatching produces: the response owed to the caller, and the
/// records handed to the observability sink. The records never influence
/// the response.
pub struct DispatchOutcome {
    pub response: Response,
    pub emitted: Vec<Emission>,
}

/// Mathematical image of a [`DispatchOutcome`].
pub ghost struct DispatchOutcomeView {
    pub response: ResponseView,
    pub emitted: Seq<EmissionView>,
}

impl View for DispatchOutcome {
    type V = DispatchOutcomeView;

    open spec fn view(&self) -> DispatchOutcomeView {
        DispatchOutcomeView {
            response: self.response@,
            emitted: self.emitted@.map_values(|e: Emission| e@),
        }
    }
}

/// The records a batch's entries give rise to: one per entry that carries
/// at least one event, built from that entry's FIRST event alone. Later
/// events in the same entry are deliberately ignored — the platform
/// delivers one event per entry in practice, and this mirrors that
/// reading of the wire format.
pub open spec fn spec_emissions(entries: Seq<Seq<EventView>>) -> Seq<EmissionView>
    decreases entries.len(),
{
    if entries.len() == 0 {
        Seq::empty()
    } else {
        let init = spec_emissions(entries.drop_last());
        let last = entries.last();
        if last.len() > 0 {
            init.push(EmissionView { sender: last[0].sender, text: last[0].message.text })
        } else {
            init
        }
    }
}

/// The outcome a batch is owed: the fixed acknowledgment and the entries'
/// records when the batch comes from a page subscription, a bare
/// not-applicable denial otherwise.
pub open spec fn spec_dispatch(b: BatchView) -> DispatchOutcomeView {
    if b.object == "page"@ {
        DispatchOutcomeView {
            response: ResponseView { status: STATUS_OK as int, body: "EVENT_RECEIVED"@ },
            emitted: spec_emissions(b.entries),
        }
    } else {
        DispatchOutcomeView {
            response: ResponseView { status: STATUS_NOT_FOUND as int, body: Seq::<char>::empty() },
            emitted: Seq::empty(),
        }
    }
}

/// Validates and acknowledges a decoded event batch.
pub fn dispatch(batch: &EventBatch) -> (r: DispatchOutcome)
    ensures
        r@ == spec_dispatch(batch@),
{
    if str_eq(batch.object.as_str(), "page") {
        let ghost entries = batch@.entries;
        let mut emitted: Vec<Emission> = Vec::new();
        let mut i: usize = 0;
        proof {
            assert(emitted@.map_values(|e: Emission| e@) =~= spec_emissions(entries.take(0)));
        }
        while i < batch.entry.len()
            invariant
                i <= batch.entry.len(),
                entries == batch@.entries,
                entries.len() == batch.entry@.len(),
                emitted@.map_values(|e: Emission| e@) == spec_emissions(entries.take(i as int)),
            decreases batch.entry.len() - i,
        {
            let entry = &batch.entry[i];
            if entry.messaging.len() > 0 {
                let ev = &entry.messaging[0];
                let ghost before = emitted@;
                emitted.push(
                    Emission { sender: ev.sender.id.clone(), text: ev.message.text.clone() },
                );
                proof {
                    assert(emitted@.map_values(|e: Emission| e@) =~= before.map_values(
                        |e: Emission| e@,
                    ).push(emitted@.last()@));
                }
            }
            i += 1;
            proof {
                assert(entries.take(i as int).drop_last() =~= entries.take(i as int - 1));
                assert(entries.take(i as int).last() == entries[i as int - 1]);
            }
        }
        proof {
            assert(entries.take(batch.entry@.len() as int) =~= entries);
        }
        DispatchOutcome {
            response: Response::ok(String::from_str("EVENT_RECEIVED")),
            emitted,
        }
    } else {
        let r = DispatchOutcome { response: Response::empty(STATUS_NOT_FOUND), emitted: Vec::new() };
        proof {
            assert(r.emitted@.map_values(|e: Emission| e@) =~= Seq::<EmissionView>::empty());
        }
        r
    }
}

/// The outcome body acquisition is owed once decoding is done: the
/// dispatcher's outcome when a batch was decoded, and a client-error
/// response — with nothing emitted — when the body could not be decoded.
/// A malformed body never takes the receiver down; it is answered like
/// any other request.
pub open spec fn spec_ingest(o: Result<BatchView, PayloadError>) -> DispatchOutcomeView {
    match o {
        Ok(b) => spec_dispatch(b),
        Err(_) => DispatchOutcomeView {
            response: ResponseView {
                status: STATUS_BAD_REQUEST as int,
                body: Seq::<char>::empty(),
            },
            emitted: Seq::empty(),
        },
    }
}

/// Mathematical image of a decoding outcome.
pub open spec fn outcome_view(o: Result<EventBatch, PayloadError>) -> Result<
    BatchView,
    PayloadError,
> {
    match o {
        Ok(b) => Ok(b@),
        Err(e) => Err(e),
    }
}

/// Answers a decoding outcome: both body-acquisition strategies feed their
/// result through this single function.
pub fn ingest(outcome: Result<EventBatch, PayloadError>) -> (r: DispatchOutcome)
    ensures
        r@ == spec_ingest(outcome_view(outcome)),
{
    match outcome {
        Ok(batch) => dispatch(&batch),
        Err(_) => {
            let r = DispatchOutcome {
                response: Response::empty(STATUS_BAD_REQUEST),
                emitted: Vec::new(),
            };
            proof {
                assert(r.emitted@.map_values(|e: Emission| e@) =~= Seq::<EmissionView>::empty());
            }
            r
        },
    }
}

} // verus!
