//! Laws of the dispatcher that relate whole runs rather than single calls:
//! what the emitted records may depend on, and why the two body-acquisition
//! strategies cannot be told apart.

use vstd::prelude::*;
use crate::dispatch::{outcome_view, spec_dispatch, spec_emissions, spec_ingest, PayloadError};
use crate::model::{BatchView, EventBatch, EventView};

verus! {

/// Only the first event of each entry is reflected in the emitted
/// observability records: two entry sequences that agree, entry by entry,
/// on whether the entry is empty and on its first event produce the same
/// records, whatever later events each entry carries.
pub proof fn lemma_first_event_only(e1: Seq<Seq<EventView>>, e2: Seq<Seq<EventView>>)
    requires
        e1.len() == e2.len(),
        forall|i: int| 0 <= i < e1.len() ==> ((#[trigger] e1[i]).len() == 0 <==> e2[i].len() == 0),
        forall|i: int|
            0 <= i < e1.len() && (#[trigger] e1[i]).len() > 0 ==> e1[i][0] == e2[i][0],
    ensures
        spec_emissions(e1) == spec_emissions(e2),
    decreases e1.len(),
{
    if e1.len() > 0 {
        assert forall|i: int| 0 <= i < e1.drop_last().len() implies ((#[trigger] e1.drop_last()[i]).len()
            == 0 <==> e2.drop_last()[i].len() == 0) by {
            assert(e1.drop_last()[i] == e1[i]);
            assert(e2.drop_last()[i] == e2[i]);
        }
        assert forall|i: int|
            0 <= i < e1.drop_last().len() && (#[trigger] e1.drop_last()[i]).len() > 0 implies e1.drop_last()[i][0]
            == e2.drop_last()[i][0] by {
            assert(e1.drop_last()[i] == e1[i]);
            assert(e2.drop_last()[i] == e2[i]);
        }
        lemma_first_event_only(e1.drop_last(), e2.drop_last());
        assert(e1.last() == e1[e1.len() - 1]);
        assert(e2.last() == e2[e2.len() - 1]);
    }
}

/// The same law lifted to whole batches: a batch's outcome depends only on
/// its object kind and on each entry's emptiness and first event.
pub proof fn lemma_later_events_ignored(b1: BatchView, b2: BatchView)
    requires
        b1.object == b2.object,
        b1.entries.len() == b2.entries.len(),
        forall|i: int|
            0 <= i < b1.entries.len() ==> ((#[trigger] b1.entries[i]).len() == 0
                <==> b2.entries[i].len() == 0),
        forall|i: int|
            0 <= i < b1.entries.len() && (#[trigger] b1.entries[i]).len() > 0 ==> b1.entries[i][0]
                == b2.entries[i][0],
    ensures
        spec_dispatch(b1) == spec_dispatch(b2),
{
    lemma_first_event_only(b1.entries, b2.entries);
}

/// Both body-acquisition strategies answer through the same ingestion
/// logic, and that logic is a function of the decoding outcome alone: two
/// outcomes that agree as values — as byte-identical inputs decode to —
/// are owed identical responses and records.
pub proof fn lemma_strategy_agreement(
    a: Result<EventBatch, PayloadError>,
    b: Result<EventBatch, PayloadError>,
)
    requires
        outcome_view(a) == outcome_view(b),
    ensures
        spec_ingest(outcome_view(a)) == spec_ingest(outcome_view(b)),
{
}

} // verus!
