//! Properties of a reconciliation pass and of the sync association that hold
//! for every input.
use vstd::prelude::*;

use crate::model::{EngineSyncAssociation, EnrollmentRecord, IncomingContent, IncomingRecord};
use crate::store::{assoc_of, Database};
use crate::sync_impl::{accepted_records, put_records, reset_store};

verus! {

/// The device ids under which `recs` are written.
pub open spec fn written_keys(recs: Seq<EnrollmentRecord>) -> Set<Seq<char>> {
    recs.map_values(|r: EnrollmentRecord| r.id@).to_set()
}

proof fn lemma_accepted_concat(local_id: Seq<char>, a: Seq<IncomingRecord>, b: Seq<IncomingRecord>)
    ensures
        accepted_records(local_id, a + b) == accepted_records(local_id, a) + accepted_records(
            local_id,
            b,
        ),
    decreases b.len(),
{
    if b.len() == 0 {
        assert(a + b =~= a);
        assert(accepted_records(local_id, a) + accepted_records(local_id, b) =~= accepted_records(
            local_id,
            a,
        ));
    } else {
        assert((a + b).drop_last() =~= a + b.drop_last());
        assert((a + b).last() == b.last());
        lemma_accepted_concat(local_id, a, b.drop_last());
        let pa = accepted_records(local_id, a);
        let pb = accepted_records(local_id, b.drop_last());
        if let IncomingContent::Record(rec) = b.last().content {
            assert((pa + pb).push(rec) =~= pa + pb.push(rec));
        }
    }
}

/// A record whose envelope carries the local device id is never kept: taking
/// it out of a batch, wherever it stands, leaves the records that are written
/// the same.
pub proof fn law_own_record_ignored(
    local_id: Seq<char>,
    before: Seq<IncomingRecord>,
    own: IncomingRecord,
    after: Seq<IncomingRecord>,
)
    requires
        own.id@ == local_id,
    ensures
        accepted_records(local_id, before + seq![own] + after) == accepted_records(
            local_id,
            before + after,
        ),
{
    lemma_accepted_concat(local_id, before + seq![own], after);
    lemma_accepted_concat(local_id, before, seq![own]);
    lemma_accepted_concat(local_id, before, after);
    assert(seq![own].drop_last() =~= Seq::<IncomingRecord>::empty());
    assert(seq![own].last() == own);
    assert(accepted_records(local_id, Seq::<IncomingRecord>::empty()) =~= Seq::<EnrollmentRecord>::empty());
    assert(accepted_records(local_id, seq![own]) =~= Seq::<EnrollmentRecord>::empty());
    assert(accepted_records(local_id, before) + accepted_records(local_id, seq![own])
        =~= accepted_records(local_id, before));
}

/// Every record that is written is the content of a record of the batch whose
/// envelope carries another device's id.
pub proof fn law_written_records_are_foreign(local_id: Seq<char>, inbound: Seq<IncomingRecord>)
    ensures
        forall|i: int| 0 <= i < accepted_records(local_id, inbound).len() ==>
            exists|j: int| 0 <= j < inbound.len() && inbound[j].id@ != local_id
                && inbound[j].content == IncomingContent::Record(
                #[trigger] accepted_records(local_id, inbound)[i],
            ),
    decreases inbound.len(),
{
    if inbound.len() > 0 {
        let t = inbound.drop_last();
        law_written_records_are_foreign(local_id, t);
        let acc = accepted_records(local_id, inbound);
        let prev = accepted_records(local_id, t);
        assert forall|i: int| 0 <= i < acc.len() implies exists|j: int|
            0 <= j < inbound.len() && inbound[j].id@ != local_id && inbound[j].content
                == IncomingContent::Record(#[trigger] acc[i]) by {
            if i < prev.len() {
                assert(acc[i] == prev[i]);
                let j = choose|j: int|
                    0 <= j < t.len() && t[j].id@ != local_id && t[j].content
                        == IncomingContent::Record(prev[i]);
                assert(inbound[j] == t[j]);
            } else {
                assert(inbound[inbound.len() - 1] == inbound.last());
            }
        }
    }
}

/// A batch that holds no decoded record from another device, an empty batch
/// among them, has nothing to write.
pub proof fn law_nothing_to_write(local_id: Seq<char>, inbound: Seq<IncomingRecord>)
    requires
        forall|i: int| #![auto] 0 <= i < inbound.len() ==> inbound[i].id@ == local_id
            || !(inbound[i].content is Record),
    ensures
        accepted_records(local_id, inbound).len() == 0,
    decreases inbound.len(),
{
    if inbound.len() > 0 {
        let t = inbound.drop_last();
        assert forall|i: int| #![auto] 0 <= i < t.len() implies t[i].id@ == local_id
            || !(t[i].content is Record) by {
            assert(t[i] == inbound[i]);
        }
        law_nothing_to_write(local_id, t);
        assert(inbound.last() == inbound[inbound.len() - 1]);
    }
}

proof fn lemma_accepted_all(local_id: Seq<char>, inbound: Seq<IncomingRecord>)
    requires
        forall|i: int| #![auto] 0 <= i < inbound.len() ==> inbound[i].content is Record
            && inbound[i].id@ != local_id,
    ensures
        accepted_records(local_id, inbound) == inbound.map_values(
            |r: IncomingRecord| r.content->Record_0,
        ),
    decreases inbound.len(),
{
    if inbound.len() > 0 {
        let t = inbound.drop_last();
        assert forall|i: int| #![auto] 0 <= i < t.len() implies t[i].content is Record
            && t[i].id@ != local_id by {
            assert(t[i] == inbound[i]);
        }
        lemma_accepted_all(local_id, t);
        assert(inbound.last() == inbound[inbound.len() - 1]);
        assert(inbound.map_values(|r: IncomingRecord| r.content->Record_0) =~= t.map_values(
            |r: IncomingRecord| r.content->Record_0,
        ).push(inbound.last().content->Record_0));
    }
}

proof fn lemma_put_distinct(m: Map<Seq<char>, EnrollmentRecord>, recs: Seq<EnrollmentRecord>)
    requires
        forall|i: int, j: int| 0 <= i < recs.len() && 0 <= j < recs.len() && i != j
            ==> recs[i].id@ != recs[j].id@,
    ensures
        forall|i: int| #![auto] 0 <= i < recs.len() ==> put_records(m, recs).contains_key(
            recs[i].id@,
        ) && put_records(m, recs)[recs[i].id@] == recs[i],
        forall|k: Seq<char>| (forall|i: int| 0 <= i < recs.len() ==> recs[i].id@ != k) ==> (
        #[trigger] put_records(m, recs).contains_key(k) == m.contains_key(k) && (m.contains_key(k)
            ==> put_records(m, recs)[k] == m[k])),
    decreases recs.len(),
{
    if recs.len() > 0 {
        let t = recs.drop_last();
        assert forall|i: int, j: int| 0 <= i < t.len() && 0 <= j < t.len() && i != j implies t[i].id@
            != t[j].id@ by {
            assert(t[i] == recs[i] && t[j] == recs[j]);
        }
        lemma_put_distinct(m, t);
        let last = recs[recs.len() - 1];
        assert(recs.last() == last);
        assert forall|i: int| #![auto] 0 <= i < recs.len() implies put_records(m, recs).contains_key(
            recs[i].id@,
        ) && put_records(m, recs)[recs[i].id@] == recs[i] by {
            if i < recs.len() - 1 {
                assert(t[i] == recs[i]);
            }
        }
        assert forall|k: Seq<char>| (forall|i: int| 0 <= i < recs.len() ==> recs[i].id@ != k) implies (
        #[trigger] put_records(m, recs).contains_key(k) == m.contains_key(k) && (m.contains_key(k)
            ==> put_records(m, recs)[k] == m[k])) by {
            assert(recs[recs.len() - 1].id@ != k);
            assert forall|i: int| 0 <= i < t.len() implies t[i].id@ != k by {
                assert(t[i] == recs[i]);
            }
            assert(put_records(m, t).contains_key(k) == m.contains_key(k));
            assert(put_records(m, recs) == put_records(m, t).insert(last.id@, last));
        }
    }
}

/// Records from as many distinct other devices as the batch holds, each naming
/// its own device: every one is kept and written under its device id, that is
/// as many entries as records, and no other entry changes.
pub proof fn law_distinct_records_all_written(
    local_id: Seq<char>,
    inbound: Seq<IncomingRecord>,
    remote: Map<Seq<char>, EnrollmentRecord>,
)
    requires
        forall|i: int| #![auto] 0 <= i < inbound.len() ==> inbound[i].content is Record
            && inbound[i].id@ != local_id && inbound[i].content->Record_0.id@ == inbound[i].id@,
        forall|i: int, j: int| 0 <= i < inbound.len() && 0 <= j < inbound.len() && i != j
            ==> inbound[i].id@ != inbound[j].id@,
    ensures
        accepted_records(local_id, inbound).len() == inbound.len(),
        written_keys(accepted_records(local_id, inbound)).len() == inbound.len(),
        forall|i: int| #![auto] 0 <= i < inbound.len() ==> put_records(
            remote,
            accepted_records(local_id, inbound),
        ).contains_key(inbound[i].id@) && put_records(remote, accepted_records(local_id, inbound))[
        inbound[i].id@] == inbound[i].content->Record_0,
        forall|k: Seq<char>| (forall|i: int| 0 <= i < inbound.len() ==> inbound[i].id@ != k) ==> (
        put_records(remote, accepted_records(local_id, inbound)).contains_key(k)
            == remote.contains_key(k) && (remote.contains_key(k) ==> put_records(
            remote,
            accepted_records(local_id, inbound),
        )[k] == remote[k])),
{
    lemma_accepted_all(local_id, inbound);
    let acc = accepted_records(local_id, inbound);
    assert forall|i: int| #![auto] 0 <= i < acc.len() implies acc[i].id@ == inbound[i].id@
        && acc[i] == inbound[i].content->Record_0 by {}
    lemma_put_distinct(remote, acc);
    let keys = acc.map_values(|r: EnrollmentRecord| r.id@);
    assert(keys.no_duplicates()) by {
        assert forall|i: int, j: int| 0 <= i < keys.len() && 0 <= j < keys.len() && i != j
            implies keys[i] != keys[j] by {
            assert(keys[i] == acc[i].id@ && keys[j] == acc[j].id@);
            assert(acc[i].id@ == inbound[i].id@ && acc[j].id@ == inbound[j].id@);
        }
    }
    keys.unique_seq_to_set();
    assert forall|k: Seq<char>| (forall|i: int| 0 <= i < inbound.len() ==> inbound[i].id@ != k)
        implies (#[trigger] put_records(remote, acc).contains_key(k) == remote.contains_key(k) && (
    remote.contains_key(k) ==> put_records(remote, acc)[k] == remote[k])) by {
        assert forall|i: int| 0 <= i < acc.len() implies acc[i].id@ != k by {
            assert(acc[i].id@ == inbound[i].id@);
        }
    }
    assert forall|i: int| #![auto] 0 <= i < inbound.len() implies put_records(remote, acc).contains_key(
        inbound[i].id@,
    ) && put_records(remote, acc)[inbound[i].id@] == inbound[i].content->Record_0 by {
        assert(acc[i].id@ == inbound[i].id@);
    }
}

/// Resetting to an association and then reading it gives that association
/// back.
pub proof fn law_reset_then_get(db: Database, assoc: EngineSyncAssociation)
    ensures
        assoc_of(reset_store(db, assoc)) == assoc,
{
}

/// A store that holds only one of the two sync ids is disconnected.
pub proof fn law_partial_ids_disconnected(db: Database)
    requires
        db.global_sync_id is Some != db.collection_sync_id is Some,
    ensures
        assoc_of(db) == EngineSyncAssociation::Disconnected,
{
}

} // verus!
