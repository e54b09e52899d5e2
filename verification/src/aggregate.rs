//! The result aggregator: grouping of recovered key records by room and
//! construction of the two output documents.  Pure code: no store access.

use vstd::prelude::*;

use crate::data::{ExportedKeyData, ExtractionOutput, FailedSession, FailedSessionsOutput,
    KeyRecordView};

verus! {

/// The ghost images of a sequence of key records.
pub open spec fn views_of(s: Seq<ExportedKeyData>) -> Seq<KeyRecordView> {
    s.map_values(|k: ExportedKeyData| k@)
}

/// The records of `s` that belong to `room`, in order.
pub open spec fn room_bucket(s: Seq<KeyRecordView>, room: Seq<char>) -> Seq<KeyRecordView> {
    s.filter(|k: KeyRecordView| k.room_id == room)
}

/// The distinct room ids of `s`, in first-seen order.
pub open spec fn rooms_of(s: Seq<KeyRecordView>) -> Seq<Seq<char>>
    decreases s.len(),
{
    if s.len() == 0 {
        Seq::<Seq<char>>::empty()
    } else {
        let prior = rooms_of(s.drop_last());
        if prior.contains(s.last().room_id) {
            prior
        } else {
            prior.push(s.last().room_id)
        }
    }
}

/// What `organize_keys` promises of its document: version one, exact
/// counts, the flat list unchanged, one bucket per distinct room in
/// first-seen order, and every bucket holding exactly the records of its
/// room in order.
pub open spec fn organized(keys: Seq<ExportedKeyData>, failed_count: int, doc: ExtractionOutput) -> bool {
    let kv = views_of(keys);
    &&& doc.version == 1
    &&& doc.total_keys == keys.len()
    &&& doc.failed_keys == failed_count
    &&& doc.all_keys@ == keys
    &&& doc.keys_by_room@.map_values(|b: (String, Vec<ExportedKeyData>)| b.0@) == rooms_of(kv)
    &&& forall|i: int| 0 <= i < doc.keys_by_room@.len() ==>
            views_of((#[trigger] doc.keys_by_room@[i]).1@)
                == room_bucket(kv, doc.keys_by_room@[i].0@)
}

/// Filtering one more element keeps the prior result and appends the
/// element exactly when it satisfies the predicate.
proof fn lemma_filter_push<A>(s: Seq<A>, pred: spec_fn(A) -> bool, x: A)
    ensures
        s.push(x).filter(pred) == if pred(x) {
            s.filter(pred).push(x)
        } else {
            s.filter(pred)
        },
{
    reveal(Seq::filter);
    assert(s.push(x).drop_last() =~= s);
    assert(s.push(x).last() == x);
}

/// Extending the records by one keeps the prior room list and appends
/// the new record's room exactly when it is not yet present.
proof fn lemma_rooms_push(s: Seq<KeyRecordView>, x: KeyRecordView)
    ensures
        rooms_of(s.push(x)) == if rooms_of(s).contains(x.room_id) {
            rooms_of(s)
        } else {
            rooms_of(s).push(x.room_id)
        },
{
    assert(s.push(x).drop_last() =~= s);
    assert(s.push(x).last() == x);
}

/// The room list holds no room twice.
proof fn lemma_rooms_distinct(s: Seq<KeyRecordView>)
    ensures
        forall|i: int, j: int|
            0 <= i < j < rooms_of(s).len() ==> rooms_of(s)[i] != rooms_of(s)[j],
    decreases s.len(),
{
    if s.len() > 0 {
        lemma_rooms_distinct(s.drop_last());
        let prior = rooms_of(s.drop_last());
        if !prior.contains(s.last().room_id) {
            assert forall|i: int, j: int|
                0 <= i < j < rooms_of(s).len() implies rooms_of(s)[i] != rooms_of(s)[j] by {
                if j == rooms_of(s).len() - 1 {
                    assert(prior[i] == rooms_of(s)[i]);
                    assert(!prior.contains(rooms_of(s)[j]));
                }
            }
        }
    }
}

/// Every record's room appears in the room list.
proof fn lemma_rooms_complete(s: Seq<KeyRecordView>, i: int)
    requires
        0 <= i < s.len(),
    ensures
        rooms_of(s).contains(s[i].room_id),
    decreases s.len(),
{
    let prior = rooms_of(s.drop_last());
    if i == s.len() - 1 {
        if !prior.contains(s.last().room_id) {
            assert(rooms_of(s)[rooms_of(s).len() - 1] == s[i].room_id);
        }
    } else {
        lemma_rooms_complete(s.drop_last(), i);
        assert(s.drop_last()[i] == s[i]);
        let j = choose|j: int| 0 <= j < prior.len() && prior[j] == s[i].room_id;
        if prior.contains(s.last().room_id) {
            assert(rooms_of(s)[j] == s[i].room_id);
        } else {
            assert(rooms_of(s)[j] == s[i].room_id);
        }
    }
}

/// A room absent from the room list has no records, so its bucket is empty.
proof fn lemma_absent_room_bucket_empty(s: Seq<KeyRecordView>, room: Seq<char>)
    requires
        !rooms_of(s).contains(room),
    ensures
        room_bucket(s, room) == Seq::<KeyRecordView>::empty(),
    decreases s.len(),
{
    reveal(Seq::filter);
    if s.len() > 0 {
        assert(rooms_of(s.drop_last()).len() <= rooms_of(s).len());
        if rooms_of(s.drop_last()).contains(room) {
            let j = choose|j: int|
                0 <= j < rooms_of(s.drop_last()).len() && rooms_of(s.drop_last())[j] == room;
            assert(rooms_of(s)[j] == room);
            assert(false);
        }
        lemma_absent_room_bucket_empty(s.drop_last(), room);
        if s.last().room_id == room {
            lemma_rooms_complete(s, s.len() - 1);
            assert(false);
        }
    }
}

/// Looks up the bucket of `room`, if one exists.
fn find_bucket(buckets: &Vec<(String, Vec<ExportedKeyData>)>, room: &String) -> (res: Option<
    usize,
>)
    ensures
        match res {
            Some(idx) => idx < buckets@.len() && buckets@[idx as int].0@ == room@,
            None => forall|j: int| 0 <= j < buckets@.len() ==> (#[trigger] buckets@[j]).0@ != room@,
        },
{
    let mut j: usize = 0;
    while j < buckets.len()
        invariant
            j <= buckets.len(),
            forall|t: int| 0 <= t < j ==> (#[trigger] buckets@[t]).0@ != room@,
        decreases buckets.len() - j,
    {
        if buckets[j].0 == *room {
            return Some(j);
        }
        j = j + 1;
    }
    None
}

/// Groups the recovered keys by room and builds the output document:
/// version one, the given counts, the flat list unchanged, and one
/// bucket per room holding exactly that room's records in order.
pub fn organize_keys(keys: Vec<ExportedKeyData>, failed_count: usize) -> (doc: ExtractionOutput)
    ensures
        organized(keys@, failed_count as int, doc),
{
    let mut buckets: Vec<(String, Vec<ExportedKeyData>)> = Vec::new();
    let mut i: usize = 0;
    proof {
        assert(views_of(keys@.subrange(0, 0)) =~= Seq::<KeyRecordView>::empty());
        assert(buckets@.map_values(|b: (String, Vec<ExportedKeyData>)| b.0@)
            =~= rooms_of(views_of(keys@.subrange(0, 0))));
    }
    while i < keys.len()
        invariant
            i <= keys.len(),
            buckets@.map_values(|b: (String, Vec<ExportedKeyData>)| b.0@)
                == rooms_of(views_of(keys@.subrange(0, i as int))),
            forall|b: int| 0 <= b < buckets@.len() ==>
                views_of((#[trigger] buckets@[b]).1@)
                    == room_bucket(views_of(keys@.subrange(0, i as int)), buckets@[b].0@),
        decreases keys.len() - i,
    {
        let ghost prefix = views_of(keys@.subrange(0, i as int));
        let ghost kv = keys@[i as int]@;
        let ghost old_buckets = buckets@;
        let record = keys[i].clone();
        let slot = find_bucket(&buckets, &keys[i].room_id);
        match slot {
            Some(idx) => {
                let mut pair = buckets.remove(idx);
                pair.1.push(record);
                buckets.insert(idx, pair);
                proof {
                    assert(buckets@ =~= old_buckets.update(
                        idx as int,
                        (old_buckets[idx as int].0, buckets@[idx as int].1),
                    ));
                }
            },
            None => {
                let mut fresh: Vec<ExportedKeyData> = Vec::new();
                fresh.push(record);
                let label = keys[i].room_id.clone();
                buckets.push((label, fresh));
            },
        }
        proof {
            let next = views_of(keys@.subrange(0, i + 1));
            assert(next =~= prefix.push(kv)) by {
                assert(keys@.subrange(0, i + 1)
                    =~= keys@.subrange(0, i as int).push(keys@[i as int]));
            }
            lemma_rooms_push(prefix, kv);
            lemma_rooms_distinct(prefix);
            match slot {
                Some(idx) => {
                    assert(old_buckets.map_values(
                        |b: (String, Vec<ExportedKeyData>)| b.0@)[idx as int]
                        == old_buckets[idx as int].0@);
                    assert(rooms_of(prefix).contains(kv.room_id));
                    assert(buckets@.map_values(|b: (String, Vec<ExportedKeyData>)| b.0@)
                        =~= rooms_of(next));
                    assert forall|b: int| 0 <= b < buckets@.len() implies
                        views_of((#[trigger] buckets@[b]).1@)
                            == room_bucket(next, buckets@[b].0@) by {
                        lemma_filter_push(
                            prefix,
                            |k: KeyRecordView| k.room_id == buckets@[b].0@,
                            kv,
                        );
                        if b == idx {
                            assert(views_of(buckets@[b].1@)
                                =~= views_of(old_buckets[b].1@).push(kv));
                        } else {
                            assert(rooms_of(prefix)[b] == old_buckets[b].0@);
                            assert(rooms_of(prefix)[idx as int] == old_buckets[idx as int].0@);
                            assert(buckets@[b].0@ != kv.room_id);
                        }
                    }
                },
                None => {
                    if rooms_of(prefix).contains(kv.room_id) {
                        let j = choose|j: int|
                            0 <= j < rooms_of(prefix).len() && rooms_of(prefix)[j] == kv.room_id;
                        assert(old_buckets.map_values(
                            |b: (String, Vec<ExportedKeyData>)| b.0@)[j]
                            == old_buckets[j].0@);
                        assert(false);
                    }
                    assert(buckets@.map_values(|b: (String, Vec<ExportedKeyData>)| b.0@)
                        =~= rooms_of(next));
                    assert forall|b: int| 0 <= b < buckets@.len() implies
                        views_of((#[trigger] buckets@[b]).1@)
                            == room_bucket(next, buckets@[b].0@) by {
                        lemma_filter_push(
                            prefix,
                            |k: KeyRecordView| k.room_id == buckets@[b].0@,
                            kv,
                        );
                        if b == buckets@.len() - 1 {
                            lemma_absent_room_bucket_empty(prefix, kv.room_id);
                            assert(views_of(buckets@[b].1@) =~= seq![kv]);
                            assert(room_bucket(prefix, kv.room_id).push(kv) =~= seq![kv]);
                        } else {
                            assert(buckets@[b] == old_buckets[b]);
                            assert(old_buckets[b].0@ != kv.room_id);
                        }
                    }
                },
            }
        }
        i = i + 1;
    }
    proof {
        assert(keys@.subrange(0, keys@.len() as int) =~= keys@);
    }
    let total = keys.len();
    ExtractionOutput {
        version: 1,
        total_keys: total,
        failed_keys: failed_count,
        keys_by_room: buckets,
        all_keys: keys,
    }
}

/// Builds the failure document from the failure records of one run.
pub fn build_failed_output(failures: Vec<FailedSession>) -> (doc: FailedSessionsOutput)
    ensures
        doc.total_failed == failures@.len(),
        doc.sessions@ == failures@,
{
    let total = failures.len();
    FailedSessionsOutput { total_failed: total, sessions: failures }
}

/// Law: in an organized document every key of the flat list appears in
/// the bucket keyed by its own room id, and in no other bucket.
pub proof fn lemma_keys_by_room_partition(
    keys: Seq<ExportedKeyData>,
    failed_count: int,
    doc: ExtractionOutput,
    j: int,
)
    requires
        organized(keys, failed_count, doc),
        0 <= j < doc.all_keys@.len(),
    ensures
        exists|b: int|
            0 <= b < doc.keys_by_room@.len()
                && (#[trigger] doc.keys_by_room@[b]).0@ == doc.all_keys@[j]@.room_id
                && views_of(doc.keys_by_room@[b].1@).contains(doc.all_keys@[j]@),
        forall|b: int|
            0 <= b < doc.keys_by_room@.len()
                && (#[trigger] doc.keys_by_room@[b]).0@ != doc.all_keys@[j]@.room_id
                ==> !views_of(doc.keys_by_room@[b].1@).contains(doc.all_keys@[j]@),
{
    let kv = views_of(keys);
    let rooms = doc.keys_by_room@.map_values(|b: (String, Vec<ExportedKeyData>)| b.0@);
    assert(doc.all_keys@[j]@ == kv[j]);
    lemma_rooms_complete(kv, j);
    let b0 = choose|b: int| 0 <= b < rooms.len() && rooms[b] == kv[j].room_id;
    assert(rooms[b0] == doc.keys_by_room@[b0].0@);
    kv.lemma_filter_contains(|k: KeyRecordView| k.room_id == kv[j].room_id, j);
    assert(doc.keys_by_room@[b0].0@ == kv[j].room_id
        && views_of(doc.keys_by_room@[b0].1@).contains(kv[j]));
    assert forall|b: int|
        0 <= b < doc.keys_by_room@.len()
            && (#[trigger] doc.keys_by_room@[b]).0@ != doc.all_keys@[j]@.room_id
            implies !views_of(doc.keys_by_room@[b].1@).contains(doc.all_keys@[j]@) by {
        let bucket = room_bucket(kv, doc.keys_by_room@[b].0@);
        if bucket.contains(kv[j]) {
            let t = choose|t: int| 0 <= t < bucket.len() && bucket[t] == kv[j];
            kv.lemma_filter_pred(|k: KeyRecordView| k.room_id == doc.keys_by_room@[b].0@, t);
            assert(false);
        }
    }
}

/// Combined size of the buckets of `rooms`, taken over `kv`.
pub open spec fn room_total(kv: Seq<KeyRecordView>, rooms: Seq<Seq<char>>) -> int
    decreases rooms.len(),
{
    if rooms.len() == 0 {
        0
    } else {
        room_total(kv, rooms.drop_last()) + room_bucket(kv, rooms.last()).len()
    }
}

/// Combined size of a document's buckets.
pub open spec fn buckets_len_sum(buckets: Seq<(String, Vec<ExportedKeyData>)>) -> int
    decreases buckets.len(),
{
    if buckets.len() == 0 {
        0
    } else {
        buckets_len_sum(buckets.drop_last()) + buckets.last().1@.len()
    }
}

/// One more record grows the combined bucket size of a distinct room
/// list by one exactly when its room is listed.
proof fn lemma_room_total_push(kv: Seq<KeyRecordView>, x: KeyRecordView, rooms: Seq<Seq<char>>)
    requires
        forall|i: int, j: int| 0 <= i < j < rooms.len() ==> rooms[i] != rooms[j],
    ensures
        room_total(kv.push(x), rooms) == room_total(kv, rooms) + if rooms.contains(x.room_id) {
            1int
        } else {
            0int
        },
    decreases rooms.len(),
{
    if rooms.len() > 0 {
        let head = rooms.drop_last();
        let last = rooms.last();
        lemma_room_total_push(kv, x, head);
        lemma_filter_push(kv, |k: KeyRecordView| k.room_id == last, x);
        if last == x.room_id {
            if head.contains(x.room_id) {
                let j = choose|j: int| 0 <= j < head.len() && head[j] == x.room_id;
                assert(rooms[j] == rooms[rooms.len() - 1]);
                assert(false);
            }
            assert(rooms[rooms.len() - 1] == x.room_id);
        } else {
            if rooms.contains(x.room_id) {
                let j = choose|j: int| 0 <= j < rooms.len() && rooms[j] == x.room_id;
                assert(head[j] == x.room_id);
            }
            if head.contains(x.room_id) {
                let j = choose|j: int| 0 <= j < head.len() && head[j] == x.room_id;
                assert(rooms[j] == x.room_id);
            }
        }
    }
}

/// The buckets of the distinct rooms of a record sequence hold each of
/// its records exactly once: their sizes add up to its length.
proof fn lemma_room_total_complete(kv: Seq<KeyRecordView>)
    ensures
        room_total(kv, rooms_of(kv)) == kv.len(),
    decreases kv.len(),
{
    if kv.len() > 0 {
        let s = kv.drop_last();
        let x = kv.last();
        lemma_room_total_complete(s);
        lemma_rooms_distinct(s);
        assert(s.push(x) =~= kv);
        lemma_rooms_push(s, x);
        if rooms_of(s).contains(x.room_id) {
            lemma_room_total_push(s, x, rooms_of(s));
        } else {
            lemma_room_total_push(s, x, rooms_of(s));
            let rooms = rooms_of(kv);
            assert(rooms.drop_last() =~= rooms_of(s));
            assert(rooms.last() == x.room_id);
            lemma_filter_push(s, |k: KeyRecordView| k.room_id == x.room_id, x);
            lemma_absent_room_bucket_empty(s, x.room_id);
        }
    }
}

/// A document's bucket sizes match the sizes of the room buckets its
/// rooms select.
proof fn lemma_buckets_sum_matches(
    kv: Seq<KeyRecordView>,
    buckets: Seq<(String, Vec<ExportedKeyData>)>,
)
    requires
        forall|i: int| 0 <= i < buckets.len() ==>
            views_of((#[trigger] buckets[i]).1@) == room_bucket(kv, buckets[i].0@),
    ensures
        buckets_len_sum(buckets) == room_total(
            kv,
            buckets.map_values(|b: (String, Vec<ExportedKeyData>)| b.0@),
        ),
    decreases buckets.len(),
{
    let rooms = buckets.map_values(|b: (String, Vec<ExportedKeyData>)| b.0@);
    if buckets.len() > 0 {
        lemma_buckets_sum_matches(kv, buckets.drop_last());
        assert(buckets.drop_last().map_values(|b: (String, Vec<ExportedKeyData>)| b.0@)
            =~= rooms.drop_last());
        assert(rooms.last() == buckets.last().0@);
        assert(views_of(buckets.last().1@).len() == buckets.last().1@.len());
    }
}

/// Law: in an organized document the bucket sizes add up to the total
/// key count — every key is counted in exactly one bucket.
pub proof fn lemma_bucket_sizes_sum(
    keys: Seq<ExportedKeyData>,
    failed_count: int,
    doc: ExtractionOutput,
)
    requires
        organized(keys, failed_count, doc),
    ensures
        buckets_len_sum(doc.keys_by_room@) == doc.total_keys,
{
    let kv = views_of(keys);
    lemma_room_total_complete(kv);
    lemma_buckets_sum_matches(kv, doc.keys_by_room@);
}

/// Law: aggregation is deterministic — two documents organized from the
/// same keys and failure count agree in every part.
pub proof fn lemma_organize_deterministic(
    keys: Seq<ExportedKeyData>,
    failed_count: int,
    doc1: ExtractionOutput,
    doc2: ExtractionOutput,
)
    requires
        organized(keys, failed_count, doc1),
        organized(keys, failed_count, doc2),
    ensures
        doc1.version == doc2.version,
        doc1.total_keys == doc2.total_keys,
        doc1.failed_keys == doc2.failed_keys,
        doc1.all_keys@ == doc2.all_keys@,
        doc1.keys_by_room@.len() == doc2.keys_by_room@.len(),
        forall|b: int|
            0 <= b < doc1.keys_by_room@.len()
                ==> (#[trigger] doc1.keys_by_room@[b]).0@ == doc2.keys_by_room@[b].0@
                    && views_of(doc1.keys_by_room@[b].1@) == views_of(doc2.keys_by_room@[b].1@),
{
    let kv = views_of(keys);
    let rooms1 = doc1.keys_by_room@.map_values(|b: (String, Vec<ExportedKeyData>)| b.0@);
    let rooms2 = doc2.keys_by_room@.map_values(|b: (String, Vec<ExportedKeyData>)| b.0@);
    assert(rooms1.len() == doc1.keys_by_room@.len());
    assert(rooms2.len() == doc2.keys_by_room@.len());
    assert forall|b: int| 0 <= b < doc1.keys_by_room@.len() implies
        (#[trigger] doc1.keys_by_room@[b]).0@ == doc2.keys_by_room@[b].0@
            && views_of(doc1.keys_by_room@[b].1@) == views_of(doc2.keys_by_room@[b].1@) by {
        assert(rooms1[b] == doc1.keys_by_room@[b].0@);
        assert(rooms2[b] == doc2.keys_by_room@[b].0@);
    }
}

} // verus!
