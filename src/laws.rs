use vstd::prelude::*;

use crate::status::Status;
use crate::store::{read_effect, read_result, stamps_ordered, upsert_effect, RecordState};

verus! {

/// Reading an unknown article reports `to_read`, and reading it again without a
/// write in between reports the same status and changes nothing.
pub proof fn law_default_read_is_idempotent(
    m: Map<Seq<char>, RecordState>,
    id: Seq<char>,
    t1: i64,
    t2: i64,
)
    requires
        !m.contains_key(id),
    ensures
        read_result(m, id) == Status::ToRead,
        read_result(read_effect(m, id, t1), id) == Status::ToRead,
        read_effect(read_effect(m, id, t1), id, t2) == read_effect(m, id, t1),
{
}

/// After writing a status, reading the article reports that status and
/// leaves the record as the write left it.
pub proof fn law_read_after_write(
    m: Map<Seq<char>, RecordState>,
    id: Seq<char>,
    s: Status,
    t1: i64,
    t2: i64,
)
    ensures
        read_result(upsert_effect(m, id, s, t1), id) == s,
        read_effect(upsert_effect(m, id, s, t1), id, t2) == upsert_effect(m, id, s, t1),
{
}

/// A write keeps the creation time of an existing record and never moves its
/// update time back; reads and writes keep every record's creation time at or
/// before its update time.
pub proof fn law_write_timestamps(
    m: Map<Seq<char>, RecordState>,
    id: Seq<char>,
    s: Status,
    now: i64,
)
    ensures
        m.contains_key(id) ==> upsert_effect(m, id, s, now)[id].created_at == m[id].created_at,
        m.contains_key(id) ==> upsert_effect(m, id, s, now)[id].updated_at >= m[id].updated_at,
        m.contains_key(id) ==> upsert_effect(m, id, s, now)[id].updated_at >= now,
        stamps_ordered(m) ==> stamps_ordered(upsert_effect(m, id, s, now)),
        stamps_ordered(m) ==> stamps_ordered(read_effect(m, id, now)),
{
}

/// Two first reads of the same unknown article, in either order, leave exactly
/// one new record, holding `to_read`, and both report `to_read`.
pub proof fn law_first_reads_converge(
    m: Map<Seq<char>, RecordState>,
    id: Seq<char>,
    t1: i64,
    t2: i64,
)
    requires
        m.dom().finite(),
        !m.contains_key(id),
    ensures
        read_result(m, id) == Status::ToRead,
        read_result(read_effect(m, id, t1), id) == Status::ToRead,
        read_effect(read_effect(m, id, t1), id, t2) == read_effect(m, id, t1),
        read_effect(m, id, t1).dom() == m.dom().insert(id),
        read_effect(m, id, t1).len() == m.len() + 1,
        read_effect(m, id, t1)[id].status == Status::ToRead,
{
}

/// Two writes of the same article, applied one after the other in either
/// order, leave the status of one of them (the later one) and touch no other
/// article.
pub proof fn law_competing_writes(
    m: Map<Seq<char>, RecordState>,
    id: Seq<char>,
    s1: Status,
    s2: Status,
    t1: i64,
    t2: i64,
)
    ensures
        ({
            let a = upsert_effect(upsert_effect(m, id, s1, t1), id, s2, t2);
            let b = upsert_effect(upsert_effect(m, id, s2, t2), id, s1, t1);
            &&& a[id].status == s2
            &&& b[id].status == s1
            &&& a.dom() == m.dom().insert(id)
            &&& b.dom() == m.dom().insert(id)
            &&& forall|k: Seq<char>| k != id && m.contains_key(k) ==> a[k] == m[k] && b[k] == m[k]
        }),
{
    assert(upsert_effect(upsert_effect(m, id, s1, t1), id, s2, t2).dom() =~= m.dom().insert(id));
    assert(upsert_effect(upsert_effect(m, id, s2, t2), id, s1, t1).dom() =~= m.dom().insert(id));
}

} // verus!
