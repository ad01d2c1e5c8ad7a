use reading_status::status::Status;
use reading_status::store::{RecordState, StatusStore};

#[test]
fn new_store_is_empty() {
    let store = StatusStore::new();
    assert_eq!(store.len(), 0);
    assert_eq!(store.get("a"), None);
}

#[test]
fn first_read_creates_default_and_repeats() {
    let mut store = StatusStore::new();
    assert_eq!(store.get_or_create_default("abc-1", 100), (Status::ToRead, true));
    let created = store.get("abc-1");
    assert_eq!(
        created,
        Some(RecordState { status: Status::ToRead, created_at: 100, updated_at: 100 })
    );
    assert_eq!(store.get_or_create_default("abc-1", 200), (Status::ToRead, false));
    assert_eq!(store.get("abc-1"), created);
    assert_eq!(store.len(), 1);
}

#[test]
fn read_after_write_for_every_status() {
    for s in Status::all() {
        let mut store = StatusStore::new();
        assert_eq!(store.upsert("x", s, 10), s);
        assert_eq!(store.get_or_create_default("x", 20), (s, false));
        let mut existing = StatusStore::new();
        existing.get_or_create_default("x", 1);
        assert_eq!(existing.upsert("x", s, 10), s);
        assert_eq!(existing.get_or_create_default("x", 20), (s, false));
    }
}

#[test]
fn writes_keep_creation_time_and_advance_update_time() {
    let mut store = StatusStore::new();
    store.upsert("a", Status::Reading, 1_000);
    store.upsert("a", Status::Read, 2_000);
    assert_eq!(
        store.get("a"),
        Some(RecordState { status: Status::Read, created_at: 1_000, updated_at: 2_000 })
    );
    store.upsert("a", Status::ToRead, 2_000);
    assert_eq!(
        store.get("a"),
        Some(RecordState { status: Status::ToRead, created_at: 1_000, updated_at: 2_000 })
    );
}

#[test]
fn update_time_never_moves_back() {
    let mut store = StatusStore::new();
    store.upsert("a", Status::Reading, 5_000);
    store.upsert("a", Status::Read, 4_000);
    assert_eq!(
        store.get("a"),
        Some(RecordState { status: Status::Read, created_at: 5_000, updated_at: 5_000 })
    );
}

#[test]
fn two_first_reads_leave_one_record() {
    let mut store = StatusStore::new();
    store.upsert("other", Status::Read, 1);
    let first = store.get_or_create_default("new", 7);
    let second = store.get_or_create_default("new", 8);
    assert_eq!(first, (Status::ToRead, true));
    assert_eq!(second, (Status::ToRead, false));
    assert_eq!(store.len(), 2);
    assert_eq!(
        store.get("new"),
        Some(RecordState { status: Status::ToRead, created_at: 7, updated_at: 7 })
    );
}

#[test]
fn competing_writes_leave_the_later_one() {
    let mut store = StatusStore::new();
    store.upsert("a", Status::Reading, 1);
    store.upsert("a", Status::Read, 2);
    assert_eq!(store.get("a").map(|r| r.status), Some(Status::Read));
    let mut other = StatusStore::new();
    other.upsert("a", Status::Read, 2);
    other.upsert("a", Status::Reading, 1);
    assert_eq!(other.get("a").map(|r| r.status), Some(Status::Reading));
    assert_eq!(other.len(), 1);
}

#[test]
fn articles_do_not_interfere() {
    let mut store = StatusStore::new();
    store.upsert("a", Status::Read, 1);
    store.upsert("b", Status::Reading, 2);
    store.get_or_create_default("c", 3);
    assert_eq!(store.get("a").map(|r| r.status), Some(Status::Read));
    assert_eq!(store.get("b").map(|r| r.status), Some(Status::Reading));
    assert_eq!(store.get("c").map(|r| r.status), Some(Status::ToRead));
    assert_eq!(store.len(), 3);
}

#[test]
fn ids_are_opaque_text() {
    let mut store = StatusStore::new();
    store.upsert("naïve article/ü", Status::Read, 1);
    assert_eq!(store.get("naïve article/ü").map(|r| r.status), Some(Status::Read));
    assert_eq!(store.get("naive article/u"), None);
    assert_eq!(store.get_or_create_default("", 2), (Status::ToRead, true));
}
