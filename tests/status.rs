use reading_status::status::Status;

#[test]
fn canonical_texts() {
    assert_eq!(Status::ToRead.as_str(), "to_read");
    assert_eq!(Status::Reading.as_str(), "reading");
    assert_eq!(Status::Read.as_str(), "read");
}

#[test]
fn parses_canonical_texts() {
    assert_eq!(Status::from_str("to_read"), Some(Status::ToRead));
    assert_eq!(Status::from_str("reading"), Some(Status::Reading));
    assert_eq!(Status::from_str("read"), Some(Status::Read));
}

#[test]
fn rejects_other_texts() {
    assert_eq!(Status::from_str("archived"), None);
    assert_eq!(Status::from_str("done"), None);
    assert_eq!(Status::from_str(""), None);
    assert_eq!(Status::from_str("Read"), None);
    assert_eq!(Status::from_str("to-read"), None);
    assert_eq!(Status::from_str("read "), None);
}

#[test]
fn text_round_trip_for_every_status() {
    let all = Status::all();
    assert_eq!(all, vec![Status::ToRead, Status::Reading, Status::Read]);
    for s in all {
        assert_eq!(Status::from_str(s.as_str()), Some(s));
    }
}
