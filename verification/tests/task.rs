use horizon_client::task::{CommandStatus, DateTime, ObjectId, Status};

#[test]
fn object_id_keeps_its_bytes() {
    let bytes = [1, 2, 3, 4, 5, 6, 7, 8, 9, 10, 11, 12];
    assert_eq!(ObjectId::from_bytes(bytes).bytes(), bytes);
}

#[test]
fn object_id_agrees_with_bson() {
    let oid = bson::oid::ObjectId::parse_str("63ceeffd37518221cdc6cda2").unwrap();
    let id = ObjectId::from_bytes(oid.bytes());
    assert_eq!(bson::oid::ObjectId::from_bytes(id.bytes()), oid);
}

#[test]
fn date_time_keeps_its_milliseconds() {
    assert_eq!(DateTime::from_millis(1_700_000_000_123).timestamp_millis(), 1_700_000_000_123);
    assert_eq!(DateTime::from_millis(-1).timestamp_millis(), -1);
    assert_eq!(
        bson::DateTime::from_millis(DateTime::from_millis(42).timestamp_millis()).timestamp_millis(),
        42
    );
}

#[test]
fn statuses_are_distinct() {
    let uploads = [Status::Pending, Status::Uploading, Status::Uploaded, Status::Cancelled];
    for (i, a) in uploads.iter().enumerate() {
        for (j, b) in uploads.iter().enumerate() {
            assert_eq!(a == b, i == j);
        }
    }
    let commands = [
        CommandStatus::Pending,
        CommandStatus::Completed,
        CommandStatus::Error,
        CommandStatus::Canceled,
    ];
    for (i, a) in commands.iter().enumerate() {
        for (j, b) in commands.iter().enumerate() {
            assert_eq!(a == b, i == j);
        }
    }
}
