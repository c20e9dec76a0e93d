use serde_json::Value;
use warp_mp_ipfs::{Data, DataObject, Module, Payload, Timestamp, WarpError};

fn json_error() -> serde_json::Error {
    serde_json::from_str::<u8>("no number").unwrap_err()
}

fn sample() -> Data {
    Data::from_parts(
        7,
        Timestamp { secs: 1_650_000_000, nanos: 5 },
        Module::Accounts,
        Payload::new(Value::from("old")),
    )
}

#[test]
fn default_data_is_empty_and_unknown() {
    let before = chrono::Utc::now().timestamp();
    let data = Data::default();
    let after = chrono::Utc::now().timestamp();
    assert_eq!(data.version, 0);
    assert_eq!(data.size, 0);
    assert_eq!(data.module, Module::Unknown);
    assert_eq!(data.payload, Payload::new(Value::Null));
    assert!(before <= data.timestamp() && data.timestamp() <= after);
    assert!(data.timestamp.nanos < 1_000_000_000);
    let id = uuid::Uuid::from_u128(data.id);
    assert_eq!(id.get_version_num(), 4);
    assert_eq!(id.get_variant(), uuid::Variant::RFC4122);
}

#[test]
fn two_data_objects_have_different_ids() {
    assert_ne!(Data::default().id, Data::default().id);
}

#[test]
fn new_data_carries_module_and_payload() {
    let data: DataObject =
        Data::new(&Module::Accounts, vec![1u32, 2, 3], serde_json::to_value::<Vec<u32>>).unwrap();
    assert_eq!(data.module, Module::Accounts);
    assert_eq!(data.version, 0);
    assert_eq!(data.size, 0);
    assert_eq!(data.payload.value.to_string(), "[1,2,3]");
    assert_eq!(uuid::Uuid::from_u128(data.id).get_version_num(), 4);
}

#[test]
fn new_data_reports_the_error_of_its_payload() {
    let made = Data::new(&Module::Accounts, (), |_: ()| Err::<Value, _>(json_error()));
    assert!(matches!(made, Err(WarpError::SerdeJson(_))));
    let made = Data::from_result(&Module::Accounts, Err(json_error()));
    assert!(matches!(made, Err(WarpError::SerdeJson(_))));
}

#[test]
fn payload_is_read_back() {
    let mut data = sample();
    data.set_payload(String::from("new"), serde_json::to_value::<String>).unwrap();
    let read = data.payload(serde_json::from_value::<String>);
    assert!(matches!(read, Ok(text) if text == "new"));
    // The object still has it.
    assert_eq!(data.payload.value, Value::from("new"));
}

#[test]
fn payload_of_another_type_is_an_error() {
    let data = sample();
    let read = data.payload(serde_json::from_value::<u32>);
    assert!(matches!(read, Err(WarpError::SerdeJson(_))));
    let read = data.payload.to_type(serde_json::from_value::<bool>);
    assert!(matches!(read, Err(WarpError::SerdeJson(_))));
}

#[test]
fn set_payload_changes_nothing_else() {
    let mut data = sample();
    data.set_payload(3u8, serde_json::to_value::<u8>).unwrap();
    let mut expected = sample();
    expected.payload = Payload::new(Value::from(3));
    assert_eq!(data, expected);
}

#[test]
fn failed_set_payload_keeps_the_object() {
    let mut data = sample();
    let set = data.set_payload((), |_: ()| Err::<Value, _>(json_error()));
    assert!(matches!(set, Err(WarpError::SerdeJson(_))));
    assert_eq!(data, sample());
    let set = data.set_result(Err(json_error()));
    assert!(matches!(set, Err(WarpError::SerdeJson(_))));
    assert_eq!(data, sample());
}

#[test]
fn setters_touch_their_field_only() {
    let mut data = sample();
    data.update_version(3);
    data.set_size(99);
    data.set_module(&Module::Other(String::from("MESSAGING")));
    assert_eq!(data.version, 3);
    assert_eq!(data.size, 99);
    assert_eq!(data.module, Module::Other(String::from("MESSAGING")));
    assert_eq!(data.id, 7);
    assert_eq!(data.timestamp(), 1_650_000_000);
    assert_eq!(data.payload, sample().payload);
}

#[test]
fn update_time_reads_the_clock() {
    let mut data = sample();
    data.update_time();
    assert!(data.timestamp() > 1_650_000_000);
    data.set_timestamp(sample().timestamp);
    assert_eq!(data, sample());
}

#[test]
fn payload_from_ser() {
    let made = Payload::new_from_ser(true, serde_json::to_value::<bool>);
    assert!(matches!(made, Ok(payload) if payload == Payload::new(Value::Bool(true))));
    let made = Payload::from_result(Err(json_error()));
    assert!(matches!(made, Err(WarpError::SerdeJson(_))));
    assert_eq!(Payload::default(), Payload::new(Value::Null));
}

#[test]
fn payloads_are_written_as_compact_json() {
    assert_eq!(Payload::default().to_text(), "null");
    assert_eq!(Payload::new(Value::from("a b")).to_text(), "\"a b\"");
    assert_eq!(Payload::new(Value::from(vec![1u8, 2])).to_text(), "[1,2]");
}

#[test]
fn modules_are_written_in_words() {
    assert_eq!(Module::Accounts.to_text(), "ACCOUNTS");
    assert_eq!(Module::default().to_text(), "UNKNOWN");
    let other = Module::Other(String::from("CACHE"));
    assert_eq!(other.to_text(), "CACHE");
    assert_eq!(other.clone(), other);
}

#[test]
fn json_errors_convert() {
    assert!(matches!(WarpError::from(json_error()), WarpError::SerdeJson(_)));
}

#[test]
fn clones_are_equal() {
    let data = sample();
    assert_eq!(data.clone(), data);
    assert_eq!(data.payload.clone(), data.payload);
}
