//! Framing of messages. The payloads are the JSON that the program sends: an
//! object whose `type` names the variant.

use std::collections::HashMap;

use serde_json::Value;
use ssh_sync::error::SyncError;
use ssh_sync::record::{EncryptedData, Host, HostId, Record, RecordId, RecordStatus};
use ssh_sync::ssh_protocol::{
    message_length, read_message, write_message, Request, Response, MAX_MESSAGE_SIZE,
};
use uuid::Uuid;

fn object(fields: Vec<(&str, Value)>) -> Value {
    let mut map = serde_json::Map::new();
    for (name, value) in fields {
        map.insert(name.to_string(), value);
    }
    Value::Object(map)
}

fn uuid_value(id: u128) -> Value {
    Value::from(Uuid::from_u128(id).to_string())
}

fn uuid_of(value: &Value) -> u128 {
    Uuid::parse_str(value.as_str().unwrap()).unwrap().as_u128()
}

fn string_of(value: &Value) -> String {
    value.as_str().unwrap().to_string()
}

fn record_value(record: &Record) -> Value {
    object(vec![
        ("id", uuid_value(record.id.0)),
        ("idx", Value::from(record.idx)),
        (
            "host",
            object(vec![
                ("id", uuid_value(record.host.id.0)),
                ("name", Value::from(record.host.name.as_str())),
            ]),
        ),
        ("timestamp", Value::from(record.timestamp)),
        ("version", Value::from(record.version.as_str())),
        ("tag", Value::from(record.tag.as_str())),
        (
            "data",
            object(vec![
                ("data", Value::from(record.data.data.as_str())),
                (
                    "content_encryption_key",
                    Value::from(record.data.content_encryption_key.as_str()),
                ),
            ]),
        ),
    ])
}

fn record_of(value: &Value) -> Record {
    Record {
        id: RecordId(uuid_of(&value["id"])),
        idx: value["idx"].as_u64().unwrap(),
        host: Host {
            id: HostId(uuid_of(&value["host"]["id"])),
            name: string_of(&value["host"]["name"]),
        },
        timestamp: value["timestamp"].as_u64().unwrap(),
        version: string_of(&value["version"]),
        tag: string_of(&value["tag"]),
        data: EncryptedData {
            data: string_of(&value["data"]["data"]),
            content_encryption_key: string_of(&value["data"]["content_encryption_key"]),
        },
    }
}

fn encode_request(request: &Request) -> Vec<u8> {
    let value = match request {
        Request::Status => object(vec![("type", Value::from("Status"))]),
        Request::Push { records } => object(vec![
            ("type", Value::from("Push")),
            ("records", Value::Array(records.iter().map(record_value).collect())),
        ]),
        Request::Fetch { host, tag, start, count } => object(vec![
            ("type", Value::from("Fetch")),
            ("host", uuid_value(host.0)),
            ("tag", Value::from(tag.as_str())),
            ("start", Value::from(*start)),
            ("count", Value::from(*count)),
        ]),
        Request::BuildRemote => object(vec![("type", Value::from("BuildRemote"))]),
        Request::Goodbye => object(vec![("type", Value::from("Goodbye"))]),
    };
    serde_json::to_vec(&value).unwrap()
}

fn decode_request(payload: &[u8]) -> Request {
    let value: Value = serde_json::from_slice(payload).unwrap();
    match value["type"].as_str().unwrap() {
        "Status" => Request::Status,
        "Push" => Request::Push {
            records: value["records"].as_array().unwrap().iter().map(record_of).collect(),
        },
        "Fetch" => Request::Fetch {
            host: HostId(uuid_of(&value["host"])),
            tag: string_of(&value["tag"]),
            start: value["start"].as_u64().unwrap(),
            count: value["count"].as_u64().unwrap(),
        },
        "BuildRemote" => Request::BuildRemote,
        "Goodbye" => Request::Goodbye,
        other => panic!("no request: {other}"),
    }
}

fn encode_status(status: &RecordStatus) -> Vec<u8> {
    let mut hosts = serde_json::Map::new();
    for (host, tags) in &status.hosts {
        let mut entries = serde_json::Map::new();
        for (tag, idx) in tags {
            entries.insert(tag.clone(), Value::from(*idx));
        }
        hosts.insert(Uuid::from_u128(host.0).to_string(), Value::Object(entries));
    }
    let value = object(vec![
        ("type", Value::from("Status")),
        ("status", object(vec![("hosts", Value::Object(hosts))])),
    ]);
    serde_json::to_vec(&value).unwrap()
}

fn decode_status(payload: &[u8]) -> Response {
    let value: Value = serde_json::from_slice(payload).unwrap();
    assert_eq!(value["type"].as_str(), Some("Status"));
    let mut hosts = HashMap::new();
    for (host, tags) in value["status"]["hosts"].as_object().unwrap() {
        let mut entries = HashMap::new();
        for (tag, idx) in tags.as_object().unwrap() {
            entries.insert(tag.clone(), idx.as_u64().unwrap());
        }
        hosts.insert(HostId(Uuid::parse_str(host).unwrap().as_u128()), entries);
    }
    Response::Status { status: RecordStatus { hosts } }
}

const HOST: u128 = 0x0192_63f5_8d1a_7c3e_9b42_5a6f_00d1_e277;

#[test]
fn roundtrip_request() {
    let req = Request::Fetch {
        host: HostId(HOST),
        tag: "history".into(),
        start: 42,
        count: 100,
    };

    let buf = write_message(&encode_request(&req)).unwrap();

    let (payload, taken) = read_message(&buf).unwrap();
    assert_eq!(taken, buf.len());
    match decode_request(&payload) {
        Request::Fetch { host, tag, start, count } => {
            assert_eq!(host, HostId(HOST));
            assert_eq!(tag, "history");
            assert_eq!(start, 42);
            assert_eq!(count, 100);
        }
        other => panic!("expected Fetch, got {other:?}"),
    }
}

#[test]
fn roundtrip_response_status() {
    let mut hosts = HashMap::new();
    let host_id = HostId(HOST);
    let mut tags = HashMap::new();
    tags.insert("history".into(), 10u64);
    hosts.insert(host_id, tags);

    let buf = write_message(&encode_status(&RecordStatus { hosts })).unwrap();

    let (payload, _) = read_message(&buf).unwrap();
    match decode_status(&payload) {
        Response::Status { status } => {
            assert_eq!(*status.hosts.get(&host_id).unwrap().get("history").unwrap(), 10);
        }
        other => panic!("expected Status, got {other:?}"),
    }
}

#[test]
fn roundtrip_multiple_messages() {
    let messages: Vec<Request> = vec![Request::Status, Request::BuildRemote, Request::Goodbye];

    let mut buf = Vec::new();
    for msg in &messages {
        buf.extend(write_message(&encode_request(msg)).unwrap());
    }

    let (p1, n1) = read_message(&buf).unwrap();
    let (p2, n2) = read_message(&buf[n1..]).unwrap();
    let (p3, n3) = read_message(&buf[n1 + n2..]).unwrap();

    assert!(matches!(decode_request(&p1), Request::Status));
    assert!(matches!(decode_request(&p2), Request::BuildRemote));
    assert!(matches!(decode_request(&p3), Request::Goodbye));
    assert_eq!(n1 + n2 + n3, buf.len());
}

#[test]
fn read_rejects_oversized_length() {
    // A message with a length prefix claiming 128 MiB
    let fake_len = (128u32 * 1024 * 1024).to_be_bytes();
    let result = read_message(&fake_len);
    assert!(result.is_err());
    assert!(result.unwrap_err().message("").contains("too large"));
}

#[test]
fn roundtrip_push_with_records() {
    let record = Record {
        id: RecordId(7),
        idx: 0,
        host: Host { id: HostId(HOST), name: String::new() },
        timestamp: 1_700_000_000_000_000_000,
        version: "v1".into(),
        tag: "history".into(),
        data: EncryptedData {
            data: "encrypted_payload".into(),
            content_encryption_key: "wrapped_key".into(),
        },
    };

    let req = Request::Push { records: vec![record.clone()] };

    let buf = write_message(&encode_request(&req)).unwrap();

    let (payload, _) = read_message(&buf).unwrap();
    match decode_request(&payload) {
        Request::Push { records } => {
            assert_eq!(records.len(), 1);
            assert_eq!(records[0].tag, "history");
            assert_eq!(records[0].data.data, "encrypted_payload");
            assert_eq!(records[0], record);
        }
        other => panic!("expected Push, got {other:?}"),
    }
}

#[test]
fn length_is_big_endian() {
    let payload: Vec<u8> = (0..0x0102_03u32).map(|i| i as u8).collect();
    let buf = write_message(&payload).unwrap();
    assert_eq!(buf[..4], [0x00, 0x01, 0x02, 0x03]);
    assert_eq!(buf[4..], payload[..]);
    assert_eq!(message_length([0x00, 0x01, 0x02, 0x03]).unwrap(), 0x0102_03);
}

#[test]
fn empty_payload_is_a_message() {
    let buf = write_message(&[]).unwrap();
    assert_eq!(buf, vec![0, 0, 0, 0]);
    assert_eq!(read_message(&buf).unwrap(), (vec![], 4));
}

#[test]
fn what_follows_a_message_is_left() {
    let mut buf = write_message(b"one").unwrap();
    buf.extend_from_slice(b"rest");
    let (payload, taken) = read_message(&buf).unwrap();
    assert_eq!(payload, b"one");
    assert_eq!(&buf[taken..], b"rest");
}

#[test]
fn message_cut_short_anywhere_is_truncated() {
    let buf = write_message(b"payload").unwrap();
    for have in 0..buf.len() {
        assert!(matches!(read_message(&buf[..have]), Err(SyncError::Truncated)));
    }
    assert_eq!(SyncError::Truncated.message(""), "early eof");
}

#[test]
fn limit_is_the_same_on_both_sides() {
    let limit = (MAX_MESSAGE_SIZE as u32).to_be_bytes();
    assert_eq!(message_length(limit).unwrap(), 67_108_864);
    let beyond = (MAX_MESSAGE_SIZE as u32 + 1).to_be_bytes();
    let refused = message_length(beyond).unwrap_err();
    assert_eq!(
        refused.message(""),
        "ssh-sync message too large: 67108865 bytes (max 67108864)"
    );

    let payload = vec![0u8; MAX_MESSAGE_SIZE];
    let buf = write_message(&payload).unwrap();
    assert_eq!(buf.len(), MAX_MESSAGE_SIZE + 4);
    assert_eq!(read_message(&buf).unwrap().1, buf.len());

    let payload = vec![0u8; MAX_MESSAGE_SIZE + 1];
    let refused = write_message(&payload).unwrap_err();
    assert_eq!(
        refused.message(""),
        "ssh-sync message too large to send: 67108865 bytes (max 67108864)"
    );
}

#[test]
fn largest_announcement_is_refused() {
    let refused = message_length([0xff; 4]).unwrap_err();
    assert!(matches!(refused, SyncError::MessageTooLarge { len: 0xffff_ffff }));
}
