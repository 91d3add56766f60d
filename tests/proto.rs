use snowglobe::proto::{Error, Info};

fn info(names: &[&str]) -> Info {
    Info { scenes: names.iter().map(|s| s.to_string()).collect() }
}

#[test]
fn serialize_writes_scenes_and_version() {
    let text = info(&["determinism::random_numbers", "containment::thread_spawn"]).serialize();
    assert_eq!(
        text,
        "{\"scenes\":[\"determinism::random_numbers\",\"containment::thread_spawn\"],\"snowglobe_version\":\"1\"}"
    );
}

#[test]
fn serialize_empty_list() {
    assert_eq!(info(&[]).serialize(), "{\"scenes\":[],\"snowglobe_version\":\"1\"}");
}

#[test]
fn round_trip_keeps_scenes() {
    let sent = info(&["a::b", "c", "quote\"and\\slash", "ünïcode"]);
    let text = sent.serialize();
    let decoded = Info::deserialize(text.as_bytes()).unwrap();
    assert_eq!(decoded.scenes, sent.scenes);
}

#[test]
fn version_two_is_rejected() {
    let bytes = b"{\"scenes\":[\"a\"],\"snowglobe_version\":\"2\"}";
    match Info::deserialize(bytes) {
        Err(e @ Error::VersionMismatch { .. }) => {
            if let Error::VersionMismatch { expected, got } = &e {
                assert_eq!(expected, "1");
                assert_eq!(got, "\"2\"");
            }
            assert_eq!(e.message(), "version mismatch: expected '1', got '\"2\"'");
        }
        other => panic!("unexpected: {other:?}"),
    }
}

#[test]
fn numeric_version_is_rejected() {
    let bytes = b"{\"scenes\":[],\"snowglobe_version\":1}";
    match Info::deserialize(bytes) {
        Err(Error::VersionMismatch { got, .. }) => assert_eq!(got, "1"),
        other => panic!("unexpected: {other:?}"),
    }
}

fn json_error(bytes: &[u8]) -> String {
    match Info::deserialize(bytes) {
        Err(Error::Json(m)) => m,
        other => panic!("unexpected: {other:?}"),
    }
}

#[test]
fn missing_version_is_rejected() {
    assert_eq!(json_error(b"{\"scenes\":[]}"), "missing field `snowglobe_version`");
    let e = Info::deserialize(b"{\"scenes\":[]}").err().unwrap();
    assert_eq!(e.message(), "json: missing field `snowglobe_version`");
}

#[test]
fn missing_scenes_is_rejected() {
    assert_eq!(json_error(b"{\"snowglobe_version\":\"1\"}"), "missing field `scenes`");
}

#[test]
fn non_string_scene_is_rejected() {
    assert_eq!(
        json_error(b"{\"scenes\":[\"a\",3],\"snowglobe_version\":\"1\"}"),
        "invalid type for field `scenes`"
    );
    assert_eq!(
        json_error(b"{\"scenes\":\"a\",\"snowglobe_version\":\"1\"}"),
        "invalid type for field `scenes`"
    );
}

#[test]
fn non_object_is_rejected() {
    assert_eq!(json_error(b"[1,2]"), "expected an object");
    assert_eq!(json_error(b"null"), "expected an object");
}

#[test]
fn invalid_json_is_rejected() {
    let m = json_error(b"{\"scenes\":");
    assert!(!m.is_empty());
    let e = Info::deserialize(b"{\"scenes\":").err().unwrap();
    assert_eq!(e.message(), format!("json: {m}"));
}

#[test]
fn unknown_fields_are_ignored() {
    let bytes = b"{\"extra\":{\"x\":[null,true,1.5]},\"scenes\":[\"s\"],\"snowglobe_version\":\"1\"}";
    let decoded = Info::deserialize(bytes).unwrap();
    assert_eq!(decoded.scenes, vec!["s".to_string()]);
}
