use hubbub::marshal::{RawAttribute, RawDoctype, RawTag, check_attributes, from_hubbub_attributes,
    from_hubbub_doctype, from_hubbub_ns, from_hubbub_quirks_mode, from_hubbub_string,
    from_hubbub_tag, from_hubbub_node, to_hubbub_node, to_hubbub_ns};
use hubbub::status::{CharsetSource, EngineError, EngineStatus, charset_source_from_code,
    creation_status, option_status, status_code, status_from_code};
use hubbub::types::{Ns, QuirksMode};

#[test]
fn namespace_codes_decode() {
    assert_eq!(from_hubbub_ns(0), Ns::NullNs);
    assert_eq!(from_hubbub_ns(1), Ns::HtmlNs);
    assert_eq!(from_hubbub_ns(2), Ns::MathMlNs);
    assert_eq!(from_hubbub_ns(3), Ns::SvgNs);
    assert_eq!(from_hubbub_ns(4), Ns::XLinkNs);
    assert_eq!(from_hubbub_ns(5), Ns::XmlNs);
    assert_eq!(from_hubbub_ns(6), Ns::XmlNsNs);
}

#[test]
fn namespace_codes_round_trip() {
    for code in 0..=6 {
        assert_eq!(to_hubbub_ns(from_hubbub_ns(code)), code);
    }
}

#[test]
fn quirks_codes_decode() {
    assert_eq!(from_hubbub_quirks_mode(0), QuirksMode::NoQuirks);
    assert_eq!(from_hubbub_quirks_mode(1), QuirksMode::LimitedQuirks);
    assert_eq!(from_hubbub_quirks_mode(2), QuirksMode::FullQuirks);
}

#[test]
fn string_marshaling_copies_bytes() {
    let source = b"hello world".to_vec();
    let copy = from_hubbub_string(&source);
    assert_eq!(copy, source);
    let empty = from_hubbub_string(&Vec::new());
    assert!(empty.is_empty());
}

#[test]
fn node_identity_threads_through_unchanged() {
    assert_eq!(from_hubbub_node(12345), 12345);
    assert_eq!(to_hubbub_node(12345), 12345);
    assert_eq!(to_hubbub_node(from_hubbub_node(0)), 0);
}

#[test]
fn attribute_array_marshals_in_order_keeping_duplicates() {
    let raw = vec![
        RawAttribute { ns: 0, name: b"href".to_vec(), value: b"1".to_vec() },
        RawAttribute { ns: 1, name: b"id".to_vec(), value: b"x".to_vec() },
        RawAttribute { ns: 0, name: b"href".to_vec(), value: b"2".to_vec() },
    ];
    let attrs = from_hubbub_attributes(&raw);
    assert_eq!(attrs.len(), 3);
    assert_eq!(attrs[0].ns, Ns::NullNs);
    assert_eq!(attrs[0].name, b"href".to_vec());
    assert_eq!(attrs[0].value, b"1".to_vec());
    assert_eq!(attrs[1].ns, Ns::HtmlNs);
    assert_eq!(attrs[1].name, b"id".to_vec());
    assert_eq!(attrs[2].name, b"href".to_vec());
    assert_eq!(attrs[2].value, b"2".to_vec());
}

#[test]
fn attribute_check_rejects_bad_namespace_code() {
    let good = vec![RawAttribute { ns: 6, name: b"a".to_vec(), value: b"b".to_vec() }];
    assert!(check_attributes(&good));
    let bad = vec![RawAttribute { ns: 7, name: b"a".to_vec(), value: b"b".to_vec() }];
    assert!(!check_attributes(&bad));
}

#[test]
fn tag_marshals_with_attributes() {
    let raw = RawTag {
        ns: 1,
        name: b"a".to_vec(),
        attributes: vec![RawAttribute { ns: 0, name: b"href".to_vec(), value: b"u".to_vec() }],
        self_closing: false,
    };
    assert!(raw.check());
    let tag = from_hubbub_tag(&raw);
    assert_eq!(tag.ns, Ns::HtmlNs);
    assert_eq!(tag.name, b"a".to_vec());
    assert_eq!(tag.attributes.len(), 1);
    assert_eq!(tag.attributes[0].name, b"href".to_vec());
    assert!(!tag.self_closing);
}

#[test]
fn tag_check_rejects_bad_codes() {
    let raw = RawTag { ns: 9, name: b"a".to_vec(), attributes: Vec::new(), self_closing: true };
    assert!(!raw.check());
}

#[test]
fn doctype_keeps_missing_and_empty_apart() {
    let missing = RawDoctype {
        name: b"html".to_vec(),
        public_missing: true,
        public_id: b"ignored".to_vec(),
        system_missing: true,
        system_id: Vec::new(),
        force_quirks: false,
    };
    let d = from_hubbub_doctype(&missing);
    assert_eq!(d.name, b"html".to_vec());
    assert!(d.public_id.is_none());
    assert!(d.system_id.is_none());
    assert!(!d.force_quirks);

    let empty = RawDoctype {
        name: b"html".to_vec(),
        public_missing: false,
        public_id: Vec::new(),
        system_missing: false,
        system_id: b"about:legacy-compat".to_vec(),
        force_quirks: true,
    };
    let d = from_hubbub_doctype(&empty);
    assert_eq!(d.public_id, Some(Vec::new()));
    assert_eq!(d.system_id, Some(b"about:legacy-compat".to_vec()));
    assert!(d.force_quirks);
}

#[test]
fn status_codes_decode_and_encode() {
    let table = [
        (0, EngineStatus::Success),
        (1, EngineStatus::Reprocess),
        (2, EngineStatus::EncodingChange),
        (3, EngineStatus::Paused),
        (5, EngineStatus::NoMem),
        (6, EngineStatus::BadParm),
        (7, EngineStatus::Invalid),
        (8, EngineStatus::FileNotFound),
        (9, EngineStatus::NeedData),
        (10, EngineStatus::BadEncoding),
        (11, EngineStatus::Unknown),
    ];
    for (code, status) in table {
        assert_eq!(status_from_code(code), Some(status));
        assert_eq!(status_code(status), code);
    }
    assert_eq!(status_from_code(4), None);
    assert_eq!(status_from_code(-1), None);
    assert_eq!(status_from_code(12), None);
}

#[test]
fn creation_status_maps_its_errors() {
    assert_eq!(creation_status(0), Ok(()));
    assert_eq!(creation_status(10), Err(EngineError::BadEncoding));
    assert_eq!(creation_status(5), Err(EngineError::NoMemory));
    assert_eq!(creation_status(7), Err(EngineError::Unknown));
}

#[test]
fn option_status_rejects_everything_but_success() {
    assert_eq!(option_status(0), Ok(()));
    assert_eq!(option_status(6), Err(EngineError::BadOption));
    assert_eq!(option_status(11), Err(EngineError::BadOption));
}

#[test]
fn charset_source_decodes() {
    assert_eq!(charset_source_from_code(0), Some(CharsetSource::Unconfirmed));
    assert_eq!(charset_source_from_code(1), Some(CharsetSource::Tentative));
    assert_eq!(charset_source_from_code(2), Some(CharsetSource::Confident));
    assert_eq!(charset_source_from_code(3), None);
}
