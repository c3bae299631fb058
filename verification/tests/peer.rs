use mumbleacre::peer::{
    AcrePeerError, PeerEnvelope, PeerHeader, PeerOrderDecision, PeerOrderTracker, PeerPayload,
    PeerSpeakingKind, ACRE_PEER_MAX_MESSAGE_BYTES,
};
use serde_json::{Number, Value};

fn header(sequence: u64) -> PeerHeader {
    PeerHeader::new("mission-a", 1, sequence).unwrap()
}

fn object(fields: Vec<(&str, Value)>) -> Value {
    let mut map = serde_json::Map::new();
    for (name, value) in fields {
        map.insert(name.to_owned(), value);
    }
    Value::Object(map)
}

fn text(value: &str) -> Value {
    Value::String(value.to_owned())
}

fn kind_name(kind: PeerSpeakingKind) -> &'static str {
    match kind {
        PeerSpeakingKind::Direct => "DIRECT",
        PeerSpeakingKind::Radio => "RADIO",
        PeerSpeakingKind::Intercom => "INTERCOM",
        PeerSpeakingKind::God => "GOD",
        PeerSpeakingKind::Zeus => "ZEUS",
    }
}

fn kind_named(name: &str) -> Option<PeerSpeakingKind> {
    [
        PeerSpeakingKind::Direct,
        PeerSpeakingKind::Radio,
        PeerSpeakingKind::Intercom,
        PeerSpeakingKind::God,
        PeerSpeakingKind::Zeus,
    ]
    .into_iter()
    .find(|kind| kind_name(*kind) == name)
}

fn serialized(envelope: &PeerEnvelope) -> Result<Vec<u8>, String> {
    let header = object(vec![
        ("version", Value::Number(envelope.header.version.into())),
        ("scope", text(&envelope.header.scope)),
        ("generation", Value::Number(envelope.header.generation.into())),
        ("sequence", Value::Number(envelope.header.sequence.into())),
    ]);
    let payload = match &envelope.payload {
        PeerPayload::Hello { acre_version } => object(vec![
            ("type", text("HELLO")),
            ("acre_version", text(acre_version)),
        ]),
        PeerPayload::Identity { net_id } => {
            object(vec![("type", text("IDENTITY")), ("net_id", text(net_id))])
        }
        PeerPayload::Start {
            kind,
            net_id,
            radio_id,
            language_id,
            curve_scale,
        } => object(vec![
            ("type", text("START")),
            ("kind", text(kind_name(*kind))),
            ("net_id", text(net_id)),
            ("radio_id", text(radio_id)),
            ("language_id", Value::Number((*language_id).into())),
            (
                "curve_scale",
                Number::from_f64(f32::from_bits(*curve_scale) as f64)
                    .map(Value::Number)
                    .unwrap_or(Value::Null),
            ),
        ]),
        PeerPayload::Stop { kind } => object(vec![
            ("type", text("STOP")),
            ("kind", text(kind_name(*kind))),
        ]),
        PeerPayload::Reset => object(vec![("type", text("RESET"))]),
    };
    serde_json::to_vec(&object(vec![("header", header), ("payload", payload)]))
        .map_err(|error| error.to_string())
}

fn only<'a>(value: &'a Value, names: &[&str]) -> Result<&'a serde_json::Map<String, Value>, String> {
    let map = value.as_object().ok_or("not an object")?;
    if map.len() != names.len() || names.iter().any(|name| !map.contains_key(*name)) {
        return Err("unknown or missing field".to_owned());
    }
    Ok(map)
}

fn string(map: &serde_json::Map<String, Value>, name: &str) -> Result<String, String> {
    map[name].as_str().map(str::to_owned).ok_or(format!("{name} is no text"))
}

fn parsed(bytes: &[u8]) -> Result<PeerEnvelope, String> {
    let value: Value = serde_json::from_slice(bytes).map_err(|error| error.to_string())?;
    let envelope = only(&value, &["header", "payload"])?;
    let header = only(
        &envelope["header"],
        &["version", "scope", "generation", "sequence"],
    )?;
    let header = PeerHeader {
        version: header["version"].as_u64().ok_or("version")? as u8,
        scope: string(header, "scope")?,
        generation: header["generation"].as_u64().ok_or("generation")?,
        sequence: header["sequence"].as_u64().ok_or("sequence")?,
    };
    let tag = envelope["payload"]["type"].as_str().ok_or("type")?;
    let payload = match tag {
        "HELLO" => PeerPayload::Hello {
            acre_version: string(only(&envelope["payload"], &["type", "acre_version"])?, "acre_version")?,
        },
        "IDENTITY" => PeerPayload::Identity {
            net_id: string(only(&envelope["payload"], &["type", "net_id"])?, "net_id")?,
        },
        "START" => {
            let start = only(
                &envelope["payload"],
                &["type", "kind", "net_id", "radio_id", "language_id", "curve_scale"],
            )?;
            PeerPayload::Start {
                kind: kind_named(&string(start, "kind")?).ok_or("kind")?,
                net_id: string(start, "net_id")?,
                radio_id: string(start, "radio_id")?,
                language_id: start["language_id"].as_i64().ok_or("language_id")? as i32,
                curve_scale: (start["curve_scale"].as_f64().ok_or("curve_scale")? as f32).to_bits(),
            }
        }
        "STOP" => PeerPayload::Stop {
            kind: kind_named(&string(only(&envelope["payload"], &["type", "kind"])?, "kind")?)
                .ok_or("kind")?,
        },
        "RESET" => PeerPayload::Reset,
        _ => return Err("unknown type".to_owned()),
    };
    Ok(PeerEnvelope { header, payload })
}

fn encode(envelope: &PeerEnvelope) -> Result<Vec<u8>, AcrePeerError> {
    envelope.encode(serialized(envelope))
}

fn decode(bytes: &[u8]) -> Result<PeerEnvelope, AcrePeerError> {
    PeerEnvelope::check_size(bytes)?;
    PeerEnvelope::decode(bytes, parsed(bytes))
}

#[test]
fn round_trips_a_bounded_radio_start() {
    let envelope = PeerEnvelope::new(
        header(3),
        PeerPayload::Start {
            kind: PeerSpeakingKind::Radio,
            net_id: "2:1234".to_owned(),
            radio_id: "ACRE_PRC152".to_owned(),
            language_id: 7,
            curve_scale: 0.75f32.to_bits(),
        },
    )
    .unwrap();
    let wire = encode(&envelope).unwrap();
    assert!(wire.len() <= ACRE_PEER_MAX_MESSAGE_BYTES);
    assert_eq!(decode(&wire).unwrap(), envelope);
}

#[test]
fn rejects_untrusted_shapes_before_they_enter_peer_state() {
    let bad_radio = PeerEnvelope::new(
        header(1),
        PeerPayload::Start {
            kind: PeerSpeakingKind::Radio,
            net_id: "2:1234".to_owned(),
            radio_id: String::new(),
            language_id: 0,
            curve_scale: 1.0f32.to_bits(),
        },
    );
    assert!(matches!(
        bad_radio,
        Err(AcrePeerError::RadioStartWithoutRadioId)
    ));

    let malformed = br#"{"header":{"version":1,"scope":"mission-a","generation":1,"sequence":1},"payload":{"type":"IDENTITY","net_id":"2:1","mumble_id":9}}"#;
    assert!(matches!(
        decode(malformed),
        Err(AcrePeerError::Deserialize(_))
    ));

    let comma_in_net_id = PeerEnvelope::new(
        header(2),
        PeerPayload::Identity {
            net_id: "2:remote,other".to_owned(),
        },
    );
    assert!(matches!(
        comma_in_net_id,
        Err(AcrePeerError::InvalidField("net_id"))
    ));

    let oversized = vec![b' '; ACRE_PEER_MAX_MESSAGE_BYTES + 1];
    assert!(matches!(
        decode(&oversized),
        Err(AcrePeerError::MessageTooLong { .. })
    ));
}

#[test]
fn non_radio_peer_starts_reject_radio_ids() {
    for (sequence, kind) in [
        (2, PeerSpeakingKind::Intercom),
        (3, PeerSpeakingKind::God),
        (4, PeerSpeakingKind::Zeus),
    ] {
        assert!(matches!(
            PeerEnvelope::new(
                header(sequence),
                PeerPayload::Start {
                    kind,
                    net_id: "2:1234".to_owned(),
                    radio_id: "ACRE_PRC152".to_owned(),
                    language_id: 7,
                    curve_scale: 0.75f32.to_bits(),
                },
            ),
            Err(AcrePeerError::UnexpectedRadioId(received)) if received == kind
        ));
    }
}

#[test]
fn order_tracker_requires_strict_progress_and_resets_on_scope_or_generation() {
    let mut tracker = PeerOrderTracker::default();
    assert_eq!(
        tracker.observe(&header(1)),
        PeerOrderDecision::AcceptedFirst
    );
    assert_eq!(
        tracker.observe(&header(1)),
        PeerOrderDecision::RejectedStale
    );
    assert_eq!(tracker.observe(&header(2)), PeerOrderDecision::AcceptedNext);

    let new_generation = PeerHeader::new("mission-a", 2, 1).unwrap();
    assert_eq!(
        tracker.observe(&new_generation),
        PeerOrderDecision::AcceptedNewGeneration
    );
    let new_scope = PeerHeader::new("mission-b", 1, 1).unwrap();
    assert_eq!(
        tracker.observe(&new_scope),
        PeerOrderDecision::AcceptedNewScope
    );
}

#[test]
fn identities_round_trip_at_both_ends_of_every_range() {
    let scopes = ["a", "A-Za-z0-9._:-", "mission.with:many-parts_32chars-x"];
    let ids = ["0", "2:1234", "Z9._:-"];
    for scope in scopes {
        for net_id in ids {
            for number in [1, 2, u64::MAX - 1, u64::MAX] {
                let envelope = PeerEnvelope::new(
                    PeerHeader::new(scope, number, number).unwrap(),
                    PeerPayload::Identity {
                        net_id: net_id.to_owned(),
                    },
                )
                .unwrap();
                let bytes = encode(&envelope).unwrap();
                assert!(bytes.len() <= ACRE_PEER_MAX_MESSAGE_BYTES);
                assert_eq!(decode(&bytes).unwrap(), envelope);
            }
        }
    }
}

#[test]
fn every_peer_error_has_an_input_and_words() {
    let hello = |version: &str| PeerPayload::Hello {
        acre_version: version.to_owned(),
    };
    let wrong_version = PeerHeader {
        version: 2,
        scope: "s".to_owned(),
        generation: 1,
        sequence: 1,
    };
    assert_eq!(
        wrong_version.validate(),
        Err(AcrePeerError::UnsupportedVersion(2))
    );
    assert_eq!(
        PeerEnvelope::new(header(1), hello("2.13.0")).unwrap_err().to_string(),
        "peer ACRE version 2.13.0 is unsupported"
    );
    assert_eq!(decode(b""), Err(AcrePeerError::EmptyMessage));
    assert_eq!(
        PeerHeader::new("", 1, 1),
        Err(AcrePeerError::EmptyField("scope"))
    );
    assert_eq!(
        PeerHeader::new(&"x".repeat(97), 1, 1),
        Err(AcrePeerError::FieldTooLong {
            field: "scope",
            length: 97,
            limit: 96
        })
    );
    assert!(PeerHeader::new(&"x".repeat(96), 1, 1).is_ok());
    assert_eq!(
        PeerHeader::new("a b", 1, 1),
        Err(AcrePeerError::InvalidField("scope"))
    );
    assert_eq!(
        PeerHeader::new("s", 0, 1),
        Err(AcrePeerError::ZeroGeneration)
    );
    assert_eq!(PeerHeader::new("s", 1, 0), Err(AcrePeerError::ZeroSequence));
    let infinite = PeerEnvelope::new(
        header(1),
        PeerPayload::Start {
            kind: PeerSpeakingKind::Direct,
            net_id: "n".to_owned(),
            radio_id: String::new(),
            language_id: 0,
            curve_scale: f32::INFINITY.to_bits(),
        },
    );
    assert_eq!(infinite, Err(AcrePeerError::NonFiniteCurveScale));
    let valid = PeerEnvelope::new(header(1), PeerPayload::Reset).unwrap();
    assert_eq!(
        valid.encode(Err("no room".to_owned())).unwrap_err().to_string(),
        "peer message serialization failed: no room"
    );
    assert_eq!(
        valid.encode(Ok(vec![b'x'; 1025])),
        Err(AcrePeerError::MessageTooLong {
            length: 1025,
            limit: 1024
        })
    );
}
