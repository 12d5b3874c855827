use gateway_relay::Bus;
use gateway_relay::BusPoll;
use gateway_relay::ConnectionStatus;
use gateway_relay::Guilds;
use gateway_relay::JsonField;
use gateway_relay::JsonValue;
use gateway_relay::LoopAction;
use gateway_relay::ShardSession;
use gateway_relay::StreamItem;
use gateway_relay::BroadcastMessage;
use gateway_relay::envelope::envelope_of_doc;
use gateway_relay::json::get_field;
use gateway_relay::json::parse_json;
use gateway_relay::json::set_field;
use gateway_relay::json::take_field;
use gateway_relay::session::loop_decision;
use gateway_relay::telemetry::shard_statistics;
use gateway_relay::telemetry::status_ordinal;

fn field<'a>(fields: &'a [JsonField], key: &str) -> Option<&'a JsonValue> {
    fields.iter().find(|f| f.key == key).map(|f| &f.value)
}

fn fresh_session() -> ShardSession {
    ShardSession::new(0, String::from("wss://relay.example"), 0)
}

const READY_FRAME: &str = "{\"op\":0,\"s\":1,\"t\":\"READY\",\"d\":{\"v\":9,\"guilds\":[{\"id\":1},{\"id\":2}],\"resume_gateway_url\":\"wss://upstream\"}}";

#[test]
fn ready_publishes_rewritten_snapshot() {
    let mut session = fresh_session();

    let hello = session.handle_frame("{\"op\":10}");
    assert!(hello.relay.is_none());
    assert!(hello.event_name.is_none());
    assert!(!session.is_ready);

    let out = session.handle_frame(READY_FRAME);
    assert!(out.relay.is_none());
    assert_eq!(out.event_name.as_deref(), Some("READY"));
    assert!(session.is_ready);

    let snapshot = session.ready_snapshot().as_ref().expect("snapshot published");
    match field(snapshot, "guilds") {
        Some(JsonValue::Arr(items)) => assert!(items.is_empty()),
        _ => panic!("guilds not an empty array"),
    }
    match field(snapshot, "resume_gateway_url") {
        Some(JsonValue::Str(url)) => assert_eq!(url, "wss://relay.example"),
        _ => panic!("resume url not rewritten"),
    }
    match field(snapshot, "v") {
        Some(JsonValue::Int(v)) => assert_eq!(*v, 9),
        _ => panic!("unrelated member not preserved"),
    }
}

#[test]
fn dispatch_relayed_with_exact_text_and_sequence() {
    let mut session = fresh_session();
    session.handle_frame(READY_FRAME);

    let frame = "{\"op\":0,\"s\":2,\"t\":\"MESSAGE_CREATE\",\"d\":{\"content\":\"hi\"}}";
    let out = session.handle_frame(frame);
    let message = out.relay.expect("dispatch relayed while ready");
    assert_eq!(message.payload, frame);
    assert_eq!(message.sequence, Some(2));
    assert_eq!(out.event_name.as_deref(), Some("MESSAGE_CREATE"));
}

#[test]
fn nothing_relayed_while_not_ready() {
    let mut session = fresh_session();
    let out = session.handle_frame("{\"op\":0,\"s\":2,\"t\":\"MESSAGE_CREATE\",\"d\":{}}");
    assert!(out.relay.is_none());
    assert!(!session.is_ready);
}

#[test]
fn ready_and_resumed_not_relayed_themselves() {
    let mut session = fresh_session();
    session.handle_frame(READY_FRAME);
    let again = session.handle_frame(READY_FRAME);
    assert!(again.relay.is_none());
    let resumed = session.handle_frame("{\"op\":0,\"s\":3,\"t\":\"RESUMED\",\"d\":{}}");
    assert!(resumed.relay.is_none());
    assert!(session.is_ready);
}

#[test]
fn non_resumable_invalidation_clears_snapshot() {
    let mut session = fresh_session();
    session.handle_frame(READY_FRAME);
    assert!(session.ready_snapshot().is_some());

    session.handle_frame("{\"op\":9,\"d\":false}");
    assert!(!session.is_ready);
    assert!(session.ready_snapshot().is_none());

    let out = session.handle_frame("{\"op\":0,\"s\":5,\"t\":\"MESSAGE_CREATE\",\"d\":{}}");
    assert!(out.relay.is_none());

    session.handle_frame(READY_FRAME);
    assert!(session.is_ready);
    assert!(session.ready_snapshot().is_some());
}

#[test]
fn resumable_invalidation_keeps_snapshot() {
    let mut session = fresh_session();
    session.handle_frame(READY_FRAME);

    session.handle_frame("{\"op\":9,\"d\":true}");
    assert!(!session.is_ready);
    let snapshot = session.ready_snapshot().as_ref().expect("snapshot kept");
    match field(snapshot, "resume_gateway_url") {
        Some(JsonValue::Str(url)) => assert_eq!(url, "wss://relay.example"),
        _ => panic!("snapshot changed"),
    }

    let suspended = session.handle_frame("{\"op\":0,\"s\":6,\"t\":\"MESSAGE_CREATE\",\"d\":{}}");
    assert!(suspended.relay.is_none());

    session.handle_frame("{\"op\":0,\"s\":7,\"t\":\"RESUMED\",\"d\":{}}");
    assert!(session.is_ready);
    let out = session.handle_frame("{\"op\":0,\"s\":8,\"t\":\"MESSAGE_CREATE\",\"d\":{}}");
    assert!(out.relay.is_some());
}

#[test]
fn malformed_frames_are_discarded_without_effect() {
    let mut session = fresh_session();
    session.handle_frame(READY_FRAME);

    let garbled = session.handle_frame("{\"op\":0,\"s\":2,");
    assert!(garbled.relay.is_none());
    assert!(garbled.event_name.is_none());
    assert!(session.is_ready);
    assert!(session.ready_snapshot().is_some());

    let no_op_member = session.handle_frame("{\"s\":2,\"t\":\"MESSAGE_CREATE\"}");
    assert!(no_op_member.relay.is_none());
    assert!(session.is_ready);
}

#[test]
fn batch_relay_preserves_receive_order() {
    let mut session = fresh_session();
    let mut bus = Bus::new(16);
    let mut subscriber = bus.subscribe();

    let first = "{\"op\":0,\"s\":2,\"t\":\"MESSAGE_CREATE\",\"d\":{\"n\":1}}";
    let second = "{\"op\":0,\"s\":3,\"t\":\"MESSAGE_CREATE\",\"d\":{\"n\":2}}";
    let frames = vec![
        String::from("{\"op\":10}"),
        String::from(READY_FRAME),
        String::from(first),
        String::from(second),
    ];
    session.relay_all(&frames, &mut bus);

    match bus.poll(&mut subscriber) {
        BusPoll::Item(m) => {
            assert_eq!(m.payload, first);
            assert_eq!(m.sequence, Some(2));
        }
        _ => panic!("first dispatch missing"),
    }
    match bus.poll(&mut subscriber) {
        BusPoll::Item(m) => {
            assert_eq!(m.payload, second);
            assert_eq!(m.sequence, Some(3));
        }
        _ => panic!("second dispatch missing"),
    }
    assert!(matches!(bus.poll(&mut subscriber), BusPoll::Empty));
}

#[test]
fn slow_subscriber_sees_one_lag_then_reads_on_in_order() {
    let mut bus = Bus::new(2);
    let mut subscriber = bus.subscribe();
    for i in 0..3u64 {
        bus.publish(BroadcastMessage {
            payload: format!("frame-{i}"),
            sequence: Some(i as i64),
        });
    }
    match bus.poll(&mut subscriber) {
        BusPoll::Lagged(missed) => assert_eq!(missed, 1),
        _ => panic!("lag not indicated"),
    }
    match bus.poll(&mut subscriber) {
        BusPoll::Item(m) => assert_eq!(m.payload, "frame-1"),
        _ => panic!("lag indicated twice or message lost"),
    }
    match bus.poll(&mut subscriber) {
        BusPoll::Item(m) => assert_eq!(m.payload, "frame-2"),
        _ => panic!("delivery out of order"),
    }
    assert!(matches!(bus.poll(&mut subscriber), BusPoll::Empty));
}

#[test]
fn late_subscriber_sees_only_later_messages() {
    let mut bus = Bus::new(4);
    bus.publish(BroadcastMessage { payload: String::from("early"), sequence: None });
    let mut subscriber = bus.subscribe();
    assert!(matches!(bus.poll(&mut subscriber), BusPoll::Empty));
    bus.publish(BroadcastMessage { payload: String::from("late"), sequence: None });
    match bus.poll(&mut subscriber) {
        BusPoll::Item(m) => assert_eq!(m.payload, "late"),
        _ => panic!("later message missing"),
    }
}

#[test]
fn telemetry_sampling_is_debounced() {
    let mut session = fresh_session();
    assert!(!session.telemetry_slot(400));
    assert!(session.telemetry_slot(950));
    assert!(!session.telemetry_slot(1200));
    assert!(!session.telemetry_slot(1450));
    assert!(session.telemetry_slot(1460));
}

#[test]
fn connection_status_ordinals_keep_dashboard_order() {
    assert_eq!(status_ordinal(&ConnectionStatus::FatallyClosed), 0);
    assert_eq!(status_ordinal(&ConnectionStatus::Disconnected), 1);
    assert_eq!(status_ordinal(&ConnectionStatus::Identifying), 2);
    assert_eq!(status_ordinal(&ConnectionStatus::Resuming), 3);
    assert_eq!(status_ordinal(&ConnectionStatus::Active), 4);
}

#[test]
fn statistics_sample_reports_missing_latency_as_absent() {
    let cache = Guilds::new();
    let sample = shard_statistics(&ConnectionStatus::Active, 0, &cache.stats());
    assert_eq!(sample.connection_status, 4);
    assert!(!sample.latency_present);
    let sample = shard_statistics(&ConnectionStatus::Resuming, 3, &cache.stats());
    assert!(sample.latency_present);
    assert_eq!(sample.guilds, 0);
    assert_eq!(sample.voice_states, 0);
}

#[test]
fn stub_cache_reports_zero_for_every_statistic() {
    let stats = Guilds::new().stats();
    assert_eq!(stats.emojis(), 0);
    assert_eq!(stats.guilds(), 0);
    assert_eq!(stats.members(), 0);
    assert_eq!(stats.presences(), 0);
    assert_eq!(stats.channels(), 0);
    assert_eq!(stats.roles(), 0);
    assert_eq!(stats.unavailable_guilds(), 0);
    assert_eq!(stats.users(), 0);
    assert_eq!(stats.voice_states(), 0);
}

#[test]
fn synthetic_sequence_numbers_strictly_increase() {
    let cache = Guilds::new();
    let mut sequence: u64 = 0;
    let first = cache.get_ready_payload(Vec::new(), &mut sequence);
    assert_eq!(first.s, 1);
    assert_eq!(sequence, 1);
    let replay = cache.get_guild_payloads(&mut sequence);
    assert!(replay.is_empty());
    assert_eq!(sequence, 1);
    let second = cache.get_ready_payload(Vec::new(), &mut sequence);
    assert_eq!(second.s, 2);
    assert!(first.s < second.s);
}

#[test]
fn ready_payload_is_dispatch_shaped() {
    let cache = Guilds::new();
    let mut sequence: u64 = 6;
    let body = vec![JsonField { key: String::from("v"), value: JsonValue::Int(9) }];
    let payload = cache.get_ready_payload(body, &mut sequence);
    assert_eq!(payload.op, 0);
    assert_eq!(payload.t, "READY");
    assert_eq!(payload.s, 7);
    match field(&payload.d, "guilds") {
        Some(JsonValue::Arr(items)) => assert!(items.is_empty()),
        _ => panic!("guilds not emptied"),
    }
    match field(&payload.d, "v") {
        Some(JsonValue::Int(v)) => assert_eq!(*v, 9),
        _ => panic!("member not kept"),
    }
}

#[test]
fn envelope_decoding_reads_only_routing_fields() {
    let doc = parse_json("{\"op\":0,\"s\":12,\"t\":\"GUILD_CREATE\",\"d\":{\"big\":[1,2,3]}}")
        .expect("well-formed frame");
    let envelope = envelope_of_doc(&doc).expect("envelope present");
    assert_eq!(envelope.op, 0);
    assert_eq!(envelope.sequence, Some(12));
    assert_eq!(envelope.event_type.as_deref(), Some("GUILD_CREATE"));

    let doc = parse_json("{\"op\":11,\"s\":null,\"t\":null}").expect("well-formed frame");
    let envelope = envelope_of_doc(&doc).expect("envelope present");
    assert_eq!(envelope.op, 11);
    assert_eq!(envelope.sequence, None);
    assert_eq!(envelope.event_type, None);

    assert!(parse_json("{\"op\":0,").is_none());
    let doc = parse_json("{\"s\":1}").expect("well-formed frame");
    assert!(envelope_of_doc(&doc).is_none());
    let doc = parse_json("[1,2]").expect("well-formed frame");
    assert!(envelope_of_doc(&doc).is_none());
}

#[test]
fn object_member_operations_replace_and_preserve() {
    let mut fields = vec![
        JsonField { key: String::from("a"), value: JsonValue::Int(1) },
        JsonField { key: String::from("b"), value: JsonValue::Bool(true) },
    ];
    set_field(&mut fields, String::from("a"), JsonValue::Int(2));
    set_field(&mut fields, String::from("c"), JsonValue::Null);
    match field(&fields, "a") {
        Some(JsonValue::Int(v)) => assert_eq!(*v, 2),
        _ => panic!("member not replaced"),
    }
    assert!(matches!(field(&fields, "b"), Some(JsonValue::Bool(true))));
    assert!(matches!(field(&fields, "c"), Some(JsonValue::Null)));
    assert!(matches!(get_field(&fields, &String::from("d")), None));

    let taken = take_field(&mut fields, &String::from("b"));
    assert!(matches!(taken, Some(JsonValue::Bool(true))));
}

#[test]
fn loop_reacts_to_stream_items_as_specified() {
    assert!(matches!(loop_decision(&StreamItem::Frame, false), LoopAction::Process));
    assert!(matches!(loop_decision(&StreamItem::Frame, true), LoopAction::Process));
    assert!(matches!(loop_decision(&StreamItem::Close, false), LoopAction::Skip));
    assert!(matches!(loop_decision(&StreamItem::Close, true), LoopAction::Exit));
    assert!(matches!(loop_decision(&StreamItem::Faulty, true), LoopAction::Skip));
    assert!(matches!(loop_decision(&StreamItem::Ended, false), LoopAction::Exit));
}
