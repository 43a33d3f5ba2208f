use pregnancy_monitor::duration::format_duration_human;
use pregnancy_monitor::gestation::{ChildInfo, GestationType, Timestamp};
use pregnancy_monitor::numeral::{canonical_float, parse_i16, parse_micros, parse_u8};
use pregnancy_monitor::osc_query_cache::{Lookup, OscQueryCache};
use pregnancy_monitor::utils::json_path_exists;
use pregnancy_monitor::osc_server::{
    OscServer, OscValue, SendTarget, ServiceKind, TransportMode, ValueType,
};
use pregnancy_monitor::pregancy_handler::{PregancyHandler, UserEdit};
use pregnancy_monitor::stored::SaveData;

fn at(secs: i64) -> Timestamp {
    Timestamp { secs, nanos: 0 }
}

fn tree(text: &str) -> Option<serde_json::Value> {
    Some(serde_json::from_str(text).unwrap())
}

fn active_handler(count: u8, conception: Option<Timestamp>) -> PregancyHandler {
    let mut h = PregancyHandler::new();
    h.set_child_data(ChildInfo {
        conception_time: conception,
        gestation_time: 8_000_000,
        gestation: GestationType::Hours,
        number_of_childern: count,
    });
    h.set_system_active(true);
    h
}

fn sent(out: &[pregnancy_monitor::osc_server::OscMessage]) -> Vec<(String, Vec<OscValue>)> {
    out.iter().map(|m| (m.addr.clone(), m.args.clone())).collect()
}

#[test]
fn auto_convert_reads_one_argument() {
    let c = |s: &str| OscServer::auto_convert(s);
    assert!(matches!(c("[Float(8.0)]"), Some((ValueType::Float, ref t)) if t == "8"));
    assert!(matches!(c("[Float(-0.50)]"), Some((ValueType::Float, ref t)) if t == "-0.5"));
    assert!(matches!(c("[Float(12.25)]"), Some((ValueType::Float, ref t)) if t == "12.25"));
    assert!(matches!(c("[Int(3)]"), Some((ValueType::Int, ref t)) if t == "3"));
    assert!(matches!(c("[Int(+007)]"), Some((ValueType::Int, ref t)) if t == "7"));
    assert!(matches!(c("[Int(-32768)]"), Some((ValueType::Int, ref t)) if t == "-32768"));
    assert!(c("[Int(40000)]").is_none());
    assert!(matches!(c("[Bool(true)]"), Some((ValueType::Bool, ref t)) if t == "true"));
    assert!(c("[Bool(yes)]").is_none());
    assert!(c("[Float(1e-5)]").is_none());
    assert!(matches!(c("[String(\"x\")]"), Some((ValueType::Unknown, ref t)) if t == "[String(\"x\")]"));
    assert!(matches!(c("[]"), Some((ValueType::Unknown, ref t)) if t == "[]"));
    assert!(c("Int(3)").is_none());
}

#[test]
fn numbers_from_text() {
    assert_eq!(parse_u8("255"), Some(255));
    assert_eq!(parse_u8("+12"), Some(12));
    assert_eq!(parse_u8("256"), None);
    assert_eq!(parse_u8("-1"), None);
    assert_eq!(parse_u8(""), None);
    assert_eq!(parse_i16("-12"), Some(-12));
    assert_eq!(parse_i16("32768"), None);
    assert_eq!(parse_micros("8"), Some(8_000_000));
    assert_eq!(parse_micros("0.3333339"), Some(333_333));
    assert_eq!(parse_micros("12.5"), Some(12_500_000));
    assert_eq!(parse_micros("1000000"), Some(1_000_000_000_000));
    assert_eq!(parse_micros("1000000.5"), Some(1_000_000_500_000));
    assert_eq!(parse_micros("1000000000000"), Some(1_000_000_000_000_000_000));
    assert_eq!(parse_micros("1000000000000.5"), None);
    assert_eq!(parse_micros("-1"), None);
    assert_eq!(parse_micros("1."), None);
    assert_eq!(canonical_float("3.000").as_deref(), Some("3"));
}

#[test]
fn duration_text() {
    assert_eq!(format_duration_human(0), "0 seconds");
    assert_eq!(format_duration_human(-40), "0 seconds");
    assert_eq!(format_duration_human(1), "1 second");
    assert_eq!(format_duration_human(7200), "2 hours");
    assert_eq!(format_duration_human(2_592_000 + 86_400 + 3_600 + 60 + 1), "1 month, 1 day, 1 hour, 1 minute, 1 second");
    assert_eq!(format_duration_human(2 * 2_592_000 + 3 * 86_400 + 5), "2 months, 3 days, 5 seconds");
}

#[test]
fn registry_and_routes() {
    let mut s = OscServer::new(TransportMode::DirectSocket);
    assert_eq!(s.get_osc_port(), None);
    assert_eq!(s.get_osc_query(), None);
    assert!(matches!(s.send_target(), SendTarget::Socket { ref address } if address == "127.0.0.1:9000"));
    s.set_osc_port(9001);
    assert_eq!(s.get_osc_port(), Some(9001));
    s.set_vrc_address("192.168.1.4".to_string(), 9100);
    assert_eq!(s.get_osc_query().as_deref(), Some("http://192.168.1.4:9100"));
    assert!(matches!(s.send_target(), SendTarget::Socket { ref address } if address == "192.168.1.4:9100"));

    let mut m = OscServer::new(TransportMode::ManagedSession);
    m.record_service(ServiceKind::Osc, "10.0.0.2".to_string(), 9000);
    assert_eq!(m.get_osc_query(), None);
    m.record_service(ServiceKind::OscQuery, "10.0.0.2".to_string(), 45123);
    assert_eq!(m.get_osc_query().as_deref(), Some("http://10.0.0.2:45123"));
    assert!(matches!(m.send_target(), SendTarget::Session { ref pattern } if pattern == "VRChat-Client-*"));
}

#[test]
fn tree_is_served_from_memory_for_five_seconds() {
    let mut server = OscServer::new(TransportMode::ManagedSession);
    let mut cache = OscQueryCache::new();
    assert!(matches!(cache.get_avatar_parameters(&server, 0), Lookup::NoEndpoint));
    server.record_service(ServiceKind::OscQuery, "127.0.0.1".to_string(), 8080);
    let url = match cache.get_avatar_parameters(&server, 1_000) {
        Lookup::Fetch(u) => u,
        _ => panic!("expected a fetch"),
    };
    assert_eq!(url, "http://127.0.0.1:8080/avatar/parameters");
    let doc = cache.store_avatar_parameters(1_000, Some("{\"CONTENTS\":{\"PregnancySave\":{}}}".to_string()));
    assert!(doc.is_some());
    match cache.get_avatar_parameters(&server, 5_999) {
        Lookup::Cached(v) => assert_eq!(Some(v), doc),
        _ => panic!("expected the cached tree"),
    }
    assert!(matches!(cache.get_avatar_parameters(&server, 6_000), Lookup::Fetch(_)));
}

#[test]
fn refetching_tree_keeps_avatar_id() {
    let mut server = OscServer::new(TransportMode::DirectSocket);
    server.set_vrc_address("127.0.0.1".to_string(), 9000);
    let mut cache = OscQueryCache::new();
    cache.store_avatar_id(Some("{\"VALUE\":[\"avtr_5\"]}".to_string()));
    cache.store_avatar_parameters(0, Some("{}".to_string()));
    assert!(matches!(cache.get_avatar_parameters(&server, 10_000), Lookup::Fetch(_)));
    assert_eq!(cache.avatar_id.as_deref(), Some("avtr_5"));
    assert!(matches!(cache.get_avatar_id(&server), Lookup::Cached(ref x) if x == "avtr_5"));
}

#[test]
fn tree_that_is_not_json_is_not_kept() {
    let server = {
        let mut s = OscServer::new(TransportMode::DirectSocket);
        s.set_vrc_address("127.0.0.1".to_string(), 9000);
        s
    };
    let mut cache = OscQueryCache::new();
    assert_eq!(cache.store_avatar_parameters(10, Some("<html>".to_string())), None);
    assert_eq!(cache.store_avatar_parameters(10, None), None);
    assert_eq!(cache.last_fetched, None);
    assert!(matches!(cache.get_avatar_parameters(&server, 11), Lookup::Fetch(_)));
}

#[test]
fn clear_avatar_is_debounced() {
    let mut cache = OscQueryCache::new();
    cache.store_avatar_parameters(1_000, Some("{}".to_string()));
    cache.avatar_id = Some("avtr_1".to_string());
    cache.clear_avatar(1_500);
    assert_eq!(cache.avatar_id.as_deref(), Some("avtr_1"));
    assert!(cache.cached_data.is_some());
    assert_eq!(cache.last_fetched, Some(1_000));
    cache.clear_avatar(1_501);
    assert_eq!(cache.avatar_id, None);
    assert_eq!(cache.cached_data, None);
    assert_eq!(cache.last_fetched, Some(1_501));
}

#[test]
fn avatar_id_from_change_document() {
    let mut server = OscServer::new(TransportMode::DirectSocket);
    let mut cache = OscQueryCache::new();
    assert!(matches!(cache.get_avatar_id(&server), Lookup::NoEndpoint));
    server.set_vrc_address("127.0.0.1".to_string(), 9000);
    match cache.get_avatar_id(&server) {
        Lookup::Fetch(u) => assert_eq!(u, "http://127.0.0.1:9000/avatar/change"),
        _ => panic!("expected a fetch"),
    }
    let id = cache.store_avatar_id(Some("{\"VALUE\":[\"avtr_123\"]}".to_string()));
    assert_eq!(id.as_deref(), Some("avtr_123"));
    assert!(matches!(cache.get_avatar_id(&server), Lookup::Cached(ref x) if x == "avtr_123"));
    let mut other = OscQueryCache::new();
    assert_eq!(other.store_avatar_id(Some("not json".to_string())).as_deref(), Some(""));
    assert_eq!(other.avatar_id, None);
    assert_eq!(other.store_avatar_id(Some("{\"VALUE\":[5]}".to_string())), None);
}

#[test]
fn path_lookup_in_tree() {
    let doc: serde_json::Value = serde_json::from_str("{\"CONTENTS\":{\"PregnancySave\":{\"TYPE\":\"f\"}}}").unwrap();
    assert!(json_path_exists(&doc, "/CONTENTS/PregnancySave"));
    assert!(!json_path_exists(&doc, "/CONTENTS/Other"));
}

#[test]
fn avatar_without_system_goes_inactive() {
    let mut h = active_handler(1, Some(at(5)));
    let r = h.handle("/avatar/change", "[String(\"avtr_9\")]", at(10));
    assert!(r.recheck_avatar);
    assert!(r.outbound.is_empty());
    let mut store = SaveData::new();
    let out = h.check_avatar_oscquery(&tree("{\"CONTENTS\":{\"Other\":{}}}"), &Some("avtr_9".to_string()), &mut store);
    assert!(out.outbound.is_empty());
    assert!(!out.store_changed);
    assert_eq!(h.get_system_active(), Some(false));
    assert_eq!(h.get_child_data(), None);
    assert!(store.avatar_ids.is_empty());
}

#[test]
fn avatar_with_system_resynchronises_peer() {
    let mut h = PregancyHandler::new();
    let mut store = SaveData::new();
    let id = "avtr_7".to_string();
    let rec = ChildInfo {
        conception_time: Some(at(1_000)),
        gestation_time: 8_000_000,
        gestation: GestationType::Hours,
        number_of_childern: 2,
    };
    store.store_record(&id, rec);
    let r = h.handle("/avatar/change", "[String(\"avtr_7\")]", at(10));
    assert!(r.recheck_avatar);
    let out = h.check_avatar_oscquery(&tree("{\"CONTENTS\":{\"PregnancySave\":{}}}"), &Some(id.clone()), &mut store);
    assert!(out.store_changed);
    assert_eq!(h.get_system_active(), Some(true));
    assert_eq!(h.get_child_data(), Some(rec));
    assert_eq!(
        sent(&out.outbound),
        vec![
            ("/avatar/parameters/GestationTime".to_string(), vec![OscValue::Micros(8_000_000)]),
            ("/avatar/parameters/Gestation".to_string(), vec![OscValue::Int(0)]),
            ("/avatar/parameters/ChildCount".to_string(), vec![OscValue::Int(2)]),
            ("/avatar/parameters/IsPregnant".to_string(), vec![OscValue::Bool(true)]),
        ]
    );
}

#[test]
fn new_avatar_gets_default_record() {
    let mut h = PregancyHandler::new();
    let mut store = SaveData::new();
    let id = "avtr_new".to_string();
    let out = h.check_avatar_oscquery(&tree("{\"CONTENTS\":{\"PregnancySave\":{}}}"), &Some(id.clone()), &mut store);
    assert_eq!(out.outbound.len(), 2);
    assert_eq!(store.get(&id), Some(ChildInfo::default()));
    let mut h2 = PregancyHandler::new();
    let none = h2.check_avatar_oscquery(&tree("{\"CONTENTS\":{\"PregnancySave\":{}}}"), &None, &mut store);
    assert!(none.outbound.is_empty() && !none.store_changed);
    assert_eq!(h2.get_system_active(), Some(false));
}

#[test]
fn child_count_message_stamps_conception() {
    let mut h = active_handler(2, None);
    let r = h.handle("/avatar/parameters/Childcount", "[Int(3)]", at(777));
    assert!(r.persist);
    assert_eq!(h.get_child_count(), 3);
    assert_eq!(h.get_conception_time(), Some(at(777)));
    assert_eq!(sent(&r.outbound), vec![("/avatar/parameters/ChildCount".to_string(), vec![OscValue::Int(3)])]);
    let mut store = SaveData::new();
    let id = "avtr_1".to_string();
    h.save_data(&mut store, &id);
    assert_eq!(store.get(&id).map(|c| c.number_of_childern), Some(3));
}

#[test]
fn messages_while_inactive_or_unreadable_change_nothing() {
    let mut idle = PregancyHandler::new();
    let r = idle.handle("/avatar/parameters/Childcount", "[Int(3)]", at(1));
    assert!(!r.persist && !r.recheck_avatar && r.outbound.is_empty());
    let mut h = active_handler(1, Some(at(1)));
    let r = h.handle("/avatar/parameters/Childcount", "[Bool(true)]", at(2));
    assert!(!r.persist);
    let r = h.handle("/avatar/parameters/Other", "[Int(3)]", at(2));
    assert!(!r.persist);
    assert_eq!(h.get_child_count(), 1);
}

#[test]
fn gestation_messages() {
    let mut h = active_handler(1, Some(at(1)));
    let r = h.handle("/avatar/parameters/GestationTime", "[Float(12.5)]", at(2));
    assert!(r.persist && r.outbound.is_empty());
    assert_eq!(h.get_gestation_time(), 12_500_000);
    let r = h.handle("/avatar/parameters/Gestation", "[Int(2)]", at(2));
    assert!(r.persist);
    assert_eq!(h.get_gestation_type(), GestationType::Weeks);
    h.handle("/avatar/parameters/Gestation", "[Int(9)]", at(2));
    assert_eq!(h.get_gestation_type(), GestationType::Hours);
    h.handle("/avatar/parameters/Gestation", "[Int(1)]", at(2));
    assert_eq!(h.get_gestation_type(), GestationType::Days);
    let r = h.handle("/avatar/parameters/Gestation", "[Int(-1)]", at(2));
    assert!(r.persist);
    assert_eq!(h.get_gestation_type(), GestationType::Hours);
    h.handle("/avatar/parameters/Gestation", "[Float(3.0)]", at(2));
    assert_eq!(h.get_gestation_type(), GestationType::Months);
    h.handle("/avatar/parameters/Gestation", "[Int(300)]", at(2));
    assert_eq!(h.get_gestation_type(), GestationType::Hours);
    h.handle("/avatar/parameters/Gestation", "[Int(4)]", at(2));
    h.handle("/avatar/parameters/Gestation", "[Int(2147483647)]", at(2));
    assert_eq!(h.get_gestation_type(), GestationType::Hours);
    h.handle("/avatar/parameters/Gestation", "[Int(4)]", at(2));
    let r = h.handle("/avatar/parameters/Gestation", "[Float(2.5)]", at(2));
    assert!(r.persist);
    assert_eq!(h.get_gestation_type(), GestationType::Hours);
    h.handle("/avatar/parameters/Gestation", "[Int(4)]", at(2));
    let r = h.handle("/avatar/parameters/Gestation", "[Bool(true)]", at(2));
    assert!(r.persist);
    assert_eq!(h.get_gestation_type(), GestationType::Hours);
    h.set_gestation_type(3);
    assert_eq!(h.get_gestation_type(), GestationType::Months);
}

#[test]
fn datagram_is_decoded_and_dispatched() {
    let mut h = active_handler(0, None);
    let bytes = rosc::encoder::encode(&rosc::OscPacket::Message(rosc::OscMessage {
        addr: "/avatar/parameters/Childcount".to_string(),
        args: vec![rosc::OscType::Int(4)],
    }))
    .unwrap();
    let r = h.handle_datagram(&bytes, at(50));
    assert!(r.persist);
    assert_eq!(h.get_child_count(), 4);
    let float_bytes = rosc::encoder::encode(&rosc::OscPacket::Message(rosc::OscMessage {
        addr: "/avatar/parameters/GestationTime".to_string(),
        args: vec![rosc::OscType::Float(2.0f32)],
    }))
    .unwrap();
    h.handle_datagram(&float_bytes, at(51));
    assert_eq!(h.get_gestation_time(), 2_000_000);
    let r = h.handle_datagram(&[1, 2, 3], at(52));
    assert!(!r.persist && !r.recheck_avatar);
    let change = |n: usize| {
        rosc::encoder::encode(&rosc::OscPacket::Message(rosc::OscMessage {
            addr: "/avatar/change".to_string(),
            args: vec![rosc::OscType::String("x".repeat(n))],
        }))
        .unwrap()
    };
    let short = change(1400);
    assert!(short.len() <= 1536);
    assert!(h.handle_datagram(&short, at(53)).recheck_avatar);
    let long = change(1600);
    assert!(long.len() > 1536);
    let r = h.handle_datagram(&long, at(53));
    assert!(!r.recheck_avatar && !r.persist);
    assert_eq!(h.get_child_count(), 4);
}

#[test]
fn user_edits_and_broadcast() {
    let mut h = active_handler(0, None);
    assert!(h.broadcast(at(100)).is_none());
    let r = h.save_and_mutate(UserEdit::AddChild, at(100));
    assert!(r.persist);
    assert_eq!(sent(&r.outbound), vec![("/avatar/parameters/ChildCount".to_string(), vec![OscValue::Int(1)])]);
    let b = h.broadcast(at(100 + 14_400)).unwrap();
    assert_eq!(b.addr, "/avatar/parameters/PregnancySave");
    assert_eq!(b.args, vec![OscValue::Micros(500_000)]);
    assert_eq!(h.get_gestation_progress_fraction(at(100 + 14_400)), 500_000);
    assert_eq!(h.calculate_future_time(at(0)), at(100 + 28_800));
    h.save_and_mutate(UserEdit::SetUnit(GestationType::Days), at(0));
    assert_eq!(h.get_gestation_time(), 333_333);
    h.save_and_mutate(UserEdit::SetGestationTime(1_000_000), at(0));
    assert_eq!(h.get_gestation_time(), 1_000_000);
    h.save_and_mutate(UserEdit::RestartConception, at(500));
    assert_eq!(h.get_conception_time(), Some(at(500)));
    let r = h.save_and_mutate(UserEdit::RemoveChild, at(600));
    assert_eq!(h.get_child_count(), 0);
    assert_eq!(h.get_conception_time(), None);
    assert_eq!(r.outbound.len(), 1);
    h.clear_conception_time();
    h.clear_child_data();
    assert_eq!(h.get_child_count(), 0);
    assert!(!h.save_and_mutate(UserEdit::AddChild, at(1)).persist);
}
