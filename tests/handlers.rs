use actix_web::error::JsonPayloadError;
use messages_actix::gate::POST_BODY_LIMIT;
use messages_actix::identity::IdSource;
use messages_actix::instance::ServerInstance;
use messages_actix::store::MessageLog;
use messages_actix::MessageApp;

fn strings(v: &[&str]) -> Vec<String> {
    v.iter().map(|s| s.to_string()).collect()
}

#[test]
fn app_keeps_its_port() {
    let app = MessageApp::new(8081);
    assert_eq!(app.port(), 8081);
}

#[test]
fn scenario_append_list_clear_lookup() {
    let mut ids = IdSource::new();
    let mut inst = ServerInstance::new(ids.next_id().unwrap());
    let mut log = MessageLog::new();
    assert_eq!(inst.server_id(), 0);
    assert_eq!(inst.request_count(), 0);

    let r = inst.post(&mut log, "hi".to_string());
    assert_eq!((r.server_id, r.request_count, r.message.as_str()), (0, 1, "hi"));

    let r = inst.index(&log);
    assert_eq!((r.server_id, r.request_count), (0, 2));
    assert_eq!(r.messages, strings(&["hi"]));

    let r = inst.clear(&mut log);
    assert_eq!((r.server_id, r.request_count), (0, 3));
    assert!(r.messages.is_empty());

    let r = inst.lookup(&log, 0);
    assert_eq!((r.server_id, r.request_count), (0, 4));
    assert_eq!(r.result, None);
}

#[test]
fn appends_are_listed_in_order() {
    let mut inst = ServerInstance::new(3);
    let mut log = MessageLog::new();
    assert!(inst.index(&log).messages.is_empty());
    for t in ["one", "two", "three", "two"] {
        inst.post(&mut log, t.to_string());
    }
    assert_eq!(inst.index(&log).messages, strings(&["one", "two", "three", "two"]));
    assert_eq!(log.len(), 4);
}

#[test]
fn append_returns_position() {
    let mut log = MessageLog::new();
    assert_eq!(log.append("a".to_string()), 0);
    assert_eq!(log.append("b".to_string()), 1);
    assert_eq!(log.snapshot(), strings(&["a", "b"]));
    assert_eq!(log.get(1), Some("b".to_string()));
    assert_eq!(log.get(2), None);
}

#[test]
fn interleaved_workers_lose_no_append() {
    let texts = ["w0-a", "w1-a", "w0-b", "w1-b", "w1-c"];
    let mut first = ServerInstance::new(0);
    let mut second = ServerInstance::new(1);
    let mut log = MessageLog::new();
    for (i, t) in texts.iter().enumerate() {
        let inst = if t.starts_with("w0") { &mut first } else { &mut second };
        let r = inst.post(&mut log, t.to_string());
        assert_eq!(r.message, *t);
        assert!(i < texts.len());
    }
    let mut listed = first.index(&log).messages;
    listed.sort();
    let mut expected = strings(&texts);
    expected.sort();
    assert_eq!(listed, expected);
    assert_eq!(first.request_count(), 3);
    assert_eq!(second.request_count(), 3);
}

#[test]
fn clear_then_list_is_empty() {
    let mut inst = ServerInstance::new(0);
    let mut log = MessageLog::new();
    inst.post(&mut log, "x".to_string());
    inst.post(&mut log, "y".to_string());
    assert!(inst.clear(&mut log).messages.is_empty());
    assert!(inst.index(&log).messages.is_empty());
    assert!(inst.clear(&mut log).messages.is_empty());
    assert!(inst.index(&log).messages.is_empty());
    assert_eq!(inst.request_count(), 6);
}

#[test]
fn lookup_in_and_out_of_range() {
    let mut inst = ServerInstance::new(0);
    let mut log = MessageLog::new();
    for t in ["a", "b", "c"] {
        inst.post(&mut log, t.to_string());
    }
    assert_eq!(inst.lookup(&log, 0).result, Some("a".to_string()));
    assert_eq!(inst.lookup(&log, 2).result, Some("c".to_string()));
    assert_eq!(inst.lookup(&log, 3).result, None);
    assert_eq!(inst.lookup(&log, usize::MAX).result, None);
}

#[test]
fn lookup_reports_own_identity() {
    let mut inst = ServerInstance::new(7);
    let log = MessageLog::new();
    let r = inst.lookup(&log, 0);
    assert_eq!((r.server_id, r.request_count), (7, 1));
}

#[test]
fn every_request_counts_once() {
    let mut inst = ServerInstance::new(2);
    let mut log = MessageLog::new();
    assert_eq!(inst.increment_and_get(), 1);
    assert_eq!(inst.index(&log).request_count, 2);
    assert_eq!(inst.post(&mut log, "m".to_string()).request_count, 3);
    assert_eq!(inst.post_error(&JsonPayloadError::ContentType).request_count, 4);
    assert_eq!(inst.lookup(&log, 0).request_count, 5);
    assert_eq!(inst.clear(&mut log).request_count, 6);
    assert_eq!(inst.request_count(), 6);
    assert_eq!(inst.server_id(), 2);
}

#[test]
fn ids_are_distinct_and_counters_separate() {
    let mut ids = IdSource::new();
    let a = ids.next_id().unwrap();
    let b = ids.next_id().unwrap();
    let c = ids.next_id().unwrap();
    assert_eq!((a, b, c), (0, 1, 2));
    let mut x = ServerInstance::new(a);
    let mut y = ServerInstance::new(b);
    let mut log = MessageLog::new();
    x.index(&log);
    x.post(&mut log, "only x".to_string());
    assert_eq!(x.request_count(), 2);
    assert_eq!(y.request_count(), 0);
    let r = y.index(&log);
    assert_eq!((r.server_id, r.request_count), (1, 1));
    assert_eq!(r.messages, strings(&["only x"]));
}

#[test]
fn refused_body_is_counted_and_leaves_log() {
    let mut inst = ServerInstance::new(0);
    let mut log = MessageLog::new();
    inst.post(&mut log, "kept".to_string());
    let r = inst.send(&mut log, Err(JsonPayloadError::ContentType));
    let e = match r {
        Err(e) => e,
        Ok(_) => panic!("a refused body must not be accepted"),
    };
    assert_eq!((e.server_id, e.request_count), (0, 2));
    assert_eq!(e.error, "Content type error");
    assert_eq!(log.snapshot(), strings(&["kept"]));
}

#[test]
fn oversize_body_is_refused_like_malformed() {
    let mut inst = ServerInstance::new(5);
    let mut log = MessageLog::new();
    let r = inst.send(&mut log, Err(JsonPayloadError::Overflow { limit: POST_BODY_LIMIT }));
    let e = match r {
        Err(e) => e,
        Ok(_) => panic!("an oversize body must not be accepted"),
    };
    assert_eq!((e.server_id, e.request_count), (5, 1));
    assert_eq!(e.error, "JSON payload has exceeded limit (4096 bytes).");
    assert_eq!(log.len(), 0);
}

#[test]
fn accepted_body_is_appended() {
    let mut inst = ServerInstance::new(1);
    let mut log = MessageLog::new();
    let r = inst.send(&mut log, Ok("hello".to_string()));
    let p = match r {
        Ok(p) => p,
        Err(_) => panic!("a parsed body must be accepted"),
    };
    assert_eq!((p.server_id, p.request_count, p.message.as_str()), (1, 1, "hello"));
    assert_eq!(log.snapshot(), strings(&["hello"]));
}

#[test]
fn empty_text_is_accepted() {
    let mut inst = ServerInstance::new(0);
    let mut log = MessageLog::new();
    assert!(inst.send(&mut log, Ok(String::new())).is_ok());
    assert_eq!(log.get(0), Some(String::new()));
}
