use jadwiga::models::{ActivityFormatError, FieldName, NewActivity};
use jadwiga::queue::{dispatch, handle_activity, DispatchError, ObjectField, Queue};

const ACTOR: &str = "https://example.com/";

fn follow_json(id: &str, object: &str) -> String {
    let mut root = serde_json::Map::new();
    root.insert("id".to_string(), serde_json::Value::String(id.to_string()));
    root.insert(
        "type".to_string(),
        serde_json::Value::String("Follow".to_string()),
    );
    root.insert(
        "actor".to_string(),
        serde_json::Value::String("https://remote.example/actor".to_string()),
    );
    root.insert(
        "object".to_string(),
        serde_json::Value::String(object.to_string()),
    );
    serde_json::to_string(&serde_json::Value::Object(root)).unwrap()
}

fn typed_json(id: &str, typ: &str) -> String {
    let mut root = serde_json::Map::new();
    root.insert("id".to_string(), serde_json::Value::String(id.to_string()));
    root.insert(
        "type".to_string(),
        serde_json::Value::String(typ.to_string()),
    );
    root.insert(
        "actor".to_string(),
        serde_json::Value::String("https://remote.example/actor".to_string()),
    );
    root.insert(
        "object".to_string(),
        serde_json::Value::String(ACTOR.to_string()),
    );
    serde_json::to_string(&serde_json::Value::Object(root)).unwrap()
}

#[test]
fn drain_processes_in_arrival_order_and_empties_the_queue() {
    let mut q = Queue::new();
    q.enqueue(NewActivity {
        id: "a".to_string(),
        json: follow_json("a", ACTOR),
    });
    q.enqueue(NewActivity {
        id: "b".to_string(),
        json: follow_json("b", ACTOR),
    });
    let outcomes = q.drain(ACTOR);
    assert_eq!(outcomes.len(), 2);
    assert_eq!(outcomes[0].0.id, "a");
    assert_eq!(outcomes[1].0.id, "b");
    assert!(outcomes[0].0.rowid < outcomes[1].0.rowid);
    assert!(outcomes[0].1.is_ok());
    assert!(outcomes[1].1.is_ok());
    assert_eq!(q.len(), 0);
}

#[test]
fn duplicate_ids_make_two_entries() {
    // Documented behavior, deliberately unfixed here: nothing
    // deduplicates deliveries, so the same activity id queues twice.
    let mut q = Queue::new();
    let body = follow_json("same-id", ACTOR);
    let first = q.accept(&body).unwrap();
    let second = q.accept(&body).unwrap();
    assert_eq!(q.len(), 2);
    assert_ne!(first, second);
    let entries = q.entries();
    assert_eq!(entries[0].id, "same-id");
    assert_eq!(entries[1].id, "same-id");
    assert_ne!(entries[0].rowid, entries[1].rowid);
}

#[test]
fn unsupported_type_fails_and_is_still_removed() {
    let mut q = Queue::new();
    q.accept(&typed_json("x", "like")).unwrap();
    let outcomes = q.drain(ACTOR);
    assert_eq!(outcomes.len(), 1);
    assert_eq!(
        outcomes[0].1,
        Err(DispatchError::UnsupportedActivityType("like".to_string()))
    );
    assert_eq!(q.len(), 0);
}

#[test]
fn type_is_lowercased_before_dispatch() {
    let mut q = Queue::new();
    q.accept(&typed_json("x", "LIKE")).unwrap();
    let outcomes = q.drain(ACTOR);
    assert_eq!(
        outcomes[0].1,
        Err(DispatchError::UnsupportedActivityType("like".to_string()))
    );
}

#[test]
fn follow_of_another_actor_is_a_target_mismatch() {
    let mut q = Queue::new();
    q.accept(&follow_json("x", "https://other.example/")).unwrap();
    let outcomes = q.drain(ACTOR);
    assert_eq!(outcomes[0].1, Err(DispatchError::TargetMismatch));
    assert_eq!(q.len(), 0);
}

#[test]
fn accept_rejects_malformed_json_and_leaves_queue_untouched() {
    let mut q = Queue::new();
    let r = q.accept("{not json");
    assert_eq!(r.unwrap_err(), ActivityFormatError::MalformedJson);
    assert_eq!(q.len(), 0);
}

#[test]
fn accept_requires_a_string_id() {
    let mut q = Queue::new();
    let r = q.accept("{\"type\":\"Follow\"}");
    assert_eq!(r.unwrap_err(), ActivityFormatError::Missing(FieldName::Id));
    let r = q.accept("{\"id\":7}");
    assert_eq!(r.unwrap_err(), ActivityFormatError::NonString(FieldName::Id));
    assert_eq!(q.len(), 0);
}

#[test]
fn from_json_extracts_the_id_and_keeps_the_raw_body() {
    let body = follow_json("my-id", ACTOR);
    let a = NewActivity::from_json(&body).unwrap();
    assert_eq!(a.id, "my-id");
    assert_eq!(a.json, body);
}

#[test]
fn from_json_rejects_bad_bodies() {
    assert_eq!(
        NewActivity::from_json("{not json").unwrap_err(),
        ActivityFormatError::MalformedJson
    );
    assert_eq!(
        NewActivity::from_json("{\"type\":\"Follow\"}").unwrap_err(),
        ActivityFormatError::Missing(FieldName::Id)
    );
    assert_eq!(
        NewActivity::from_json("{\"id\":7}").unwrap_err(),
        ActivityFormatError::NonString(FieldName::Id)
    );
}

#[test]
fn handle_activity_reports_missing_fields() {
    let actor_only = "{\"id\":\"x\",\"actor\":\"a\",\"object\":\"o\"}";
    let a = jadwiga::models::Activity {
        rowid: 1,
        id: "x".to_string(),
        json: actor_only.to_string(),
    };
    assert_eq!(
        handle_activity(&a, ACTOR),
        Err(DispatchError::Format(ActivityFormatError::Missing(
            FieldName::Type
        )))
    );
    let no_actor = "{\"id\":\"x\",\"type\":\"Follow\",\"object\":\"o\"}";
    let a = jadwiga::models::Activity {
        rowid: 1,
        id: "x".to_string(),
        json: no_actor.to_string(),
    };
    assert_eq!(
        handle_activity(&a, ACTOR),
        Err(DispatchError::Format(ActivityFormatError::Missing(
            FieldName::Actor
        )))
    );
    let actor_not_string = "{\"id\":\"x\",\"type\":\"Follow\",\"actor\":7,\"object\":\"o\"}";
    let a = jadwiga::models::Activity {
        rowid: 1,
        id: "x".to_string(),
        json: actor_not_string.to_string(),
    };
    assert_eq!(
        handle_activity(&a, ACTOR),
        Err(DispatchError::Format(ActivityFormatError::NonString(
            FieldName::Actor
        )))
    );
    let no_object = "{\"id\":\"x\",\"type\":\"Follow\",\"actor\":\"a\"}";
    let a = jadwiga::models::Activity {
        rowid: 1,
        id: "x".to_string(),
        json: no_object.to_string(),
    };
    assert_eq!(
        handle_activity(&a, ACTOR),
        Err(DispatchError::Format(ActivityFormatError::Missing(
            FieldName::Object
        )))
    );
}

#[test]
fn dispatch_rejects_non_string_follow_object() {
    let r = dispatch("Follow", &ObjectField::Other, ACTOR);
    assert_eq!(
        r,
        Err(DispatchError::Format(ActivityFormatError::NonString(
            FieldName::Object
        )))
    );
}

#[test]
fn restore_continues_numbering_after_the_stored_entries() {
    let entries = vec![
        jadwiga::models::Activity {
            rowid: 3,
            id: "a".to_string(),
            json: follow_json("a", ACTOR),
        },
        jadwiga::models::Activity {
            rowid: 7,
            id: "b".to_string(),
            json: follow_json("b", ACTOR),
        },
    ];
    let mut q = Queue::restore(entries).unwrap();
    assert_eq!(q.len(), 2);
    assert_eq!(q.next_sequence(), 8);
    let assigned = q.enqueue(NewActivity {
        id: "c".to_string(),
        json: follow_json("c", ACTOR),
    });
    assert_eq!(assigned, 8);
}

#[test]
fn restore_rejects_out_of_order_entries() {
    let entries = vec![
        jadwiga::models::Activity {
            rowid: 7,
            id: "a".to_string(),
            json: String::new(),
        },
        jadwiga::models::Activity {
            rowid: 3,
            id: "b".to_string(),
            json: String::new(),
        },
    ];
    assert!(Queue::restore(entries).is_err());
}

#[test]
fn empty_restore_starts_at_one() {
    let q = Queue::restore(Vec::new()).unwrap();
    assert_eq!(q.len(), 0);
    assert_eq!(q.next_sequence(), 1);
}

#[test]
fn dispatch_accepts_follow_of_this_actor() {
    let r = dispatch(
        "Follow",
        &ObjectField::Str(ACTOR.to_string()),
        ACTOR,
    );
    assert!(r.is_ok());
}
