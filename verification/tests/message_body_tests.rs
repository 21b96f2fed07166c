use rusty_celery_broker::json::BodyValue;
use rusty_celery_broker::message_protocol::message_body::MessageBody;

#[test]
fn should_convert_to_json_map() {
    let mb = MessageBody::new(Some(String::from("chord")), None, None, None);
    let cjm = mb.convert_to_json_map();
    let ch = cjm.iter().find(|entry| entry.0 == "chord");
    let cv = ch.unwrap();
    match &cv.1 {
        BodyValue::Text(s) => assert!(String::from(s.as_str()).eq("chord")),
        _ => panic!("the chord entry should hold its string"),
    }
}

#[test]
fn should_create_new_message_body() {
    let mb = MessageBody::new(None, None, None, None);
    assert!(mb.errbacks.is_none());
}

#[test]
fn all_null_body_maps_to_four_explicit_nulls() {
    let mb = MessageBody::new(None, None, None, None);
    let cjm = mb.convert_to_json_map();
    let keys: Vec<&str> = cjm.iter().map(|entry| entry.0.as_str()).collect();
    assert_eq!(keys, vec!["callbacks", "chain", "chord", "errbacks"]);
    for entry in cjm.iter() {
        assert!(matches!(entry.1, BodyValue::Null));
    }
}

#[test]
fn full_body_maps_every_field_to_its_value() {
    let mb = MessageBody::new(
        Some("chord-ref".to_string()),
        Some("chain-ref".to_string()),
        Some(vec!["cb1".to_string(), "cb2".to_string()]),
        Some(vec!["eb1".to_string()]),
    );
    let cjm = mb.convert_to_json_map();
    assert_eq!(cjm.len(), 4);
    assert!(matches!(&cjm[0].1, BodyValue::TextList(items) if items == &vec!["cb1".to_string(), "cb2".to_string()]));
    assert!(matches!(&cjm[1].1, BodyValue::Text(s) if s == "chain-ref"));
    assert!(matches!(&cjm[2].1, BodyValue::Text(s) if s == "chord-ref"));
    assert!(matches!(&cjm[3].1, BodyValue::TextList(items) if items == &vec!["eb1".to_string()]));
}
