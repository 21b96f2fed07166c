use rusty_celery_broker::broker::{AMQPBroker, RabbitMQBroker};
use rusty_celery_broker::config::{AMQPConnectionInf, BackendConfig, CeleryConfig};
use rusty_celery_broker::message_protocol::headers::Headers;
use rusty_celery_broker::message_protocol::message_body::MessageBody;
use rusty_celery_broker::message_protocol::properties::Properties;
use rusty_celery_broker::topology::{BrokerTopology, ExchangeKind};

fn get_config() -> CeleryConfig {
    let protocol = "amqp".to_string();
    let host = "127.0.0.1".to_string();
    let port = 5672;
    let vhost = Some("test".to_string());
    let username = Some("dev".to_string());
    let password = Some("dev".to_string());
    let broker_conn =
        AMQPConnectionInf::new(protocol, host, port, vhost, username, password, false);
    let backend = BackendConfig {
        url: "rpc://".to_string(),
        username: None,
        password: None,
        transport_options: None,
    };
    CeleryConfig::new(broker_conn, backend)
}

#[test]
fn should_create_queue() {
    let conf = get_config();
    let _rmq = RabbitMQBroker::new(conf.clone(), None, None);
    let mut channel = BrokerTopology::new();
    let uuid = String::from("owner-token");
    let rq = RabbitMQBroker::create_queue(
        conf.clone(),
        &mut channel,
        true,
        String::from("test_queue"),
        true,
        uuid,
        Some("test_exchange".to_string()),
        Some("test_routing_key".to_string()),
    );
    assert!(rq.is_ok());
    assert!(channel.contains_queue(&"test_queue".to_string(), true));
}

#[test]
fn should_create_and_bind_queue_to_exchange() {
    let conf = get_config();
    let _rmq = RabbitMQBroker::new(conf.clone(), None, None);
    let mut channel = BrokerTopology::new();
    let uuid = String::from("owner-token");
    let rq = RabbitMQBroker::create_queue(
        conf.clone(),
        &mut channel,
        true,
        String::from("test_queue"),
        true,
        uuid,
        Some("test_exchange".to_string()),
        Some("test_routing_key".to_string()),
    );
    let rb = RabbitMQBroker::bind_to_exchange(
        conf.clone(),
        &mut channel,
        "test_exchange".to_string(),
        "test_queue".to_string(),
        "test_routing_key".to_string(),
    );
    assert!(rq.is_ok());
    assert!(rb.is_ok());
    assert_eq!(channel.binding_count(), 1);
}

#[test]
fn should_send_task_to_queue() {
    let conf = get_config();
    let _rmq = RabbitMQBroker::new(conf.clone(), None, None);
    let mut channel = BrokerTopology::new();
    let uuid = String::from("owner-token");
    let rq = RabbitMQBroker::create_queue(
        conf.clone(),
        &mut channel,
        true,
        String::from("test_queue"),
        true,
        uuid,
        Some("test_exchange".to_string()),
        Some("test_routing_key".to_string()),
    );
    let body = MessageBody::new(None, None, None, None);
    let ustr = String::from("b9e40f3e-1be0-4b4f-9da6-a3d8fbb7f2b8");
    let headers = Headers::new(
        "rs".to_string(),
        "test_task".to_string(),
        ustr.clone(),
        ustr.clone(),
    );
    let props = Properties::new(
        ustr.clone(),
        "application/json".to_string(),
        "utf-8".to_string(),
        None,
    );
    let br = RabbitMQBroker::send_task(
        conf,
        &mut channel,
        props,
        headers,
        body,
        Some("test_exchange".to_string()),
        Some("test_routing_key".to_string()),
    );
    assert!(br.is_ok());
    assert!(rq.is_ok());
    assert_eq!(channel.published().len(), 1);
}

#[test]
fn create_exchange_is_idempotent() {
    let conf = get_config();
    let mut channel = BrokerTopology::new();
    let first = RabbitMQBroker::create_exchange(
        conf.clone(),
        &mut channel,
        true,
        "ex".to_string(),
        ExchangeKind::Topic,
    );
    let second = RabbitMQBroker::create_exchange(
        conf,
        &mut channel,
        true,
        "ex".to_string(),
        ExchangeKind::Topic,
    );
    assert!(matches!(first, Ok(true)));
    assert!(matches!(second, Ok(true)));
    assert_eq!(channel.exchange_count(), 1);
    assert!(channel.contains_exchange(&"ex".to_string(), ExchangeKind::Topic, true));
}

#[test]
fn create_exchange_of_other_kind_fails_and_changes_nothing() {
    let conf = get_config();
    let mut channel = BrokerTopology::new();
    let first = RabbitMQBroker::create_exchange(
        conf.clone(),
        &mut channel,
        true,
        "ex".to_string(),
        ExchangeKind::Direct,
    );
    let second = RabbitMQBroker::create_exchange(
        conf,
        &mut channel,
        true,
        "ex".to_string(),
        ExchangeKind::Fanout,
    );
    assert!(first.is_ok());
    assert!(second.is_err());
    assert_eq!(channel.exchange_count(), 1);
    assert!(channel.contains_exchange(&"ex".to_string(), ExchangeKind::Direct, true));
}

#[test]
fn create_queue_on_fresh_broker_builds_full_topology() {
    let conf = get_config();
    let mut channel = BrokerTopology::new();
    let rq = RabbitMQBroker::create_queue(
        conf,
        &mut channel,
        true,
        "q1".to_string(),
        true,
        "owner-token".to_string(),
        Some("ex1".to_string()),
        Some("rk1".to_string()),
    );
    assert!(matches!(rq, Ok(true)));
    assert!(channel.contains_exchange(&"ex1".to_string(), ExchangeKind::Direct, true));
    assert!(channel.contains_queue(&"q1".to_string(), true));
    assert!(channel.contains_binding(
        &"q1".to_string(),
        &"ex1".to_string(),
        &"rk1".to_string()
    ));
    assert_eq!(channel.exchange_count(), 1);
    assert_eq!(channel.queue_count(), 1);
    assert_eq!(channel.binding_count(), 1);
}

#[test]
fn create_queue_without_exchange_performs_no_bind() {
    let conf = get_config();
    let mut channel = BrokerTopology::new();
    let rq = RabbitMQBroker::create_queue(
        conf,
        &mut channel,
        false,
        "plain_queue".to_string(),
        false,
        "owner-token".to_string(),
        None,
        None,
    );
    assert!(matches!(rq, Ok(true)));
    assert!(channel.contains_queue(&"plain_queue".to_string(), false));
    assert_eq!(channel.binding_count(), 0);
    assert_eq!(channel.exchange_count(), 0);
}

#[test]
fn create_queue_reports_queue_error_on_mismatched_declare() {
    let conf = get_config();
    let mut channel = BrokerTopology::new();
    let first = RabbitMQBroker::create_queue(
        conf.clone(),
        &mut channel,
        true,
        "q".to_string(),
        false,
        "owner-token".to_string(),
        None,
        None,
    );
    let second = RabbitMQBroker::create_queue(
        conf,
        &mut channel,
        false,
        "q".to_string(),
        false,
        "owner-token".to_string(),
        None,
        None,
    );
    assert!(first.is_ok());
    assert!(second.is_err());
    assert_eq!(channel.queue_count(), 1);
}

#[test]
fn bind_to_exchange_reports_exchange_error_when_nothing_is_declared() {
    let conf = get_config();
    let mut channel = BrokerTopology::new();
    let rb = RabbitMQBroker::bind_to_exchange(
        conf,
        &mut channel,
        "missing_exchange".to_string(),
        "missing_queue".to_string(),
        "rk".to_string(),
    );
    assert!(rb.is_err());
    assert_eq!(channel.binding_count(), 0);
}

#[test]
fn send_serializes_body_to_canonical_json() {
    let conf = get_config();
    let mut channel = BrokerTopology::new();
    let body = MessageBody::new(
        Some("c1".to_string()),
        None,
        Some(vec!["a".to_string(), "b".to_string()]),
        None,
    );
    let headers = Headers::new(
        "rs".to_string(),
        "test_task".to_string(),
        "id-1".to_string(),
        "root-1".to_string(),
    );
    let props = Properties::new(
        "corr-1".to_string(),
        "application/json".to_string(),
        "utf-8".to_string(),
        None,
    );
    let br = RabbitMQBroker::send_task(
        conf,
        &mut channel,
        props,
        headers,
        body,
        Some("ex".to_string()),
        Some("rk".to_string()),
    );
    assert!(br.is_ok());
    let published = channel.published();
    assert_eq!(published.len(), 1);
    assert_eq!(
        published[0].payload,
        "{\"callbacks\":[\"a\",\"b\"],\"chain\":null,\"chord\":\"c1\",\"errbacks\":null}"
    );
    assert_eq!(published[0].properties.correlation_id, "corr-1");
    assert_eq!(published[0].properties.content_type, "application/json");
    assert_eq!(published[0].properties.content_encoding, "utf-8");
    assert_eq!(
        published[0].properties.headers,
        vec![
            ("id".to_string(), "id-1".to_string()),
            ("lang".to_string(), "rs".to_string()),
            ("root_id".to_string(), "root-1".to_string()),
            ("task".to_string(), "test_task".to_string()),
        ]
    );
}

#[test]
fn send_escapes_body_strings_as_json_does() {
    let conf = get_config();
    let mut channel = BrokerTopology::new();
    let body = MessageBody::new(Some("a\"b\\c".to_string()), None, None, None);
    let headers = Headers::new(
        "rs".to_string(),
        "test_task".to_string(),
        "id-1".to_string(),
        "root-1".to_string(),
    );
    let props = Properties::new(
        "corr-1".to_string(),
        "application/json".to_string(),
        "utf-8".to_string(),
        None,
    );
    let br = RabbitMQBroker::send_task(
        conf,
        &mut channel,
        props,
        headers,
        body,
        Some("ex".to_string()),
        None,
    );
    assert!(br.is_ok());
    assert_eq!(
        channel.published()[0].payload,
        "{\"callbacks\":null,\"chain\":null,\"chord\":\"a\\\"b\\\\c\",\"errbacks\":null}"
    );
}

#[test]
fn send_prefers_explicit_exchange_and_routing_key() {
    let conf = get_config();
    let mut channel = BrokerTopology::new();
    let body = MessageBody::new(None, None, None, None);
    let headers = Headers::new(
        "rs".to_string(),
        "test_task".to_string(),
        "id-1".to_string(),
        "root-1".to_string(),
    );
    let props = Properties::new(
        "corr-1".to_string(),
        "application/json".to_string(),
        "utf-8".to_string(),
        None,
    );
    let br = RabbitMQBroker::send_task(
        conf,
        &mut channel,
        props,
        headers,
        body,
        Some("explicit_ex".to_string()),
        Some("explicit_rk".to_string()),
    );
    assert!(br.is_ok());
    assert_eq!(channel.published()[0].exchange, "explicit_ex");
    assert_eq!(channel.published()[0].routing_key, "explicit_rk");
}

#[test]
fn send_with_no_arguments_falls_back_to_default_routing_key() {
    let mut conf = get_config();
    conf.default_routing_key = "default_rk".to_string();
    let mut channel = BrokerTopology::new();
    let body = MessageBody::new(None, None, None, None);
    let headers = Headers::new(
        "rs".to_string(),
        "test_task".to_string(),
        "id-1".to_string(),
        "root-1".to_string(),
    );
    let props = Properties::new(
        "corr-1".to_string(),
        "application/json".to_string(),
        "utf-8".to_string(),
        None,
    );
    let br = RabbitMQBroker::send_task(conf, &mut channel, props, headers, body, None, None);
    assert!(br.is_ok());
    assert_eq!(channel.published()[0].exchange, "default_rk");
    assert_eq!(channel.published()[0].routing_key, "default_rk");
}

#[test]
fn create_queue_resolves_bind_routing_key_from_default() {
    let mut conf = get_config();
    conf.default_routing_key = "default_rk".to_string();
    let mut channel = BrokerTopology::new();
    let rq = RabbitMQBroker::create_queue(
        conf,
        &mut channel,
        true,
        "q1".to_string(),
        true,
        "owner-token".to_string(),
        Some("ex1".to_string()),
        None,
    );
    assert!(matches!(rq, Ok(true)));
    assert!(channel.contains_binding(
        &"q1".to_string(),
        &"ex1".to_string(),
        &"default_rk".to_string()
    ));
}

#[test]
fn send_escapes_control_characters_in_body_strings() {
    let conf = get_config();
    let mut channel = BrokerTopology::new();
    let body = MessageBody::new(Some("a\nb\u{1}c".to_string()), None, None, None);
    let headers = Headers::new(
        "rs".to_string(),
        "test_task".to_string(),
        "id-1".to_string(),
        "root-1".to_string(),
    );
    let props = Properties::new(
        "corr-1".to_string(),
        "application/json".to_string(),
        "utf-8".to_string(),
        None,
    );
    let br = RabbitMQBroker::send_task(
        conf,
        &mut channel,
        props,
        headers,
        body,
        Some("ex".to_string()),
        None,
    );
    assert!(br.is_ok());
    assert_eq!(
        channel.published()[0].payload,
        "{\"callbacks\":null,\"chain\":null,\"chord\":\"a\\nb\\u0001c\",\"errbacks\":null}"
    );
}
