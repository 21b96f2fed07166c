//! Broker facade: topology setup and publishing behind one capability
//! surface.
//!
//! The capability interface has four operations: `create_exchange`,
//! `create_queue`, `bind_to_exchange` and `send` (here `do_send`, with
//! `send_task` delegating to it).  Each operation takes its transport
//! channel explicitly; the facade holds no live connection.  An operation
//! first plans the channel calls it needs, then runs the plan, so a
//! transport driver can replay the same plan against a live broker.

use std::collections::HashMap;

use vstd::prelude::*;

use crate::config::CeleryConfig;
use crate::errors::{ExchangeError, PublishError, QueueError};
use crate::json::entries_view;
use crate::message_protocol::headers::{headers_wire_entries, Headers};
use crate::message_protocol::message_body::{
    body_wire_entries, body_wire_json, lemma_body_entries_ascending, MessageBody,
};
use crate::message_protocol::properties::{Properties, WirePropertiesView};
use crate::topology::{
    lemma_plan_singleton, lemma_plan_step, plan_view, BrokerTopology, ChannelOp, ChannelOpView,
    ExchangeKind, FailurePolicy, PlannedOp, PlannedOpView, TopologyView,
};

verus! {

/// One entry of the routing table: the topology triple a task name maps to.
#[derive(Clone, Debug)]
pub struct Router {
    pub exchange: String,
    pub queue: String,
    pub routing_key: String,
}

/// Local declared-queue bookkeeping.
#[derive(Clone, Debug)]
pub struct Queues {
    pub queues: Vec<String>,
}

/// RabbitMQ broker facade: a configuration snapshot, an optional routing
/// table, and an optional queue registry.  Stateless between calls apart
/// from this immutable configuration.
pub struct RabbitMQBroker {
    pub config: CeleryConfig,
    pub routers: Option<HashMap<String, Router>>,
    pub queues: Option<Queues>,
}

/// The chosen value when one is given, else the configured default.
pub open spec fn resolved_or_default(
    default_routing_key: Seq<char>,
    chosen: Option<Seq<char>>,
) -> Seq<char> {
    match chosen {
        Option::Some(value) => value,
        Option::None => default_routing_key,
    }
}

/// The channel operations of a `create_queue` call: a direct-exchange
/// declare when asked for (its failure passed over, as the broker call's
/// result is not inspected), the queue declare, and, when an exchange is
/// named, a bind under the resolved routing key.
pub open spec fn create_queue_plan_spec(
    default_routing_key: Seq<char>,
    durable: bool,
    queue: Seq<char>,
    declare_exchange: bool,
    exchange: Option<Seq<char>>,
    routing_key: Option<Seq<char>>,
) -> Seq<PlannedOpView> {
    let declare_ops: Seq<PlannedOpView> = if declare_exchange {
        match exchange {
            Option::Some(exchange_name) => seq![
                PlannedOpView {
                    op: ChannelOpView::DeclareExchange {
                        exchange: exchange_name,
                        kind: ExchangeKind::Direct,
                        durable,
                    },
                    on_failure: FailurePolicy::Ignore,
                },
            ],
            Option::None => Seq::empty(),
        }
    } else {
        Seq::empty()
    };
    let queue_ops: Seq<PlannedOpView> = seq![
        PlannedOpView {
            op: ChannelOpView::DeclareQueue { queue, durable },
            on_failure: FailurePolicy::Abort,
        },
    ];
    let bind_ops: Seq<PlannedOpView> = match exchange {
        Option::Some(exchange_name) => seq![
            PlannedOpView {
                op: ChannelOpView::BindQueue {
                    queue,
                    exchange: exchange_name,
                    routing_key: resolved_or_default(default_routing_key, routing_key),
                },
                on_failure: FailurePolicy::Abort,
            },
        ],
        Option::None => Seq::empty(),
    };
    declare_ops + queue_ops + bind_ops
}

/// The one channel operation of a `send` call: a publish of the body's
/// canonical JSON under the resolved exchange and routing key, with the
/// built properties carrying the header table.  Its transport result is not
/// inspected.
pub open spec fn publish_plan_spec(
    default_routing_key: Seq<char>,
    props: Properties,
    headers: Headers,
    body: MessageBody,
    exchange: Option<Seq<char>>,
    routing_key: Option<Seq<char>>,
) -> Seq<PlannedOpView> {
    seq![
        PlannedOpView {
            op: ChannelOpView::Publish {
                exchange: resolved_or_default(default_routing_key, exchange),
                routing_key: resolved_or_default(default_routing_key, routing_key),
                payload: body_wire_json(body),
                properties: WirePropertiesView {
                    correlation_id: props.correlation_id@,
                    content_type: props.content_type@,
                    content_encoding: props.content_encoding@,
                    headers: headers_wire_entries(headers),
                },
            },
            on_failure: FailurePolicy::Ignore,
        },
    ]
}

/// Plan the channel operations of a `create_queue` call.
pub fn create_queue_plan(
    default_routing_key: &String,
    durable: bool,
    queue: &String,
    declare_exchange: bool,
    exchange: &Option<String>,
    routing_key: &Option<String>,
) -> (plan: Vec<PlannedOp>)
    requires
        declare_exchange ==> exchange.is_some(),
    ensures
        plan_view(plan@) == create_queue_plan_spec(
            default_routing_key@,
            durable,
            queue@,
            declare_exchange,
            exchange.deep_view(),
            routing_key.deep_view(),
        ),
{
    let mut plan: Vec<PlannedOp> = Vec::new();
    if declare_exchange {
        match exchange {
            Some(exchange_name) => {
                plan.push(
                    PlannedOp {
                        op: ChannelOp::DeclareExchange {
                            exchange: exchange_name.clone(),
                            kind: ExchangeKind::Direct,
                            durable,
                        },
                        on_failure: FailurePolicy::Ignore,
                    },
                );
            },
            None => {
                proof {
                    assert(false);
                }
            },
        }
    }
    plan.push(
        PlannedOp {
            op: ChannelOp::DeclareQueue { queue: queue.clone(), durable },
            on_failure: FailurePolicy::Abort,
        },
    );
    match exchange {
        Some(exchange_name) => {
            let resolved = match routing_key {
                Some(key) => key.clone(),
                None => default_routing_key.clone(),
            };
            plan.push(
                PlannedOp {
                    op: ChannelOp::BindQueue {
                        queue: queue.clone(),
                        exchange: exchange_name.clone(),
                        routing_key: resolved,
                    },
                    on_failure: FailurePolicy::Abort,
                },
            );
        },
        None => {},
    }
    proof {
        assert(plan_view(plan@) =~= create_queue_plan_spec(
            default_routing_key@,
            durable,
            queue@,
            declare_exchange,
            exchange.deep_view(),
            routing_key.deep_view(),
        ));
    }
    plan
}

/// Plan the one channel operation of a `send` call.
pub fn publish_plan(
    default_routing_key: &String,
    props: &Properties,
    headers: &Headers,
    body: &MessageBody,
    exchange: &Option<String>,
    routing_key: &Option<String>,
) -> (plan: Vec<PlannedOp>)
    ensures
        plan_view(plan@) == publish_plan_spec(
            default_routing_key@,
            *props,
            *headers,
            *body,
            exchange.deep_view(),
            routing_key.deep_view(),
        ),
{
    let wire_properties = props.convert_to_wire_properties();
    let header_table = headers.convert_to_map();
    let wire_properties = wire_properties.with_headers(header_table);
    let entries = body.convert_to_json_map();
    proof {
        lemma_body_entries_ascending(*body);
        assert(entries_view(entries@) == body_wire_entries(*body));
    }
    let payload = crate::json::entries_to_json(&entries);
    let resolved_exchange = match exchange {
        Some(exchange_name) => exchange_name.clone(),
        None => default_routing_key.clone(),
    };
    let resolved_routing_key = match routing_key {
        Some(key) => key.clone(),
        None => default_routing_key.clone(),
    };
    let mut plan: Vec<PlannedOp> = Vec::new();
    plan.push(
        PlannedOp {
            op: ChannelOp::Publish {
                exchange: resolved_exchange,
                routing_key: resolved_routing_key,
                payload,
                properties: wire_properties,
            },
            on_failure: FailurePolicy::Ignore,
        },
    );
    proof {
        assert(plan_view(plan@) =~= publish_plan_spec(
            default_routing_key@,
            *props,
            *headers,
            *body,
            exchange.deep_view(),
            routing_key.deep_view(),
        ));
    }
    plan
}

/// Map a completed exchange run to the caller's result.
pub fn exchange_outcome(ok: bool) -> (r: Result<bool, ExchangeError>)
    ensures
        r == (if ok {
            Ok::<bool, ExchangeError>(true)
        } else {
            Err::<bool, ExchangeError>(ExchangeError)
        }),
{
    if ok {
        Ok(true)
    } else {
        Err(ExchangeError)
    }
}

/// Map a completed queue run to the caller's result.
pub fn queue_outcome(ok: bool) -> (r: Result<bool, QueueError>)
    ensures
        r == (if ok {
            Ok::<bool, QueueError>(true)
        } else {
            Err::<bool, QueueError>(QueueError)
        }),
{
    if ok {
        Ok(true)
    } else {
        Err(QueueError)
    }
}

/// AMQP broker capability interface.
pub trait AMQPBroker {
    /// Bind a queue to an exchange under a routing key.  Succeeds exactly
    /// when both exist on the broker; an already-bound triple is accepted
    /// and changes nothing.
    fn bind_to_exchange(
        config: CeleryConfig,
        channel: &mut BrokerTopology,
        exchange: String,
        queue: String,
        routing_key: String,
    ) -> (r: Result<bool, ExchangeError>)
        requires
            old(channel)@.wf(),
        ensures
            final(channel)@.wf(),
            r.is_ok() == old(channel)@.bind_ok(queue@, exchange@, routing_key@),
            final(channel)@ == old(channel)@.bind_apply(queue@, exchange@, routing_key@),
            r.is_ok() ==> r == Ok::<bool, ExchangeError>(true),
            !r.is_ok() ==> r == Err::<bool, ExchangeError>(ExchangeError),
    ;

    /// Create a queue; when `declare_exchange` is set, first declare an
    /// exchange of that name (always a direct one, whatever kind the caller
    /// may otherwise want: topic or fanout exchanges must be created through
    /// `create_exchange` beforehand; the declare's result is not inspected);
    /// when an exchange is named, bind the queue to it under the explicit
    /// routing key, or the configured default when none is given.  A failed
    /// queue declare and a failed bind are reported alike, as one
    /// undifferentiated `QueueError`.
    fn create_queue(
        config: CeleryConfig,
        channel: &mut BrokerTopology,
        durable: bool,
        queue: String,
        declare_exchange: bool,
        uuid: String,
        exchange: Option<String>,
        routing_key: Option<String>,
    ) -> (r: Result<bool, QueueError>)
        requires
            old(channel)@.wf(),
            declare_exchange ==> exchange.is_some(),
        ensures
            final(channel)@.wf(),
            r.is_ok() == old(channel)@.plan_ok(
                create_queue_plan_spec(
                    config.default_routing_key@,
                    durable,
                    queue@,
                    declare_exchange,
                    exchange.deep_view(),
                    routing_key.deep_view(),
                ),
            ),
            final(channel)@ == old(channel)@.plan_apply(
                create_queue_plan_spec(
                    config.default_routing_key@,
                    durable,
                    queue@,
                    declare_exchange,
                    exchange.deep_view(),
                    routing_key.deep_view(),
                ),
            ),
            r.is_ok() ==> r == Ok::<bool, QueueError>(true),
            !r.is_ok() ==> r == Err::<bool, QueueError>(QueueError),
    ;

    /// Declare an exchange of the given kind and durability.  Succeeds
    /// exactly when the name is free or already carries an exchange of the
    /// same kind and durability; a failed declare changes nothing.
    fn create_exchange(
        config: CeleryConfig,
        channel: &mut BrokerTopology,
        durable: bool,
        exchange: String,
        exchange_type: ExchangeKind,
    ) -> (r: Result<bool, ExchangeError>)
        requires
            old(channel)@.wf(),
        ensures
            final(channel)@.wf(),
            r.is_ok() == old(channel)@.exchange_declare_ok(exchange@, exchange_type, durable),
            final(channel)@ == old(channel)@.exchange_declare_apply(
                exchange@,
                exchange_type,
                durable,
            ),
            r.is_ok() ==> r == Ok::<bool, ExchangeError>(true),
            !r.is_ok() ==> r == Err::<bool, ExchangeError>(ExchangeError),
    ;

    /// Serialize a message and hand it to the channel under the resolved
    /// exchange and routing key: an explicit argument wins, else both fall
    /// back to the configured default routing key.  The payload is the
    /// body's canonical JSON; the properties carry the header table.  The
    /// call succeeds once the bytes are handed to the channel.
    fn do_send(
        config: CeleryConfig,
        channel: &mut BrokerTopology,
        props: Properties,
        headers: Headers,
        body: MessageBody,
        exchange: Option<String>,
        routing_key: Option<String>,
    ) -> (r: Result<bool, PublishError>)
        requires
            old(channel)@.wf(),
        ensures
            final(channel)@.wf(),
            r == Ok::<bool, PublishError>(true),
            final(channel)@ == old(channel)@.publish_apply(
                crate::topology::PublishRecordView {
                    exchange: resolved_or_default(
                        config.default_routing_key@,
                        exchange.deep_view(),
                    ),
                    routing_key: resolved_or_default(
                        config.default_routing_key@,
                        routing_key.deep_view(),
                    ),
                    payload: body_wire_json(body),
                    properties: WirePropertiesView {
                        correlation_id: props.correlation_id@,
                        content_type: props.content_type@,
                        content_encoding: props.content_encoding@,
                        headers: headers_wire_entries(headers),
                    },
                },
            ),
    ;
}

impl AMQPBroker for RabbitMQBroker {
    fn bind_to_exchange(
        config: CeleryConfig,
        channel: &mut BrokerTopology,
        exchange: String,
        queue: String,
        routing_key: String,
    ) -> (r: Result<bool, ExchangeError>) {
        let ok = channel.queue_bind(&queue, &exchange, &routing_key);
        exchange_outcome(ok)
    }

    fn create_queue(
        config: CeleryConfig,
        channel: &mut BrokerTopology,
        durable: bool,
        queue: String,
        declare_exchange: bool,
        uuid: String,
        exchange: Option<String>,
        routing_key: Option<String>,
    ) -> (r: Result<bool, QueueError>) {
        let plan = create_queue_plan(
            &config.default_routing_key,
            durable,
            &queue,
            declare_exchange,
            &exchange,
            &routing_key,
        );
        let ok = channel.run_plan(&plan);
        queue_outcome(ok)
    }

    fn create_exchange(
        config: CeleryConfig,
        channel: &mut BrokerTopology,
        durable: bool,
        exchange: String,
        exchange_type: ExchangeKind,
    ) -> (r: Result<bool, ExchangeError>) {
        let ok = channel.exchange_declare(&exchange, exchange_type, durable);
        exchange_outcome(ok)
    }

    fn do_send(
        config: CeleryConfig,
        channel: &mut BrokerTopology,
        props: Properties,
        headers: Headers,
        body: MessageBody,
        exchange: Option<String>,
        routing_key: Option<String>,
    ) -> (r: Result<bool, PublishError>) {
        let plan = publish_plan(
            &config.default_routing_key,
            &props,
            &headers,
            &body,
            &exchange,
            &routing_key,
        );
        let ghost plan_model = plan_view(plan@);
        let ok = channel.run_plan(&plan);
        proof {
            lemma_plan_singleton(old(channel)@, plan_model[0]);
            assert(plan_model =~= seq![plan_model[0]]);
        }
        Ok(true)
    }
}

impl RabbitMQBroker {
    /// Create a new broker facade from a configuration snapshot, an
    /// optional routing table and an optional queue registry.
    pub fn new(
        config: CeleryConfig,
        queues: Option<Queues>,
        routers: Option<HashMap<String, Router>>,
    ) -> (r: RabbitMQBroker)
        ensures
            r.config == config,
            r.queues == queues,
            r.routers == routers,
    {
        RabbitMQBroker { config, queues, routers }
    }

    /// Send a task to the broker; delegates to the capability interface's
    /// publish operation.
    pub fn send_task(
        config: CeleryConfig,
        channel: &mut BrokerTopology,
        props: Properties,
        headers: Headers,
        body: MessageBody,
        exchange: Option<String>,
        routing_key: Option<String>,
    ) -> (r: Result<bool, PublishError>)
        requires
            old(channel)@.wf(),
        ensures
            final(channel)@.wf(),
            r == Ok::<bool, PublishError>(true),
            final(channel)@ == old(channel)@.publish_apply(
                crate::topology::PublishRecordView {
                    exchange: resolved_or_default(
                        config.default_routing_key@,
                        exchange.deep_view(),
                    ),
                    routing_key: resolved_or_default(
                        config.default_routing_key@,
                        routing_key.deep_view(),
                    ),
                    payload: body_wire_json(body),
                    properties: WirePropertiesView {
                        correlation_id: props.correlation_id@,
                        content_type: props.content_type@,
                        content_encoding: props.content_encoding@,
                        headers: headers_wire_entries(headers),
                    },
                },
            ),
    {
        <RabbitMQBroker as AMQPBroker>::do_send(
            config,
            channel,
            props,
            headers,
            body,
            exchange,
            routing_key,
        )
    }
}

/// Law: declaring an exchange a second time with identical arguments
/// against the state the first (successful) declare left behind succeeds
/// and leaves the topology unchanged.
pub proof fn lemma_create_exchange_idempotent(
    s: TopologyView,
    exchange: Seq<char>,
    kind: ExchangeKind,
    durable: bool,
)
    requires
        s.exchange_declare_ok(exchange, kind, durable),
    ensures
        ({
            let s1 = s.exchange_declare_apply(exchange, kind, durable);
            &&& s1.exchange_declare_ok(exchange, kind, durable)
            &&& s1.exchange_declare_apply(exchange, kind, durable) == s1
        }),
{
    let s1 = s.exchange_declare_apply(exchange, kind, durable);
    if !s.has_exchange_named(exchange) {
        let last = s1.exchanges.len() - 1;
        assert(s1.exchanges[last] == (crate::topology::ExchangeDeclView {
            name: exchange,
            kind,
            durable,
        }));
    }
}

/// Law: a `create_queue` with the exchange-declare path, an exchange and a
/// routing key that runs through leaves the queue bound to that exchange
/// under that key, and an explicit bind of the same triple afterwards
/// succeeds and changes nothing.
pub proof fn lemma_create_queue_then_bind_idempotent(
    s: TopologyView,
    default_routing_key: Seq<char>,
    durable: bool,
    queue: Seq<char>,
    exchange: Seq<char>,
    routing_key: Seq<char>,
)
    requires
        s.plan_ok(
            create_queue_plan_spec(
                default_routing_key,
                durable,
                queue,
                true,
                Some(exchange),
                Some(routing_key),
            ),
        ),
    ensures
        ({
            let s1 = s.plan_apply(
                create_queue_plan_spec(
                    default_routing_key,
                    durable,
                    queue,
                    true,
                    Some(exchange),
                    Some(routing_key),
                ),
            );
            &&& s1.has_binding(queue, exchange, routing_key)
            &&& s1.bind_ok(queue, exchange, routing_key)
            &&& s1.bind_apply(queue, exchange, routing_key) == s1
        }),
{
    let plan = create_queue_plan_spec(
        default_routing_key,
        durable,
        queue,
        true,
        Some(exchange),
        Some(routing_key),
    );
    let declare_op = PlannedOpView {
        op: ChannelOpView::DeclareExchange { exchange, kind: ExchangeKind::Direct, durable },
        on_failure: FailurePolicy::Ignore,
    };
    let queue_op = PlannedOpView {
        op: ChannelOpView::DeclareQueue { queue, durable },
        on_failure: FailurePolicy::Abort,
    };
    let bind_op = PlannedOpView {
        op: ChannelOpView::BindQueue { queue, exchange, routing_key },
        on_failure: FailurePolicy::Abort,
    };
    assert(plan =~= seq![declare_op, queue_op, bind_op]);
    assert(plan.drop_first() =~= seq![queue_op, bind_op]);
    assert(seq![queue_op, bind_op].drop_first() =~= seq![bind_op]);
    lemma_plan_step(s, plan);
    let s1 = if s.op_ok(declare_op.op) {
        s.op_apply(declare_op.op)
    } else {
        s
    };
    lemma_plan_step(s1, seq![queue_op, bind_op]);
    assert(s1.queue_declare_ok(queue, durable));
    let s2 = s1.queue_declare_apply(queue, durable);
    if !s1.has_queue_named(queue) {
        let last_queue = s2.queues.len() - 1;
        assert(s2.queues[last_queue] == (crate::topology::QueueDeclView { name: queue, durable }));
        assert(s2.queues[last_queue].name == queue);
    }
    assert(s2.has_queue_named(queue));
    lemma_plan_singleton(s2, bind_op);
    assert(s2.bind_ok(queue, exchange, routing_key));
    let s3 = s2.bind_apply(queue, exchange, routing_key);
    assert(s.plan_apply(plan) == s3);
    if !s2.has_binding(queue, exchange, routing_key) {
        let last = s3.bindings.len() - 1;
        assert(s3.bindings[last] == (crate::topology::BindingDeclView {
            queue,
            exchange,
            routing_key,
        }));
    }
    assert(s3.has_binding(queue, exchange, routing_key));
    assert(s3.queues == s2.queues);
    assert(s3.exchanges == s2.exchanges);
    let queue_witness = choose|i: int|
        0 <= i < s2.queues.len() && s2.queues[i].name == queue;
    assert(s3.queues[queue_witness].name == queue);
    assert(s3.has_queue_named(queue));
    let exchange_witness = choose|i: int|
        0 <= i < s2.exchanges.len() && s2.exchanges[i].name == exchange;
    assert(s3.exchanges[exchange_witness].name == exchange);
    assert(s3.has_exchange_named(exchange));
}

/// Law: a `create_queue` without an exchange argument is exactly the queue
/// declare: it succeeds whenever the declare is accepted, and it performs
/// no bind, so the bindings (and exchanges, and published messages) are
/// those of the starting topology.
pub proof fn lemma_create_queue_without_exchange(
    s: TopologyView,
    default_routing_key: Seq<char>,
    durable: bool,
    queue: Seq<char>,
    routing_key: Option<Seq<char>>,
)
    ensures
        ({
            let plan = create_queue_plan_spec(
                default_routing_key,
                durable,
                queue,
                false,
                None,
                routing_key,
            );
            &&& s.plan_ok(plan) == s.queue_declare_ok(queue, durable)
            &&& s.plan_apply(plan) == s.queue_declare_apply(queue, durable)
            &&& s.plan_apply(plan).bindings == s.bindings
            &&& s.plan_apply(plan).exchanges == s.exchanges
            &&& s.plan_apply(plan).published == s.published
        }),
{
    let plan = create_queue_plan_spec(default_routing_key, durable, queue, false, None, routing_key);
    let queue_op = PlannedOpView {
        op: ChannelOpView::DeclareQueue { queue, durable },
        on_failure: FailurePolicy::Abort,
    };
    assert(plan =~= seq![queue_op]);
    lemma_plan_singleton(s, queue_op);
}

} // verus!
