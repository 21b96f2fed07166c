//! Model of broker-side topology state and of the channel operations that
//! change it.
//!
//! A [`BrokerTopology`] stands for the state a broker reaches through
//! declare, bind and publish calls: its declared exchanges and queues, its
//! bindings, and the messages handed to it.  The operations carry the
//! broker's declare semantics: declaring an existing exchange or queue again
//! with identical arguments succeeds and changes nothing, a declare against
//! one of a different shape fails and changes nothing, and a bind of an
//! already-bound triple is a no-op.  Topology operations are planned as
//! sequences of [`PlannedOp`], so that a transport driver can replay a plan
//! against a live broker while the model proves what the plan does.

use vstd::prelude::*;

use crate::message_protocol::properties::{WireProperties, WirePropertiesView};

verus! {

/// The kind of an exchange: how it routes a message to bound queues.
#[derive(Clone, Copy, PartialEq, Eq, Structural, Debug)]
pub enum ExchangeKind {
    Direct,
    Topic,
    Fanout,
    Headers,
}

/// A declared exchange.
#[derive(Clone, Debug)]
pub struct ExchangeDecl {
    pub name: String,
    pub kind: ExchangeKind,
    pub durable: bool,
}

/// Mathematical model of an [`ExchangeDecl`].
pub ghost struct ExchangeDeclView {
    pub name: Seq<char>,
    pub kind: ExchangeKind,
    pub durable: bool,
}

impl View for ExchangeDecl {
    type V = ExchangeDeclView;

    open spec fn view(&self) -> ExchangeDeclView {
        ExchangeDeclView { name: self.name@, kind: self.kind, durable: self.durable }
    }
}

/// A declared queue.
#[derive(Clone, Debug)]
pub struct QueueDecl {
    pub name: String,
    pub durable: bool,
}

/// Mathematical model of a [`QueueDecl`].
pub ghost struct QueueDeclView {
    pub name: Seq<char>,
    pub durable: bool,
}

impl View for QueueDecl {
    type V = QueueDeclView;

    open spec fn view(&self) -> QueueDeclView {
        QueueDeclView { name: self.name@, durable: self.durable }
    }
}

/// A binding of a queue to an exchange under a routing key.
#[derive(Clone, Debug)]
pub struct BindingDecl {
    pub queue: String,
    pub exchange: String,
    pub routing_key: String,
}

/// Mathematical model of a [`BindingDecl`].
pub ghost struct BindingDeclView {
    pub queue: Seq<char>,
    pub exchange: Seq<char>,
    pub routing_key: Seq<char>,
}

impl View for BindingDecl {
    type V = BindingDeclView;

    open spec fn view(&self) -> BindingDeclView {
        BindingDeclView {
            queue: self.queue@,
            exchange: self.exchange@,
            routing_key: self.routing_key@,
        }
    }
}

/// A message as handed to the transport: resolved exchange and routing key,
/// payload text, and the built properties.
#[derive(Clone, Debug)]
pub struct PublishRecord {
    pub exchange: String,
    pub routing_key: String,
    pub payload: String,
    pub properties: WireProperties,
}

/// Mathematical model of a [`PublishRecord`].
pub ghost struct PublishRecordView {
    pub exchange: Seq<char>,
    pub routing_key: Seq<char>,
    pub payload: Seq<char>,
    pub properties: WirePropertiesView,
}

impl View for PublishRecord {
    type V = PublishRecordView;

    open spec fn view(&self) -> PublishRecordView {
        PublishRecordView {
            exchange: self.exchange@,
            routing_key: self.routing_key@,
            payload: self.payload@,
            properties: self.properties@,
        }
    }
}

/// Mathematical model of a broker's topology state.
#[verifier::ext_equal]
pub ghost struct TopologyView {
    pub exchanges: Seq<ExchangeDeclView>,
    pub queues: Seq<QueueDeclView>,
    pub bindings: Seq<BindingDeclView>,
    pub published: Seq<PublishRecordView>,
}

impl TopologyView {
    /// The empty topology of a fresh broker.
    pub open spec fn empty() -> TopologyView {
        TopologyView {
            exchanges: Seq::empty(),
            queues: Seq::empty(),
            bindings: Seq::empty(),
            published: Seq::empty(),
        }
    }

    /// Exchange and queue names and binding triples are unique.
    pub open spec fn wf(self) -> bool {
        &&& forall|i: int, j: int|
            0 <= i < j < self.exchanges.len() ==> self.exchanges[i].name != self.exchanges[j].name
        &&& forall|i: int, j: int|
            0 <= i < j < self.queues.len() ==> self.queues[i].name != self.queues[j].name
        &&& forall|i: int, j: int|
            0 <= i < j < self.bindings.len() ==> self.bindings[i] != self.bindings[j]
    }

    /// Some exchange of this name is declared.
    pub open spec fn has_exchange_named(self, name: Seq<char>) -> bool {
        exists|i: int| 0 <= i < self.exchanges.len() && self.exchanges[i].name == name
    }

    /// This exact exchange is declared.
    pub open spec fn has_exchange(self, name: Seq<char>, kind: ExchangeKind, durable: bool) -> bool {
        exists|i: int|
            0 <= i < self.exchanges.len() && self.exchanges[i] == (ExchangeDeclView {
                name,
                kind,
                durable,
            })
    }

    /// Some queue of this name is declared.
    pub open spec fn has_queue_named(self, name: Seq<char>) -> bool {
        exists|i: int| 0 <= i < self.queues.len() && self.queues[i].name == name
    }

    /// This exact queue is declared.
    pub open spec fn has_queue(self, name: Seq<char>, durable: bool) -> bool {
        exists|i: int|
            0 <= i < self.queues.len() && self.queues[i] == (QueueDeclView { name, durable })
    }

    /// This binding triple exists.
    pub open spec fn has_binding(
        self,
        queue: Seq<char>,
        exchange: Seq<char>,
        routing_key: Seq<char>,
    ) -> bool {
        exists|i: int|
            0 <= i < self.bindings.len() && self.bindings[i] == (BindingDeclView {
                queue,
                exchange,
                routing_key,
            })
    }

    /// An exchange declare succeeds when the name is free or the existing
    /// exchange has the same kind and durability.
    pub open spec fn exchange_declare_ok(
        self,
        name: Seq<char>,
        kind: ExchangeKind,
        durable: bool,
    ) -> bool {
        self.has_exchange(name, kind, durable) || !self.has_exchange_named(name)
    }

    /// The state after an exchange declare: unchanged when the name was
    /// taken (whether the declare succeeded or failed), else with the new
    /// exchange appended.
    pub open spec fn exchange_declare_apply(
        self,
        name: Seq<char>,
        kind: ExchangeKind,
        durable: bool,
    ) -> TopologyView {
        if self.has_exchange_named(name) {
            self
        } else {
            TopologyView {
                exchanges: self.exchanges.push(ExchangeDeclView { name, kind, durable }),
                ..self
            }
        }
    }

    /// A queue declare succeeds when the name is free or the existing queue
    /// has the same durability.
    pub open spec fn queue_declare_ok(self, name: Seq<char>, durable: bool) -> bool {
        self.has_queue(name, durable) || !self.has_queue_named(name)
    }

    /// The state after a queue declare: unchanged when the name was taken,
    /// else with the new queue appended.
    pub open spec fn queue_declare_apply(self, name: Seq<char>, durable: bool) -> TopologyView {
        if self.has_queue_named(name) {
            self
        } else {
            TopologyView { queues: self.queues.push(QueueDeclView { name, durable }), ..self }
        }
    }

    /// A bind succeeds when both the queue and the exchange exist; binding
    /// an already-bound triple again is accepted.
    pub open spec fn bind_ok(
        self,
        queue: Seq<char>,
        exchange: Seq<char>,
        routing_key: Seq<char>,
    ) -> bool {
        self.has_queue_named(queue) && self.has_exchange_named(exchange)
    }

    /// The state after a bind: the triple is appended when the bind
    /// succeeded and the triple is new; otherwise nothing changes.
    pub open spec fn bind_apply(
        self,
        queue: Seq<char>,
        exchange: Seq<char>,
        routing_key: Seq<char>,
    ) -> TopologyView {
        if !self.bind_ok(queue, exchange, routing_key) {
            self
        } else if self.has_binding(queue, exchange, routing_key) {
            self
        } else {
            TopologyView {
                bindings: self.bindings.push(BindingDeclView { queue, exchange, routing_key }),
                ..self
            }
        }
    }

    /// The state after a publish: the record is appended.  A publish is
    /// accepted once the bytes are handed to the channel; no transport-level
    /// failure is modeled.
    pub open spec fn publish_apply(self, record: PublishRecordView) -> TopologyView {
        TopologyView { published: self.published.push(record), ..self }
    }

    /// Whether one channel operation succeeds against this state.
    pub open spec fn op_ok(self, op: ChannelOpView) -> bool {
        match op {
            ChannelOpView::DeclareExchange { exchange, kind, durable } => self.exchange_declare_ok(
                exchange,
                kind,
                durable,
            ),
            ChannelOpView::DeclareQueue { queue, durable } => self.queue_declare_ok(queue, durable),
            ChannelOpView::BindQueue { queue, exchange, routing_key } => self.bind_ok(
                queue,
                exchange,
                routing_key,
            ),
            ChannelOpView::Publish { exchange, routing_key, payload, properties } => true,
        }
    }

    /// The state after one channel operation; a failed operation leaves the
    /// state unchanged.
    pub open spec fn op_apply(self, op: ChannelOpView) -> TopologyView {
        match op {
            ChannelOpView::DeclareExchange { exchange, kind, durable } => self
                .exchange_declare_apply(exchange, kind, durable),
            ChannelOpView::DeclareQueue { queue, durable } => self.queue_declare_apply(
                queue,
                durable,
            ),
            ChannelOpView::BindQueue { queue, exchange, routing_key } => self.bind_apply(
                queue,
                exchange,
                routing_key,
            ),
            ChannelOpView::Publish { exchange, routing_key, payload, properties } => self
                .publish_apply(
                    PublishRecordView { exchange, routing_key, payload, properties },
                ),
        }
    }

    /// Whether a whole plan runs through: every operation succeeds, except
    /// that a failure of an operation marked `Ignore` is passed over.
    pub open spec fn plan_ok(self, plan: Seq<PlannedOpView>) -> bool
        decreases plan.len(),
    {
        if plan.len() == 0 {
            true
        } else if self.op_ok(plan[0].op) {
            self.op_apply(plan[0].op).plan_ok(plan.drop_first())
        } else if plan[0].on_failure == FailurePolicy::Ignore {
            self.plan_ok(plan.drop_first())
        } else {
            false
        }
    }

    /// The state a plan leaves behind: operations apply in order, a failed
    /// `Ignore` operation changes nothing, and a failed `Abort` operation
    /// stops the plan.
    pub open spec fn plan_apply(self, plan: Seq<PlannedOpView>) -> TopologyView
        decreases plan.len(),
    {
        if plan.len() == 0 {
            self
        } else if self.op_ok(plan[0].op) {
            self.op_apply(plan[0].op).plan_apply(plan.drop_first())
        } else if plan[0].on_failure == FailurePolicy::Ignore {
            self.plan_apply(plan.drop_first())
        } else {
            self
        }
    }
}


/// With unique exchange names, an exchange found under a name but differing
/// in kind or durability rules out any declared exchange of that exact
/// shape.
proof fn lemma_exchange_mismatch(s: TopologyView, i: int, kind: ExchangeKind, durable: bool)
    requires
        s.wf(),
        0 <= i < s.exchanges.len(),
        s.exchanges[i] != (ExchangeDeclView { name: s.exchanges[i].name, kind, durable }),
    ensures
        !s.has_exchange(s.exchanges[i].name, kind, durable),
{
    let name = s.exchanges[i].name;
    assert forall|j: int|
        0 <= j < s.exchanges.len() implies s.exchanges[j] != (ExchangeDeclView {
        name,
        kind,
        durable,
    }) by {
        if s.exchanges[j] == (ExchangeDeclView { name, kind, durable }) {
            assert(s.exchanges[j].name == name);
            if j < i {
                assert(s.exchanges[j].name != s.exchanges[i].name);
            }
            if i < j {
                assert(s.exchanges[i].name != s.exchanges[j].name);
            }
            assert(j == i);
            assert(false);
        }
    }
}

/// With unique queue names, a queue found under a name but differing in
/// durability rules out any declared queue of that exact shape.
proof fn lemma_queue_mismatch(s: TopologyView, i: int, durable: bool)
    requires
        s.wf(),
        0 <= i < s.queues.len(),
        s.queues[i] != (QueueDeclView { name: s.queues[i].name, durable }),
    ensures
        !s.has_queue(s.queues[i].name, durable),
{
    let name = s.queues[i].name;
    assert forall|j: int|
        0 <= j < s.queues.len() implies s.queues[j] != (QueueDeclView { name, durable }) by {
        if s.queues[j] == (QueueDeclView { name, durable }) {
            assert(s.queues[j].name == name);
            if j < i {
                assert(s.queues[j].name != s.queues[i].name);
            }
            if i < j {
                assert(s.queues[i].name != s.queues[j].name);
            }
            assert(j == i);
            assert(false);
        }
    }
}

/// One operation of the transport channel's capability interface.
#[derive(Clone, Debug)]
pub enum ChannelOp {
    DeclareExchange { exchange: String, kind: ExchangeKind, durable: bool },
    DeclareQueue { queue: String, durable: bool },
    BindQueue { queue: String, exchange: String, routing_key: String },
    Publish { exchange: String, routing_key: String, payload: String, properties: WireProperties },
}

/// Mathematical model of a [`ChannelOp`].
pub ghost enum ChannelOpView {
    DeclareExchange { exchange: Seq<char>, kind: ExchangeKind, durable: bool },
    DeclareQueue { queue: Seq<char>, durable: bool },
    BindQueue { queue: Seq<char>, exchange: Seq<char>, routing_key: Seq<char> },
    Publish {
        exchange: Seq<char>,
        routing_key: Seq<char>,
        payload: Seq<char>,
        properties: WirePropertiesView,
    },
}

impl View for ChannelOp {
    type V = ChannelOpView;

    open spec fn view(&self) -> ChannelOpView {
        match self {
            ChannelOp::DeclareExchange { exchange, kind, durable } => ChannelOpView::DeclareExchange {
                exchange: exchange@,
                kind: *kind,
                durable: *durable,
            },
            ChannelOp::DeclareQueue { queue, durable } => ChannelOpView::DeclareQueue {
                queue: queue@,
                durable: *durable,
            },
            ChannelOp::BindQueue { queue, exchange, routing_key } => ChannelOpView::BindQueue {
                queue: queue@,
                exchange: exchange@,
                routing_key: routing_key@,
            },
            ChannelOp::Publish { exchange, routing_key, payload, properties } => ChannelOpView::Publish {
                exchange: exchange@,
                routing_key: routing_key@,
                payload: payload@,
                properties: properties@,
            },
        }
    }
}

/// What a failed operation means for the rest of its plan: pass over the
/// failure, or stop and report it.
#[derive(Clone, Copy, PartialEq, Eq, Structural, Debug)]
pub enum FailurePolicy {
    Ignore,
    Abort,
}

/// A channel operation together with its failure policy.
#[derive(Clone, Debug)]
pub struct PlannedOp {
    pub op: ChannelOp,
    pub on_failure: FailurePolicy,
}

/// Mathematical model of a [`PlannedOp`].
pub ghost struct PlannedOpView {
    pub op: ChannelOpView,
    pub on_failure: FailurePolicy,
}

impl View for PlannedOp {
    type V = PlannedOpView;

    open spec fn view(&self) -> PlannedOpView {
        PlannedOpView { op: self.op@, on_failure: self.on_failure }
    }
}

/// The model of an executable plan.
pub open spec fn plan_view(plan: Seq<PlannedOp>) -> Seq<PlannedOpView> {
    plan.map_values(|p: PlannedOp| p@)
}

/// Broker topology state, as reached through channel operations.  It serves
/// as the verified model of a live broker and as the fake channel that the
/// facade's operations run against.
pub struct BrokerTopology {
    exchanges: Vec<ExchangeDecl>,
    queues: Vec<QueueDecl>,
    bindings: Vec<BindingDecl>,
    published: Vec<PublishRecord>,
}

impl View for BrokerTopology {
    type V = TopologyView;

    closed spec fn view(&self) -> TopologyView {
        TopologyView {
            exchanges: self.exchanges@.map_values(|e: ExchangeDecl| e@),
            queues: self.queues@.map_values(|q: QueueDecl| q@),
            bindings: self.bindings@.map_values(|b: BindingDecl| b@),
            published: self.published@.map_values(|p: PublishRecord| p@),
        }
    }
}

impl BrokerTopology {
    /// A fresh broker with nothing declared and nothing published.
    pub fn new() -> (r: BrokerTopology)
        ensures
            r@ == TopologyView::empty(),
            r@.wf(),
    {
        let r = BrokerTopology {
            exchanges: Vec::new(),
            queues: Vec::new(),
            bindings: Vec::new(),
            published: Vec::new(),
        };
        proof {
            assert(r@ =~= TopologyView::empty());
        }
        r
    }

    /// The index of the exchange of this name, if any.
    fn find_exchange(&self, name: &String) -> (r: Option<usize>)
        ensures
            match r {
                Some(i) => i < self@.exchanges.len() && self@.exchanges[i as int].name == name@,
                None => !self@.has_exchange_named(name@),
            },
    {
        let mut i: usize = 0;
        while i < self.exchanges.len()
            invariant
                i <= self.exchanges.len(),
                forall|j: int| 0 <= j < i ==> self@.exchanges[j].name != name@,
            decreases self.exchanges.len() - i,
        {
            if self.exchanges[i].name == *name {
                return Some(i);
            }
            i = i + 1;
        }
        None
    }

    /// The index of the queue of this name, if any.
    fn find_queue(&self, name: &String) -> (r: Option<usize>)
        ensures
            match r {
                Some(i) => i < self@.queues.len() && self@.queues[i as int].name == name@,
                None => !self@.has_queue_named(name@),
            },
    {
        let mut i: usize = 0;
        while i < self.queues.len()
            invariant
                i <= self.queues.len(),
                forall|j: int| 0 <= j < i ==> self@.queues[j].name != name@,
            decreases self.queues.len() - i,
        {
            if self.queues[i].name == *name {
                return Some(i);
            }
            i = i + 1;
        }
        None
    }

    /// Whether this binding triple exists.
    fn find_binding(&self, queue: &String, exchange: &String, routing_key: &String) -> (r: bool)
        ensures
            r == self@.has_binding(queue@, exchange@, routing_key@),
    {
        let mut i: usize = 0;
        while i < self.bindings.len()
            invariant
                i <= self.bindings.len(),
                forall|j: int|
                    0 <= j < i ==> self@.bindings[j] != (BindingDeclView {
                        queue: queue@,
                        exchange: exchange@,
                        routing_key: routing_key@,
                    }),
            decreases self.bindings.len() - i,
        {
            let b = &self.bindings[i];
            if b.queue == *queue && b.exchange == *exchange && b.routing_key == *routing_key {
                proof {
                    assert(self@.bindings[i as int] == (BindingDeclView {
                        queue: queue@,
                        exchange: exchange@,
                        routing_key: routing_key@,
                    }));
                }
                return true;
            }
            i = i + 1;
        }
        false
    }

    /// Declare an exchange: succeeds when the name is free or already bound
    /// to an exchange of the same kind and durability.
    pub fn exchange_declare(&mut self, name: &String, kind: ExchangeKind, durable: bool) -> (ok:
        bool)
        requires
            old(self)@.wf(),
        ensures
            final(self)@.wf(),
            ok == old(self)@.exchange_declare_ok(name@, kind, durable),
            final(self)@ == old(self)@.exchange_declare_apply(name@, kind, durable),
    {
        match self.find_exchange(name) {
            Some(i) => {
                let found = &self.exchanges[i];
                let ok = found.kind == kind && found.durable == durable;
                proof {
                    if !ok {
                        lemma_exchange_mismatch(self@, i as int, kind, durable);
                    }
                }
                ok
            },
            None => {
                let ghost pre = self@;
                self.exchanges.push(ExchangeDecl { name: name.clone(), kind, durable });
                proof {
                    assert(self@.exchanges =~= pre.exchanges.push(
                        ExchangeDeclView { name: name@, kind, durable },
                    ));
                    assert(self@ =~= pre.exchange_declare_apply(name@, kind, durable));
                }
                true
            },
        }
    }

    /// Declare a queue: succeeds when the name is free or already bound to
    /// a queue of the same durability.
    pub fn queue_declare(&mut self, name: &String, durable: bool) -> (ok: bool)
        requires
            old(self)@.wf(),
        ensures
            final(self)@.wf(),
            ok == old(self)@.queue_declare_ok(name@, durable),
            final(self)@ == old(self)@.queue_declare_apply(name@, durable),
    {
        match self.find_queue(name) {
            Some(i) => {
                let found = &self.queues[i];
                let ok = found.durable == durable;
                proof {
                    if !ok {
                        lemma_queue_mismatch(self@, i as int, durable);
                    }
                }
                ok
            },
            None => {
                let ghost pre = self@;
                self.queues.push(QueueDecl { name: name.clone(), durable });
                proof {
                    assert(self@.queues =~= pre.queues.push(QueueDeclView { name: name@, durable }));
                    assert(self@ =~= pre.queue_declare_apply(name@, durable));
                }
                true
            },
        }
    }

    /// Bind a queue to an exchange under a routing key: succeeds when both
    /// exist; an already-bound triple is left as it is.
    pub fn queue_bind(&mut self, queue: &String, exchange: &String, routing_key: &String) -> (ok:
        bool)
        requires
            old(self)@.wf(),
        ensures
            final(self)@.wf(),
            ok == old(self)@.bind_ok(queue@, exchange@, routing_key@),
            final(self)@ == old(self)@.bind_apply(queue@, exchange@, routing_key@),
    {
        let queue_exists = match self.find_queue(queue) {
            Some(_) => true,
            None => false,
        };
        let exchange_exists = match self.find_exchange(exchange) {
            Some(_) => true,
            None => false,
        };
        if !queue_exists || !exchange_exists {
            return false;
        }
        if self.find_binding(queue, exchange, routing_key) {
            return true;
        }
        let ghost pre = self@;
        self.bindings.push(
            BindingDecl {
                queue: queue.clone(),
                exchange: exchange.clone(),
                routing_key: routing_key.clone(),
            },
        );
        proof {
            assert(self@.bindings =~= pre.bindings.push(
                BindingDeclView { queue: queue@, exchange: exchange@, routing_key: routing_key@ },
            ));
            assert(self@ =~= pre.bind_apply(queue@, exchange@, routing_key@));
        }
        true
    }

    /// Hand a message to the channel: the record is appended and the call
    /// is accepted.
    pub fn basic_publish(&mut self, record: PublishRecord) -> (ok: bool)
        requires
            old(self)@.wf(),
        ensures
            final(self)@.wf(),
            ok,
            final(self)@ == old(self)@.publish_apply(record@),
    {
        let ghost pre = self@;
        self.published.push(record);
        proof {
            assert(self@.published =~= pre.published.push(record@));
            assert(self@ =~= pre.publish_apply(record@));
        }
        true
    }

    /// Run one channel operation against the model.
    pub fn run_op(&mut self, op: &ChannelOp) -> (ok: bool)
        requires
            old(self)@.wf(),
        ensures
            final(self)@.wf(),
            ok == old(self)@.op_ok(op@),
            final(self)@ == old(self)@.op_apply(op@),
    {
        match op {
            ChannelOp::DeclareExchange { exchange, kind, durable } => self.exchange_declare(
                exchange,
                *kind,
                *durable,
            ),
            ChannelOp::DeclareQueue { queue, durable } => self.queue_declare(queue, *durable),
            ChannelOp::BindQueue { queue, exchange, routing_key } => self.queue_bind(
                queue,
                exchange,
                routing_key,
            ),
            ChannelOp::Publish { exchange, routing_key, payload, properties } => self.basic_publish(
                PublishRecord {
                    exchange: exchange.clone(),
                    routing_key: routing_key.clone(),
                    payload: payload.clone(),
                    properties: properties.duplicate(),
                },
            ),
        }
    }

    /// Run a plan in order: a failed `Ignore` operation is passed over, a
    /// failed `Abort` operation stops the run.
    pub fn run_plan(&mut self, plan: &Vec<PlannedOp>) -> (ok: bool)
        requires
            old(self)@.wf(),
        ensures
            final(self)@.wf(),
            ok == old(self)@.plan_ok(plan_view(plan@)),
            final(self)@ == old(self)@.plan_apply(plan_view(plan@)),
    {
        let ghost pv = plan_view(plan@);
        let ghost orig = old(self)@;
        proof {
            assert(pv.skip(0) =~= pv);
        }
        let mut i: usize = 0;
        while i < plan.len()
            invariant
                i <= plan.len(),
                plan.len() == pv.len(),
                pv == plan_view(plan@),
                orig == old(self)@,
                self@.wf(),
                orig.plan_apply(pv) == self@.plan_apply(pv.skip(i as int)),
                orig.plan_ok(pv) == self@.plan_ok(pv.skip(i as int)),
            decreases plan.len() - i,
        {
            let ghost pre = self@;
            proof {
                assert(pv[i as int] == plan@[i as int]@);
                assert(pv.skip(i as int)[0] == pv[i as int]);
                assert(pv.skip(i as int).drop_first() =~= pv.skip(i as int + 1));
            }
            let planned = &plan[i];
            let ok = self.run_op(&planned.op);
            if !ok {
                match planned.on_failure {
                    FailurePolicy::Abort => {
                        proof {
                            assert(self@ == pre);
                            assert(pre.plan_ok(pv.skip(i as int)) == false);
                            assert(pre.plan_apply(pv.skip(i as int)) == pre);
                        }
                        return false;
                    },
                    FailurePolicy::Ignore => {},
                }
            }
            i = i + 1;
        }
        proof {
            assert(pv.skip(plan.len() as int) =~= Seq::<PlannedOpView>::empty());
        }
        true
    }

    /// Whether this exact exchange is declared.
    pub fn contains_exchange(&self, name: &String, kind: ExchangeKind, durable: bool) -> (r: bool)
        requires
            self@.wf(),
        ensures
            r == self@.has_exchange(name@, kind, durable),
    {
        match self.find_exchange(name) {
            Some(i) => {
                let found = &self.exchanges[i];
                let r = found.kind == kind && found.durable == durable;
                proof {
                    if !r {
                        lemma_exchange_mismatch(self@, i as int, kind, durable);
                    }
                }
                r
            },
            None => false,
        }
    }

    /// Whether this exact queue is declared.
    pub fn contains_queue(&self, name: &String, durable: bool) -> (r: bool)
        requires
            self@.wf(),
        ensures
            r == self@.has_queue(name@, durable),
    {
        match self.find_queue(name) {
            Some(i) => {
                let found = &self.queues[i];
                let r = found.durable == durable;
                proof {
                    if !r {
                        lemma_queue_mismatch(self@, i as int, durable);
                    }
                }
                r
            },
            None => false,
        }
    }

    /// Whether this binding triple exists.
    pub fn contains_binding(
        &self,
        queue: &String,
        exchange: &String,
        routing_key: &String,
    ) -> (r: bool)
        ensures
            r == self@.has_binding(queue@, exchange@, routing_key@),
    {
        self.find_binding(queue, exchange, routing_key)
    }

    /// How many exchanges are declared.
    pub fn exchange_count(&self) -> (r: usize)
        ensures
            r == self@.exchanges.len(),
    {
        self.exchanges.len()
    }

    /// How many queues are declared.
    pub fn queue_count(&self) -> (r: usize)
        ensures
            r == self@.queues.len(),
    {
        self.queues.len()
    }

    /// How many bindings exist.
    pub fn binding_count(&self) -> (r: usize)
        ensures
            r == self@.bindings.len(),
    {
        self.bindings.len()
    }

    /// The messages handed to the channel, in order.
    pub fn published(&self) -> (r: &Vec<PublishRecord>)
        ensures
            r@.map_values(|p: PublishRecord| p@) == self@.published,
    {
        &self.published
    }
}


/// Unfolds one step of a plan's semantics.
pub proof fn lemma_plan_step(s: TopologyView, plan: Seq<PlannedOpView>)
    requires
        plan.len() > 0,
    ensures
        s.plan_ok(plan) == (if s.op_ok(plan[0].op) {
            s.op_apply(plan[0].op).plan_ok(plan.drop_first())
        } else if plan[0].on_failure == FailurePolicy::Ignore {
            s.plan_ok(plan.drop_first())
        } else {
            false
        }),
        s.plan_apply(plan) == (if s.op_ok(plan[0].op) {
            s.op_apply(plan[0].op).plan_apply(plan.drop_first())
        } else if plan[0].on_failure == FailurePolicy::Ignore {
            s.plan_apply(plan.drop_first())
        } else {
            s
        }),
{
}

/// The semantics of a one-operation plan.
pub proof fn lemma_plan_singleton(s: TopologyView, p: PlannedOpView)
    ensures
        s.plan_ok(seq![p]) == (s.op_ok(p.op) || p.on_failure == FailurePolicy::Ignore),
        s.plan_apply(seq![p]) == (if s.op_ok(p.op) {
            s.op_apply(p.op)
        } else {
            s
        }),
{
    reveal_with_fuel(TopologyView::plan_ok, 2);
    reveal_with_fuel(TopologyView::plan_apply, 2);
    assert(seq![p].drop_first() =~= Seq::<PlannedOpView>::empty());
}

/// Copies a list of string pairs element by element, keeping its model.
fn copy_string_pairs(items: &Vec<(String, String)>) -> (r: Vec<(String, String)>)
    ensures
        r.deep_view() == items.deep_view(),
{
    let mut r: Vec<(String, String)> = Vec::new();
    let mut i: usize = 0;
    while i < items.len()
        invariant
            i <= items.len(),
            r@.len() == i,
            forall|j: int|
                0 <= j < i ==> r@[j].0@ == items@[j].0@ && r@[j].1@ == items@[j].1@,
        decreases items.len() - i,
    {
        let pair = &items[i];
        r.push((pair.0.clone(), pair.1.clone()));
        i = i + 1;
    }
    proof {
        assert(r.deep_view() =~= items.deep_view());
    }
    r
}

impl WireProperties {
    /// A copy of the transport-native properties with the same model.
    pub fn duplicate(&self) -> (r: WireProperties)
        ensures
            r@ == self@,
    {
        let r = WireProperties {
            correlation_id: self.correlation_id.clone(),
            content_type: self.content_type.clone(),
            content_encoding: self.content_encoding.clone(),
            headers: copy_string_pairs(&self.headers),
        };
        proof {
            assert(r@ == self@);
        }
        r
    }
}

} // verus!
