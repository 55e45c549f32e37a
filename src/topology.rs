use vstd::prelude::*;

verus! {

/// The two exchange types used by the topology.
#[derive(Clone, Copy, Debug, PartialEq, Eq, Structural)]
pub enum ExchangeKind {
    Direct,
    Topic,
}

/// The name of an exchange type on the wire.
pub open spec fn kind_name(kind: ExchangeKind) -> Seq<char> {
    match kind {
        ExchangeKind::Direct => "direct"@,
        ExchangeKind::Topic => "topic"@,
    }
}

impl ExchangeKind {
    /// The name of the exchange type on the wire.
    pub fn wire_name(&self) -> (r: &'static str)
        ensures
            r@ == kind_name(*self),
    {
        match self {
            ExchangeKind::Direct => "direct",
            ExchangeKind::Topic => "topic",
        }
    }
}

/// An exchange-declare command: name, type and the protocol flags.
#[derive(Clone, Debug)]
pub struct ExchangeDecl {
    pub name: String,
    pub kind: ExchangeKind,
    pub passive: bool,
    pub durable: bool,
    pub auto_delete: bool,
    pub internal: bool,
    pub nowait: bool,
}

/// Mathematical model of an [`ExchangeDecl`].
pub struct ExchangeModel {
    pub name: Seq<char>,
    pub kind: ExchangeKind,
    pub passive: bool,
    pub durable: bool,
    pub auto_delete: bool,
    pub internal: bool,
    pub nowait: bool,
}

impl View for ExchangeDecl {
    type V = ExchangeModel;

    open spec fn view(&self) -> ExchangeModel {
        ExchangeModel {
            name: self.name@,
            kind: self.kind,
            passive: self.passive,
            durable: self.durable,
            auto_delete: self.auto_delete,
            internal: self.internal,
            nowait: self.nowait,
        }
    }
}

/// Every exchange of the topology is durable, kept when unused, public and
/// actively declared, with the broker's confirmation awaited.
pub open spec fn standard_exchange(name: Seq<char>, kind: ExchangeKind) -> ExchangeModel {
    ExchangeModel {
        name,
        kind,
        passive: false,
        durable: true,
        auto_delete: false,
        internal: false,
        nowait: false,
    }
}

pub(crate) fn exchange_decl(name: &str, kind: ExchangeKind) -> (d: ExchangeDecl)
    ensures
        d@ == standard_exchange(name@, kind),
{
    ExchangeDecl {
        name: name.to_owned(),
        kind,
        passive: false,
        durable: true,
        auto_delete: false,
        internal: false,
        nowait: false,
    }
}

/// A queue-declare command: name and the protocol flags.
#[derive(Clone, Debug)]
pub struct QueueDecl {
    pub name: String,
    pub passive: bool,
    pub durable: bool,
    pub exclusive: bool,
    pub auto_delete: bool,
    pub nowait: bool,
}

/// Mathematical model of a [`QueueDecl`].
pub struct QueueModel {
    pub name: Seq<char>,
    pub passive: bool,
    pub durable: bool,
    pub exclusive: bool,
    pub auto_delete: bool,
    pub nowait: bool,
}

impl View for QueueDecl {
    type V = QueueModel;

    open spec fn view(&self) -> QueueModel {
        QueueModel {
            name: self.name@,
            passive: self.passive,
            durable: self.durable,
            exclusive: self.exclusive,
            auto_delete: self.auto_delete,
            nowait: self.nowait,
        }
    }
}

/// Every queue of the topology is durable, shared between connections, kept
/// when unused and actively declared, with the broker's confirmation awaited.
pub open spec fn standard_queue(name: Seq<char>) -> QueueModel {
    QueueModel { name, passive: false, durable: true, exclusive: false, auto_delete: false, nowait: false }
}

pub(crate) fn queue_decl(name: &str) -> (d: QueueDecl)
    ensures
        d@ == standard_queue(name@),
{
    QueueDecl {
        name: name.to_owned(),
        passive: false,
        durable: true,
        exclusive: false,
        auto_delete: false,
        nowait: false,
    }
}

/// A queue-bind command: the queue receives what the exchange routes under
/// the pattern.
#[derive(Clone, Debug)]
pub struct QueueBinding {
    pub queue: String,
    pub exchange: String,
    pub pattern: String,
    pub nowait: bool,
}

/// Mathematical model of a [`QueueBinding`].
pub struct BindingModel {
    pub queue: Seq<char>,
    pub exchange: Seq<char>,
    pub pattern: Seq<char>,
    pub nowait: bool,
}

impl View for QueueBinding {
    type V = BindingModel;

    open spec fn view(&self) -> BindingModel {
        BindingModel {
            queue: self.queue@,
            exchange: self.exchange@,
            pattern: self.pattern@,
            nowait: self.nowait,
        }
    }
}

/// The topic pattern that matches every routing key.
pub open spec fn match_all() -> Seq<char> {
    "#"@
}

/// Every binding of the topology takes all messages of its exchange.
pub open spec fn match_all_binding(queue: Seq<char>, exchange: Seq<char>) -> BindingModel {
    BindingModel { queue, exchange, pattern: match_all(), nowait: false }
}

pub(crate) fn match_all_binding_of(queue: &str, exchange: &str) -> (b: QueueBinding)
    ensures
        b@ == match_all_binding(queue@, exchange@),
{
    QueueBinding {
        queue: queue.to_owned(),
        exchange: exchange.to_owned(),
        pattern: "#".to_owned(),
        nowait: false,
    }
}

/// Topic exchange for job and task state announcements.
pub open spec fn info_exchange() -> Seq<char> {
    "info-topic"@
}

/// Direct exchange for job hand-off.
pub open spec fn job_exchange() -> Seq<char> {
    "job"@
}

/// Direct exchange for task hand-off.
pub open spec fn work_exchange() -> Seq<char> {
    "work"@
}

/// Topic exchange for worker status reports.
pub open spec fn worker_exchange() -> Seq<char> {
    "worker-topic"@
}

/// Queue that drains the info exchange.
pub open spec fn info_queue() -> Seq<char> {
    "info"@
}

/// Queue of jobs; its name is the routing key of every job message.
pub open spec fn job_queue() -> Seq<char> {
    "job"@
}

/// Queue of tasks; its name is the routing key of every task message.
pub open spec fn work_queue() -> Seq<char> {
    "work"@
}

/// Queue that drains the worker exchange.
pub open spec fn worker_queue() -> Seq<char> {
    "worker"@
}

} // verus!
