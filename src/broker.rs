use vstd::prelude::*;
use crate::message::PublicationModel;
use crate::outbox::{
    CommandModel, info_exchange_setup, info_queue_setup, job_exchange_setup, job_queue_setup,
    work_exchange_setup, work_queue_setup, worker_exchange_setup, worker_queue_setup,
};
use crate::topology::{
    BindingModel, ExchangeKind, ExchangeModel, QueueModel, info_exchange, info_queue, job_exchange,
    job_queue, match_all_binding, standard_exchange, standard_queue, work_exchange, work_queue,
    worker_exchange, worker_queue,
};

verus! {

/// The topology that a broker holds: exchanges and queues by name, and the
/// bindings between them.
#[verifier::ext_equal]
pub struct BrokerState {
    pub exchanges: Map<Seq<char>, ExchangeModel>,
    pub queues: Map<Seq<char>, QueueModel>,
    pub bindings: Set<BindingModel>,
}

/// A broker on which nothing has been declared.
pub open spec fn fresh_broker() -> BrokerState {
    BrokerState { exchanges: Map::empty(), queues: Map::empty(), bindings: Set::empty() }
}

/// The topology after the broker has accepted one command. A declaration
/// records the entity under its name; a binding is added to the set; a
/// publication leaves the topology as it is.
pub open spec fn apply(b: BrokerState, c: CommandModel) -> BrokerState {
    match c {
        CommandModel::DeclareExchange(d) => BrokerState { exchanges: b.exchanges.insert(d.name, d), ..b },
        CommandModel::DeclareQueue(q) => BrokerState { queues: b.queues.insert(q.name, q), ..b },
        CommandModel::Bind(x) => BrokerState { bindings: b.bindings.insert(x), ..b },
        CommandModel::Publish(_) => b,
    }
}

/// The topology after the broker has accepted the commands in order.
pub open spec fn apply_all(b: BrokerState, s: Seq<CommandModel>) -> BrokerState
    decreases s.len(),
{
    if s.len() == 0 {
        b
    } else {
        apply_all(apply(b, s[0]), s.drop_first())
    }
}

/// Two commands declare the same entity: an exchange of one name, or a queue
/// of one name.
pub open spec fn same_entity(c1: CommandModel, c2: CommandModel) -> bool {
    ||| c1 matches CommandModel::DeclareExchange(d1) && c2 matches CommandModel::DeclareExchange(d2)
        && d1.name == d2.name
    ||| c1 matches CommandModel::DeclareQueue(q1) && c2 matches CommandModel::DeclareQueue(q2)
        && q1.name == q2.name
}

/// Every name in the commands is declared with one set of parameters only.
pub open spec fn consistent(s: Seq<CommandModel>) -> bool {
    forall|i: int, j: int|
        0 <= i < s.len() && 0 <= j < s.len() && #[trigger] same_entity(s[i], s[j]) ==> s[i] == s[j]
}

/// The broker already holds what the command would establish.
pub open spec fn holds(b: BrokerState, c: CommandModel) -> bool {
    match c {
        CommandModel::DeclareExchange(d) => b.exchanges.contains_key(d.name) && b.exchanges[d.name] == d,
        CommandModel::DeclareQueue(q) => b.queues.contains_key(q.name) && b.queues[q.name] == q,
        CommandModel::Bind(x) => b.bindings.contains(x),
        CommandModel::Publish(_) => true,
    }
}

proof fn lemma_holds_absorbs(b: BrokerState, c: CommandModel)
    requires
        holds(b, c),
    ensures
        apply(b, c) == b,
{
    assert(apply(b, c) =~= b);
}

proof fn lemma_apply_holds(b: BrokerState, c: CommandModel)
    ensures
        holds(apply(b, c), c),
{
}

/// Applying a command keeps what an earlier command established, unless it
/// redeclares the same entity with other parameters.
proof fn lemma_apply_keeps(b: BrokerState, c: CommandModel, d: CommandModel)
    requires
        holds(b, c),
        same_entity(c, d) ==> c == d,
    ensures
        holds(apply(b, d), c),
{
}

proof fn lemma_apply_all_keeps(b: BrokerState, c: CommandModel, s: Seq<CommandModel>)
    requires
        holds(b, c),
        forall|j: int| 0 <= j < s.len() ==> (same_entity(c, #[trigger] s[j]) ==> c == s[j]),
    ensures
        holds(apply_all(b, s), c),
    decreases s.len(),
{
    if s.len() > 0 {
        lemma_apply_keeps(b, c, s[0]);
        assert forall|j: int| 0 <= j < s.drop_first().len() && same_entity(c, #[trigger] s.drop_first()[j]) implies c == s.drop_first()[j] by {
            assert(s.drop_first()[j] == s[j + 1]);
        }
        lemma_apply_all_keeps(apply(b, s[0]), c, s.drop_first());
    }
}

proof fn lemma_apply_all_holds(b: BrokerState, s: Seq<CommandModel>)
    requires
        consistent(s),
    ensures
        forall|i: int| 0 <= i < s.len() ==> holds(apply_all(b, s), #[trigger] s[i]),
    decreases s.len(),
{
    if s.len() > 0 {
        let rest = s.drop_first();
        assert forall|i: int, j: int|
            0 <= i < rest.len() && 0 <= j < rest.len() && #[trigger] same_entity(rest[i], rest[j]) implies rest[i] == rest[j] by {
            assert(rest[i] == s[i + 1] && rest[j] == s[j + 1]);
        }
        lemma_apply_all_holds(apply(b, s[0]), rest);
        assert forall|j: int| 0 <= j < rest.len() && same_entity(s[0], #[trigger] rest[j]) implies s[0] == rest[j] by {
            assert(rest[j] == s[j + 1]);
        }
        lemma_apply_holds(b, s[0]);
        lemma_apply_all_keeps(apply(b, s[0]), s[0], rest);
        assert forall|i: int| 0 <= i < s.len() implies holds(apply_all(b, s), #[trigger] s[i]) by {
            if i > 0 {
                assert(s[i] == rest[i - 1]);
            }
        }
    }
}

proof fn lemma_apply_all_absorbed(b: BrokerState, s: Seq<CommandModel>)
    requires
        forall|i: int| 0 <= i < s.len() ==> holds(b, #[trigger] s[i]),
    ensures
        apply_all(b, s) == b,
    decreases s.len(),
{
    if s.len() > 0 {
        lemma_holds_absorbs(b, s[0]);
        assert forall|i: int| 0 <= i < s.drop_first().len() implies holds(b, #[trigger] s.drop_first()[i]) by {
            assert(s.drop_first()[i] == s[i + 1]);
        }
        lemma_apply_all_absorbed(b, s.drop_first());
    }
}

/// Applying two runs of commands one after the other is applying the
/// concatenated run.
pub proof fn lemma_apply_all_concat(b: BrokerState, s: Seq<CommandModel>, t: Seq<CommandModel>)
    ensures
        apply_all(b, s + t) == apply_all(apply_all(b, s), t),
    decreases s.len(),
{
    if s.len() == 0 {
        assert(s + t =~= t);
    } else {
        assert((s + t).drop_first() =~= s.drop_first() + t);
        assert((s + t)[0] == s[0]);
        lemma_apply_all_concat(apply(b, s[0]), s.drop_first(), t);
    }
}

/// Declarations are idempotent: sending a run of commands that declares each
/// name with one set of parameters a second time leaves the topology as the
/// first run left it, on any broker.
pub proof fn lemma_redeclare_idempotent(b: BrokerState, s: Seq<CommandModel>)
    requires
        consistent(s),
    ensures
        apply_all(apply_all(b, s), s) == apply_all(b, s),
        apply_all(b, s + s) == apply_all(b, s),
{
    lemma_apply_all_holds(b, s);
    lemma_apply_all_absorbed(apply_all(b, s), s);
    lemma_apply_all_concat(b, s, s);
}

/// Declaring an exchange or a queue a second time changes nothing, and a
/// declaration never changes the bindings.
pub proof fn lemma_declare_twice(b: BrokerState, c: CommandModel)
    requires
        c is DeclareExchange || c is DeclareQueue,
    ensures
        apply(apply(b, c), c) == apply(b, c),
        apply(b, c).bindings == b.bindings,
{
    lemma_apply_holds(b, c);
    lemma_holds_absorbs(apply(b, c), c);
}

/// Every declaration of the topology, in the order a service runs them at
/// start: the four exchanges, then the four queues.
pub open spec fn topology_setup() -> Seq<CommandModel> {
    info_exchange_setup() + job_exchange_setup() + work_exchange_setup() + worker_exchange_setup()
        + info_queue_setup() + job_queue_setup() + work_queue_setup() + worker_queue_setup()
}

/// The same declarations, each operation run twice in a row.
pub open spec fn topology_setup_each_twice() -> Seq<CommandModel> {
    info_exchange_setup() + info_exchange_setup() + job_exchange_setup() + job_exchange_setup()
        + work_exchange_setup() + work_exchange_setup() + worker_exchange_setup()
        + worker_exchange_setup() + info_queue_setup() + info_queue_setup() + job_queue_setup()
        + job_queue_setup() + work_queue_setup() + work_queue_setup() + worker_queue_setup()
        + worker_queue_setup()
}

proof fn lemma_twice_step(b: BrokerState, x: Seq<CommandModel>, y: Seq<CommandModel>, s: Seq<CommandModel>)
    requires
        apply_all(b, x) == apply_all(b, y),
        consistent(s),
    ensures
        apply_all(b, x + s + s) == apply_all(b, y + s),
{
    lemma_apply_all_concat(b, x + s, s);
    lemma_apply_all_concat(b, x, s);
    lemma_apply_all_concat(b, y, s);
    lemma_redeclare_idempotent(apply_all(b, x), s);
}

/// Running every exchange and queue operation twice, each twice in a row or
/// the whole set twice over, leaves any broker with the topology that one run
/// leaves.
pub proof fn lemma_topology_setup_twice(b: BrokerState)
    ensures
        apply_all(b, topology_setup_each_twice()) == apply_all(b, topology_setup()),
        apply_all(b, topology_setup() + topology_setup()) == apply_all(b, topology_setup()),
{
    let e = Seq::<CommandModel>::empty();
    assert(e + info_exchange_setup() =~= info_exchange_setup());
    assert(e + info_exchange_setup() + info_exchange_setup() =~= info_exchange_setup() + info_exchange_setup());
    lemma_twice_step(b, e, e, info_exchange_setup());
    let x1 = info_exchange_setup() + info_exchange_setup();
    let y1 = info_exchange_setup();
    lemma_twice_step(b, x1, y1, job_exchange_setup());
    let x2 = x1 + job_exchange_setup() + job_exchange_setup();
    let y2 = y1 + job_exchange_setup();
    lemma_twice_step(b, x2, y2, work_exchange_setup());
    let x3 = x2 + work_exchange_setup() + work_exchange_setup();
    let y3 = y2 + work_exchange_setup();
    lemma_twice_step(b, x3, y3, worker_exchange_setup());
    let x4 = x3 + worker_exchange_setup() + worker_exchange_setup();
    let y4 = y3 + worker_exchange_setup();
    lemma_twice_step(b, x4, y4, info_queue_setup());
    let x5 = x4 + info_queue_setup() + info_queue_setup();
    let y5 = y4 + info_queue_setup();
    lemma_twice_step(b, x5, y5, job_queue_setup());
    let x6 = x5 + job_queue_setup() + job_queue_setup();
    let y6 = y5 + job_queue_setup();
    lemma_twice_step(b, x6, y6, work_queue_setup());
    let x7 = x6 + work_queue_setup() + work_queue_setup();
    let y7 = y6 + work_queue_setup();
    lemma_twice_step(b, x7, y7, worker_queue_setup());
    lemma_topology_setup_consistent();
    lemma_redeclare_idempotent(b, topology_setup());
}

proof fn lemma_topology_setup_consistent()
    ensures
        consistent(topology_setup()),
{
    reveal_strlit("info-topic");
    reveal_strlit("job");
    reveal_strlit("work");
    reveal_strlit("worker-topic");
    reveal_strlit("info");
    reveal_strlit("worker");
    let s = topology_setup();
    let (ie, je, we, ke) = (info_exchange(), job_exchange(), work_exchange(), worker_exchange());
    let (iq, jq, wq, kq) = (info_queue(), job_queue(), work_queue(), worker_queue());
    assert(ie.len() == 10 && je.len() == 3 && we.len() == 4 && ke.len() == 12);
    assert(iq.len() == 4 && jq.len() == 3 && wq.len() == 4 && kq.len() == 6);
    assert(iq[0] != wq[0]);
    assert(s =~= seq![
        CommandModel::DeclareExchange(standard_exchange(ie, ExchangeKind::Topic)),
        CommandModel::DeclareExchange(standard_exchange(je, ExchangeKind::Direct)),
        CommandModel::DeclareExchange(standard_exchange(we, ExchangeKind::Direct)),
        CommandModel::DeclareExchange(standard_exchange(ke, ExchangeKind::Topic)),
        CommandModel::DeclareQueue(standard_queue(iq)),
        CommandModel::Bind(match_all_binding(iq, ie)),
        CommandModel::DeclareQueue(standard_queue(jq)),
        CommandModel::DeclareQueue(standard_queue(wq)),
        CommandModel::DeclareQueue(standard_queue(kq)),
        CommandModel::Bind(match_all_binding(kq, ke)),
    ]);
}

} // verus!
