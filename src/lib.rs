//! Messaging topology and publish rules for a job-processing pipeline that
//! talks to an AMQP broker.
//!
//! The library decides what goes on the wire: which exchanges and queues are
//! declared (and with which flags), how queues are bound, and which exchange,
//! routing key and properties each message is published with. Every operation
//! appends protocol commands to an [`Outbox`]; the caller sends them over its
//! channel and reports each outcome back through [`command_outcome`],
//! which applies the error policy.

mod broker;
mod message;
mod outbox;
mod outcome;
mod topology;

pub use broker::{
    BrokerState, apply, apply_all, consistent, fresh_broker, holds, lemma_apply_all_concat,
    lemma_declare_twice, lemma_redeclare_idempotent, lemma_topology_setup_twice, same_entity,
    topology_setup, topology_setup_each_twice,
};
pub use message::{Publication, PublicationModel, text_content_type, text_message};
pub use outbox::{
    Command, CommandModel, Outbox, info_exchange_setup, info_queue_setup, job_exchange_setup,
    job_queue_setup, work_exchange_setup, work_queue_setup, worker_exchange_setup,
    worker_queue_setup,
};
pub use outcome::{
    CHANNEL_ID, MqError, OnPublishError, command_outcome, configured_url, connection_outcome,
};
pub use topology::{
    BindingModel, ExchangeDecl, ExchangeKind, ExchangeModel, QueueBinding, QueueDecl, QueueModel,
    info_exchange, info_queue, job_exchange, job_queue, kind_name, match_all, match_all_binding,
    standard_exchange, standard_queue, work_exchange, work_queue, worker_exchange, worker_queue,
};
