use vstd::prelude::*;
use vstd::string::StrSliceExecFns;
use vstd::utf8::encode_utf8;
use crate::message::{Publication, PublicationModel, text_message, text_publication};
use crate::topology::{
    BindingModel, ExchangeDecl, ExchangeKind, ExchangeModel, QueueBinding, QueueDecl, QueueModel,
    exchange_decl, info_exchange, info_queue, job_exchange, job_queue, match_all_binding,
    match_all_binding_of, queue_decl, standard_exchange, standard_queue, work_exchange,
    work_queue, worker_exchange, worker_queue,
};

verus! {

/// One protocol command to be sent on the channel.
#[derive(Debug)]
pub enum Command {
    DeclareExchange(ExchangeDecl),
    DeclareQueue(QueueDecl),
    Bind(QueueBinding),
    Publish(Publication),
}

/// Mathematical model of a [`Command`].
pub enum CommandModel {
    DeclareExchange(ExchangeModel),
    DeclareQueue(QueueModel),
    Bind(BindingModel),
    Publish(PublicationModel),
}

impl View for Command {
    type V = CommandModel;

    open spec fn view(&self) -> CommandModel {
        match self {
            Command::DeclareExchange(d) => CommandModel::DeclareExchange(d@),
            Command::DeclareQueue(d) => CommandModel::DeclareQueue(d@),
            Command::Bind(b) => CommandModel::Bind(b@),
            Command::Publish(p) => CommandModel::Publish(p@),
        }
    }
}

/// What `declare_topic_exchange` sends.
pub open spec fn info_exchange_setup() -> Seq<CommandModel> {
    seq![CommandModel::DeclareExchange(standard_exchange(info_exchange(), ExchangeKind::Topic))]
}

/// What `declare_job_exchange` sends.
pub open spec fn job_exchange_setup() -> Seq<CommandModel> {
    seq![CommandModel::DeclareExchange(standard_exchange(job_exchange(), ExchangeKind::Direct))]
}

/// What `declare_work_exchange` sends.
pub open spec fn work_exchange_setup() -> Seq<CommandModel> {
    seq![CommandModel::DeclareExchange(standard_exchange(work_exchange(), ExchangeKind::Direct))]
}

/// What `declare_worker_exchange` sends.
pub open spec fn worker_exchange_setup() -> Seq<CommandModel> {
    seq![CommandModel::DeclareExchange(standard_exchange(worker_exchange(), ExchangeKind::Topic))]
}

/// What `create_info_queue` sends: the queue, bound to the info exchange.
pub open spec fn info_queue_setup() -> Seq<CommandModel> {
    seq![
        CommandModel::DeclareQueue(standard_queue(info_queue())),
        CommandModel::Bind(match_all_binding(info_queue(), info_exchange())),
    ]
}

/// What `create_job_queue` sends: the queue alone, with no binding.
pub open spec fn job_queue_setup() -> Seq<CommandModel> {
    seq![CommandModel::DeclareQueue(standard_queue(job_queue()))]
}

/// What `create_work_queue` sends: the queue alone, with no binding.
pub open spec fn work_queue_setup() -> Seq<CommandModel> {
    seq![CommandModel::DeclareQueue(standard_queue(work_queue()))]
}

/// What `create_worker_queue` sends: the queue, bound to the worker exchange.
pub open spec fn worker_queue_setup() -> Seq<CommandModel> {
    seq![
        CommandModel::DeclareQueue(standard_queue(worker_queue())),
        CommandModel::Bind(match_all_binding(worker_queue(), worker_exchange())),
    ]
}

/// The commands that the topology operations and the publish operations have
/// produced, in order, waiting to be sent on one channel.
pub struct Outbox {
    commands: Vec<Command>,
}

impl View for Outbox {
    type V = Seq<CommandModel>;

    closed spec fn view(&self) -> Seq<CommandModel> {
        self.commands@.map_values(|c: Command| c@)
    }
}

impl Outbox {
    /// An outbox with nothing to send.
    pub fn new() -> (r: Outbox)
        ensures
            r@ == Seq::<CommandModel>::empty(),
    {
        let r = Outbox { commands: Vec::new() };
        assert(r@ =~= Seq::<CommandModel>::empty());
        r
    }

    /// The commands waiting to be sent, oldest first.
    pub fn commands(&self) -> (r: &Vec<Command>)
        ensures
            r@.map_values(|c: Command| c@) == self@,
    {
        &self.commands
    }

    /// Hands out the waiting commands, oldest first, and leaves the outbox
    /// empty.
    pub fn take(&mut self) -> (r: Vec<Command>)
        ensures
            r@.map_values(|c: Command| c@) == old(self)@,
            final(self)@ == Seq::<CommandModel>::empty(),
    {
        let mut r: Vec<Command> = Vec::new();
        std::mem::swap(&mut r, &mut self.commands);
        assert(self@ =~= Seq::<CommandModel>::empty());
        r
    }

    /// Declares the topic exchange `info-topic`.
    pub fn declare_topic_exchange(&mut self)
        ensures
            final(self)@ == old(self)@ + info_exchange_setup(),
    {
        self.push(Command::DeclareExchange(exchange_decl("info-topic", ExchangeKind::Topic)));
        assert(self@ =~= old(self)@ + info_exchange_setup());
    }

    /// Declares the direct exchange `job`.
    pub fn declare_job_exchange(&mut self)
        ensures
            final(self)@ == old(self)@ + job_exchange_setup(),
    {
        self.push(Command::DeclareExchange(exchange_decl("job", ExchangeKind::Direct)));
        assert(self@ =~= old(self)@ + job_exchange_setup());
    }

    /// Declares the direct exchange `work`.
    pub fn declare_work_exchange(&mut self)
        ensures
            final(self)@ == old(self)@ + work_exchange_setup(),
    {
        self.push(Command::DeclareExchange(exchange_decl("work", ExchangeKind::Direct)));
        assert(self@ =~= old(self)@ + work_exchange_setup());
    }

    /// Declares the topic exchange `worker-topic`.
    pub fn declare_worker_exchange(&mut self)
        ensures
            final(self)@ == old(self)@ + worker_exchange_setup(),
    {
        self.push(Command::DeclareExchange(exchange_decl("worker-topic", ExchangeKind::Topic)));
        assert(self@ =~= old(self)@ + worker_exchange_setup());
    }

    /// Declares the queue `info` and binds it to `info-topic` for every key.
    pub fn create_info_queue(&mut self)
        ensures
            final(self)@ == old(self)@ + info_queue_setup(),
    {
        self.push(Command::DeclareQueue(queue_decl("info")));
        self.push(Command::Bind(match_all_binding_of("info", "info-topic")));
        assert(self@ =~= old(self)@ + info_queue_setup());
    }

    /// Declares the queue `job`, left unbound: job messages carry its name as
    /// their routing key.
    pub fn create_job_queue(&mut self)
        ensures
            final(self)@ == old(self)@ + job_queue_setup(),
    {
        self.push(Command::DeclareQueue(queue_decl("job")));
        assert(self@ =~= old(self)@ + job_queue_setup());
    }

    /// Declares the queue `work`, left unbound: task messages carry its name
    /// as their routing key.
    pub fn create_work_queue(&mut self)
        ensures
            final(self)@ == old(self)@ + work_queue_setup(),
    {
        self.push(Command::DeclareQueue(queue_decl("work")));
        assert(self@ =~= old(self)@ + work_queue_setup());
    }

    /// Declares the queue `worker` and binds it to `worker-topic` for every
    /// key.
    pub fn create_worker_queue(&mut self)
        ensures
            final(self)@ == old(self)@ + worker_queue_setup(),
    {
        self.push(Command::DeclareQueue(queue_decl("worker")));
        self.push(Command::Bind(match_all_binding_of("worker", "worker-topic")));
        assert(self@ =~= old(self)@ + worker_queue_setup());
    }

    /// Publishes `body` to `info-topic` under the caller's routing key, as
    /// given.
    pub fn post_to_info(&mut self, routing_key: &str, body: Vec<u8>)
        ensures
            final(self)@ == old(self)@.push(
                CommandModel::Publish(text_message(info_exchange(), routing_key@, body@)),
            ),
    {
        self.push(Command::Publish(text_publication("info-topic", routing_key, body)));
    }

    /// Publishes `body` to the `job` exchange under the routing key `job`.
    pub fn post_to_job(&mut self, body: Vec<u8>)
        ensures
            final(self)@ == old(self)@.push(
                CommandModel::Publish(text_message(job_exchange(), job_queue(), body@)),
            ),
    {
        self.push(Command::Publish(text_publication("job", "job", body)));
    }

    /// Publishes `body` to the `work` exchange under the routing key `work`.
    pub fn post_to_work(&mut self, body: Vec<u8>)
        ensures
            final(self)@ == old(self)@.push(
                CommandModel::Publish(text_message(work_exchange(), work_queue(), body@)),
            ),
    {
        self.push(Command::Publish(text_publication("work", "work", body)));
    }

    /// Publishes `body` to `worker-topic` under the caller's routing key, as
    /// given.
    pub fn worker_post(&mut self, routing_key: &str, body: Vec<u8>)
        ensures
            final(self)@ == old(self)@.push(
                CommandModel::Publish(text_message(worker_exchange(), routing_key@, body@)),
            ),
    {
        self.push(Command::Publish(text_publication("worker-topic", routing_key, body)));
    }

    /// Takes the result of serializing a job. On success, publishes the text
    /// as a job message and hands it back; on failure, publishes nothing and
    /// hands the error back as it came.
    pub fn post_job<E>(&mut self, serialized: Result<String, E>) -> (r: Result<String, E>)
        ensures
            r == serialized,
            match serialized {
                Ok(text) => final(self)@ == old(self)@.push(
                    CommandModel::Publish(text_message(job_exchange(), job_queue(), encode_utf8(text@))),
                ),
                Err(_) => final(self)@ == old(self)@,
            },
    {
        match serialized {
            Ok(text) => {
                self.post_to_job(text.as_str().as_bytes_vec());
                Ok(text)
            },
            Err(e) => Err(e),
        }
    }

    /// Takes a job's id and the result of serializing the job. On success,
    /// publishes the text to `info-topic` under the job's id and hands it
    /// back; on failure, publishes nothing and hands the error back as it
    /// came.
    pub fn post_job_info<E>(&mut self, job_id: &str, serialized: Result<String, E>) -> (r: Result<String, E>)
        ensures
            r == serialized,
            match serialized {
                Ok(text) => final(self)@ == old(self)@.push(
                    CommandModel::Publish(text_message(info_exchange(), job_id@, encode_utf8(text@))),
                ),
                Err(_) => final(self)@ == old(self)@,
            },
    {
        match serialized {
            Ok(text) => {
                self.post_to_info(job_id, text.as_str().as_bytes_vec());
                Ok(text)
            },
            Err(e) => Err(e),
        }
    }

    /// Takes the result of serializing a task. On success, publishes the text
    /// as a task message and hands it back; on failure, publishes nothing and
    /// hands the error back as it came.
    pub fn post_task<E>(&mut self, serialized: Result<String, E>) -> (r: Result<String, E>)
        ensures
            r == serialized,
            match serialized {
                Ok(text) => final(self)@ == old(self)@.push(
                    CommandModel::Publish(text_message(work_exchange(), work_queue(), encode_utf8(text@))),
                ),
                Err(_) => final(self)@ == old(self)@,
            },
    {
        match serialized {
            Ok(text) => {
                self.post_to_work(text.as_str().as_bytes_vec());
                Ok(text)
            },
            Err(e) => Err(e),
        }
    }

    /// Takes the result of serializing a task and a routing key. On success,
    /// publishes the text to `info-topic` under that key and hands it back;
    /// on failure, publishes nothing and hands the error back as it came.
    pub fn post_task_info<E>(&mut self, serialized: Result<String, E>, routing_key: &str) -> (r: Result<String, E>)
        ensures
            r == serialized,
            match serialized {
                Ok(text) => final(self)@ == old(self)@.push(
                    CommandModel::Publish(text_message(info_exchange(), routing_key@, encode_utf8(text@))),
                ),
                Err(_) => final(self)@ == old(self)@,
            },
    {
        match serialized {
            Ok(text) => {
                self.post_to_info(routing_key, text.as_str().as_bytes_vec());
                Ok(text)
            },
            Err(e) => Err(e),
        }
    }

    fn push(&mut self, c: Command)
        ensures
            final(self)@ == old(self)@.push(c@),
    {
        self.commands.push(c);
        assert(self@ =~= old(self)@.push(c@));
    }
}

} // verus!
