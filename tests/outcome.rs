use bender_mq::{
    CHANNEL_ID, Command, MqError, OnPublishError, Outbox, command_outcome, configured_url,
    connection_outcome,
};

fn one(build: fn(&mut Outbox)) -> Command {
    let mut out = Outbox::new();
    build(&mut out);
    out.take().remove(0)
}

#[test]
fn sent_commands_succeed() {
    let decl = one(|o| o.declare_job_exchange());
    let publish = one(|o| o.post_to_job(b"x".to_vec()));
    assert_eq!(command_outcome(&decl, Ok(()), OnPublishError::Return), Ok(None));
    assert_eq!(command_outcome(&publish, Ok(()), OnPublishError::Log), Ok(None));
}

#[test]
fn refused_declarations_are_topology_errors() {
    let decl = one(|o| o.declare_topic_exchange());
    let queue = one(|o| o.create_work_queue());
    let mut out = Outbox::new();
    out.create_info_queue();
    let bind = out.take().remove(1);
    for cmd in [&decl, &queue, &bind] {
        for policy in [OnPublishError::Log, OnPublishError::Return] {
            assert_eq!(
                command_outcome(cmd, Err("PRECONDITION_FAILED".to_string()), policy),
                Err(MqError::Topology("PRECONDITION_FAILED".to_string()))
            );
        }
    }
}

#[test]
fn failed_publish_is_logged_or_returned_by_policy() {
    let publish = one(|o| o.worker_post("w", b"idle".to_vec()));
    assert_eq!(
        command_outcome(&publish, Err("closed".to_string()), OnPublishError::Log),
        Ok(Some(MqError::Publish("closed".to_string())))
    );
    assert_eq!(
        command_outcome(&publish, Err("closed".to_string()), OnPublishError::Return),
        Err(MqError::Publish("closed".to_string()))
    );
}

#[test]
fn connection_failures_become_connection_errors() {
    assert_eq!(connection_outcome::<u8>(Ok(3)), Ok(3));
    assert_eq!(
        connection_outcome::<u8>(Err("refused".to_string())),
        Err(MqError::Connection("refused".to_string()))
    );
    assert_eq!(CHANNEL_ID, 1);
}

#[test]
fn config_failures_become_config_errors() {
    assert_eq!(configured_url(Ok("amqp://localhost//".to_string())), Ok("amqp://localhost//".to_string()));
    assert_eq!(
        configured_url(Err("no file".to_string())),
        Err(MqError::Config("no file".to_string()))
    );
}
