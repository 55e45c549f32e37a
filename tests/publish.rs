use bender_mq::{Command, Outbox, Publication};

fn publications(out: &Outbox) -> Vec<Publication> {
    out.commands()
        .iter()
        .filter_map(|c| match c {
            Command::Publish(p) => Some(p.clone()),
            _ => None,
        })
        .collect()
}

fn only_publication(out: &Outbox) -> Publication {
    assert_eq!(out.commands().len(), 1);
    let ps = publications(out);
    assert_eq!(ps.len(), 1);
    ps[0].clone()
}

fn assert_text_message(p: &Publication, exchange: &str, key: &str, body: &[u8]) {
    assert_eq!(p.exchange, exchange);
    assert_eq!(p.routing_key, key);
    assert_eq!(p.body, body.to_vec());
    assert_eq!(p.content_type, "text");
    assert!(p.mandatory);
    assert!(!p.immediate);
}

#[test]
fn info_posts_keep_the_key_verbatim() {
    for key in ["abc123", "", "job.42.done", "a.b.c"] {
        let mut out = Outbox::new();
        out.post_to_info(key, b"payload".to_vec());
        assert_text_message(&only_publication(&out), "info-topic", key, b"payload");
    }
}

#[test]
fn worker_posts_keep_the_key_verbatim() {
    for key in ["worker-1", "", "status.idle"] {
        let mut out = Outbox::new();
        out.worker_post(key, b"up".to_vec());
        assert_text_message(&only_publication(&out), "worker-topic", key, b"up");
    }
}

#[test]
fn job_posts_use_the_job_key() {
    for body in [&b""[..], &b"{\"id\":\"x\"}"[..], &b"job.with.dots"[..]] {
        let mut out = Outbox::new();
        out.post_to_job(body.to_vec());
        assert_text_message(&only_publication(&out), "job", "job", body);
    }
}

#[test]
fn work_posts_use_the_work_key() {
    let mut out = Outbox::new();
    out.post_to_work(Vec::new());
    assert_text_message(&only_publication(&out), "work", "work", b"");
}

#[test]
fn scenario_info_message_after_setup() {
    let mut out = Outbox::new();
    out.declare_topic_exchange();
    out.create_info_queue();
    out.post_to_info("abc123", b"hello".to_vec());
    let cmds = out.commands();
    assert_eq!(cmds.len(), 4);
    match &cmds[2] {
        Command::Bind(b) => {
            assert_eq!(b.queue, "info");
            assert_eq!(b.exchange, "info-topic");
            assert_eq!(b.pattern, "#");
        }
        other => panic!("expected a binding, got {:?}", other),
    }
    match &cmds[3] {
        Command::Publish(p) => assert_text_message(p, "info-topic", "abc123", b"hello"),
        other => panic!("expected a publication, got {:?}", other),
    }
}

#[test]
fn scenario_job_message_after_setup() {
    let mut out = Outbox::new();
    out.declare_job_exchange();
    out.create_job_queue();
    out.post_to_job(b"{\"id\":\"x\"}".to_vec());
    let cmds = out.commands();
    assert_eq!(cmds.len(), 3);
    assert!(!cmds.iter().any(|c| matches!(c, Command::Bind(_))));
    let ps = publications(&out);
    assert_eq!(ps.len(), 1);
    assert_text_message(&ps[0], "job", "job", b"{\"id\":\"x\"}");
}

#[test]
fn post_job_returns_the_serialized_text_and_publishes_it() {
    let mut out = Outbox::new();
    let text = "{\"id\":\"j-1\",\"name\":\"r\u{e9}sum\u{e9}\"}".to_string();
    let r: Result<String, String> = out.post_job(Ok(text.clone()));
    assert_eq!(r, Ok(text.clone()));
    assert_text_message(&only_publication(&out), "job", "job", text.as_bytes());
    assert_eq!(only_publication(&out).body.len(), text.len());
}

#[test]
fn scenario_failed_serialization_publishes_nothing() {
    let mut out = Outbox::new();
    let r: Result<String, String> = out.post_job(Err("cannot serialize".to_string()));
    assert_eq!(r, Err("cannot serialize".to_string()));
    assert_eq!(publications(&out).len(), 0);
    assert!(out.commands().is_empty());

    let r: Result<String, u32> = out.post_job_info("j-1", Err(7));
    assert_eq!(r, Err(7));
    let r: Result<String, u32> = out.post_task(Err(8));
    assert_eq!(r, Err(8));
    let r: Result<String, u32> = out.post_task_info(Err(9), "t-1");
    assert_eq!(r, Err(9));
    assert!(out.commands().is_empty());
}

#[test]
fn post_job_info_uses_the_job_id_as_key() {
    let mut out = Outbox::new();
    let r: Result<String, String> = out.post_job_info("f3a9.render", Ok("{}".to_string()));
    assert_eq!(r, Ok("{}".to_string()));
    assert_text_message(&only_publication(&out), "info-topic", "f3a9.render", b"{}");
}

#[test]
fn post_task_goes_to_work() {
    let mut out = Outbox::new();
    let r: Result<String, String> = out.post_task(Ok("{\"frame\":12}".to_string()));
    assert_eq!(r, Ok("{\"frame\":12}".to_string()));
    assert_text_message(&only_publication(&out), "work", "work", b"{\"frame\":12}");
}

#[test]
fn post_task_info_uses_the_given_key() {
    let mut out = Outbox::new();
    let r: Result<String, String> = out.post_task_info(Ok("{\"frame\":3}".to_string()), "task.3");
    assert_eq!(r, Ok("{\"frame\":3}".to_string()));
    assert_text_message(&only_publication(&out), "info-topic", "task.3", b"{\"frame\":3}");
}
