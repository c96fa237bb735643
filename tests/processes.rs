use sidemon::{assemble_workers, workers_key, AssemblyError, DecodeError, Process, ProcessInfo, Worker};

const INFO: &str = "{\"hostname\":\"h\",\"started_at\":1.0,\"pid\":1,\"tag\":\"t\",\"concurrency\":2,\"queues\":[\"default\"],\"labels\":[],\"identity\":\"p1\"}";

const JOB: &str = "{\"args\":[],\"class\":\"Foo\",\"created_at\":1.0,\"jid\":\"abc\",\"queue\":\"q\",\"retry\":true}";

fn pairs(entries: &[(&str, &str)]) -> Vec<(String, String)> {
    entries.iter().map(|(k, v)| (k.to_string(), v.to_string())).collect()
}

fn heartbeat() -> Vec<(String, String)> {
    pairs(&[("busy", "2"), ("quiet", "false"), ("beat", "1700000000.0"), ("info", INFO)])
}

fn worker_text(payload: &str) -> String {
    format!("{{\"run_at\":100,\"queue\":\"q\",\"payload\":{}}}", serde_json::to_string(payload).unwrap())
}

#[test]
fn process_from_heartbeat() {
    let process = Process::assemble(&heartbeat()).unwrap();
    assert_eq!(process.busy, 2);
    assert!(!process.quiet);
    assert_eq!(process.beat.text, "1700000000.0");
    assert_eq!(process.info.hostname, "h");
    assert_eq!(process.info.started_at.text, "1.0");
    assert_eq!(process.info.pid, 1);
    assert_eq!(process.info.concurrency, 2);
    assert_eq!(process.info.queues, vec!["default".to_string()]);
    assert!(process.info.labels.is_empty());
    assert_eq!(process.info.identity, "p1");
}

#[test]
fn heartbeat_missing_beat() {
    let hash = pairs(&[("busy", "2"), ("quiet", "false"), ("info", INFO)]);
    assert_eq!(Process::assemble(&hash), Err(DecodeError::MissingField("beat".to_string())));
}

#[test]
fn heartbeat_info_not_json() {
    let hash = pairs(&[("busy", "2"), ("quiet", "false"), ("beat", "1.0"), ("info", "{not json")]);
    match Process::assemble(&hash) {
        Err(DecodeError::NestedDecodeFailure { field, cause }) => {
            assert_eq!(field, "info");
            assert!(matches!(*cause, DecodeError::Syntax(_)));
        }
        other => panic!("unexpected {:?}", other),
    }
}

#[test]
fn heartbeat_info_with_extra_field() {
    let info = INFO.replace("\"tag\":\"t\"", "\"tag\":\"t\",\"rss\":5");
    let hash = pairs(&[("busy", "2"), ("quiet", "false"), ("beat", "1.0"), ("info", &info)]);
    assert_eq!(
        Process::assemble(&hash),
        Err(DecodeError::NestedDecodeFailure {
            field: "info".to_string(),
            cause: Box::new(DecodeError::UnknownField("rss".to_string())),
        })
    );
}

#[test]
fn heartbeat_unknown_field() {
    let mut hash = heartbeat();
    hash.push(("rtt_us".to_string(), "10".to_string()));
    assert_eq!(Process::assemble(&hash), Err(DecodeError::UnknownField("rtt_us".to_string())));
}

#[test]
fn heartbeat_busy_out_of_range() {
    let hash = pairs(&[("busy", "300"), ("quiet", "false"), ("beat", "1.0"), ("info", INFO)]);
    assert_eq!(Process::assemble(&hash), Err(DecodeError::TypeMismatch("busy".to_string())));
}

#[test]
fn heartbeat_quiet_not_boolean() {
    let hash = pairs(&[("busy", "2"), ("quiet", "maybe"), ("beat", "1.0"), ("info", INFO)]);
    assert_eq!(Process::assemble(&hash), Err(DecodeError::TypeMismatch("quiet".to_string())));
}

#[test]
fn process_info_queue_names_must_be_strings() {
    let info = INFO.replace("[\"default\"]", "[\"default\",3]");
    assert_eq!(ProcessInfo::decode(&info), Err(DecodeError::TypeMismatch("queues".to_string())));
}

#[test]
fn process_info_pid_range() {
    let info = INFO.replace("\"pid\":1", "\"pid\":4294967296");
    assert_eq!(ProcessInfo::decode(&info), Err(DecodeError::TypeMismatch("pid".to_string())));
}

#[test]
fn one_malformed_worker_fails_the_table() {
    let good = worker_text(JOB);
    let bad = "{\"run_at\":100,\"queue\":\"q\"}".to_string();
    let table = vec![("w1".to_string(), good.clone()), ("w2".to_string(), bad.clone())];
    assert_eq!(
        assemble_workers(&table),
        Err(AssemblyError::Worker { id: "w2".to_string(), cause: DecodeError::MissingField("payload".to_string()) })
    );
    let swapped = vec![("w2".to_string(), bad), ("w1".to_string(), good)];
    assert_eq!(
        assemble_workers(&swapped),
        Err(AssemblyError::Worker { id: "w2".to_string(), cause: DecodeError::MissingField("payload".to_string()) })
    );
}

#[test]
fn well_formed_workers() {
    let table = vec![("w1".to_string(), worker_text(JOB)), ("w2".to_string(), worker_text(JOB))];
    let workers = assemble_workers(&table).unwrap();
    assert_eq!(workers.len(), 2);
    assert_eq!(workers[0].id, "w1");
    assert_eq!(workers[1].id, "w2");
    assert_eq!(workers[0].run_at, 100);
    assert_eq!(workers[0].queue, "q");
    assert_eq!(workers[0].job.jid, "abc");
}

#[test]
fn worker_payload_not_a_job() {
    let text = worker_text("{\"class\":\"Foo\"}");
    assert_eq!(
        Worker::decode(&"w1".to_string(), &text),
        Err(DecodeError::NestedDecodeFailure {
            field: "payload".to_string(),
            cause: Box::new(DecodeError::MissingField("args".to_string())),
        })
    );
}

#[test]
fn worker_unknown_field() {
    let text = worker_text(JOB).replace("\"run_at\":100", "\"run_at\":100,\"extra\":null");
    assert_eq!(Worker::decode(&"w1".to_string(), &text), Err(DecodeError::UnknownField("extra".to_string())));
}

#[test]
fn worker_negative_run_at() {
    let text = worker_text(JOB).replace("\"run_at\":100", "\"run_at\":-3");
    assert_eq!(Worker::decode(&"w1".to_string(), &text).unwrap().run_at, -3);
}

#[test]
fn empty_worker_table() {
    assert_eq!(assemble_workers(&vec![]), Ok(vec![]));
}

#[test]
fn worker_table_key() {
    assert_eq!(workers_key("p1"), "p1:workers");
}
