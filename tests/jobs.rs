use sidemon::json::{read_signed, read_unsigned, JsonNode};
use sidemon::{decode_jobs, AssemblyError, DecodeError, Job, Retry, RetryInfo, Timestamp};

fn stamp(text: &str) -> Timestamp {
    Timestamp { text: text.to_string() }
}

fn sample_job(retry_info: Option<RetryInfo>) -> Job {
    Job {
        args: vec!["1".to_string(), "\"a\"".to_string()],
        class: "HardWorker".to_string(),
        created_at: stamp("1700000000.5"),
        jid: "abc".to_string(),
        queue: "default".to_string(),
        retry: Retry::Flag(true),
        retry_info,
    }
}

fn sample_retry_info() -> RetryInfo {
    RetryInfo {
        enqueued_at: stamp("1.0"),
        error_class: "E".to_string(),
        error_message: "m".to_string(),
        failed_at: stamp("2.0"),
        retried_at: stamp("3.0"),
        retry_count: 4,
    }
}

const DEAD_ENTRY: &str = "{\"args\":[],\"class\":\"Foo\",\"created_at\":1.0,\"jid\":\"abc\",\"queue\":\"default\",\"retry\":true,\"enqueued_at\":1.0,\"error_class\":\"E\",\"error_message\":\"m\",\"failed_at\":1.0,\"retried_at\":1.0,\"retry_count\":1}";

const PLAIN_JOB: &str = "{\"args\":[1,\"a\",{\"k\":[true]}],\"class\":\"Foo\",\"created_at\":1700000000.5,\"jid\":\"j1\",\"queue\":\"default\",\"retry\":false}";

#[test]
fn round_trip_without_retry_info() {
    let job = sample_job(None);
    let fields = job.to_fields();
    assert_eq!(fields.len(), 6);
    assert_eq!(Job::from_fields(&fields), Ok(job));
}

#[test]
fn round_trip_with_retry_info() {
    let job = sample_job(Some(sample_retry_info()));
    let fields = job.to_fields();
    assert_eq!(fields.len(), 12);
    assert_eq!(Job::from_fields(&fields), Ok(job));
}

#[test]
fn round_trip_with_retry_budget() {
    let mut job = sample_job(None);
    job.retry = Retry::Budget(25);
    let fields = job.to_fields();
    assert_eq!(fields[5], ("retry".to_string(), JsonNode::Number("25".to_string())));
    assert_eq!(Job::from_fields(&fields), Ok(job));
}

#[test]
fn encoded_retry_count_is_decimal_text() {
    let job = sample_job(Some(sample_retry_info()));
    let fields = job.to_fields();
    assert_eq!(fields[11], ("retry_count".to_string(), JsonNode::Number("4".to_string())));
}

#[test]
fn dead_entry_decodes_with_retry_info() {
    let job = Job::decode(DEAD_ENTRY).unwrap();
    assert_eq!(job.class, "Foo");
    assert_eq!(job.jid, "abc");
    assert_eq!(job.retry, Retry::Flag(true));
    assert!(job.args.is_empty());
    let info = job.retry_info.unwrap();
    assert_eq!(info.retry_count, 1);
    assert_eq!(info.error_class, "E");
    assert_eq!(info.failed_at, stamp("1.0"));
}

#[test]
fn dead_read_of_one_entry() {
    let jobs = decode_jobs(&vec![DEAD_ENTRY.to_string()]).unwrap();
    assert_eq!(jobs.len(), 1);
    assert_eq!(jobs[0].retry_info.as_ref().unwrap().retry_count, 1);
}

#[test]
fn job_without_retry_fields_has_no_retry_info() {
    let job = Job::decode(PLAIN_JOB).unwrap();
    assert_eq!(job.retry_info, None);
    assert_eq!(job.retry, Retry::Flag(false));
    assert_eq!(job.created_at, stamp("1700000000.5"));
    assert_eq!(job.args, vec!["1".to_string(), "\"a\"".to_string(), "{\"k\":[true]}".to_string()]);
}

#[test]
fn numeric_retry_is_a_budget() {
    let text = PLAIN_JOB.replace("\"retry\":false", "\"retry\":5");
    assert_eq!(Job::decode(&text).unwrap().retry, Retry::Budget(5));
}

#[test]
fn partial_retry_info_is_rejected() {
    let text = PLAIN_JOB.replace("\"retry\":false", "\"retry\":false,\"enqueued_at\":1.0");
    assert_eq!(Job::decode(&text), Err(DecodeError::MissingField("error_class".to_string())));
}

#[test]
fn five_of_six_retry_fields_are_rejected() {
    let text = DEAD_ENTRY.replace(",\"retry_count\":1", "");
    assert_eq!(Job::decode(&text), Err(DecodeError::MissingField("retry_count".to_string())));
}

#[test]
fn unknown_job_field_is_rejected() {
    let text = PLAIN_JOB.replace("\"retry\":false", "\"retry\":false,\"foo\":1");
    assert_eq!(Job::decode(&text), Err(DecodeError::UnknownField("foo".to_string())));
}

#[test]
fn job_field_of_wrong_type() {
    let text = PLAIN_JOB.replace("\"class\":\"Foo\"", "\"class\":1");
    assert_eq!(Job::decode(&text), Err(DecodeError::TypeMismatch("class".to_string())));
}

#[test]
fn job_missing_field() {
    let text = PLAIN_JOB.replace("\"jid\":\"j1\",", "");
    assert_eq!(Job::decode(&text), Err(DecodeError::MissingField("jid".to_string())));
}

#[test]
fn retry_count_out_of_range() {
    let text = DEAD_ENTRY.replace("\"retry_count\":1", "\"retry_count\":256");
    assert_eq!(Job::decode(&text), Err(DecodeError::TypeMismatch("retry_count".to_string())));
}

#[test]
fn job_text_not_json() {
    assert!(matches!(Job::decode("{\"args\":"), Err(DecodeError::Syntax(_))));
}

#[test]
fn job_text_not_an_object() {
    assert_eq!(Job::decode("[1,2]"), Err(DecodeError::NotAnObject));
}

#[test]
fn range_read_keeps_order_and_names_bad_position() {
    let first = PLAIN_JOB.to_string();
    let second = DEAD_ENTRY.to_string();
    let jobs = decode_jobs(&vec![first.clone(), second.clone()]).unwrap();
    assert_eq!(jobs[0].jid, "j1");
    assert_eq!(jobs[1].jid, "abc");
    let bad = decode_jobs(&vec![first, "{}".to_string(), second]);
    assert_eq!(
        bad,
        Err(AssemblyError::Job { position: 1, cause: DecodeError::MissingField("args".to_string()) })
    );
}

#[test]
fn empty_range_read() {
    assert_eq!(decode_jobs(&vec![]), Ok(vec![]));
}

#[test]
fn unsigned_text() {
    assert_eq!(read_unsigned("255", 255), Some(255));
    assert_eq!(read_unsigned("256", 255), None);
    assert_eq!(read_unsigned("18446744073709551615", u64::MAX), Some(u64::MAX));
    assert_eq!(read_unsigned("18446744073709551616", u64::MAX), None);
    assert_eq!(read_unsigned("1.0", 255), None);
    assert_eq!(read_unsigned("", 255), None);
}

#[test]
fn signed_text() {
    assert_eq!(read_signed("-5"), Some(-5));
    assert_eq!(read_signed("100"), Some(100));
    assert_eq!(read_signed("-9223372036854775808"), Some(i64::MIN));
    assert_eq!(read_signed("9223372036854775808"), None);
    assert_eq!(read_signed("-"), None);
}
