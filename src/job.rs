use vstd::prelude::*;
use crate::json::{JsonNode, is_digits, digits_value, read_unsigned};
use crate::fields::{DecodeError, DecodeFault, Kind, Schema, either, lookup, check, first_unknown,
    lemma_unknown_found, job_key, lemma_lookup_distinct,
    lemma_all_known, known, find, find_unknown, text_field, number_field, unsigned_field,
    items_field, copy_texts, object_fields, read_object};

verus! {

/// A point in time, in seconds since the epoch, kept as the decimal text of
/// the JSON number that records it (`1700000000.0`).
#[derive(Debug, Clone, PartialEq, Eq)]
pub struct Timestamp {
    pub text: String,
}

/// How a job is retried: switched on or off, or a budget of attempts.
#[derive(Debug, Clone, Copy, PartialEq, Eq)]
pub enum Retry {
    Flag(bool),
    Budget(u64),
}

/// What a job carries once it has failed at least once.
#[derive(Debug, Clone, PartialEq, Eq)]
pub struct RetryInfo {
    pub enqueued_at: Timestamp,
    pub error_class: String,
    pub error_message: String,
    pub failed_at: Timestamp,
    pub retried_at: Timestamp,
    pub retry_count: u8,
}

/// A unit of background work, as a queue, a worker or a special set holds it.
#[derive(Debug, Clone, PartialEq, Eq)]
pub struct Job {
    /// The arguments, each as its JSON text.
    pub args: Vec<String>,
    pub class: String,
    pub created_at: Timestamp,
    pub jid: String,
    pub queue: String,
    pub retry: Retry,
    /// Stored beside the other fields, in the same document.
    pub retry_info: Option<RetryInfo>,
}

/// None of the six retry fields is present.
pub open spec fn no_retry_info(fields: Seq<(String, JsonNode)>) -> bool {
    &&& lookup(fields, "enqueued_at"@) is None
    &&& lookup(fields, "error_class"@) is None
    &&& lookup(fields, "error_message"@) is None
    &&& lookup(fields, "failed_at"@) is None
    &&& lookup(fields, "retried_at"@) is None
    &&& lookup(fields, "retry_count"@) is None
}

/// Retry fields are all present or all absent: present ones make the others
/// required.
pub open spec fn retry_info_fault(fields: Seq<(String, JsonNode)>) -> Option<DecodeFault> {
    if no_retry_info(fields) {
        None
    } else {
        either(
            check(fields, "enqueued_at"@, Kind::Stamp),
            either(
                check(fields, "error_class"@, Kind::Text),
                either(
                    check(fields, "error_message"@, Kind::Text),
                    either(
                        check(fields, "failed_at"@, Kind::Stamp),
                        either(
                            check(fields, "retried_at"@, Kind::Stamp),
                            check(fields, "retry_count"@, Kind::Unsigned(255)),
                        ),
                    ),
                ),
            ),
        )
    }
}

/// The first fault of a job document, in field order; `None` when it decodes.
pub open spec fn job_fault(fields: Seq<(String, JsonNode)>) -> Option<DecodeFault> {
    match first_unknown(fields, Schema::Job) {
        Some(k) => Some(DecodeFault::UnknownField(k)),
        None => either(
            check(fields, "args"@, Kind::Items),
            either(
                check(fields, "class"@, Kind::Text),
                either(
                    check(fields, "created_at"@, Kind::Stamp),
                    either(
                        check(fields, "jid"@, Kind::Text),
                        either(
                            check(fields, "queue"@, Kind::Text),
                            either(
                                check(fields, "retry"@, Kind::RetryPolicy),
                                retry_info_fault(fields),
                            ),
                        ),
                    ),
                ),
            ),
        ),
    }
}

/// The number node that holds `value` in decimal digits.
pub open spec fn holds_count(n: Option<JsonNode>, value: int) -> bool {
    match n {
        Some(JsonNode::Number(t)) => is_digits(t@) && digits_value(t@) == value,
        _ => false,
    }
}

pub open spec fn retry_matches(retry: Retry, n: Option<JsonNode>) -> bool {
    match retry {
        Retry::Flag(b) => n == Some(JsonNode::Bool(b)),
        Retry::Budget(c) => holds_count(n, c as int),
    }
}

pub open spec fn retry_info_matches(info: RetryInfo, fields: Seq<(String, JsonNode)>) -> bool {
    &&& lookup(fields, "enqueued_at"@) == Some(JsonNode::Number(info.enqueued_at.text))
    &&& lookup(fields, "error_class"@) == Some(JsonNode::Str(info.error_class))
    &&& lookup(fields, "error_message"@) == Some(JsonNode::Str(info.error_message))
    &&& lookup(fields, "failed_at"@) == Some(JsonNode::Number(info.failed_at.text))
    &&& lookup(fields, "retried_at"@) == Some(JsonNode::Number(info.retried_at.text))
    &&& holds_count(lookup(fields, "retry_count"@), info.retry_count as int)
}

/// `job` is what the document's fields say.
pub open spec fn job_matches(job: Job, fields: Seq<(String, JsonNode)>) -> bool {
    &&& match lookup(fields, "args"@) {
        Some(JsonNode::Array(items)) => job.args@ == items@,
        _ => false,
    }
    &&& lookup(fields, "class"@) == Some(JsonNode::Str(job.class))
    &&& lookup(fields, "created_at"@) == Some(JsonNode::Number(job.created_at.text))
    &&& lookup(fields, "jid"@) == Some(JsonNode::Str(job.jid))
    &&& lookup(fields, "queue"@) == Some(JsonNode::Str(job.queue))
    &&& retry_matches(job.retry, lookup(fields, "retry"@))
    &&& match job.retry_info {
        None => no_retry_info(fields),
        Some(info) => retry_info_matches(info, fields),
    }
}

/// Two jobs hold the same values.
pub open spec fn same_job(a: Job, b: Job) -> bool {
    &&& a.args@ == b.args@
    &&& a.class == b.class
    &&& a.created_at == b.created_at
    &&& a.jid == b.jid
    &&& a.queue == b.queue
    &&& a.retry == b.retry
    &&& a.retry_info == b.retry_info
}

/// The first fault of the job document in `text`.
pub open spec fn job_text_fault(text: Seq<char>) -> Option<DecodeFault> {
    match object_fields(text) {
        Err(f) => Some(f),
        Ok(fields) => job_fault(fields),
    }
}

/// `job` is what the job document in `text` says.
pub open spec fn job_text_matches(job: Job, text: Seq<char>) -> bool {
    match object_fields(text) {
        Err(_) => false,
        Ok(fields) => job_matches(job, fields),
    }
}

fn read_retry(fields: &Vec<(String, JsonNode)>) -> (r: Result<Retry, DecodeError>)
    ensures
        match check(fields@, "retry"@, Kind::RetryPolicy) {
            Some(f) => r is Err && r->Err_0.fault() == f,
            None => r is Ok && retry_matches(r->Ok_0, lookup(fields@, "retry"@)),
        },
{
    match find(fields, "retry") {
        None => Err(DecodeError::MissingField(String::from_str("retry"))),
        Some(i) => match &fields[i].1 {
            JsonNode::Bool(b) => Ok(Retry::Flag(*b)),
            JsonNode::Number(t) => match read_unsigned(t.as_str(), u64::MAX) {
                Some(c) => Ok(Retry::Budget(c)),
                None => Err(DecodeError::TypeMismatch(String::from_str("retry"))),
            },
            _ => Err(DecodeError::TypeMismatch(String::from_str("retry"))),
        },
    }
}

fn read_retry_info(fields: &Vec<(String, JsonNode)>) -> (r: Result<Option<RetryInfo>, DecodeError>)
    ensures
        match retry_info_fault(fields@) {
            Some(f) => r is Err && r->Err_0.fault() == f,
            None => r is Ok && match r->Ok_0 {
                None => no_retry_info(fields@),
                Some(info) => retry_info_matches(info, fields@),
            },
        },
{
    let present = find(fields, "enqueued_at").is_some() || find(fields, "error_class").is_some()
        || find(fields, "error_message").is_some() || find(fields, "failed_at").is_some() || find(
        fields,
        "retried_at",
    ).is_some() || find(fields, "retry_count").is_some();
    if !present {
        return Ok(None);
    }
    let enqueued_at = number_field(fields, "enqueued_at")?;
    let error_class = text_field(fields, "error_class")?;
    let error_message = text_field(fields, "error_message")?;
    let failed_at = number_field(fields, "failed_at")?;
    let retried_at = number_field(fields, "retried_at")?;
    let retry_count = unsigned_field(fields, "retry_count", 255)?;
    Ok(
        Some(
            RetryInfo {
                enqueued_at: Timestamp { text: enqueued_at },
                error_class,
                error_message,
                failed_at: Timestamp { text: failed_at },
                retried_at: Timestamp { text: retried_at },
                retry_count: retry_count as u8,
            },
        ),
    )
}

/// Relies on the `Display` of `u64`: its decimal digits, without sign.
#[verifier::external_body]
fn decimal_text(n: u64) -> (r: String)
    ensures
        is_digits(r@),
        digits_value(r@) == n as int,
{
    n.to_string()
}

pub open spec fn has_entry(fields: Seq<(String, JsonNode)>, i: int, name: Seq<char>, n: JsonNode) -> bool {
    fields[i].0@ == name && fields[i].1 == n
}

/// `fields` is the document that encodes `job`: its own fields in order,
/// then the six retry fields when it has them.
pub open spec fn encodes(job: Job, fields: Seq<(String, JsonNode)>) -> bool {
    &&& fields.len() == if job.retry_info is Some {
        12int
    } else {
        6int
    }
    &&& fields[0].0@ == "args"@
    &&& match fields[0].1 {
        JsonNode::Array(items) => items@ == job.args@,
        _ => false,
    }
    &&& has_entry(fields, 1, "class"@, JsonNode::Str(job.class))
    &&& has_entry(fields, 2, "created_at"@, JsonNode::Number(job.created_at.text))
    &&& has_entry(fields, 3, "jid"@, JsonNode::Str(job.jid))
    &&& has_entry(fields, 4, "queue"@, JsonNode::Str(job.queue))
    &&& fields[5].0@ == "retry"@
    &&& retry_matches(job.retry, Some(fields[5].1))
    &&& match job.retry_info {
        None => true,
        Some(info) => {
            &&& has_entry(fields, 6, "enqueued_at"@, JsonNode::Number(info.enqueued_at.text))
            &&& has_entry(fields, 7, "error_class"@, JsonNode::Str(info.error_class))
            &&& has_entry(fields, 8, "error_message"@, JsonNode::Str(info.error_message))
            &&& has_entry(fields, 9, "failed_at"@, JsonNode::Number(info.failed_at.text))
            &&& has_entry(fields, 10, "retried_at"@, JsonNode::Number(info.retried_at.text))
            &&& fields[11].0@ == "retry_count"@
            &&& holds_count(Some(fields[11].1), info.retry_count as int)
        },
    }
}

/// Decoding is a function of the document: two jobs that the same fields
/// describe hold the same values.
pub proof fn lemma_job_decode_unique(a: Job, b: Job, fields: Seq<(String, JsonNode)>)
    requires
        job_matches(a, fields),
        job_matches(b, fields),
    ensures
        same_job(a, b),
{
}

/// Encoding a job, with or without retry information, and decoding the
/// document gives back a job equal to it.
pub proof fn lemma_job_round_trip(job: Job, fields: Seq<(String, JsonNode)>)
    requires
        encodes(job, fields),
    ensures
        job_fault(fields) is None,
        job_matches(job, fields),
        forall|j: Job| job_matches(j, fields) ==> same_job(j, job),
{
    reveal_strlit("args");
    reveal_strlit("class");
    reveal_strlit("created_at");
    reveal_strlit("jid");
    reveal_strlit("queue");
    reveal_strlit("retry");
    reveal_strlit("enqueued_at");
    reveal_strlit("error_class");
    reveal_strlit("error_message");
    reveal_strlit("failed_at");
    reveal_strlit("retried_at");
    reveal_strlit("retry_count");
    let names = seq![
        "args"@,
        "class"@,
        "created_at"@,
        "jid"@,
        "queue"@,
        "retry"@,
        "enqueued_at"@,
        "error_class"@,
        "error_message"@,
        "failed_at"@,
        "retried_at"@,
        "retry_count"@,
    ];
    assert(names[0].len() != names[1].len());
    assert(names[0].len() != names[2].len());
    assert(names[0].len() != names[3].len());
    assert(names[0].len() != names[4].len());
    assert(names[0].len() != names[5].len());
    assert(names[0].len() != names[6].len());
    assert(names[0].len() != names[7].len());
    assert(names[0].len() != names[8].len());
    assert(names[0].len() != names[9].len());
    assert(names[0].len() != names[10].len());
    assert(names[0].len() != names[11].len());
    assert(names[1].len() != names[2].len());
    assert(names[1].len() != names[3].len());
    assert(names[1][0] != names[4][0]);
    assert(names[1][0] != names[5][0]);
    assert(names[1].len() != names[6].len());
    assert(names[1].len() != names[7].len());
    assert(names[1].len() != names[8].len());
    assert(names[1].len() != names[9].len());
    assert(names[1].len() != names[10].len());
    assert(names[1].len() != names[11].len());
    assert(names[2].len() != names[3].len());
    assert(names[2].len() != names[4].len());
    assert(names[2].len() != names[5].len());
    assert(names[2].len() != names[6].len());
    assert(names[2].len() != names[7].len());
    assert(names[2].len() != names[8].len());
    assert(names[2].len() != names[9].len());
    assert(names[2][0] != names[10][0]);
    assert(names[2].len() != names[11].len());
    assert(names[3].len() != names[4].len());
    assert(names[3].len() != names[5].len());
    assert(names[3].len() != names[6].len());
    assert(names[3].len() != names[7].len());
    assert(names[3].len() != names[8].len());
    assert(names[3].len() != names[9].len());
    assert(names[3].len() != names[10].len());
    assert(names[3].len() != names[11].len());
    assert(names[4][0] != names[5][0]);
    assert(names[4].len() != names[6].len());
    assert(names[4].len() != names[7].len());
    assert(names[4].len() != names[8].len());
    assert(names[4].len() != names[9].len());
    assert(names[4].len() != names[10].len());
    assert(names[4].len() != names[11].len());
    assert(names[5].len() != names[6].len());
    assert(names[5].len() != names[7].len());
    assert(names[5].len() != names[8].len());
    assert(names[5].len() != names[9].len());
    assert(names[5].len() != names[10].len());
    assert(names[5].len() != names[11].len());
    assert(names[6][1] != names[7][1]);
    assert(names[6].len() != names[8].len());
    assert(names[6].len() != names[9].len());
    assert(names[6].len() != names[10].len());
    assert(names[6][0] != names[11][0]);
    assert(names[7].len() != names[8].len());
    assert(names[7].len() != names[9].len());
    assert(names[7].len() != names[10].len());
    assert(names[7][0] != names[11][0]);
    assert(names[8].len() != names[9].len());
    assert(names[8].len() != names[10].len());
    assert(names[8].len() != names[11].len());
    assert(names[9].len() != names[10].len());
    assert(names[9].len() != names[11].len());
    assert(names[10].len() != names[11].len());
    assert(forall|i: int, j: int| 0 <= i < j < 12 ==> names[i] != names[j]);
    assert forall|j: int| 0 <= j < fields.len() implies (#[trigger] fields[j]).0@ == names[j] by {}
    assert forall|j: int| 0 <= j < fields.len() implies known(Schema::Job, (#[trigger] fields[j]).0@) by {
        assert(fields[j].0@ == names[j]);
    }
    lemma_all_known(fields, Schema::Job);
    lemma_lookup_distinct(fields, names, 0);
    lemma_lookup_distinct(fields, names, 1);
    lemma_lookup_distinct(fields, names, 2);
    lemma_lookup_distinct(fields, names, 3);
    lemma_lookup_distinct(fields, names, 4);
    lemma_lookup_distinct(fields, names, 5);
    lemma_lookup_distinct(fields, names, 6);
    lemma_lookup_distinct(fields, names, 7);
    lemma_lookup_distinct(fields, names, 8);
    lemma_lookup_distinct(fields, names, 9);
    lemma_lookup_distinct(fields, names, 10);
    lemma_lookup_distinct(fields, names, 11);
}

/// Retry fields present in part (one to five of the six) never decode as a
/// job without retry information: the document is rejected.
pub proof fn lemma_partial_retry_info_rejected(fields: Seq<(String, JsonNode)>)
    requires
        !no_retry_info(fields),
        lookup(fields, "enqueued_at"@) is None || lookup(fields, "error_class"@) is None
            || lookup(fields, "error_message"@) is None || lookup(fields, "failed_at"@) is None
            || lookup(fields, "retried_at"@) is None || lookup(fields, "retry_count"@) is None,
    ensures
        job_fault(fields) is Some,
{
}

/// A job document with a field that a job does not have is rejected.
pub proof fn lemma_job_unknown_field_rejected(fields: Seq<(String, JsonNode)>, i: int)
    requires
        0 <= i < fields.len(),
        !job_key(fields[i].0@),
    ensures
        job_fault(fields) is Some,
{
    lemma_unknown_found(fields, Schema::Job, i);
}

impl Job {
    /// Encodes the job as the members of its document.
    pub fn to_fields(&self) -> (r: Vec<(String, JsonNode)>)
        ensures
            encodes(*self, r@),
            job_fault(r@) is None,
            job_matches(*self, r@),
    {
        let mut r: Vec<(String, JsonNode)> = Vec::new();
        r.push((String::from_str("args"), JsonNode::Array(copy_texts(&self.args))));
        r.push((String::from_str("class"), JsonNode::Str(self.class.clone())));
        r.push((String::from_str("created_at"), JsonNode::Number(self.created_at.text.clone())));
        r.push((String::from_str("jid"), JsonNode::Str(self.jid.clone())));
        r.push((String::from_str("queue"), JsonNode::Str(self.queue.clone())));
        let retry = match self.retry {
            Retry::Flag(b) => JsonNode::Bool(b),
            Retry::Budget(c) => JsonNode::Number(decimal_text(c)),
        };
        r.push((String::from_str("retry"), retry));
        match &self.retry_info {
            None => {},
            Some(info) => {
                r.push(
                    (String::from_str("enqueued_at"), JsonNode::Number(info.enqueued_at.text.clone())),
                );
                r.push((String::from_str("error_class"), JsonNode::Str(info.error_class.clone())));
                r.push(
                    (String::from_str("error_message"), JsonNode::Str(info.error_message.clone())),
                );
                r.push((String::from_str("failed_at"), JsonNode::Number(info.failed_at.text.clone())));
                r.push(
                    (String::from_str("retried_at"), JsonNode::Number(info.retried_at.text.clone())),
                );
                r.push(
                    (
                        String::from_str("retry_count"),
                        JsonNode::Number(decimal_text(info.retry_count as u64)),
                    ),
                );
            },
        }
        proof {
            lemma_job_round_trip(*self, r@);
        }
        r
    }

    /// Decodes a job from the members of its document.
    pub fn from_fields(fields: &Vec<(String, JsonNode)>) -> (r: Result<Job, DecodeError>)
        ensures
            match job_fault(fields@) {
                Some(f) => r is Err && r->Err_0.fault() == f,
                None => r is Ok && job_matches(r->Ok_0, fields@),
            },
    {
        if let Some(k) = find_unknown(fields, Schema::Job) {
            return Err(DecodeError::UnknownField(k));
        }
        let args = items_field(fields, "args")?;
        let class = text_field(fields, "class")?;
        let created_at = number_field(fields, "created_at")?;
        let jid = text_field(fields, "jid")?;
        let queue = text_field(fields, "queue")?;
        let retry = read_retry(fields)?;
        let retry_info = read_retry_info(fields)?;
        Ok(
            Job {
                args,
                class,
                created_at: Timestamp { text: created_at },
                jid,
                queue,
                retry,
                retry_info,
            },
        )
    }

    /// Decodes a job from its JSON text.
    pub fn decode(text: &str) -> (r: Result<Job, DecodeError>)
        ensures
            match job_text_fault(text@) {
                Some(f) => r is Err && r->Err_0.fault() == f,
                None => r is Ok && job_text_matches(r->Ok_0, text@),
            },
    {
        let fields = read_object(text)?;
        Job::from_fields(&fields)
    }
}

} // verus!
