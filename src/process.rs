use vstd::prelude::*;
use crate::json::{JsonNode, json_node, parse_node, integer_value, read_unsigned};
use crate::fields::{AssemblyError, DecodeError, DecodeFault, Kind, Schema, either, lookup, check, fits,
    first_unknown, lemma_unknown_found, process_info_key, worker_key, heartbeat_key, find,
    find_unknown, text_field, number_field, unsigned_field, signed_field, text_items_field,
    texts_of, object_fields, read_object};
use crate::job::{Job, Timestamp, holds_count, job_text_fault, job_text_matches};

verus! {

/// What a process tells about itself when it starts.
#[derive(Debug, Clone, PartialEq, Eq)]
pub struct ProcessInfo {
    pub hostname: String,
    pub started_at: Timestamp,
    pub pid: u32,
    pub tag: String,
    pub concurrency: u8,
    /// The queues that the process drains, in order.
    pub queues: Vec<String>,
    pub labels: Vec<String>,
    /// Names the process's own hash and its worker table.
    pub identity: String,
}

/// A running process, as its last heartbeat shows it.
#[derive(Debug, Clone, PartialEq, Eq)]
pub struct Process {
    /// How many of its workers are busy.
    pub busy: u8,
    pub info: ProcessInfo,
    /// Whether the process is draining.
    pub quiet: bool,
    /// When the last heartbeat came.
    pub beat: Timestamp,
}

/// A slot of a process that is running a job.
#[derive(Debug, Clone, PartialEq, Eq)]
pub struct Worker {
    pub id: String,
    pub run_at: i64,
    pub queue: String,
    pub job: Job,
}

/// The first fault of a process information document.
pub open spec fn process_info_fault(fields: Seq<(String, JsonNode)>) -> Option<DecodeFault> {
    match first_unknown(fields, Schema::ProcessInfo) {
        Some(k) => Some(DecodeFault::UnknownField(k)),
        None => either(
            check(fields, "hostname"@, Kind::Text),
            either(
                check(fields, "started_at"@, Kind::Stamp),
                either(
                    check(fields, "pid"@, Kind::Unsigned(4294967295)),
                    either(
                        check(fields, "tag"@, Kind::Text),
                        either(
                            check(fields, "concurrency"@, Kind::Unsigned(255)),
                            either(
                                check(fields, "queues"@, Kind::TextItems),
                                either(
                                    check(fields, "labels"@, Kind::TextItems),
                                    check(fields, "identity"@, Kind::Text),
                                ),
                            ),
                        ),
                    ),
                ),
            ),
        ),
    }
}

pub open spec fn holds_texts(n: Option<JsonNode>, texts: Seq<String>) -> bool {
    match n {
        Some(JsonNode::Array(items)) => texts_of(items@, texts),
        _ => false,
    }
}

/// `info` is what the document's fields say.
pub open spec fn process_info_matches(info: ProcessInfo, fields: Seq<(String, JsonNode)>) -> bool {
    &&& lookup(fields, "hostname"@) == Some(JsonNode::Str(info.hostname))
    &&& lookup(fields, "started_at"@) == Some(JsonNode::Number(info.started_at.text))
    &&& holds_count(lookup(fields, "pid"@), info.pid as int)
    &&& lookup(fields, "tag"@) == Some(JsonNode::Str(info.tag))
    &&& holds_count(lookup(fields, "concurrency"@), info.concurrency as int)
    &&& holds_texts(lookup(fields, "queues"@), info.queues@)
    &&& holds_texts(lookup(fields, "labels"@), info.labels@)
    &&& lookup(fields, "identity"@) == Some(JsonNode::Str(info.identity))
}

pub open spec fn process_info_text_fault(text: Seq<char>) -> Option<DecodeFault> {
    match object_fields(text) {
        Err(f) => Some(f),
        Ok(fields) => process_info_fault(fields),
    }
}

pub open spec fn process_info_text_matches(info: ProcessInfo, text: Seq<char>) -> bool {
    match object_fields(text) {
        Err(_) => false,
        Ok(fields) => process_info_matches(info, fields),
    }
}

/// The fault, if any, of the heartbeat field `name`, whose value is the text
/// of a JSON scalar.
pub open spec fn scalar_check(hash: Seq<(String, String)>, name: Seq<char>, kind: Kind) -> Option<
    DecodeFault,
> {
    match lookup(hash, name) {
        None => Some(DecodeFault::MissingField(name)),
        Some(t) => match json_node(t@) {
            Some(n) => if fits(n, kind) {
                None
            } else {
                Some(DecodeFault::TypeMismatch(name))
            },
            None => Some(DecodeFault::TypeMismatch(name)),
        },
    }
}

/// The fault, if any, of the heartbeat field `info`, a nested document.
pub open spec fn info_check(hash: Seq<(String, String)>) -> Option<DecodeFault> {
    match lookup(hash, "info"@) {
        None => Some(DecodeFault::MissingField("info"@)),
        Some(t) => match process_info_text_fault(t@) {
            Some(f) => Some(DecodeFault::Nested("info"@, Box::new(f))),
            None => None,
        },
    }
}

/// The first fault of a heartbeat hash.
pub open spec fn heartbeat_fault(hash: Seq<(String, String)>) -> Option<DecodeFault> {
    match first_unknown(hash, Schema::Heartbeat) {
        Some(k) => Some(DecodeFault::UnknownField(k)),
        None => either(
            scalar_check(hash, "busy"@, Kind::Unsigned(255)),
            either(
                info_check(hash),
                either(scalar_check(hash, "quiet"@, Kind::Flag), scalar_check(hash, "beat"@, Kind::Stamp)),
            ),
        ),
    }
}

/// `p` is what the heartbeat hash says.
pub open spec fn process_matches(p: Process, hash: Seq<(String, String)>) -> bool {
    &&& match lookup(hash, "busy"@) {
        Some(t) => holds_count(json_node(t@), p.busy as int),
        None => false,
    }
    &&& match lookup(hash, "info"@) {
        Some(t) => process_info_text_matches(p.info, t@),
        None => false,
    }
    &&& match lookup(hash, "quiet"@) {
        Some(t) => json_node(t@) == Some(JsonNode::Bool(p.quiet)),
        None => false,
    }
    &&& match lookup(hash, "beat"@) {
        Some(t) => json_node(t@) == Some(JsonNode::Number(p.beat.text)),
        None => false,
    }
}

/// The fault, if any, of the worker field `payload`, a nested job document.
pub open spec fn payload_fault(fields: Seq<(String, JsonNode)>) -> Option<DecodeFault> {
    match lookup(fields, "payload"@) {
        Some(JsonNode::Str(p)) => match job_text_fault(p@) {
            Some(f) => Some(DecodeFault::Nested("payload"@, Box::new(f))),
            None => None,
        },
        _ => None,
    }
}

/// The first fault of a worker document.
pub open spec fn worker_fault(fields: Seq<(String, JsonNode)>) -> Option<DecodeFault> {
    match first_unknown(fields, Schema::Worker) {
        Some(k) => Some(DecodeFault::UnknownField(k)),
        None => either(
            check(fields, "run_at"@, Kind::Signed),
            either(
                check(fields, "queue"@, Kind::Text),
                either(check(fields, "payload"@, Kind::Text), payload_fault(fields)),
            ),
        ),
    }
}

/// `w` is the worker `id` that the document's fields describe.
pub open spec fn worker_matches(w: Worker, id: String, fields: Seq<(String, JsonNode)>) -> bool {
    &&& w.id == id
    &&& match lookup(fields, "run_at"@) {
        Some(JsonNode::Number(t)) => integer_value(t@) == Some(w.run_at as int),
        _ => false,
    }
    &&& lookup(fields, "queue"@) == Some(JsonNode::Str(w.queue))
    &&& match lookup(fields, "payload"@) {
        Some(JsonNode::Str(p)) => job_text_matches(w.job, p@),
        _ => false,
    }
}

pub open spec fn worker_text_fault(text: Seq<char>) -> Option<DecodeFault> {
    match object_fields(text) {
        Err(f) => Some(f),
        Ok(fields) => worker_fault(fields),
    }
}

pub open spec fn worker_text_matches(w: Worker, id: String, text: Seq<char>) -> bool {
    match object_fields(text) {
        Err(_) => false,
        Ok(fields) => worker_matches(w, id, fields),
    }
}

/// A process information document with a field that it does not have is
/// rejected.
pub proof fn lemma_process_info_unknown_field_rejected(fields: Seq<(String, JsonNode)>, i: int)
    requires
        0 <= i < fields.len(),
        !process_info_key(fields[i].0@),
    ensures
        process_info_fault(fields) is Some,
{
    lemma_unknown_found(fields, Schema::ProcessInfo, i);
}

/// A worker document with a field that a worker does not have is rejected.
pub proof fn lemma_worker_unknown_field_rejected(fields: Seq<(String, JsonNode)>, i: int)
    requires
        0 <= i < fields.len(),
        !worker_key(fields[i].0@),
    ensures
        worker_fault(fields) is Some,
{
    lemma_unknown_found(fields, Schema::Worker, i);
}

/// A heartbeat hash with a field besides `busy`, `info`, `quiet` and `beat`
/// is rejected.
pub proof fn lemma_heartbeat_unknown_field_rejected(hash: Seq<(String, String)>, i: int)
    requires
        0 <= i < hash.len(),
        !heartbeat_key(hash[i].0@),
    ensures
        heartbeat_fault(hash) is Some,
{
    lemma_unknown_found(hash, Schema::Heartbeat, i);
}

impl ProcessInfo {
    /// Decodes process information from the members of its document.
    pub fn from_fields(fields: &Vec<(String, JsonNode)>) -> (r: Result<ProcessInfo, DecodeError>)
        ensures
            match process_info_fault(fields@) {
                Some(f) => r is Err && r->Err_0.fault() == f,
                None => r is Ok && process_info_matches(r->Ok_0, fields@),
            },
    {
        if let Some(k) = find_unknown(fields, Schema::ProcessInfo) {
            return Err(DecodeError::UnknownField(k));
        }
        let hostname = text_field(fields, "hostname")?;
        let started_at = number_field(fields, "started_at")?;
        let pid = unsigned_field(fields, "pid", 4294967295)?;
        let tag = text_field(fields, "tag")?;
        let concurrency = unsigned_field(fields, "concurrency", 255)?;
        let queues = text_items_field(fields, "queues")?;
        let labels = text_items_field(fields, "labels")?;
        let identity = text_field(fields, "identity")?;
        Ok(
            ProcessInfo {
                hostname,
                started_at: Timestamp { text: started_at },
                pid: pid as u32,
                tag,
                concurrency: concurrency as u8,
                queues,
                labels,
                identity,
            },
        )
    }

    /// Decodes process information from its JSON text.
    pub fn decode(text: &str) -> (r: Result<ProcessInfo, DecodeError>)
        ensures
            match process_info_text_fault(text@) {
                Some(f) => r is Err && r->Err_0.fault() == f,
                None => r is Ok && process_info_text_matches(r->Ok_0, text@),
            },
    {
        let fields = read_object(text)?;
        ProcessInfo::from_fields(&fields)
    }
}

fn hash_scalar(hash: &Vec<(String, String)>, name: &str) -> (r: Result<JsonNode, DecodeError>)
    ensures
        match lookup(hash@, name@) {
            None => r is Err && r->Err_0.fault() == DecodeFault::MissingField(name@),
            Some(t) => match json_node(t@) {
                Some(n) => r is Ok && r->Ok_0 == n,
                None => r is Err && r->Err_0.fault() == DecodeFault::TypeMismatch(name@),
            },
        },
{
    match find(hash, name) {
        None => Err(DecodeError::MissingField(String::from_str(name))),
        Some(i) => match parse_node(hash[i].1.as_str()) {
            Ok(n) => Ok(n),
            Err(_) => Err(DecodeError::TypeMismatch(String::from_str(name))),
        },
    }
}

impl Process {
    /// Assembles a process from its heartbeat hash: `busy`, `quiet` and
    /// `beat` hold JSON scalars, `info` holds the process information document.
    pub fn assemble(hash: &Vec<(String, String)>) -> (r: Result<Process, DecodeError>)
        ensures
            match heartbeat_fault(hash@) {
                Some(f) => r is Err && r->Err_0.fault() == f,
                None => r is Ok && process_matches(r->Ok_0, hash@),
            },
    {
        if let Some(k) = find_unknown(hash, Schema::Heartbeat) {
            return Err(DecodeError::UnknownField(k));
        }
        let busy = match hash_scalar(hash, "busy")? {
            JsonNode::Number(t) => match read_unsigned(t.as_str(), 255) {
                Some(v) => v as u8,
                None => {
                    return Err(DecodeError::TypeMismatch(String::from_str("busy")));
                },
            },
            _ => {
                return Err(DecodeError::TypeMismatch(String::from_str("busy")));
            },
        };
        let info = match find(hash, "info") {
            None => {
                return Err(DecodeError::MissingField(String::from_str("info")));
            },
            Some(i) => match ProcessInfo::decode(hash[i].1.as_str()) {
                Ok(info) => info,
                Err(e) => {
                    return Err(
                        DecodeError::NestedDecodeFailure {
                            field: String::from_str("info"),
                            cause: Box::new(e),
                        },
                    );
                },
            },
        };
        let quiet = match hash_scalar(hash, "quiet")? {
            JsonNode::Bool(b) => b,
            _ => {
                return Err(DecodeError::TypeMismatch(String::from_str("quiet")));
            },
        };
        let beat = match hash_scalar(hash, "beat")? {
            JsonNode::Number(t) => Timestamp { text: t },
            _ => {
                return Err(DecodeError::TypeMismatch(String::from_str("beat")));
            },
        };
        Ok(Process { busy, info, quiet, beat })
    }
}

impl Worker {
    /// Decodes the worker `id` from the members of its document; the
    /// `payload` member holds the job's own JSON text.
    pub fn from_fields(id: &String, fields: &Vec<(String, JsonNode)>) -> (r: Result<Worker, DecodeError>)
        ensures
            match worker_fault(fields@) {
                Some(f) => r is Err && r->Err_0.fault() == f,
                None => r is Ok && worker_matches(r->Ok_0, *id, fields@),
            },
    {
        if let Some(k) = find_unknown(fields, Schema::Worker) {
            return Err(DecodeError::UnknownField(k));
        }
        let run_at = signed_field(fields, "run_at")?;
        let queue = text_field(fields, "queue")?;
        let payload = text_field(fields, "payload")?;
        let job = match Job::decode(payload.as_str()) {
            Ok(job) => job,
            Err(e) => {
                return Err(
                    DecodeError::NestedDecodeFailure {
                        field: String::from_str("payload"),
                        cause: Box::new(e),
                    },
                );
            },
        };
        Ok(Worker { id: id.clone(), run_at, queue, job })
    }

    /// Decodes the worker `id` from its JSON text.
    pub fn decode(id: &String, text: &str) -> (r: Result<Worker, DecodeError>)
        ensures
            match worker_text_fault(text@) {
                Some(f) => r is Err && r->Err_0.fault() == f,
                None => r is Ok && worker_text_matches(r->Ok_0, *id, text@),
            },
    {
        let fields = read_object(text)?;
        Worker::from_fields(id, &fields)
    }
}

/// Assembles the workers of a process from its worker table, one per entry
/// (worker id, worker document), in the table's order. One entry that does
/// not decode fails the whole table, naming that entry.
pub fn assemble_workers(table: &Vec<(String, String)>) -> (r: Result<Vec<Worker>, AssemblyError>)
    ensures
        r is Ok <==> forall|i: int|
            0 <= i < table@.len() ==> (#[trigger] worker_text_fault(table@[i].1@)) is None,
        r is Ok ==> {
            let ws = r->Ok_0;
            &&& ws@.len() == table@.len()
            &&& forall|i: int|
                0 <= i < table@.len() ==> worker_text_matches(
                    #[trigger] ws@[i],
                    table@[i].0,
                    table@[i].1@,
                )
        },
        r is Err ==> exists|i: int|
            #![trigger table@[i]]
            0 <= i < table@.len() && (forall|j: int|
                0 <= j < i ==> (#[trigger] worker_text_fault(table@[j].1@)) is None) && match r->Err_0 {
                AssemblyError::Worker { id, cause } => id == table@[i].0 && worker_text_fault(
                    table@[i].1@,
                ) == Some(cause.fault()),
                _ => false,
            },
{
    let mut workers: Vec<Worker> = Vec::new();
    let mut i: usize = 0;
    while i < table.len()
        invariant
            i <= table@.len(),
            workers@.len() == i,
            forall|j: int| 0 <= j < i ==> (#[trigger] worker_text_fault(table@[j].1@)) is None,
            forall|j: int|
                0 <= j < i ==> worker_text_matches(#[trigger] workers@[j], table@[j].0, table@[j].1@),
        decreases table@.len() - i,
    {
        match Worker::decode(&table[i].0, table[i].1.as_str()) {
            Ok(w) => {
                workers.push(w);
            },
            Err(cause) => {
                let ghost k = i as int;
                assert(table@[k] == table@[k]);
                return Err(AssemblyError::Worker { id: table[i].0.clone(), cause });
            },
        }
        i = i + 1;
    }
    Ok(workers)
}

} // verus!
