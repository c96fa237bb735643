use vstd::prelude::*;
use crate::fields::AssemblyError;
use crate::job::{Job, job_text_fault, job_text_matches};

verus! {

/// The set that lists the names of the running processes.
pub const PROCESSES_KEY: &'static str = "processes";

/// The set that lists the names of the queues.
pub const QUEUES_KEY: &'static str = "queues";

/// The store primitive that backs a job collection.
#[derive(Debug, Clone, Copy, PartialEq, Eq)]
pub enum CollectionKind {
    /// A list in insertion order, read by position.
    Sequence,
    /// A sorted set, ordered by ascending score.
    ScoredSet,
}

/// A job collection of the store: its key and the primitive behind it.
#[derive(Debug, Clone, PartialEq, Eq)]
pub struct Collection {
    pub kind: CollectionKind,
    pub key: String,
}

/// The key of the hash that holds a process's worker table.
pub fn workers_key(identity: &str) -> (r: String)
    ensures
        r@ == identity@ + ":workers"@,
{
    String::from_str(identity).concat(":workers")
}

impl Collection {
    /// The named queue, a list under `queue:<name>`.
    pub fn queue(name: &str) -> (c: Collection)
        ensures
            c.kind == CollectionKind::Sequence,
            c.key@ == "queue:"@ + name@,
    {
        Collection { kind: CollectionKind::Sequence, key: String::from_str("queue:").concat(name) }
    }

    /// The jobs waiting to be retried.
    pub fn retry() -> (c: Collection)
        ensures
            c.kind == CollectionKind::ScoredSet,
            c.key@ == "retry"@,
    {
        Collection { kind: CollectionKind::ScoredSet, key: String::from_str("retry") }
    }

    /// The jobs scheduled for later.
    pub fn schedule() -> (c: Collection)
        ensures
            c.kind == CollectionKind::ScoredSet,
            c.key@ == "schedule"@,
    {
        Collection { kind: CollectionKind::ScoredSet, key: String::from_str("schedule") }
    }

    /// The jobs that ran out of retries.
    pub fn dead() -> (c: Collection)
        ensures
            c.kind == CollectionKind::ScoredSet,
            c.key@ == "dead"@,
    {
        Collection { kind: CollectionKind::ScoredSet, key: String::from_str("dead") }
    }

    /// The store command that reads a range of the collection, oldest first.
    pub fn range_command(&self) -> (r: &'static str)
        ensures
            r@ == match self.kind {
                CollectionKind::Sequence => "LRANGE"@,
                CollectionKind::ScoredSet => "ZRANGE"@,
            },
    {
        match self.kind {
            CollectionKind::Sequence => "LRANGE",
            CollectionKind::ScoredSet => "ZRANGE",
        }
    }

    /// The store command that gives the collection's size.
    pub fn size_command(&self) -> (r: &'static str)
        ensures
            r@ == match self.kind {
                CollectionKind::Sequence => "LLEN"@,
                CollectionKind::ScoredSet => "ZCARD"@,
            },
    {
        match self.kind {
            CollectionKind::Sequence => "LLEN",
            CollectionKind::ScoredSet => "ZCARD",
        }
    }
}

/// The inclusive positions that the range commands take to read at most
/// `count` elements from position `start`; `None` where there is nothing to
/// read. A stop past the largest position the store takes is capped there.
pub fn range_bounds(start: u64, count: u64) -> (r: Option<(i64, i64)>)
    ensures
        r == (if count == 0 || start > i64::MAX {
            None
        } else if start + count - 1 > i64::MAX {
            Some((start as i64, i64::MAX))
        } else {
            Some((start as i64, (start + count - 1) as i64))
        }),
{
    if count == 0 || start > i64::MAX as u64 {
        None
    } else if count - 1 > i64::MAX as u64 - start {
        Some((start as i64, i64::MAX))
    } else {
        Some((start as i64, (start + (count - 1)) as i64))
    }
}

/// Decodes the elements of a range read as jobs, in order. One element that
/// is not a job fails the whole read, naming its position.
pub fn decode_jobs(raws: &Vec<String>) -> (r: Result<Vec<Job>, AssemblyError>)
    ensures
        r is Ok <==> forall|i: int|
            0 <= i < raws@.len() ==> (#[trigger] job_text_fault(raws@[i]@)) is None,
        r is Ok ==> {
            let jobs = r->Ok_0;
            &&& jobs@.len() == raws@.len()
            &&& forall|i: int|
                0 <= i < raws@.len() ==> job_text_matches(#[trigger] jobs@[i], raws@[i]@)
        },
        r is Err ==> match r->Err_0 {
            AssemblyError::Job { position, cause } => {
                &&& position < raws@.len()
                &&& job_text_fault(raws@[position as int]@) == Some(cause.fault())
                &&& forall|j: int|
                    0 <= j < position ==> (#[trigger] job_text_fault(raws@[j]@)) is None
            },
            _ => false,
        },
{
    let mut jobs: Vec<Job> = Vec::new();
    let mut i: usize = 0;
    while i < raws.len()
        invariant
            i <= raws@.len(),
            jobs@.len() == i,
            forall|j: int| 0 <= j < i ==> (#[trigger] job_text_fault(raws@[j]@)) is None,
            forall|j: int| 0 <= j < i ==> job_text_matches(#[trigger] jobs@[j], raws@[j]@),
        decreases raws@.len() - i,
    {
        match Job::decode(raws[i].as_str()) {
            Ok(job) => {
                jobs.push(job);
            },
            Err(cause) => {
                return Err(AssemblyError::Job { position: i, cause });
            },
        }
        i = i + 1;
    }
    Ok(jobs)
}

} // verus!
