use vstd::prelude::*;
use crate::json::{JsonNode, json_node, parse_node, is_digits, digits_value, integer_value,
    read_unsigned, read_signed};

verus! {

/// Why a record could not be decoded.
#[derive(Debug, PartialEq, Eq)]
pub enum DecodeError {
    /// The text is not a JSON document; the parser's message.
    Syntax(String),
    /// The document is valid JSON but not an object.
    NotAnObject,
    /// The document holds a field that the record does not have.
    UnknownField(String),
    /// The document lacks a field that the record needs.
    MissingField(String),
    /// The field holds a value of the wrong type.
    TypeMismatch(String),
    /// The field holds a nested document that could not be decoded.
    NestedDecodeFailure { field: String, cause: Box<DecodeError> },
}

/// Why a record of a larger read could not be decoded, with the record named.
#[derive(Debug, PartialEq, Eq)]
pub enum AssemblyError {
    /// The worker entry `id` of a worker table could not be decoded.
    Worker { id: String, cause: DecodeError },
    /// The element at `position` of a collection read is not a job.
    Job { position: usize, cause: DecodeError },
}

/// A `DecodeError` with the parser's message left out and names as sequences.
pub enum DecodeFault {
    Syntax,
    NotAnObject,
    UnknownField(Seq<char>),
    MissingField(Seq<char>),
    TypeMismatch(Seq<char>),
    Nested(Seq<char>, Box<DecodeFault>),
}

impl DecodeError {
    pub open spec fn fault(&self) -> DecodeFault
        decreases self,
    {
        match self {
            DecodeError::Syntax(_) => DecodeFault::Syntax,
            DecodeError::NotAnObject => DecodeFault::NotAnObject,
            DecodeError::UnknownField(f) => DecodeFault::UnknownField(f@),
            DecodeError::MissingField(f) => DecodeFault::MissingField(f@),
            DecodeError::TypeMismatch(f) => DecodeFault::TypeMismatch(f@),
            DecodeError::NestedDecodeFailure { field, cause } => DecodeFault::Nested(
                field@,
                Box::new(cause.fault()),
            ),
        }
    }
}

/// The first fault of two checks made in turn.
pub open spec fn either(a: Option<DecodeFault>, b: Option<DecodeFault>) -> Option<DecodeFault> {
    if a is Some {
        a
    } else {
        b
    }
}

/// The value of the first entry named `name`.
pub open spec fn lookup<V>(fields: Seq<(String, V)>, name: Seq<char>) -> Option<V>
    decreases fields.len(),
{
    if fields.len() == 0 {
        None
    } else if fields[0].0@ == name {
        Some(fields[0].1)
    } else {
        lookup(fields.drop_first(), name)
    }
}

/// The records whose field sets are fixed.
pub enum Schema {
    Job,
    ProcessInfo,
    Worker,
    Heartbeat,
}

pub open spec fn job_key(k: Seq<char>) -> bool {
    k == "args"@ || k == "class"@ || k == "created_at"@ || k == "jid"@ || k == "queue"@ || k
        == "retry"@ || retry_info_key(k)
}

pub open spec fn retry_info_key(k: Seq<char>) -> bool {
    k == "enqueued_at"@ || k == "error_class"@ || k == "error_message"@ || k == "failed_at"@
        || k == "retried_at"@ || k == "retry_count"@
}

pub open spec fn process_info_key(k: Seq<char>) -> bool {
    k == "hostname"@ || k == "started_at"@ || k == "pid"@ || k == "tag"@ || k == "concurrency"@
        || k == "queues"@ || k == "labels"@ || k == "identity"@
}

pub open spec fn worker_key(k: Seq<char>) -> bool {
    k == "run_at"@ || k == "queue"@ || k == "payload"@
}

pub open spec fn heartbeat_key(k: Seq<char>) -> bool {
    k == "busy"@ || k == "info"@ || k == "quiet"@ || k == "beat"@
}

pub open spec fn known(schema: Schema, k: Seq<char>) -> bool {
    match schema {
        Schema::Job => job_key(k),
        Schema::ProcessInfo => process_info_key(k),
        Schema::Worker => worker_key(k),
        Schema::Heartbeat => heartbeat_key(k),
    }
}

/// The name of the first entry that the schema does not know.
pub open spec fn first_unknown<V>(fields: Seq<(String, V)>, schema: Schema) -> Option<Seq<char>>
    decreases fields.len(),
{
    if fields.len() == 0 {
        None
    } else if !known(schema, fields[0].0@) {
        Some(fields[0].0@)
    } else {
        first_unknown(fields.drop_first(), schema)
    }
}

/// A document with an entry that the schema does not know has a first one.
pub proof fn lemma_unknown_found<V>(fields: Seq<(String, V)>, schema: Schema, i: int)
    requires
        0 <= i < fields.len(),
        !known(schema, fields[i].0@),
    ensures
        first_unknown(fields, schema) is Some,
    decreases fields.len(),
{
    if i > 0 && known(schema, fields[0].0@) {
        lemma_unknown_found(fields.drop_first(), schema, i - 1);
    }
}

/// What a field must hold.
pub enum Kind {
    Text,
    Stamp,
    Flag,
    Unsigned(u64),
    Signed,
    RetryPolicy,
    Items,
    TextItems,
}

/// Whether a node is a JSON string.
pub open spec fn is_text_node(n: Option<JsonNode>) -> bool {
    match n {
        Some(JsonNode::Str(_)) => true,
        _ => false,
    }
}

pub open spec fn fits(n: JsonNode, kind: Kind) -> bool {
    match kind {
        Kind::Text => n is Str,
        Kind::Stamp => n is Number,
        Kind::Flag => n is Bool,
        Kind::Unsigned(max) => match n {
            JsonNode::Number(t) => is_digits(t@) && digits_value(t@) <= max,
            _ => false,
        },
        Kind::Signed => match n {
            JsonNode::Number(t) => match integer_value(t@) {
                Some(v) => i64::MIN <= v <= i64::MAX,
                None => false,
            },
            _ => false,
        },
        Kind::RetryPolicy => match n {
            JsonNode::Bool(_) => true,
            JsonNode::Number(t) => is_digits(t@) && digits_value(t@) <= u64::MAX,
            _ => false,
        },
        Kind::Items => n is Array,
        Kind::TextItems => match n {
            JsonNode::Array(items) => forall|i: int|
                0 <= i < items.len() ==> is_text_node(json_node(#[trigger] items@[i]@)),
            _ => false,
        },
    }
}

/// The fault, if any, of the field `name` of a document.
pub open spec fn check(fields: Seq<(String, JsonNode)>, name: Seq<char>, kind: Kind) -> Option<
    DecodeFault,
> {
    match lookup(fields, name) {
        None => Some(DecodeFault::MissingField(name)),
        Some(n) => if fits(n, kind) {
            None
        } else {
            Some(DecodeFault::TypeMismatch(name))
        },
    }
}

fn same_name(k: &String, name: &str) -> (r: bool)
    ensures
        r == (k@ == name@),
{
    let n = String::from_str(name);
    *k == n
}

fn is_known(schema: &Schema, k: &String) -> (r: bool)
    ensures
        r == known(*schema, k@),
{
    match schema {
        Schema::Job => {
            same_name(k, "args") || same_name(k, "class") || same_name(k, "created_at")
                || same_name(k, "jid") || same_name(k, "queue") || same_name(k, "retry")
                || same_name(k, "enqueued_at") || same_name(k, "error_class") || same_name(
                k,
                "error_message",
            ) || same_name(k, "failed_at") || same_name(k, "retried_at") || same_name(
                k,
                "retry_count",
            )
        },
        Schema::ProcessInfo => {
            same_name(k, "hostname") || same_name(k, "started_at") || same_name(k, "pid")
                || same_name(k, "tag") || same_name(k, "concurrency") || same_name(k, "queues")
                || same_name(k, "labels") || same_name(k, "identity")
        },
        Schema::Worker => {
            same_name(k, "run_at") || same_name(k, "queue") || same_name(k, "payload")
        },
        Schema::Heartbeat => {
            same_name(k, "busy") || same_name(k, "info") || same_name(k, "quiet") || same_name(
                k,
                "beat",
            )
        },
    }
}

/// The name of the first entry that the schema does not know.
pub fn find_unknown<V>(fields: &Vec<(String, V)>, schema: Schema) -> (r: Option<String>)
    ensures
        match first_unknown(fields@, schema) {
            Some(k) => r is Some && r->0@ == k,
            None => r is None,
        },
{
    let mut i: usize = 0;
    assert(fields@.subrange(0, fields@.len() as int) =~= fields@);
    while i < fields.len()
        invariant
            i <= fields@.len(),
            first_unknown(fields@, schema) == first_unknown(
                fields@.subrange(i as int, fields@.len() as int),
                schema,
            ),
        decreases fields@.len() - i,
    {
        let ghost rest = fields@.subrange(i as int, fields@.len() as int);
        assert(rest.drop_first() =~= fields@.subrange(i as int + 1, fields@.len() as int));
        if !is_known(&schema, &fields[i].0) {
            return Some(fields[i].0.clone());
        }
        i = i + 1;
    }
    None
}

/// The index of the first entry named `name`.
pub fn find<V>(fields: &Vec<(String, V)>, name: &str) -> (r: Option<usize>)
    ensures
        match lookup(fields@, name@) {
            Some(v) => r is Some && r->0 < fields@.len() && fields@[r->0 as int].1 == v,
            None => r is None,
        },
{
    let mut i: usize = 0;
    assert(fields@.subrange(0, fields@.len() as int) =~= fields@);
    while i < fields.len()
        invariant
            i <= fields@.len(),
            lookup(fields@, name@) == lookup(fields@.subrange(i as int, fields@.len() as int), name@),
        decreases fields@.len() - i,
    {
        let ghost rest = fields@.subrange(i as int, fields@.len() as int);
        assert(rest.drop_first() =~= fields@.subrange(i as int + 1, fields@.len() as int));
        if same_name(&fields[i].0, name) {
            return Some(i);
        }
        i = i + 1;
    }
    None
}

fn missing(name: &str) -> (e: DecodeError)
    ensures
        e.fault() == DecodeFault::MissingField(name@),
{
    DecodeError::MissingField(String::from_str(name))
}

fn mismatch(name: &str) -> (e: DecodeError)
    ensures
        e.fault() == DecodeFault::TypeMismatch(name@),
{
    DecodeError::TypeMismatch(String::from_str(name))
}

/// Reads the string field `name`.
pub fn text_field(fields: &Vec<(String, JsonNode)>, name: &str) -> (r: Result<String, DecodeError>)
    ensures
        match check(fields@, name@, Kind::Text) {
            Some(f) => r is Err && r->Err_0.fault() == f,
            None => r is Ok && lookup(fields@, name@) == Some(JsonNode::Str(r->Ok_0)),
        },
{
    match find(fields, name) {
        None => Err(missing(name)),
        Some(i) => match &fields[i].1 {
            JsonNode::Str(s) => Ok(s.clone()),
            _ => Err(mismatch(name)),
        },
    }
}

/// Reads the number field `name`, as its decimal text.
pub fn number_field(fields: &Vec<(String, JsonNode)>, name: &str) -> (r: Result<String, DecodeError>)
    ensures
        match check(fields@, name@, Kind::Stamp) {
            Some(f) => r is Err && r->Err_0.fault() == f,
            None => r is Ok && lookup(fields@, name@) == Some(JsonNode::Number(r->Ok_0)),
        },
{
    match find(fields, name) {
        None => Err(missing(name)),
        Some(i) => match &fields[i].1 {
            JsonNode::Number(s) => Ok(s.clone()),
            _ => Err(mismatch(name)),
        },
    }
}

/// Reads the boolean field `name`.
pub fn flag_field(fields: &Vec<(String, JsonNode)>, name: &str) -> (r: Result<bool, DecodeError>)
    ensures
        match check(fields@, name@, Kind::Flag) {
            Some(f) => r is Err && r->Err_0.fault() == f,
            None => r is Ok && lookup(fields@, name@) == Some(JsonNode::Bool(r->Ok_0)),
        },
{
    match find(fields, name) {
        None => Err(missing(name)),
        Some(i) => match &fields[i].1 {
            JsonNode::Bool(b) => Ok(*b),
            _ => Err(mismatch(name)),
        },
    }
}

/// Reads the field `name` as an unsigned integer of at most `max`.
pub fn unsigned_field(fields: &Vec<(String, JsonNode)>, name: &str, max: u64) -> (r: Result<
    u64,
    DecodeError,
>)
    ensures
        match check(fields@, name@, Kind::Unsigned(max)) {
            Some(f) => r is Err && r->Err_0.fault() == f,
            None => r is Ok && r->Ok_0 <= max && match lookup(fields@, name@) {
                Some(JsonNode::Number(t)) => digits_value(t@) == r->Ok_0 as int,
                _ => false,
            },
        },
{
    match find(fields, name) {
        None => Err(missing(name)),
        Some(i) => match &fields[i].1 {
            JsonNode::Number(t) => match read_unsigned(t.as_str(), max) {
                Some(v) => Ok(v),
                None => Err(mismatch(name)),
            },
            _ => Err(mismatch(name)),
        },
    }
}

/// Reads the field `name` as a signed 64-bit integer.
pub fn signed_field(fields: &Vec<(String, JsonNode)>, name: &str) -> (r: Result<i64, DecodeError>)
    ensures
        match check(fields@, name@, Kind::Signed) {
            Some(f) => r is Err && r->Err_0.fault() == f,
            None => r is Ok && match lookup(fields@, name@) {
                Some(JsonNode::Number(t)) => integer_value(t@) == Some(r->Ok_0 as int),
                _ => false,
            },
        },
{
    match find(fields, name) {
        None => Err(missing(name)),
        Some(i) => match &fields[i].1 {
            JsonNode::Number(t) => match read_signed(t.as_str()) {
                Some(v) => Ok(v),
                None => Err(mismatch(name)),
            },
            _ => Err(mismatch(name)),
        },
    }
}

/// Copies a list of strings.
pub fn copy_texts(items: &Vec<String>) -> (r: Vec<String>)
    ensures
        r@ == items@,
{
    let mut r: Vec<String> = Vec::new();
    let mut i: usize = 0;
    while i < items.len()
        invariant
            i <= items@.len(),
            r@ == items@.subrange(0, i as int),
        decreases items@.len() - i,
    {
        r.push(items[i].clone());
        i = i + 1;
        assert(r@ =~= items@.subrange(0, i as int));
    }
    assert(items@.subrange(0, items@.len() as int) =~= items@);
    r
}

/// Reads the array field `name`, each item as its JSON text.
pub fn items_field(fields: &Vec<(String, JsonNode)>, name: &str) -> (r: Result<Vec<String>, DecodeError>)
    ensures
        match check(fields@, name@, Kind::Items) {
            Some(f) => r is Err && r->Err_0.fault() == f,
            None => r is Ok && match lookup(fields@, name@) {
                Some(JsonNode::Array(items)) => r->Ok_0@ == items@,
                _ => false,
            },
        },
{
    match find(fields, name) {
        None => Err(missing(name)),
        Some(i) => match &fields[i].1 {
            JsonNode::Array(items) => Ok(copy_texts(items)),
            _ => Err(mismatch(name)),
        },
    }
}

/// Whether `texts` are the strings that the JSON texts `items` hold, one for one.
pub open spec fn texts_of(items: Seq<String>, texts: Seq<String>) -> bool {
    texts.len() == items.len() && forall|i: int|
        0 <= i < items.len() ==> json_node(#[trigger] items[i]@) == Some(JsonNode::Str(texts[i]))
}

/// Reads the field `name` as an array of strings.
pub fn text_items_field(fields: &Vec<(String, JsonNode)>, name: &str) -> (r: Result<
    Vec<String>,
    DecodeError,
>)
    ensures
        match check(fields@, name@, Kind::TextItems) {
            Some(f) => r is Err && r->Err_0.fault() == f,
            None => r is Ok && match lookup(fields@, name@) {
                Some(JsonNode::Array(items)) => texts_of(items@, r->Ok_0@),
                _ => false,
            },
        },
{
    match find(fields, name) {
        None => Err(missing(name)),
        Some(k) => match &fields[k].1 {
            JsonNode::Array(items) => {
                let mut r: Vec<String> = Vec::new();
                let mut i: usize = 0;
                while i < items.len()
                    invariant
                        k < fields@.len(),
                        fields@[k as int].1 == JsonNode::Array(*items),
                        lookup(fields@, name@) == Some(fields@[k as int].1),
                        i <= items@.len(),
                        texts_of(items@.subrange(0, i as int), r@),
                        forall|j: int|
                            0 <= j < i ==> is_text_node(json_node(#[trigger] items@[j]@)),
                    decreases items@.len() - i,
                {
                    match parse_node(items[i].as_str()) {
                        Ok(JsonNode::Str(s)) => {
                            r.push(s);
                        },
                        _ => {
                            assert(!is_text_node(json_node(items@[i as int]@)));
                            assert(!fits(fields@[k as int].1, Kind::TextItems));
                            return Err(mismatch(name));
                        },
                    }
                    i = i + 1;
                    assert(texts_of(items@.subrange(0, i as int), r@));
                }
                assert(items@.subrange(0, items@.len() as int) =~= items@);
                Ok(r)
            },
            _ => Err(mismatch(name)),
        },
    }
}

/// The members of the JSON object in `text`, each value read one level deep.
pub open spec fn object_fields(text: Seq<char>) -> Result<Seq<(String, JsonNode)>, DecodeFault> {
    match json_node(text) {
        None => Err(DecodeFault::Syntax),
        Some(JsonNode::Object(members)) => if forall|i: int|
            0 <= i < members.len() ==> (#[trigger] json_node(members@[i].1@)) is Some {
            Ok(
                Seq::new(
                    members@.len(),
                    |i: int| (members@[i].0, json_node(members@[i].1@)->0),
                ),
            )
        } else {
            Err(DecodeFault::Syntax)
        },
        Some(_) => Err(DecodeFault::NotAnObject),
    }
}

/// Parses a JSON object into its members, each value read one level deep.
pub fn read_object(text: &str) -> (r: Result<Vec<(String, JsonNode)>, DecodeError>)
    ensures
        match object_fields(text@) {
            Ok(fields) => r is Ok && r->Ok_0@ == fields,
            Err(f) => r is Err && r->Err_0.fault() == f,
        },
{
    match parse_node(text) {
        Err(message) => Err(DecodeError::Syntax(message)),
        Ok(JsonNode::Object(members)) => {
            let mut fields: Vec<(String, JsonNode)> = Vec::new();
            let mut i: usize = 0;
            while i < members.len()
                invariant
                    json_node(text@) == Some(JsonNode::Object(members)),
                    i <= members@.len(),
                    fields@.len() == i,
                    forall|j: int|
                        0 <= j < i ==> (#[trigger] json_node(members@[j].1@)) is Some,
                    forall|j: int|
                        0 <= j < i ==> #[trigger] fields@[j] == (
                            members@[j].0,
                            json_node(members@[j].1@)->0,
                        ),
                decreases members@.len() - i,
            {
                match parse_node(members[i].1.as_str()) {
                    Ok(node) => {
                        fields.push((members[i].0.clone(), node));
                    },
                    Err(message) => {
                        return Err(DecodeError::Syntax(message));
                    },
                }
                i = i + 1;
            }
            assert(fields@ =~= Seq::new(
                members@.len(),
                |i: int| (members@[i].0, json_node(members@[i].1@)->0),
            ));
            Ok(fields)
        },
        Ok(_) => Err(DecodeError::NotAnObject),
    }
}

/// The first entry named `name` decides the lookup.
pub proof fn lemma_lookup_first<V>(fields: Seq<(String, V)>, i: int, name: Seq<char>)
    requires
        0 <= i < fields.len(),
        fields[i].0@ == name,
        forall|j: int| 0 <= j < i ==> (#[trigger] fields[j]).0@ != name,
    ensures
        lookup(fields, name) == Some(fields[i].1),
    decreases i,
{
    if i > 0 {
        lemma_lookup_first(fields.drop_first(), i - 1, name);
    }
}

/// A name that no entry has is not found.
pub proof fn lemma_lookup_none<V>(fields: Seq<(String, V)>, name: Seq<char>)
    requires
        forall|j: int| 0 <= j < fields.len() ==> (#[trigger] fields[j]).0@ != name,
    ensures
        lookup(fields, name) is None,
    decreases fields.len(),
{
    if fields.len() > 0 {
        lemma_lookup_none(fields.drop_first(), name);
    }
}

/// In a document whose entries carry distinct names in a known order, each
/// name finds its own entry, and a name past the end finds none.
pub proof fn lemma_lookup_distinct<V>(fields: Seq<(String, V)>, names: Seq<Seq<char>>, k: int)
    requires
        fields.len() <= names.len(),
        forall|j: int| 0 <= j < fields.len() ==> (#[trigger] fields[j]).0@ == names[j],
        forall|i: int, j: int| 0 <= i < j < names.len() ==> names[i] != names[j],
        0 <= k < names.len(),
    ensures
        k < fields.len() ==> lookup(fields, names[k]) == Some(fields[k].1),
        k >= fields.len() ==> lookup(fields, names[k]) is None,
{
    if k < fields.len() {
        assert forall|j: int| 0 <= j < k implies (#[trigger] fields[j]).0@ != names[k] by {
            assert(names[j] != names[k]);
        }
        lemma_lookup_first(fields, k, names[k]);
    } else {
        assert forall|j: int| 0 <= j < fields.len() implies (#[trigger] fields[j]).0@ != names[k] by {
            assert(names[j] != names[k]);
        }
        lemma_lookup_none(fields, names[k]);
    }
}

/// A document whose entries the schema all knows has no unknown field.
pub proof fn lemma_all_known<V>(fields: Seq<(String, V)>, schema: Schema)
    requires
        forall|j: int| 0 <= j < fields.len() ==> known(schema, (#[trigger] fields[j]).0@),
    ensures
        first_unknown(fields, schema) is None,
    decreases fields.len(),
{
    if fields.len() > 0 {
        lemma_all_known(fields.drop_first(), schema);
    }
}

} // verus!
