use vstd::prelude::*;
use serde_json::Value;

verus! {

/// One level of a parsed JSON document. Values nested inside an array or an
/// object are kept as their compact JSON text and parsed again on demand.
#[derive(Debug, PartialEq, Eq)]
pub enum JsonNode {
    Null,
    Bool(bool),
    /// A number, as its decimal text (`2`, `-7`, `1.5`, `1700000000.0`).
    Number(String),
    Str(String),
    /// The items of an array, each as JSON text.
    Array(Vec<String>),
    /// The members of an object, each value as JSON text.
    Object(Vec<(String, String)>),
}

/// What serde_json reads from a JSON text, one level deep; `None` where the
/// text is not a JSON document.
pub uninterp spec fn json_node(text: Seq<char>) -> Option<JsonNode>;

/// Relies on `serde_json::from_str` into a `serde_json::Value` to parse the
/// text, and on the `Display` of `Value` and `Number` to write nested values
/// and numbers back as JSON text. The error is serde_json's message.
#[verifier::external_body]
pub(crate) fn parse_node(text: &str) -> (r: Result<JsonNode, String>)
    ensures
        r is Ok <==> json_node(text@) is Some,
        r is Ok ==> json_node(text@) == Some(r->Ok_0),
{
    match serde_json::from_str::<Value>(text) {
        Err(e) => Err(e.to_string()),
        Ok(Value::Null) => Ok(JsonNode::Null),
        Ok(Value::Bool(b)) => Ok(JsonNode::Bool(b)),
        Ok(Value::Number(n)) => Ok(JsonNode::Number(n.to_string())),
        Ok(Value::String(s)) => Ok(JsonNode::Str(s)),
        Ok(Value::Array(a)) => Ok(JsonNode::Array(a.iter().map(|v| v.to_string()).collect())),
        Ok(Value::Object(o)) => Ok(
            JsonNode::Object(o.into_iter().map(|(k, v)| (k, v.to_string())).collect()),
        ),
    }
}

pub open spec fn is_digit(c: char) -> bool {
    '0' <= c && c <= '9'
}

/// A non-empty run of decimal digits.
pub open spec fn is_digits(s: Seq<char>) -> bool {
    s.len() > 0 && forall|i: int| 0 <= i < s.len() ==> is_digit(#[trigger] s[i])
}

/// The value of a run of decimal digits, most significant first.
pub open spec fn digits_value(s: Seq<char>) -> int
    decreases s.len(),
{
    if s.len() == 0 {
        0
    } else {
        digits_value(s.drop_last()) * 10 + (s.last() as int - '0' as int)
    }
}

/// The integer that a JSON number text denotes, when it is written as one:
/// digits, with a leading minus sign for a negative value.
pub open spec fn integer_value(s: Seq<char>) -> Option<int> {
    if is_digits(s) {
        Some(digits_value(s))
    } else if s.len() > 1 && s[0] == '-' && is_digits(s.drop_first()) {
        Some(-digits_value(s.drop_first()))
    } else {
        None
    }
}

proof fn lemma_digits_value_nonneg(s: Seq<char>)
    requires
        forall|i: int| 0 <= i < s.len() ==> is_digit(#[trigger] s[i]),
    ensures
        digits_value(s) >= 0,
    decreases s.len(),
{
    if s.len() > 0 {
        lemma_digits_value_nonneg(s.drop_last());
    }
}

proof fn lemma_digits_prefix_le(s: Seq<char>, k: int)
    requires
        forall|i: int| 0 <= i < s.len() ==> is_digit(#[trigger] s[i]),
        0 <= k <= s.len(),
    ensures
        digits_value(s.subrange(0, k)) <= digits_value(s),
    decreases s.len() - k,
{
    if k < s.len() {
        lemma_digits_prefix_le(s.drop_last(), k);
        assert(s.drop_last().subrange(0, k) =~= s.subrange(0, k));
        lemma_digits_value_nonneg(s.drop_last());
    } else {
        assert(s.subrange(0, k) =~= s);
    }
}

/// Reads an unsigned integer written as decimal digits, when its value is at
/// most `max`.
pub fn read_unsigned(text: &str, max: u64) -> (r: Option<u64>)
    ensures
        r is Some ==> r->0 as int == digits_value(text@),
        r == (if is_digits(text@) && digits_value(text@) <= max as int {
            Some(digits_value(text@) as u64)
        } else {
            None
        }),
{
    let n = text.unicode_len();
    if n == 0 {
        return None;
    }
    let mut acc: u64 = 0;
    let mut i: usize = 0;
    while i < n
        invariant
            n == text@.len(),
            i <= n,
            acc as int == digits_value(text@.subrange(0, i as int)),
            acc <= max,
            forall|j: int| 0 <= j < i ==> is_digit(#[trigger] text@[j]),
        decreases n - i,
    {
        let c = text.get_char(i);
        if !('0' <= c && c <= '9') {
            return None;
        }
        let d = (c as u32 - '0' as u32) as u128;
        let next: u128 = acc as u128 * 10 + d;
        proof {
            let p = text@.subrange(0, i as int + 1);
            assert(p.drop_last() =~= text@.subrange(0, i as int));
            assert(p.last() == c);
        }
        if next > max as u128 {
            proof {
                if is_digits(text@) {
                    lemma_digits_prefix_le(text@, i as int + 1);
                }
            }
            return None;
        }
        acc = next as u64;
        i = i + 1;
    }
    assert(text@.subrange(0, n as int) =~= text@);
    Some(acc)
}

/// Reads an integer written as decimal digits with an optional leading minus
/// sign, when it fits in an `i64`.
pub fn read_signed(text: &str) -> (r: Option<i64>)
    ensures
        r == (match integer_value(text@) {
            Some(v) => if i64::MIN <= v <= i64::MAX {
                Some(v as i64)
            } else {
                None
            },
            None => None,
        }),
{
    let n = text.unicode_len();
    if n > 1 && text.get_char(0) == '-' {
        let rest = text.substring_char(1, n);
        assert(rest@ =~= text@.drop_first());
        assert(!is_digits(text@));
        proof {
            if is_digits(rest@) {
                lemma_digits_value_nonneg(rest@);
            }
        }
        match read_unsigned(rest, 9223372036854775808u64) {
            Some(v) => Some((0i128 - v as i128) as i64),
            None => None,
        }
    } else {
        proof {
            if is_digits(text@) {
                lemma_digits_value_nonneg(text@);
            }
        }
        match read_unsigned(text, 9223372036854775807u64) {
            Some(v) => Some(v as i64),
            None => None,
        }
    }
}

} // verus!
