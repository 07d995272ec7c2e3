//! Framing of statement lists into request bodies, and decoding of responses.
use vstd::prelude::*;
use crate::error::ClientError;
use crate::statement::{Statement, encoded_statement};

verus! {

#[verifier::external_type_specification]
#[verifier::external_body]
pub struct ExValue(serde_json::Value);

/// The wire forms of `stmts`, in order, separated by commas, with no trailing separator.
pub open spec fn joined_statements(stmts: Seq<Statement>) -> Seq<char>
    decreases stmts.len(),
{
    if stmts.len() == 0 {
        Seq::empty()
    } else if stmts.len() == 1 {
        encoded_statement(stmts[0]@)
    } else {
        joined_statements(stmts.drop_last()) + ","@ + encoded_statement(stmts.last()@)
    }
}

/// The request body for `stmts`: `{"statements": [<stmt>,<stmt>,...]}`.
pub open spec fn request_body(stmts: Seq<Statement>) -> Seq<char> {
    "{\"statements\": ["@ + joined_statements(stmts) + "]}"@
}

/// Frames `stmts` into a request body, and returns it with the number of statements.
pub fn statements_to_string(stmts: &Vec<Statement>) -> (r: (String, usize))
    ensures
        r.0@ == request_body(stmts@),
        r.1 == stmts.len(),
{
    let mut joined = String::new();
    let mut i: usize = 0;
    while i < stmts.len()
        invariant
            i <= stmts.len(),
            joined@ == joined_statements(stmts@.subrange(0, i as int)),
        decreases stmts.len() - i,
    {
        let part = stmts[i].encode();
        if i > 0 {
            joined.append(",");
        }
        joined.append(part.as_str());
        proof {
            let next = stmts@.subrange(0, i + 1);
            assert(next.drop_last() =~= stmts@.subrange(0, i as int));
            assert(next.last() == stmts@[i as int]);
        }
        i = i + 1;
    }
    assert(stmts@.subrange(0, stmts.len() as int) =~= stmts@);
    let mut body = String::from_str("{\"statements\": [");
    body.append(joined.as_str());
    body.append("]}");
    (body, i)
}

/// The items of `v`, in order, where it is a JSON array; `None` for any other value.
pub uninterp spec fn json_items(v: serde_json::Value) -> Option<Seq<serde_json::Value>>;

/// Relies on serde_json's `Value` enum: hands out the elements of an array value,
/// in order, and `None` for any other value.
#[verifier::external_body]
fn json_array(v: serde_json::Value) -> (r: Option<Vec<serde_json::Value>>)
    ensures
        items_view(r) == json_items(v),
{
    match v {
        serde_json::Value::Array(items) => Some(items),
        _ => None,
    }
}

/// The parser can succeed on `item` at position `index`.
pub open spec fn parses_ok<Q, F: Fn(&serde_json::Value, usize) -> Result<Q, String>>(
    parse: F,
    item: serde_json::Value,
    index: usize,
) -> bool {
    exists|q: Q| parse.ensures((&item, index), Ok(q))
}

/// The items before `index` were parsed, and the parser failed with `message` on the item at `index`.
pub open spec fn parse_failed_at<Q, F: Fn(&serde_json::Value, usize) -> Result<Q, String>>(
    parse: F,
    items: Seq<serde_json::Value>,
    index: usize,
    message: String,
) -> bool {
    &&& index < items.len()
    &&& parse.ensures((&items[index as int], index), Err(message))
    &&& forall|j: int| 0 <= j < index ==> #[trigger] parses_ok(parse, items[j], j as usize)
}

/// `results` holds, at each position, what the parser gave for the item there.
pub open spec fn parsed_all<Q, F: Fn(&serde_json::Value, usize) -> Result<Q, String>>(
    parse: F,
    items: Seq<serde_json::Value>,
    results: Seq<Q>,
) -> bool {
    &&& results.len() == items.len()
    &&& forall|i: int| 0 <= i < items.len() ==> #[trigger] parse.ensures((&items[i], i as usize), Ok(results[i]))
}

/// The outcomes of decoding a response with the array items `items` (`None` where it
/// is not an array) for a request of `stmts_count` statements, parsing with `parse`.
pub open spec fn decoding<Q, F: Fn(&serde_json::Value, usize) -> Result<Q, String>>(
    parse: F,
    items: Option<Seq<serde_json::Value>>,
    stmts_count: nat,
    r: Result<Seq<Q>, ClientError>,
) -> bool {
    match items {
        None => r == Err::<Seq<Q>, ClientError>(ClientError::ResponseShape),
        Some(a) => if a.len() != stmts_count {
            match r {
                Err(ClientError::ResponseCountMismatch { expected, actual }) => expected == stmts_count
                    && actual == a.len(),
                _ => false,
            }
        } else {
            match r {
                Ok(results) => parsed_all(parse, a, results),
                Err(ClientError::StatementParse { index, message }) => parse_failed_at(parse, a, index, message),
                Err(_) => false,
            }
        },
    }
}

/// The view of a response's array items.
pub open spec fn items_view(items: Option<Vec<serde_json::Value>>) -> Option<Seq<serde_json::Value>> {
    match items {
        Some(a) => Some(a@),
        None => None,
    }
}

/// The view of a decoding's outcome.
pub open spec fn outcome_view<Q>(r: Result<Vec<Q>, ClientError>) -> Result<Seq<Q>, ClientError> {
    match r {
        Ok(results) => Ok(results@),
        Err(e) => Err(e),
    }
}

/// Decodes a response, given as its array items (`None` where it is not an array),
/// for a request of `stmts_count` statements. Each item is parsed at its position
/// by `parse`; the first failure ends the decoding.
pub fn decode_items<Q, F: Fn(&serde_json::Value, usize) -> Result<Q, String>>(
    items: Option<Vec<serde_json::Value>>,
    stmts_count: usize,
    parse: &F,
) -> (r: Result<Vec<Q>, ClientError>)
    requires
        forall|v: &serde_json::Value, i: usize| parse.requires((v, i)),
    ensures
        decoding(*parse, items_view(items), stmts_count as nat, outcome_view(r)),
{
    match items {
        None => Err(ClientError::ResponseShape),
        Some(a) => {
            if a.len() != stmts_count {
                Err(ClientError::ResponseCountMismatch { expected: stmts_count, actual: a.len() })
            } else {
                let mut results: Vec<Q> = Vec::new();
                let mut i: usize = 0;
                while i < a.len()
                    invariant
                        i <= a.len(),
                        items_view(items) == Some(a@),
                        a.len() == stmts_count,
                        forall|v: &serde_json::Value, k: usize| parse.requires((v, k)),
                        parsed_all(*parse, a@.subrange(0, i as int), results@),
                    decreases a.len() - i,
                {
                    match parse(&a[i], i) {
                        Ok(q) => {
                            results.push(q);
                        },
                        Err(message) => {
                            assert forall|j: int| 0 <= j < i implies #[trigger] parses_ok(*parse, a@[j], j as usize) by {
                                assert(parse.ensures((&a@.subrange(0, i as int)[j], j as usize), Ok(results@[j])));
                            }
                            return Err(ClientError::StatementParse { index: i, message });
                        },
                    }
                    proof {
                        assert forall|j: int| 0 <= j < i + 1 implies #[trigger] parse.ensures((&a@.subrange(0, i + 1)[j], j as usize), Ok(results@[j])) by {
                            if j < i {
                                assert(a@.subrange(0, i + 1)[j] == a@.subrange(0, i as int)[j]);
                            }
                        }
                    }
                    i = i + 1;
                }
                assert(a@.subrange(0, i as int) =~= a@);
                Ok(results)
            }
        },
    }
}

/// Decodes a response value for a request of `stmts_count` statements: it must be an
/// array with one item per statement, each of which `parse` turns into a result.
pub fn json_to_query_result<Q, F: Fn(&serde_json::Value, usize) -> Result<Q, String>>(
    response_json: serde_json::Value,
    stmts_count: usize,
    parse: &F,
) -> (r: Result<Vec<Q>, ClientError>)
    requires
        forall|v: &serde_json::Value, i: usize| parse.requires((v, i)),
    ensures
        decoding(*parse, json_items(response_json), stmts_count as nat, outcome_view(r)),
        r matches Ok(results) ==> results.len() == stmts_count,
{
    decode_items(json_array(response_json), stmts_count, parse)
}

} // verus!
