//! Properties that hold across the library's operations.
use vstd::prelude::*;
use crate::backend::{
    BackendKind, EnabledBackends, Selection, is_enabled, is_network_url, kind_name, named_kind,
    selection,
};
use crate::client::{framed, unframed};
use crate::codec::{decoding, json_items, parse_failed_at, parsed_all, request_body};
use crate::error::ClientError;
use crate::statement::Statement;

verus! {

/// Decoding a response that is an array with one item per encoded statement never
/// fails on its shape or its length: it gives one result per statement, in the
/// statements' order, each parsed from the item at the statement's position; or the
/// parser's failure on the first item it rejects.
pub proof fn lemma_round_trip<Q, F: Fn(&serde_json::Value, usize) -> Result<Q, String>>(
    parse: F,
    stmts: Seq<Statement>,
    response: serde_json::Value,
    r: Result<Seq<Q>, ClientError>,
)
    requires
        json_items(response) matches Some(items) && items.len() == stmts.len(),
        decoding(parse, json_items(response), stmts.len(), r),
    ensures
        match r {
            Ok(results) => results.len() == stmts.len() && parsed_all(parse, json_items(response)->Some_0, results),
            Err(ClientError::StatementParse { index, message }) => parse_failed_at(
                parse,
                json_items(response)->Some_0,
                index,
                message,
            ),
            Err(_) => false,
        },
{
}

/// An empty batch is framed as an empty array, and an empty response array for it
/// decodes to no results.
pub proof fn lemma_empty_batch<Q, F: Fn(&serde_json::Value, usize) -> Result<Q, String>>(
    parse: F,
    r: Result<Seq<Q>, ClientError>,
)
    requires
        decoding(parse, Some(Seq::empty()), 0, r),
    ensures
        request_body(Seq::empty()) == "{\"statements\": []}"@,
        r == Ok::<Seq<Q>, ClientError>(Seq::empty()),
{
    reveal_strlit("{\"statements\": []}");
    reveal_strlit("{\"statements\": [");
    reveal_strlit("]}");
    assert(request_body(Seq::empty()) =~= "{\"statements\": []}"@);
    if let Ok(results) = r {
        assert(results =~= Seq::empty());
    }
}

/// A response array whose length differs from the number of statements is reported
/// as a count mismatch; a response that is not an array, as a shape error.
pub proof fn lemma_malformed_response<Q, F: Fn(&serde_json::Value, usize) -> Result<Q, String>>(
    parse: F,
    items: Option<Seq<serde_json::Value>>,
    stmts_count: nat,
    r: Result<Seq<Q>, ClientError>,
)
    requires
        decoding(parse, items, stmts_count, r),
    ensures
        items is None ==> r == Err::<Seq<Q>, ClientError>(ClientError::ResponseShape),
        items matches Some(a) ==> (a.len() != stmts_count <==> r is Err && r->Err_0 is ResponseCountMismatch),
{
}

/// A transaction over two statements sends exactly `BEGIN`, the two, `END`, and hands
/// back exactly the two results in the middle.
pub proof fn lemma_transaction_of_two<Q>(s1: Seq<char>, s2: Seq<char>, results: Seq<Q>)
    requires
        results.len() == 4,
    ensures
        framed(seq![s1, s2]) == seq!["BEGIN"@, s1, s2, "END"@],
        unframed(results) == seq![results[1], results[2]],
{
    assert(framed(seq![s1, s2]) =~= seq!["BEGIN"@, s1, s2, "END"@]);
    assert(unframed(results) =~= seq![results[1], results[2]]);
}

/// With no kind asked for, a locator that is not a network location selects the local
/// kind when it is built in; a network location selects the first built-in network kind
/// in the order HTTP, workers, Spin.
pub proof fn lemma_inferred_selection(url: Seq<char>, enabled: EnabledBackends)
    ensures
        !is_network_url(url) && enabled.local ==> selection(url, None, enabled) == Selection::Chosen(
            BackendKind::Local,
        ),
        is_network_url(url) && enabled.reqwest ==> selection(url, None, enabled) == Selection::Chosen(
            BackendKind::Reqwest,
        ),
        is_network_url(url) && !enabled.reqwest && enabled.workers ==> selection(url, None, enabled)
            == Selection::NeedsContext(BackendKind::Workers),
        is_network_url(url) && !enabled.reqwest && !enabled.workers && enabled.spin ==> selection(
            url,
            None,
            enabled,
        ) == Selection::NeedsContext(BackendKind::Spin),
{
    lemma_names_round_trip();
}

/// Asking for a kind that is unknown, or not built in, fails as unsupported, naming
/// the kind asked for.
pub proof fn lemma_unsupported_kind(url: Seq<char>, name: Seq<char>, enabled: EnabledBackends)
    requires
        named_kind(name) matches Some(k) ==> !is_enabled(k, enabled),
    ensures
        selection(url, Some(name), enabled) == Selection::Unsupported(name),
{
}

/// Each kind's name requests that kind.
pub proof fn lemma_names_round_trip()
    ensures
        forall|k: BackendKind| #[trigger] named_kind(kind_name(k)) == Some(k),
{
    reveal_strlit("local");
    reveal_strlit("reqwest");
    reveal_strlit("workers");
    reveal_strlit("spin");
    assert("local"@[0] != "reqwest"@[0]);
    assert("local"@[0] != "workers"@[0]);
    assert("local"@ != "spin"@);
    assert("reqwest"@ != "workers"@);
    assert("reqwest"@ != "spin"@);
    assert("workers"@ != "spin"@);
}

} // verus!
