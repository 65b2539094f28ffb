//! Properties of the session that hold across its operations.

use vstd::prelude::*;

use crate::connection::{
    after_discovery, after_select, after_set_endpoint, initial_connection, selection_consistent,
    ConnectionView,
};
use crate::conversation::{accepts, after_reply, after_submit, ConversationView};
use crate::protocol::{ChatResponse, FetchOutcome, TagsResponse};

verus! {

/// After any discovery attempt, whatever its outcome, a non-empty catalog holds
/// the selected model.
pub proof fn discovery_selects_from_catalog(s: ConnectionView, outcome: FetchOutcome<TagsResponse>)
    ensures
        after_discovery(s, outcome).catalog.len() > 0 ==> after_discovery(
            s,
            outcome,
        ).catalog.contains(after_discovery(s, outcome).selected),
        selection_consistent(after_discovery(s, outcome)),
{
    let t = after_discovery(s, outcome);
    if t.catalog.len() > 0 && !(s.selected.len() > 0 && t.catalog.contains(s.selected)) {
        assert(t.catalog[0] == t.selected);
    }
}

/// The selection rule holds from the start, and setting the endpoint or
/// choosing a listed model keeps it.
pub proof fn selection_consistency_kept(s: ConnectionView, url: Seq<char>, name: Seq<char>)
    ensures
        selection_consistent(initial_connection(url)),
        selection_consistent(s) ==> selection_consistent(after_set_endpoint(s, url)),
        (s.catalog.contains(name) || name.len() == 0) ==> selection_consistent(
            after_select(s, name),
        ),
{
}

/// The history is append-only: a submission adds the user's message when
/// accepted and nothing otherwise, the end of an exchange adds exactly one
/// message, and an accepted submission followed by its reply adds exactly two.
pub proof fn history_only_grows(
    s: ConversationView,
    text: Seq<char>,
    model: Seq<char>,
    outcome: FetchOutcome<ChatResponse>,
)
    ensures
        s.history.is_prefix_of(after_submit(s, text, model).history),
        after_submit(s, text, model).history.len() == s.history.len() + if accepts(text, model) {
            1int
        } else {
            0int
        },
        s.history.is_prefix_of(after_reply(s, outcome).history),
        after_reply(s, outcome).history.len() == s.history.len() + 1,
        accepts(text, model) ==> after_reply(after_submit(s, text, model), outcome).history.len()
            == s.history.len() + 2,
        s.history.is_prefix_of(after_reply(after_submit(s, text, model), outcome).history),
{
    let a = after_submit(s, text, model);
    assert(s.history =~= a.history.subrange(0, s.history.len() as int));
    assert(a.history =~= after_reply(a, outcome).history.subrange(0, a.history.len() as int));
    assert(s.history =~= after_reply(s, outcome).history.subrange(0, s.history.len() as int));
    assert(s.history =~= after_reply(a, outcome).history.subrange(0, s.history.len() as int));
}

/// Setting the endpoint to its current value changes nothing, the status
/// included.
pub proof fn same_endpoint_changes_nothing(s: ConnectionView)
    ensures
        after_set_endpoint(s, s.endpoint) == s,
{
}

/// An empty text, or an empty selection, leaves the conversation as it was:
/// history and busy flag.
pub proof fn rejected_submission_changes_nothing(
    s: ConversationView,
    text: Seq<char>,
    model: Seq<char>,
)
    requires
        text.len() == 0 || model.len() == 0,
    ensures
        after_submit(s, text, model) == s,
{
}

} // verus!
