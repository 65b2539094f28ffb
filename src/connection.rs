//! The connection manager: endpoint configuration, model discovery, the model
//! catalog and the selected model.

use vstd::prelude::*;

use crate::protocol::{listed_names, FetchOutcome, TagsResponse};
use crate::text::{decimal, decimal_text, prefixed};

verus! {

/// The endpoint used when the client starts.
pub const DEFAULT_ENDPOINT: &'static str = "http://localhost:11434";

/// State of the connection, derived from the last discovery attempt.
#[derive(Clone, Debug)]
pub enum ConnectionStatus {
    Connecting,
    Connected,
    Error(String),
}

/// The mathematical content of a [`ConnectionStatus`].
pub enum StatusView {
    Connecting,
    Connected,
    Error(Seq<char>),
}

impl View for ConnectionStatus {
    type V = StatusView;

    open spec fn view(&self) -> StatusView {
        match self {
            ConnectionStatus::Connecting => StatusView::Connecting,
            ConnectionStatus::Connected => StatusView::Connected,
            ConnectionStatus::Error(m) => StatusView::Error(m@),
        }
    }
}

/// The mathematical content of a [`ConnectionManager`].
pub struct ConnectionView {
    pub endpoint: Seq<char>,
    pub catalog: Seq<Seq<char>>,
    pub selected: Seq<char>,
    pub status: StatusView,
}

/// Owns the endpoint, the catalog of available models, the selected model and
/// the connection status.
pub struct ConnectionManager {
    endpoint: String,
    models: Vec<String>,
    selected: String,
    status: ConnectionStatus,
}

/// The views of a list of strings.
pub open spec fn names_view(names: Seq<String>) -> Seq<Seq<char>> {
    names.map_values(|s: String| s@)
}

/// Address of the model listing of the server at `endpoint`.
pub open spec fn tags_url(endpoint: Seq<char>) -> Seq<char> {
    endpoint + "/api/tags"@
}

/// The selection rule: a selection that is still listed is kept; otherwise the
/// first listed model is taken, or nothing when the catalog is empty.
pub open spec fn reconcile(selected: Seq<char>, catalog: Seq<Seq<char>>) -> Seq<char> {
    if catalog.len() == 0 {
        Seq::empty()
    } else if selected.len() > 0 && catalog.contains(selected) {
        selected
    } else {
        catalog[0]
    }
}

/// The status text that a failed discovery reports, or `None` for a success.
pub open spec fn discovery_error(outcome: FetchOutcome<TagsResponse>) -> Option<Seq<char>> {
    match outcome {
        FetchOutcome::TransportFailed(d) => Some("Connection Failed: "@ + d@),
        FetchOutcome::HttpStatus(code) => Some("API Error: "@ + decimal(code as nat)),
        FetchOutcome::ParseFailed(d) => Some("Failed to parse models: "@ + d@),
        FetchOutcome::Received(_) => None,
    }
}

/// The catalog that a discovery outcome leaves: the listed names on success,
/// nothing on any failure.
pub open spec fn discovered_catalog(outcome: FetchOutcome<TagsResponse>) -> Seq<Seq<char>> {
    match outcome {
        FetchOutcome::Received(tags) => listed_names(tags),
        _ => Seq::empty(),
    }
}

/// State at start-up: nothing listed, nothing selected, discovery under way.
pub open spec fn initial_connection(endpoint: Seq<char>) -> ConnectionView {
    ConnectionView {
        endpoint,
        catalog: Seq::empty(),
        selected: Seq::empty(),
        status: StatusView::Connecting,
    }
}

/// Effect of setting the endpoint: only a different value starts discovery.
pub open spec fn after_set_endpoint(s: ConnectionView, url: Seq<char>) -> ConnectionView {
    if url == s.endpoint {
        s
    } else {
        ConnectionView { endpoint: url, status: StatusView::Connecting, ..s }
    }
}

/// Effect of choosing a model: taken as given.
pub open spec fn after_select(s: ConnectionView, name: Seq<char>) -> ConnectionView {
    ConnectionView { selected: name, ..s }
}

/// Effect of the end of a discovery attempt.
pub open spec fn after_discovery(
    s: ConnectionView,
    outcome: FetchOutcome<TagsResponse>,
) -> ConnectionView {
    let catalog = discovered_catalog(outcome);
    ConnectionView {
        endpoint: s.endpoint,
        catalog,
        selected: reconcile(s.selected, catalog),
        status: match discovery_error(outcome) {
            Some(m) => StatusView::Error(m),
            None => StatusView::Connected,
        },
    }
}

/// A non-empty catalog holds the selected model, unless nothing is selected.
pub open spec fn selection_consistent(s: ConnectionView) -> bool {
    s.catalog.len() > 0 ==> (s.selected.len() == 0 || s.catalog.contains(s.selected))
}

impl View for ConnectionManager {
    type V = ConnectionView;

    closed spec fn view(&self) -> ConnectionView {
        ConnectionView {
            endpoint: self.endpoint@,
            catalog: names_view(self.models@),
            selected: self.selected@,
            status: self.status@,
        }
    }
}

fn tags_url_of(endpoint: &String) -> (r: String)
    ensures
        r@ == tags_url(endpoint@),
{
    let mut r = endpoint.clone();
    r.append("/api/tags");
    r
}

/// Whether `name` is one of `catalog`.
pub fn catalog_contains(catalog: &Vec<String>, name: &String) -> (r: bool)
    ensures
        r == names_view(catalog@).contains(name@),
{
    let mut i: usize = 0;
    while i < catalog.len()
        invariant
            i <= catalog@.len(),
            forall|j: int| 0 <= j < i ==> #[trigger] catalog@[j]@ != name@,
        decreases catalog@.len() - i,
    {
        if catalog[i] == *name {
            assert(names_view(catalog@)[i as int] == name@);
            return true;
        }
        i = i + 1;
    }
    assert(!names_view(catalog@).contains(name@)) by {
        if names_view(catalog@).contains(name@) {
            let k = choose|k: int| 0 <= k < names_view(catalog@).len() && names_view(catalog@)[k] == name@;
            assert(catalog@[k]@ == name@);
        }
    }
    false
}

/// Applies the selection rule to `selected` against `catalog`.
pub fn reconcile_selection(selected: &String, catalog: &Vec<String>) -> (r: String)
    ensures
        r@ == reconcile(selected@, names_view(catalog@)),
{
    if catalog.len() == 0 {
        String::new()
    } else if !selected.as_str().is_empty() && catalog_contains(catalog, selected) {
        selected.clone()
    } else {
        catalog[0].clone()
    }
}

/// The names of the listed models, in listing order.
pub fn model_names(tags: &TagsResponse) -> (r: Vec<String>)
    ensures
        names_view(r@) == listed_names(*tags),
{
    let mut r: Vec<String> = Vec::new();
    let mut i: usize = 0;
    while i < tags.models.len()
        invariant
            i <= tags.models@.len(),
            r@.len() == i,
            forall|j: int| 0 <= j < i ==> #[trigger] r@[j]@ == tags.models@[j].name@,
        decreases tags.models@.len() - i,
    {
        r.push(tags.models[i].name.clone());
        i = i + 1;
    }
    assert(names_view(r@) =~= listed_names(*tags));
    r
}

/// The status text of a failed discovery; `None` for a success.
pub fn discovery_error_text(outcome: &FetchOutcome<TagsResponse>) -> (r: Option<String>)
    ensures
        match r {
            Some(m) => discovery_error(*outcome) == Some(m@),
            None => discovery_error(*outcome) is None,
        },
{
    match outcome {
        FetchOutcome::TransportFailed(d) => Some(prefixed("Connection Failed: ", d)),
        FetchOutcome::HttpStatus(code) => {
            let digits = decimal_text(*code);
            Some(prefixed("API Error: ", &digits))
        },
        FetchOutcome::ParseFailed(d) => Some(prefixed("Failed to parse models: ", d)),
        FetchOutcome::Received(_) => None,
    }
}

impl ConnectionManager {
    /// A manager for `endpoint`, with discovery under way: the caller starts
    /// the listing request at [`ConnectionManager::discovery_url`].
    pub fn new(endpoint: String) -> (r: ConnectionManager)
        ensures
            r@ == initial_connection(endpoint@),
    {
        let r = ConnectionManager {
            endpoint,
            models: Vec::new(),
            selected: String::new(),
            status: ConnectionStatus::Connecting,
        };
        assert(r@.catalog =~= Seq::<Seq<char>>::empty());
        r
    }

    /// Address of the model listing of the current endpoint.
    pub fn discovery_url(&self) -> (r: String)
        ensures
            r@ == tags_url(self@.endpoint),
    {
        tags_url_of(&self.endpoint)
    }

    /// Replaces the endpoint. A value equal to the current one changes nothing
    /// and gives `None`; another one puts the manager in `Connecting` and gives
    /// the address at which discovery is to be started.
    pub fn set_endpoint(&mut self, url: String) -> (r: Option<String>)
        ensures
            final(self)@ == after_set_endpoint(old(self)@, url@),
            r is Some <==> url@ != old(self)@.endpoint,
            r matches Some(u) ==> u@ == tags_url(url@),
    {
        if url == self.endpoint {
            None
        } else {
            let u = tags_url_of(&url);
            self.endpoint = url;
            self.status = ConnectionStatus::Connecting;
            Some(u)
        }
    }

    /// Sets the selected model, without checking it against the catalog.
    pub fn select_model(&mut self, name: String)
        ensures
            final(self)@ == after_select(old(self)@, name@),
    {
        self.selected = name;
    }

    /// Records the end of a discovery attempt: on success the listed names
    /// replace the catalog, on any failure the catalog is emptied and the
    /// status carries the error text; the selection rule is applied in
    /// either case. A result is applied whichever endpoint its request was
    /// made for: the last attempt to end decides the state.
    pub fn finish_discovery(&mut self, outcome: FetchOutcome<TagsResponse>)
        ensures
            final(self)@ == after_discovery(old(self)@, outcome),
    {
        let error = discovery_error_text(&outcome);
        let names = match outcome {
            FetchOutcome::Received(tags) => model_names(&tags),
            _ => Vec::new(),
        };
        assert(names_view(names@) =~= discovered_catalog(outcome));
        self.selected = reconcile_selection(&self.selected, &names);
        self.models = names;
        self.status = match error {
            Some(m) => ConnectionStatus::Error(m),
            None => ConnectionStatus::Connected,
        };
    }

    /// The current endpoint.
    pub fn endpoint(&self) -> (r: &String)
        ensures
            r@ == self@.endpoint,
    {
        &self.endpoint
    }

    /// The catalog of available models.
    pub fn models(&self) -> (r: &Vec<String>)
        ensures
            names_view(r@) == self@.catalog,
    {
        &self.models
    }

    /// The selected model; empty when none is.
    pub fn selected_model(&self) -> (r: &String)
        ensures
            r@ == self@.selected,
    {
        &self.selected
    }

    /// The connection status.
    pub fn status(&self) -> (r: &ConnectionStatus)
        ensures
            r@ == self@.status,
    {
        &self.status
    }
}

} // verus!
