//! What the agent asks of a container runtime, and what it makes of the
//! answers: where to connect, which containers to list, and which of the
//! listed containers can be sampled.
//!
//! The calls to the runtime are made elsewhere. Here are the decisions.

use vstd::prelude::*;
use actix_web::http::Uri;
use crate::text::same_text;
use crate::views::lemma_views_push;
use crate::views::lemma_views_take_all;
use crate::views::lemma_views_take_next;
use crate::views::optional_view;
use crate::views::views;

verus! {

/// The endpoint of the runtime on the local machine.
pub const DEFAULT_DOCKER_HOST: &'static str = "unix:///var/run/docker.sock";

/// Seconds to wait for an answer from a runtime reached over HTTP.
pub const CONNECT_TIMEOUT_SECONDS: u64 = 4;

/// How to connect to the runtime.
#[derive(Clone, Copy, Debug, PartialEq, Eq, Structural)]
pub enum ConnectPlan {
    /// Connect to the local endpoint, as asked.
    Defaults,
    /// Connect to the given endpoint over HTTP.
    Http,
    /// The endpoint is a URI that names no scheme, or one that is not
    /// supported: connect to the local endpoint, and warn.
    DefaultsAfterUnsupportedScheme,
    /// The endpoint is no URI: connect to the local endpoint, and warn.
    DefaultsAfterInvalidUri,
}

/// What `http::Uri` makes of a text: nothing where the text is no URI, else
/// the scheme that the URI names, if it names one.
pub uninterp spec fn uri_scheme(host: Seq<char>) -> Option<Option<Seq<char>>>;

/// The view of a parsed scheme.
pub open spec fn scheme_view(parsed: Option<Option<String>>) -> Option<Option<Seq<char>>> {
    match parsed {
        Some(Some(scheme)) => Some(Some(scheme@)),
        Some(None) => Some(None),
        None => None,
    }
}

/// Parses `host` with `http::Uri`'s `FromStr` (through `actix_web::http::Uri`)
/// and reads the scheme with `Uri::scheme_str`.
///
/// Not proved: that the result is `uri_scheme` of the text. The parser reads
/// nothing but the text, so the same text always gives the same answer; what
/// the answer is, this library does not state.
#[verifier::external_body]
fn parse_uri_scheme(host: &str) -> (r: Option<Option<String>>)
    ensures
        scheme_view(r) == uri_scheme(host@),
{
    match host.parse::<Uri>() {
        Ok(uri) => Some(uri.scheme_str().map(str::to_owned)),
        Err(_) => None,
    }
}

/// The plan for an endpoint, given what parsing it as a URI gave.
///
/// The local endpoint is taken as it is, whatever the parser says of it. Any
/// other endpoint is reached over HTTP where its scheme is `http`, and set
/// aside for the local endpoint otherwise.
pub open spec fn plan_for(host: Seq<char>, parsed: Option<Option<Seq<char>>>) -> ConnectPlan {
    if host == DEFAULT_DOCKER_HOST@ {
        ConnectPlan::Defaults
    } else {
        match parsed {
            Some(Some(scheme)) => if scheme == "http"@ {
                ConnectPlan::Http
            } else {
                ConnectPlan::DefaultsAfterUnsupportedScheme
            },
            Some(None) => ConnectPlan::DefaultsAfterUnsupportedScheme,
            None => ConnectPlan::DefaultsAfterInvalidUri,
        }
    }
}

/// The plan for an endpoint whose text has been parsed already: `parsed` is
/// nothing where the text is no URI, else the URI's scheme, if it has one.
pub fn connect_plan_for(host: &str, parsed: &Option<Option<String>>) -> (r: ConnectPlan)
    ensures
        r == plan_for(host@, scheme_view(*parsed)),
{
    if same_text(host, DEFAULT_DOCKER_HOST) {
        return ConnectPlan::Defaults;
    }
    match parsed {
        Some(Some(scheme)) => {
            if same_text(scheme.as_str(), "http") {
                ConnectPlan::Http
            } else {
                ConnectPlan::DefaultsAfterUnsupportedScheme
            }
        },
        Some(None) => ConnectPlan::DefaultsAfterUnsupportedScheme,
        None => ConnectPlan::DefaultsAfterInvalidUri,
    }
}

/// The plan for connecting to the runtime at `host`.
///
/// A malformed endpoint is no reason to give up: the plan then is to connect
/// to the local endpoint and to warn.
pub fn connect_plan(host: &str) -> (r: ConnectPlan)
    ensures
        r == plan_for(host@, uri_scheme(host@)),
        host@ == DEFAULT_DOCKER_HOST@ ==> r == ConnectPlan::Defaults,
{
    if same_text(host, DEFAULT_DOCKER_HOST) {
        return ConnectPlan::Defaults;
    }
    let parsed = parse_uri_scheme(host);
    connect_plan_for(host, &parsed)
}

/// The property of a container by which a listing is narrowed down to the
/// active ones.
pub const STATUS_FILTER: &'static str = "status";

/// The states of a container in which it counts as active, and is listed.
pub fn active_status_filter() -> (r: Vec<String>)
    ensures
        views(r@) == seq!["running"@, "paused"@],
{
    let mut filter: Vec<String> = Vec::new();
    filter.push("running".to_owned());
    filter.push("paused".to_owned());
    proof {
        assert(views(filter@) =~= seq!["running"@, "paused"@]);
    }
    filter
}

/// A container as the runtime lists it.
#[derive(Debug, PartialEq, Eq)]
pub struct ContainerSummary {
    pub id: Option<String>,
    /// The names that the container goes by, the first being its own.
    pub names: Option<Vec<String>>,
}

/// The view of a [`ContainerSummary`].
pub struct ContainerSummaryView {
    pub id: Option<Seq<char>>,
    pub names: Option<Seq<Seq<char>>>,
}

impl View for ContainerSummary {
    type V = ContainerSummaryView;

    open spec fn view(&self) -> ContainerSummaryView {
        ContainerSummaryView {
            id: match self.id {
                Some(id) => Some(id@),
                None => None,
            },
            names: match self.names {
                Some(names) => Some(views(names@)),
                None => None,
            },
        }
    }
}

/// Who a container is: the id that the runtime gave it, which stays for the
/// container's life, and the name that its operator gave it, which may change.
#[derive(Debug, PartialEq, Eq)]
pub struct ContainerIdentity {
    pub id: String,
    pub name: String,
}

/// The view of a [`ContainerIdentity`].
pub struct ContainerIdentityView {
    pub id: Seq<char>,
    pub name: Seq<char>,
}

impl View for ContainerIdentity {
    type V = ContainerIdentityView;

    open spec fn view(&self) -> ContainerIdentityView {
        ContainerIdentityView { id: self.id@, name: self.name@ }
    }
}

impl Clone for ContainerIdentity {
    fn clone(&self) -> (r: Self)
        ensures
            r@ == self@,
    {
        ContainerIdentity { id: self.id.clone(), name: self.name.clone() }
    }
}

/// The identity of a listed container: its id and its first name. A
/// container listed without an id, or without any name, has none.
pub open spec fn identity(summary: ContainerSummaryView) -> Option<ContainerIdentityView> {
    match (summary.id, summary.names) {
        (Some(id), Some(names)) => if names.len() > 0 {
            Some(ContainerIdentityView { id, name: names[0] })
        } else {
            None
        },
        _ => None,
    }
}

/// The identities of the listed containers that have one, in listing order.
pub open spec fn listed_identities(listing: Seq<ContainerSummaryView>) -> Seq<
    ContainerIdentityView,
>
    decreases listing.len(),
{
    if listing.len() == 0 {
        Seq::empty()
    } else {
        let rest = listed_identities(listing.drop_last());
        match identity(listing.last()) {
            Some(found) => rest.push(found),
            None => rest,
        }
    }
}

/// The identity of a listed container, if it can be sampled.
pub fn identity_of(summary: &ContainerSummary) -> (r: Option<ContainerIdentity>)
    ensures
        optional_view(r) == identity(summary@),
{
    match (&summary.id, &summary.names) {
        (Some(id), Some(names)) => {
            if names.len() > 0 {
                Some(ContainerIdentity { id: id.clone(), name: names[0].clone() })
            } else {
                None
            }
        },
        _ => None,
    }
}

/// The containers of a listing that can be sampled, in listing order.
///
/// A container that the runtime lists without an id or without a name is
/// passed over.
pub fn identities(listing: &Vec<ContainerSummary>) -> (r: Vec<ContainerIdentity>)
    ensures
        views(r@) == listed_identities(views(listing@)),
{
    let mut found: Vec<ContainerIdentity> = Vec::new();
    let mut i: usize = 0;
    proof {
        assert(views(found@) =~= Seq::<ContainerIdentityView>::empty());
    }
    while i < listing.len()
        invariant
            i <= listing.len(),
            views(found@) == listed_identities(views(listing@).take(i as int)),
        decreases listing.len() - i,
    {
        proof {
            lemma_views_take_next(listing@, i as int);
            assert(views(listing@).take(i + 1).drop_last() =~= views(listing@).take(i as int));
        }
        if let Some(who) = identity_of(&listing[i]) {
            proof {
                lemma_views_push(found@, who);
            }
            found.push(who);
        }
        i += 1;
    }
    proof {
        lemma_views_take_all(listing@);
    }
    found
}

} // verus!
