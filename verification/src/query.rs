//! Query specs and the request URLs built from them.

use crate::text::text_eq;
use vstd::prelude::*;
use vstd::string::*;

verus! {

/// The two kinds of query the tracker is asked.
#[derive(Clone, Copy, Debug, PartialEq, Eq, Structural)]
pub enum QueryKind {
    /// Issues whose reporter or assignee address holds the match string.
    OwnerMatch,
    /// Open issues that name the match string in product, component, alias or summary.
    ProductMatch,
}

/// A named query as it is configured. `kind` is kept as written: it may be a word that
/// names no known kind.
#[derive(Clone, Debug, PartialEq, Eq)]
pub struct QuerySpec {
    pub name: String,
    pub kind: String,
    pub match_value: String,
}

/// A query spec as plain values.
pub struct QuerySpecView {
    pub name: Seq<char>,
    pub kind: Seq<char>,
    pub match_value: Seq<char>,
}

impl View for QuerySpec {
    type V = QuerySpecView;

    open spec fn view(&self) -> QuerySpecView {
        QuerySpecView { name: self.name@, kind: self.kind@, match_value: self.match_value@ }
    }
}

impl DeepView for QuerySpec {
    type V = QuerySpecView;

    open spec fn deep_view(&self) -> QuerySpecView {
        self@
    }
}

/// The kind that a configured word names: `owner` or `product`, spelled exactly so.
pub open spec fn kind_of(word: Seq<char>) -> Option<QueryKind> {
    if word == "owner"@ {
        Some(QueryKind::OwnerMatch)
    } else if word == "product"@ {
        Some(QueryKind::ProductMatch)
    } else {
        None
    }
}

/// The URL that asks the tracker's list endpoint for `q`, rendered as CSV.
pub open spec fn query_url(q: Seq<char>) -> Seq<char> {
    "https://bugs.freebsd.org/bugzilla/buglist.cgi?"@ + q + "&ctype=csv"@
}

/// The query for unresolved issues whose reporter or assignee address holds `email`.
pub open spec fn assigned_query(email: Seq<char>) -> Seq<char> {
    "email1="@ + email
        + "&emailassigned_to1=1&emailreporter1=1&emailtype1=substring&resolution=---"@
}

/// The query for open issues with `product` in one of product, component, alias or
/// summary.
pub open spec fn product_query(product: Seq<char>) -> Seq<char> {
    "bug_status=__open__&f0=OP&f1=OP&f2=product&f3=component&f4=alias&f5=short_desc&f7=CP&f8=CP&j1=OR&o2=substring&o3=substring&o4=substring&o5=substring&o6=substring&v2="@
        + product + "&v3="@ + product + "&v4="@ + product + "&v5="@ + product + "&v6="@
        + product
}

/// The request URL for a query of the given kind. The match string is taken as it is:
/// whoever configures it writes it as it must stand in a URL's query part.
pub open spec fn kind_url(kind: QueryKind, match_value: Seq<char>) -> Seq<char> {
    match kind {
        QueryKind::OwnerMatch => query_url(assigned_query(match_value)),
        QueryKind::ProductMatch => query_url(product_query(match_value)),
    }
}

/// Reads a configured kind word.
pub fn parse_kind(word: &str) -> (kind: Option<QueryKind>)
    ensures
        kind == kind_of(word@),
{
    if text_eq(word, "owner") {
        Some(QueryKind::OwnerMatch)
    } else if text_eq(word, "product") {
        Some(QueryKind::ProductMatch)
    } else {
        None
    }
}

/// Wraps a query string into the full request URL.
pub fn build_query(q: String) -> (url: String)
    ensures
        url@ == query_url(q@),
{
    let mut url: String = String::from_str("https://bugs.freebsd.org/bugzilla/buglist.cgi?");
    url.append(q.as_str());
    url.append("&ctype=csv");
    url
}

/// Builds the URL that lists the unresolved issues reported by or assigned to `email`.
pub fn build_assigned_query(email: String) -> (url: String)
    ensures
        url@ == query_url(assigned_query(email@)),
{
    let mut q: String = String::from_str("email1=");
    q.append(email.as_str());
    q.append("&emailassigned_to1=1&emailreporter1=1&emailtype1=substring&resolution=---");
    build_query(q)
}

/// Builds the URL that lists the open issues about `product`.
pub fn build_product_query(product: String) -> (url: String)
    ensures
        url@ == query_url(product_query(product@)),
{
    let mut q: String = String::from_str(
        "bug_status=__open__&f0=OP&f1=OP&f2=product&f3=component&f4=alias&f5=short_desc&f7=CP&f8=CP&j1=OR&o2=substring&o3=substring&o4=substring&o5=substring&o6=substring&v2=",
    );
    q.append(product.as_str());
    q.append("&v3=");
    q.append(product.as_str());
    q.append("&v4=");
    q.append(product.as_str());
    q.append("&v5=");
    q.append(product.as_str());
    q.append("&v6=");
    q.append(product.as_str());
    build_query(q)
}

/// Builds the request URL for a query of the given kind.
pub fn build_kind_query(kind: QueryKind, match_value: String) -> (url: String)
    ensures
        url@ == kind_url(kind, match_value@),
{
    match kind {
        QueryKind::OwnerMatch => build_assigned_query(match_value),
        QueryKind::ProductMatch => build_product_query(match_value),
    }
}

/// Whether hyper reads `text` as a URI. The grammar is hyper's own; nothing more is
/// said of it here than that it depends on the text alone.
pub uninterp spec fn uri_accepts(text: Seq<char>) -> bool;

/// Calls the `FromStr` impl of `hyper::Uri` and reports whether it returned `Ok`.
/// Claimed, not proved: the answer is the same for the same text.
#[verifier::external_body]
pub(crate) fn parses_as_uri(url: &str) -> (ok: bool)
    ensures
        ok == uri_accepts(url@),
{
    url.parse::<hyper::Uri>().is_ok()
}

} // verus!
