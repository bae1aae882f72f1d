//! The result of asking one list about one query.

use vstd::prelude::*;
use crate::error::{DnsCheckError, ErrorView};
use crate::query::QueryView;

verus! {

/// Whether one query is on one list.
#[derive(Debug)]
pub struct DnsListMembership {
    /// The query, as text.
    pub name: String,
    /// The list that was asked.
    pub list: String,
    /// Whether the list holds the query.
    pub found: bool,
}

/// A membership with its texts as sequences of characters.
pub struct MembershipView {
    pub name: Seq<char>,
    pub list: Seq<char>,
    pub found: bool,
}

impl View for DnsListMembership {
    type V = MembershipView;

    open spec fn view(&self) -> MembershipView {
        MembershipView { name: self.name@, list: self.list@, found: self.found }
    }
}

/// The memberships, each by its view.
pub open spec fn membership_views(memberships: Seq<DnsListMembership>) -> Seq<MembershipView> {
    Seq::new(memberships.len(), |i: int| memberships[i]@)
}

/// What a lookup comes to: a membership or an error.
pub type Outcome = Result<MembershipView, ErrorView>;

/// The view of a lookup's result.
pub open spec fn outcome_view(result: Result<DnsListMembership, DnsCheckError>) -> Outcome {
    match result {
        Ok(membership) => Ok(membership@),
        Err(error) => Err(error@),
    }
}

/// The membership that reports `found` for `query` on the list `source`.
pub open spec fn membership(source: Seq<char>, query: QueryView, found: bool) -> MembershipView {
    MembershipView { name: query.text(), list: source, found }
}

} // verus!
