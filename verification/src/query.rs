//! What is asked about, and the name under which a list is asked.

use vstd::prelude::*;
use vstd::string::StringExecFns;
use crate::address::{address_text, IpAddress};
use crate::encoding::{format_ip, reversed_labels};

verus! {

/// One thing to look up: an IP address or a domain name.
#[derive(Debug, Clone, Copy)]
pub enum Query<'a> {
    Address(IpAddress),
    Domain(&'a str),
}

/// A query with its domain as a sequence of characters.
pub enum QueryView {
    Address(IpAddress),
    Domain(Seq<char>),
}

impl<'a> View for Query<'a> {
    type V = QueryView;

    open spec fn view(&self) -> QueryView {
        match *self {
            Query::Address(ip) => QueryView::Address(ip),
            Query::Domain(domain) => QueryView::Domain(domain@),
        }
    }
}

impl QueryView {
    /// The text under which the query is reported: the address as text, or
    /// the domain as it is.
    pub open spec fn text(self) -> Seq<char> {
        match self {
            QueryView::Address(ip) => address_text(ip),
            QueryView::Domain(domain) => domain,
        }
    }

    /// The labels that stand before a list's zone: the reversed labels of an
    /// address, or the domain and a dot.
    pub open spec fn labels(self) -> Seq<char> {
        match self {
            QueryView::Address(ip) => reversed_labels(ip),
            QueryView::Domain(domain) => domain + seq!['.'],
        }
    }

    /// The name to resolve in order to ask the list `source` about the
    /// query: the query's labels, the list's zone, and a closing dot.
    pub open spec fn hostname(self, source: Seq<char>) -> Seq<char> {
        self.labels() + source + seq!['.']
    }
}

impl<'a> Query<'a> {
    /// The text under which the query is reported.
    pub fn to_text(&self) -> (text: String)
        ensures
            text@ == self@.text(),
    {
        match self {
            Query::Address(ip) => ip.to_text(),
            Query::Domain(domain) => String::from_str(domain),
        }
    }

    /// The name to resolve in order to ask the list `source` about this
    /// query.
    pub fn hostname(&self, source: &str) -> (name: String)
        ensures
            name@ == self@.hostname(source@),
            self matches Query::Domain(domain) ==> name@ == domain@ + seq!['.'] + source@
                + seq!['.'],
            self matches Query::Address(ip) ==> name@ == reversed_labels(*ip) + source@
                + seq!['.'],
    {
        proof {
            reveal_strlit(".");
        }
        let mut name = match self {
            Query::Address(ip) => format_ip(ip),
            Query::Domain(domain) => {
                let mut labels = String::from_str(domain);
                labels.append(".");
                labels
            },
        };
        name.append(source);
        name.append(".");
        name
    }
}

} // verus!
