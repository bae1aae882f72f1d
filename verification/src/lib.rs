//! Membership checks against DNS-based block lists and allow lists.
//!
//! A query (an IP address or a domain name) is on a list when the name made
//! of the query's labels and the list's zone resolves. The name is asked
//! first of the resolver service and, where that is absent or out of reach,
//! of the platform's resolver. A name that does not exist is an answer, not an
//! error; a failure is an error, never an answer.
//!
//! The library asks nothing itself: the two resolvers are handed in as
//! functions, and every contract holds whatever they answer.

pub mod address;
pub mod aggregator;
pub mod encoding;
pub mod error;
pub mod membership;
pub mod query;
pub mod reply;
pub mod resolver;
pub mod screening;
pub mod text;

pub use crate::address::IpAddress;
pub use crate::aggregator::count_lists;
pub use crate::encoding::{format_ip, format_v6};
pub use crate::error::DnsCheckError;
pub use crate::membership::DnsListMembership;
pub use crate::query::Query;
pub use crate::reply::{PrimaryReply, ResolveFailure, SecondaryReply};
pub use crate::resolver::{classify_primary, classify_secondary, lookup, lookup_dbus, lookup_dns};
pub use crate::screening::{matched_lists, screen, Screening};
