//! One lookup: ask the resolver service, fall back to the platform's
//! resolver where the service is not to be had, and tell apart a name that
//! resolves, a name that does not exist, and a failure.
//!
//! The two resolvers are handed in as functions from the name to resolve to
//! what came back. Nothing is assumed of them: every contract here holds
//! whatever they answer.

use vstd::prelude::*;
use crate::error::{method_error, names_nxdomain, DnsCheckError, ErrorView};
use crate::membership::{membership, outcome_view, DnsListMembership, MembershipView, Outcome};
use crate::query::{Query, QueryView};
use crate::reply::{
    PrimaryReply, PrimaryReplyView, ResolveFailure, SecondaryReply, SecondaryReplyView,
};

verus! {

/// What a reply of the resolver service means for the query on the list
/// `source`.
pub open spec fn primary_outcome(
    source: Seq<char>,
    query: QueryView,
    reply: PrimaryReplyView,
) -> Outcome {
    match reply {
        PrimaryReplyView::Unsupported => Err(ErrorView::NoDBus),
        PrimaryReplyView::Unreachable(reason) => Err(ErrorView::NoResolved(reason)),
        PrimaryReplyView::Failed { name, description } => if names_nxdomain(name) {
            Ok(membership(source, query, false))
        } else {
            Err(method_error(name, description))
        },
        PrimaryReplyView::Resolved { records } => Ok(membership(source, query, records > 0)),
    }
}

/// What a reply of the platform's resolver means for the query on the list
/// `source`.
pub open spec fn secondary_outcome(
    source: Seq<char>,
    query: QueryView,
    reply: SecondaryReplyView,
) -> Outcome {
    match reply {
        SecondaryReplyView::Resolved { records } => Ok(membership(source, query, records > 0)),
        SecondaryReplyView::Failed { kind, message } => if kind is NoName {
            Ok(membership(source, query, false))
        } else {
            Err(ErrorView::Unknown(message))
        },
    }
}

/// What the two replies mean together: the outcome of the resolver service,
/// but for a service that is absent or out of reach, where it is the outcome
/// of the platform's resolver.
pub open spec fn resolve(
    source: Seq<char>,
    query: QueryView,
    primary: PrimaryReplyView,
    secondary: SecondaryReplyView,
) -> Outcome {
    if primary.unavailable() {
        secondary_outcome(source, query, secondary)
    } else {
        primary_outcome(source, query, primary)
    }
}

/// Classifies a reply of the resolver service.
///
/// A name that does not exist is a membership with `found` false, never an
/// error. An answer with records is a membership with `found` true. Every
/// other answer is an error: `NoDBus` or `NoResolved` where the service is
/// absent or out of reach, `DBus` for an error that the service reported.
pub fn classify_primary(source: &str, query: &Query, reply: PrimaryReply) -> (result: Result<
    DnsListMembership,
    DnsCheckError,
>)
    ensures
        outcome_view(result) == primary_outcome(source@, query@, reply@),
        reply@.not_found() ==> (result matches Ok(m) && !m.found),
        reply@.failure() ==> (result matches Err(e) && e is DBus),
        reply@.unavailable() ==> (result matches Err(e) && (e is NoDBus || e is NoResolved)),
        reply@ is Resolved ==> (result matches Ok(m) && m.found == (reply@->records > 0)),
        result matches Ok(m) ==> m.name@ == query@.text() && m.list@ == source@,
{
    match reply {
        PrimaryReply::Unsupported => Err(DnsCheckError::NoDBus),
        PrimaryReply::Unreachable(reason) => Err(DnsCheckError::NoResolved(reason)),
        PrimaryReply::Failed { name, description } => {
            match DnsCheckError::from_method_error(name, description) {
                DnsCheckError::NxDomain(_) => Ok(
                    DnsListMembership {
                        name: query.to_text(),
                        list: source.to_owned(),
                        found: false,
                    },
                ),
                error => Err(error),
            }
        },
        PrimaryReply::Resolved { records } => Ok(
            DnsListMembership {
                name: query.to_text(),
                list: source.to_owned(),
                found: records > 0,
            },
        ),
    }
}

/// Classifies a reply of the platform's resolver.
///
/// An unknown name is a membership with `found` false, never an error. An
/// answer with addresses is a membership with `found` true. Every other
/// failure is the error `Unknown` with the failure's text.
pub fn classify_secondary(source: &str, query: &Query, reply: SecondaryReply) -> (result: Result<
    DnsListMembership,
    DnsCheckError,
>)
    ensures
        outcome_view(result) == secondary_outcome(source@, query@, reply@),
        reply@.not_found() ==> (result matches Ok(m) && !m.found),
        reply@.failure() ==> (result matches Err(e) && e is Unknown),
        reply@ is Resolved ==> (result matches Ok(m) && m.found == (reply@->records > 0)),
        result matches Ok(m) ==> m.name@ == query@.text() && m.list@ == source@,
{
    match reply {
        SecondaryReply::Resolved { records } => Ok(
            DnsListMembership {
                name: query.to_text(),
                list: source.to_owned(),
                found: records > 0,
            },
        ),
        SecondaryReply::Failed { kind, message } => match kind {
            ResolveFailure::NoName => Ok(
                DnsListMembership { name: query.to_text(), list: source.to_owned(), found: false },
            ),
            _ => Err(DnsCheckError::Unknown(message)),
        },
    }
}

/// Whether `reply` is something that `transport` may hand back when it is
/// asked for the name `host`.
pub open spec fn answers<T, R>(transport: T, host: Seq<char>, reply: R) -> bool where
    T: Fn(&str) -> R,
 {
    exists|name: &str| name@ == host && call_ensures(transport, (name,), reply)
}

/// Whether `transport` may be asked for the name `host`.
pub open spec fn takes_name<T, R>(transport: T, host: Seq<char>) -> bool where T: Fn(&str) -> R {
    forall|name: &str| name@ == host ==> call_requires(transport, (name,))
}

/// Whether `outcome` is what a lookup of the query on the list `source` may
/// come to with these two resolvers: there is a reply that the resolver
/// service may give for the lookup name and, where that reply asks for the
/// platform's resolver, a reply that this one may give, of which `outcome` is
/// the meaning.
pub open spec fn lookup_yields<P, S>(
    source: Seq<char>,
    query: QueryView,
    primary: P,
    secondary: S,
    outcome: Outcome,
) -> bool where P: Fn(&str) -> PrimaryReply, S: Fn(&str) -> SecondaryReply {
    exists|p: PrimaryReply, s: SecondaryReply|
        {
            &&& answers(primary, query.hostname(source), p)
            &&& p@.unavailable() ==> answers(secondary, query.hostname(source), s)
            &&& outcome == #[trigger] resolve(source, query, p@, s@)
        }
}

/// Whether a transport gives one answer for each name: whatever it may hand
/// back for a name has the same view.
pub open spec fn steady<T, R>(transport: T) -> bool where T: Fn(&str) -> R, R: View {
    forall|first: &str, second: &str, a: R, b: R|
        first@ == second@ && #[trigger] call_ensures(transport, (first,), a)
            && #[trigger] call_ensures(transport, (second,), b) ==> a@ == b@
}

/// A name that does not exist is no error: where the resolver that answers
/// says so, the lookup comes to a membership with `found` false.
pub proof fn lemma_name_not_found(
    source: Seq<char>,
    query: QueryView,
    primary: PrimaryReplyView,
    secondary: SecondaryReplyView,
)
    requires
        primary.not_found() || (primary.unavailable() && secondary.not_found()),
    ensures
        resolve(source, query, primary, secondary) == Ok::<MembershipView, ErrorView>(
            membership(source, query, false),
        ),
{
}

/// A failure is never an answer: where the resolver that answers fails
/// otherwise than by saying that the name does not exist, the lookup comes to
/// an error.
pub proof fn lemma_failure_is_error(
    source: Seq<char>,
    query: QueryView,
    primary: PrimaryReplyView,
    secondary: SecondaryReplyView,
)
    requires
        primary.failure() || (primary.unavailable() && secondary.failure()),
    ensures
        resolve(source, query, primary, secondary) is Err,
        primary.failure() ==> (resolve(source, query, primary, secondary) matches Err(e)
            && e is DBus),
        primary.unavailable() ==> (resolve(source, query, primary, secondary) matches Err(e)
            && e is Unknown),
{
}

/// That the resolver service is absent or out of reach fails no lookup: the
/// outcome is then that of the platform's resolver, and no lookup comes to
/// `NoDBus`, `NoResolved` or `NxDomain`.
pub proof fn lemma_absence_is_no_error(
    source: Seq<char>,
    query: QueryView,
    primary: PrimaryReplyView,
    secondary: SecondaryReplyView,
)
    ensures
        primary.unavailable() ==> resolve(source, query, primary, secondary) == secondary_outcome(
            source,
            query,
            secondary,
        ),
        resolve(source, query, primary, secondary) matches Err(e) ==> e is DBus || e is Unknown,
{
}

/// With steady resolvers a lookup has one outcome.
pub proof fn lemma_lookup_single_outcome<P, S>(
    source: Seq<char>,
    query: QueryView,
    primary: P,
    secondary: S,
    first: Outcome,
    second: Outcome,
) where P: Fn(&str) -> PrimaryReply, S: Fn(&str) -> SecondaryReply
    requires
        steady(primary),
        steady(secondary),
        lookup_yields(source, query, primary, secondary, first),
        lookup_yields(source, query, primary, secondary, second),
    ensures
        first == second,
{
}

/// Asks the resolver service whether the query is on the list `source`.
///
/// The service is asked once, for the lookup name of the query on the list,
/// and the result is what `classify_primary` makes of its reply.
pub fn lookup_dbus<P>(source: &str, query: &Query, primary: &P) -> (result: Result<
    DnsListMembership,
    DnsCheckError,
>) where P: Fn(&str) -> PrimaryReply
    requires
        takes_name(*primary, query@.hostname(source@)),
    ensures
        exists|p: PrimaryReply| #[trigger]
            answers(*primary, query@.hostname(source@), p) && outcome_view(result)
                == primary_outcome(source@, query@, p@),
        result matches Ok(m) ==> m.name@ == query@.text() && m.list@ == source@,
        result matches Err(e) ==> !(e is NxDomain) && !(e is Unknown),
{
    let hostname = query.hostname(source);
    let reply = primary(hostname.as_str());
    assert(answers(*primary, query@.hostname(source@), reply));
    classify_primary(source, query, reply)
}

/// Asks the platform's resolver whether the query is on the list `source`.
///
/// The resolver is asked once, for the lookup name of the query on the list,
/// and the result is what `classify_secondary` makes of its reply.
pub fn lookup_dns<S>(source: &str, query: &Query, secondary: &S) -> (result: Result<
    DnsListMembership,
    DnsCheckError,
>) where S: Fn(&str) -> SecondaryReply
    requires
        takes_name(*secondary, query@.hostname(source@)),
    ensures
        exists|s: SecondaryReply| #[trigger]
            answers(*secondary, query@.hostname(source@), s) && outcome_view(result)
                == secondary_outcome(source@, query@, s@),
        result matches Ok(m) ==> m.name@ == query@.text() && m.list@ == source@,
        result matches Err(e) ==> e is Unknown,
{
    let hostname = query.hostname(source);
    let reply = secondary(hostname.as_str());
    assert(answers(*secondary, query@.hostname(source@), reply));
    classify_secondary(source, query, reply)
}

/// Looks the query up on the list `source`: through the resolver service
/// or, where that is absent or out of reach, through the platform's
/// resolver.
///
/// The platform's resolver is asked only where the service is absent or out
/// of reach; an error that the service reports is handed on as it is. A name
/// that does not exist gives a membership with `found` false. No lookup ends
/// in `NoDBus`, `NoResolved` or `NxDomain`.
pub fn lookup<P, S>(source: &str, query: &Query, primary: &P, secondary: &S) -> (result: Result<
    DnsListMembership,
    DnsCheckError,
>) where P: Fn(&str) -> PrimaryReply, S: Fn(&str) -> SecondaryReply
    requires
        takes_name(*primary, query@.hostname(source@)),
        takes_name(*secondary, query@.hostname(source@)),
    ensures
        lookup_yields(source@, query@, *primary, *secondary, outcome_view(result)),
        result matches Ok(m) ==> m.name@ == query@.text() && m.list@ == source@,
        result matches Err(e) ==> e is DBus || e is Unknown,
{
    let first = lookup_dbus(source, query, primary);
    let ghost p = choose|p: PrimaryReply| #[trigger]
        answers(*primary, query@.hostname(source@), p) && outcome_view(first) == primary_outcome(
            source@,
            query@,
            p@,
        );
    match first {
        Ok(membership) => {
            proof {
                let s = SecondaryReply::Resolved { records: 0 };
                assert(outcome_view(Ok(membership)) == resolve(source@, query@, p@, s@));
            }
            Ok(membership)
        },
        Err(DnsCheckError::NoDBus) | Err(DnsCheckError::NoResolved(_)) => {
            let second = lookup_dns(source, query, secondary);
            proof {
                let s = choose|s: SecondaryReply| #[trigger]
                    answers(*secondary, query@.hostname(source@), s) && outcome_view(second)
                        == secondary_outcome(source@, query@, s@);
                assert(outcome_view(second) == resolve(source@, query@, p@, s@));
            }
            second
        },
        Err(error) => Err(error),
    }
}

} // verus!
