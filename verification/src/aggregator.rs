//! A batch of lookups: every query on every list, in order, all or nothing.

use vstd::prelude::*;
use vstd::arithmetic::div_mod::lemma_fundamental_div_mod_converse;
use crate::error::{DnsCheckError, ErrorView};
use crate::membership::{membership_views, DnsListMembership, MembershipView, Outcome};
use crate::query::Query;
use crate::reply::{PrimaryReply, SecondaryReply};
use crate::resolver::{lemma_lookup_single_outcome, lookup, lookup_yields, steady, takes_name};

verus! {

/// What a batch comes to: one membership for each pair of a query and a
/// list, or the first error.
pub type BatchOutcome = Result<Seq<MembershipView>, ErrorView>;

/// The view of a batch's result.
pub open spec fn batch_view(result: Result<Vec<DnsListMembership>, DnsCheckError>) -> BatchOutcome {
    match result {
        Ok(memberships) => Ok(membership_views(memberships@)),
        Err(error) => Err(error@),
    }
}

/// Whether `transport` may be asked for the lookup name of every pair of a
/// batch.
pub open spec fn takes_batch<T, R>(
    transport: T,
    queries: Seq<Query>,
    sources: Seq<&str>,
) -> bool where T: Fn(&str) -> R {
    forall|i: int, j: int|
        0 <= i < queries.len() && 0 <= j < sources.len() ==> takes_name(
            transport,
            #[trigger] queries[i]@.hostname(sources[j]@),
        )
}

/// The query of the pair at place `k` of a batch. The pairs stand query by
/// query and, under one query, list by list.
pub open spec fn query_at<'a>(queries: Seq<Query<'a>>, sources: Seq<&str>, k: int) -> Query<'a> {
    queries[k / (sources.len() as int)]
}

/// The list of the pair at place `k` of a batch.
pub open spec fn source_at<'a>(sources: Seq<&'a str>, k: int) -> &'a str {
    sources[k % (sources.len() as int)]
}

/// Whether `outcome` is what the lookup of the pair at place `k` of a batch
/// may come to.
pub open spec fn pair_yields<P, S>(
    queries: Seq<Query>,
    sources: Seq<&str>,
    primary: P,
    secondary: S,
    k: int,
    outcome: Outcome,
) -> bool where P: Fn(&str) -> PrimaryReply, S: Fn(&str) -> SecondaryReply {
    &&& 0 <= k / (sources.len() as int) < queries.len()
    &&& 0 <= k % (sources.len() as int) < sources.len()
    &&& lookup_yields(
        source_at(sources, k)@,
        query_at(queries, sources, k)@,
        primary,
        secondary,
        outcome,
    )
}

/// Whether the lookup of the pair at place `k` may come to a membership.
pub open spec fn pair_may_succeed<P, S>(
    queries: Seq<Query>,
    sources: Seq<&str>,
    primary: P,
    secondary: S,
    k: int,
) -> bool where P: Fn(&str) -> PrimaryReply, S: Fn(&str) -> SecondaryReply {
    exists|m: MembershipView| #[trigger] pair_yields(queries, sources, primary, secondary, k, Ok(m))
}

/// Whether `error` is what the lookup of the pair at place `k` may come to,
/// while the lookup of each pair before it may come to a membership.
pub open spec fn fails_at<P, S>(
    queries: Seq<Query>,
    sources: Seq<&str>,
    primary: P,
    secondary: S,
    k: int,
    error: ErrorView,
) -> bool where P: Fn(&str) -> PrimaryReply, S: Fn(&str) -> SecondaryReply {
    &&& 0 <= k < queries.len() * sources.len()
    &&& pair_yields(queries, sources, primary, secondary, k, Err(error))
    &&& forall|j: int|
        0 <= j < k ==> #[trigger] pair_may_succeed(queries, sources, primary, secondary, j)
}

/// Whether `result` is what a batch may come to with these two resolvers.
///
/// A list of memberships has one for each pair, in the order of the pairs,
/// each of them what the lookup of its pair may come to. An error is what
/// the lookup of some pair may come to, while the lookup of each pair before
/// it may come to a membership.
pub open spec fn check_yields<P, S>(
    queries: Seq<Query>,
    sources: Seq<&str>,
    primary: P,
    secondary: S,
    result: Result<Vec<DnsListMembership>, DnsCheckError>,
) -> bool where P: Fn(&str) -> PrimaryReply, S: Fn(&str) -> SecondaryReply {
    match result {
        Ok(memberships) => {
            &&& memberships@.len() == queries.len() * sources.len()
            &&& forall|k: int|
                0 <= k < memberships@.len() ==> pair_yields(
                    queries,
                    sources,
                    primary,
                    secondary,
                    k,
                    Ok((#[trigger] memberships@[k])@),
                )
        },
        Err(error) => exists|k: int| #[trigger]
            fails_at(queries, sources, primary, secondary, k, error@),
    }
}

/// A batch fails where one of its lookups can only fail: no list of
/// memberships comes back, complete or partial.
pub proof fn lemma_failing_pair_fails_batch<P, S>(
    queries: Seq<Query>,
    sources: Seq<&str>,
    primary: P,
    secondary: S,
    result: Result<Vec<DnsListMembership>, DnsCheckError>,
    k: int,
) where P: Fn(&str) -> PrimaryReply, S: Fn(&str) -> SecondaryReply
    requires
        check_yields(queries, sources, primary, secondary, result),
        0 <= k < queries.len() * sources.len(),
        forall|outcome: Outcome| #[trigger]
            pair_yields(queries, sources, primary, secondary, k, outcome) ==> outcome is Err,
    ensures
        result is Err,
{
    if let Ok(memberships) = result {
        assert(pair_yields(queries, sources, primary, secondary, k, Ok(memberships@[k]@)));
    }
}

/// A batch made again gives the same again: with steady resolvers, two
/// results of the same queries on the same lists have the same view, and so
/// the same `found` values.
pub proof fn lemma_batch_repeats<P, S>(
    queries: Seq<Query>,
    sources: Seq<&str>,
    primary: P,
    secondary: S,
    first: Result<Vec<DnsListMembership>, DnsCheckError>,
    second: Result<Vec<DnsListMembership>, DnsCheckError>,
) where P: Fn(&str) -> PrimaryReply, S: Fn(&str) -> SecondaryReply
    requires
        steady(primary),
        steady(secondary),
        check_yields(queries, sources, primary, secondary, first),
        check_yields(queries, sources, primary, secondary, second),
    ensures
        batch_view(first) == batch_view(second),
        first matches Ok(a) ==> (second matches Ok(b) && a@.len() == b@.len() && forall|k: int|
            0 <= k < a@.len() ==> a@[k].found == b@[k].found),
{
    match (first, second) {
        (Ok(a), Ok(b)) => {
            assert forall|k: int| 0 <= k < a@.len() implies a@[k]@ == b@[k]@ by {
                lemma_pair_single_outcome(
                    queries,
                    sources,
                    primary,
                    secondary,
                    k,
                    Ok(a@[k]@),
                    Ok(b@[k]@),
                );
            }
            assert(batch_view(first)->Ok_0 =~= batch_view(second)->Ok_0);
        },
        (Ok(a), Err(e)) => {
            let k = choose|k: int| #[trigger]
                fails_at(queries, sources, primary, secondary, k, e@);
            lemma_pair_single_outcome(queries, sources, primary, secondary, k, Ok(a@[k]@), Err(e@));
        },
        (Err(e), Ok(b)) => {
            let k = choose|k: int| #[trigger]
                fails_at(queries, sources, primary, secondary, k, e@);
            lemma_pair_single_outcome(queries, sources, primary, secondary, k, Ok(b@[k]@), Err(e@));
        },
        (Err(first_error), Err(second_error)) => {
            let first_place = choose|k: int| #[trigger]
                fails_at(queries, sources, primary, secondary, k, first_error@);
            let second_place = choose|k: int| #[trigger]
                fails_at(queries, sources, primary, secondary, k, second_error@);
            let early = if first_place < second_place {
                first_place
            } else {
                second_place
            };
            if first_place != second_place {
                assert(pair_may_succeed(queries, sources, primary, secondary, early));
                let m = choose|m: MembershipView| #[trigger]
                    pair_yields(queries, sources, primary, secondary, early, Ok(m));
                let error = if first_place < second_place {
                    first_error@
                } else {
                    second_error@
                };
                lemma_pair_single_outcome(
                    queries,
                    sources,
                    primary,
                    secondary,
                    early,
                    Ok(m),
                    Err(error),
                );
            } else {
                lemma_pair_single_outcome(
                    queries,
                    sources,
                    primary,
                    secondary,
                    early,
                    Err(first_error@),
                    Err(second_error@),
                );
            }
        },
    }
}

proof fn lemma_pair_single_outcome<P, S>(
    queries: Seq<Query>,
    sources: Seq<&str>,
    primary: P,
    secondary: S,
    k: int,
    first: Outcome,
    second: Outcome,
) where P: Fn(&str) -> PrimaryReply, S: Fn(&str) -> SecondaryReply
    requires
        steady(primary),
        steady(secondary),
        pair_yields(queries, sources, primary, secondary, k, first),
        pair_yields(queries, sources, primary, secondary, k, second),
    ensures
        first == second,
{
    lemma_lookup_single_outcome(
        source_at(sources, k)@,
        query_at(queries, sources, k)@,
        primary,
        secondary,
        first,
        second,
    );
}

/// Looks every query up on every list: the queries in order and, under each
/// query, the lists in order.
///
/// The first lookup that ends in an error ends the batch with that error; no
/// lookup is made after it and no membership is handed out. Otherwise the
/// result holds one membership for each pair, in the order of the pairs: the
/// one at place `k` is that of the query at `k / sources.len()` on the list
/// at `k % sources.len()`, under the text of that query and under that list.
pub fn count_lists<P, S>(
    queries: &[Query],
    sources: &[&str],
    primary: &P,
    secondary: &S,
) -> (result: Result<Vec<DnsListMembership>, DnsCheckError>) where
    P: Fn(&str) -> PrimaryReply,
    S: Fn(&str) -> SecondaryReply,

    requires
        takes_batch(*primary, queries@, sources@),
        takes_batch(*secondary, queries@, sources@),
    ensures
        check_yields(queries@, sources@, *primary, *secondary, result),
        result matches Ok(memberships) ==> memberships.len() == queries.len() * sources.len(),
        result matches Ok(memberships) ==> (forall|k: int|
            0 <= k < memberships.len() ==> (#[trigger] memberships[k]).name@ == query_at(
                queries@,
                sources@,
                k,
            )@.text()),
        result matches Ok(memberships) ==> (forall|k: int|
            0 <= k < memberships.len() ==> (#[trigger] memberships[k]).list@ == source_at(
                sources@,
                k,
            )@),
        result matches Err(error) ==> error is DBus || error is Unknown,
        queries.len() == 0 || sources.len() == 0 ==> (result matches Ok(memberships)
            && memberships.len() == 0),
{
    let ghost width = sources.len() as int;
    let mut out: Vec<DnsListMembership> = Vec::new();
    let mut i: usize = 0;
    while i < queries.len()
        invariant
            i <= queries.len(),
            width == sources.len(),
            takes_batch(*primary, queries@, sources@),
            takes_batch(*secondary, queries@, sources@),
            out.len() == i * width,
            forall|k: int|
                0 <= k < out.len() ==> pair_yields(
                    queries@,
                    sources@,
                    *primary,
                    *secondary,
                    k,
                    Ok((#[trigger] out@[k])@),
                ),
        decreases queries.len() - i,
    {
        let mut j: usize = 0;
        while j < sources.len()
            invariant
                i < queries.len(),
                j <= sources.len(),
                width == sources.len(),
                takes_batch(*primary, queries@, sources@),
                takes_batch(*secondary, queries@, sources@),
                out.len() == i * width + j,
                forall|k: int|
                    0 <= k < out.len() ==> pair_yields(
                        queries@,
                        sources@,
                        *primary,
                        *secondary,
                        k,
                        Ok((#[trigger] out@[k])@),
                    ),
            decreases sources.len() - j,
        {
            let ghost place = out.len() as int;
            proof {
                lemma_fundamental_div_mod_converse(place, width, i as int, j as int);
                assert(place < queries.len() * width) by (nonlinear_arith)
                    requires
                        place == i * width + j,
                        0 <= j < width,
                        0 <= i < queries.len(),
                ;
            }
            match lookup(sources[j], &queries[i], primary, secondary) {
                Ok(membership) => {
                    out.push(membership);
                },
                Err(error) => {
                    proof {
                        assert forall|k: int| 0 <= k < place implies #[trigger] pair_may_succeed(
                            queries@,
                            sources@,
                            *primary,
                            *secondary,
                            k,
                        ) by {
                            assert(pair_yields(
                                queries@,
                                sources@,
                                *primary,
                                *secondary,
                                k,
                                Ok(out@[k]@),
                            ));
                        }
                        assert(fails_at(queries@, sources@, *primary, *secondary, place, error@));
                    }
                    return Err(error);
                },
            }
            j = j + 1;
        }
        proof {
            assert(i * width + width == (i + 1) * width) by (nonlinear_arith);
        }
        i = i + 1;
    }
    Ok(out)
}

} // verus!
