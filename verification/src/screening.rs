//! The verdict on a batch of queries: allow lists first, block lists only
//! where no allow list holds a query.

use vstd::prelude::*;
use crate::aggregator::{batch_view, check_yields, count_lists, takes_batch, BatchOutcome};
use crate::error::{DnsCheckError, ErrorView};
use crate::membership::{membership_views, DnsListMembership, MembershipView};
use crate::query::Query;
use crate::reply::{PrimaryReply, SecondaryReply};

verus! {

/// What the lists say of the queries.
#[derive(Debug)]
pub enum Screening {
    /// Allow lists hold a query: the list of each such membership.
    Allowed(Vec<String>),
    /// No allow list holds a query, and block lists do: the list of each
    /// such membership.
    Blocked(Vec<String>),
    /// No list holds a query.
    Clear,
}

/// A screening with its lists as sequences of characters.
pub enum ScreeningView {
    Allowed(Seq<Seq<char>>),
    Blocked(Seq<Seq<char>>),
    Clear,
}

/// Texts as sequences of characters.
pub open spec fn texts(lists: Seq<String>) -> Seq<Seq<char>> {
    Seq::new(lists.len(), |i: int| lists[i]@)
}

impl View for Screening {
    type V = ScreeningView;

    open spec fn view(&self) -> ScreeningView {
        match self {
            Screening::Allowed(lists) => ScreeningView::Allowed(texts(lists@)),
            Screening::Blocked(lists) => ScreeningView::Blocked(texts(lists@)),
            Screening::Clear => ScreeningView::Clear,
        }
    }
}

/// The view of a screening's result.
pub open spec fn screening_view(result: Result<Screening, DnsCheckError>) -> Result<
    ScreeningView,
    ErrorView,
> {
    match result {
        Ok(screening) => Ok(screening@),
        Err(error) => Err(error@),
    }
}

/// The lists of the memberships with `found` true, in the order of the
/// memberships.
pub open spec fn found_lists(memberships: Seq<MembershipView>) -> Seq<Seq<char>>
    decreases memberships.len(),
{
    if memberships.len() == 0 {
        Seq::empty()
    } else if memberships.last().found {
        found_lists(memberships.drop_last()).push(memberships.last().list)
    } else {
        found_lists(memberships.drop_last())
    }
}

/// Whether `list` is the list of a membership that was found.
pub open spec fn found_on(memberships: Seq<MembershipView>, list: Seq<char>) -> bool {
    exists|k: int|
        0 <= k < memberships.len() && (#[trigger] memberships[k]).found && memberships[k].list
            == list
}

/// Nothing is listed exactly where nothing was found, and what is listed is
/// the list of a membership that was found.
pub proof fn lemma_found_lists(memberships: Seq<MembershipView>)
    ensures
        found_lists(memberships).len() <= memberships.len(),
        found_lists(memberships).len() == 0 <==> forall|k: int|
            0 <= k < memberships.len() ==> !(#[trigger] memberships[k]).found,
        forall|i: int|
            0 <= i < found_lists(memberships).len() ==> found_on(
                memberships,
                #[trigger] found_lists(memberships)[i],
            ),
    decreases memberships.len(),
{
    if memberships.len() > 0 {
        let front = memberships.drop_last();
        lemma_found_lists(front);
        assert forall|k: int| 0 <= k < front.len() implies front[k] == memberships[k] by {}
        if found_lists(memberships).len() == 0 {
            assert forall|k: int| 0 <= k < memberships.len() implies !(
            #[trigger] memberships[k]).found by {}
        }
        if forall|k: int| 0 <= k < memberships.len() ==> !(#[trigger] memberships[k]).found {
            assert forall|k: int| 0 <= k < front.len() implies !(#[trigger] front[k]).found by {}
        }
        assert forall|i: int| 0 <= i < found_lists(memberships).len() implies found_on(
            memberships,
            #[trigger] found_lists(memberships)[i],
        ) by {
            if i < found_lists(front).len() {
                let k = choose|k: int|
                    0 <= k < front.len() && (#[trigger] front[k]).found && front[k].list
                        == found_lists(front)[i];
                assert(memberships[k].found);
            } else {
                assert(memberships[memberships.len() - 1].found);
            }
        }
    }
}

/// The verdict that the batch on the allow lists and the batch on the block
/// lists come to. An error of the first is the verdict's error; where the
/// first found anything the second does not count; an error of the second is
/// the verdict's error where it counts.
pub open spec fn verdict(allow: BatchOutcome, block: BatchOutcome) -> Result<
    ScreeningView,
    ErrorView,
> {
    match allow {
        Err(error) => Err(error),
        Ok(allowed) => if found_lists(allowed).len() > 0 {
            Ok(ScreeningView::Allowed(found_lists(allowed)))
        } else {
            match block {
                Err(error) => Err(error),
                Ok(blocked) => if found_lists(blocked).len() > 0 {
                    Ok(ScreeningView::Blocked(found_lists(blocked)))
                } else {
                    Ok(ScreeningView::Clear)
                },
            }
        },
    }
}

/// Whether the batch on the allow lists asks for the block lists: it came
/// to memberships of which none was found.
pub open spec fn asks_block_lists(allow: BatchOutcome) -> bool {
    allow matches Ok(allowed) && found_lists(allowed).len() == 0
}

/// Whether `outcome` is what a screening may come to with these two
/// resolvers: there is a result that the batch on the allow lists may come to
/// and, where that result asks for the block lists, a result that the batch on
/// them may come to, of which `outcome` is the verdict.
pub open spec fn screen_yields<P, S>(
    queries: Seq<Query>,
    allow: Seq<&str>,
    block: Seq<&str>,
    primary: P,
    secondary: S,
    outcome: Result<ScreeningView, ErrorView>,
) -> bool where P: Fn(&str) -> PrimaryReply, S: Fn(&str) -> SecondaryReply {
    exists|
        allowed: Result<Vec<DnsListMembership>, DnsCheckError>,
        blocked: Result<Vec<DnsListMembership>, DnsCheckError>,
    |
        {
            &&& check_yields(queries, allow, primary, secondary, allowed)
            &&& asks_block_lists(batch_view(allowed)) ==> check_yields(
                queries,
                block,
                primary,
                secondary,
                blocked,
            )
            &&& outcome == #[trigger] verdict(batch_view(allowed), batch_view(blocked))
        }
}

/// The lists of the memberships with `found` true, in the order of the
/// memberships.
pub fn matched_lists(memberships: &Vec<DnsListMembership>) -> (lists: Vec<String>)
    ensures
        texts(lists@) == found_lists(membership_views(memberships@)),
{
    let ghost all = membership_views(memberships@);
    let mut lists: Vec<String> = Vec::new();
    let mut i: usize = 0;
    while i < memberships.len()
        invariant
            i <= memberships.len(),
            all == membership_views(memberships@),
            texts(lists@) == found_lists(all.take(i as int)),
        decreases memberships.len() - i,
    {
        if memberships[i].found {
            lists.push(memberships[i].list.clone());
        }
        proof {
            assert(all.take(i + 1).drop_last() =~= all.take(i as int));
        }
        i = i + 1;
    }
    assert(all.take(i as int) =~= all);
    lists
}

/// Screens the queries: first on the allow lists and, where none of them
/// holds a query, on the block lists.
///
/// Where an allow list holds a query, the block lists are not asked at all.
/// An error of a lookup is the error of the screening. Without queries, or
/// without lists, nothing is asked and the screening is clear.
pub fn screen<P, S>(
    queries: &[Query],
    allow: &[&str],
    block: &[&str],
    primary: &P,
    secondary: &S,
) -> (result: Result<Screening, DnsCheckError>) where
    P: Fn(&str) -> PrimaryReply,
    S: Fn(&str) -> SecondaryReply,

    requires
        takes_batch(*primary, queries@, allow@),
        takes_batch(*secondary, queries@, allow@),
        takes_batch(*primary, queries@, block@),
        takes_batch(*secondary, queries@, block@),
    ensures
        screen_yields(queries@, allow@, block@, *primary, *secondary, screening_view(result)),
        result matches Ok(Screening::Allowed(lists)) ==> lists.len() > 0,
        result matches Ok(Screening::Blocked(lists)) ==> lists.len() > 0,
        result matches Err(error) ==> error is DBus || error is Unknown,
        queries.len() == 0 || (allow.len() == 0 && block.len() == 0) ==> result matches Ok(
            Screening::Clear,
        ),
{
    let first = count_lists(queries, allow, primary, secondary);
    let ghost allowed = first;
    let hits = match first {
        Ok(memberships) => matched_lists(&memberships),
        Err(error) => {
            proof {
                let unused: Result<Vec<DnsListMembership>, DnsCheckError> = Err(error);
                assert(screening_view(Err(error)) == verdict(
                    batch_view(allowed),
                    batch_view(unused),
                ));
            }
            return Err(error);
        },
    };
    if hits.len() > 0 {
        proof {
            assert(screening_view(Ok(Screening::Allowed(hits))) == verdict(
                batch_view(allowed),
                batch_view(allowed),
            ));
        }
        return Ok(Screening::Allowed(hits));
    }
    let second = count_lists(queries, block, primary, secondary);
    let ghost blocked = second;
    let hits = match second {
        Ok(memberships) => matched_lists(&memberships),
        Err(error) => {
            proof {
                assert(screening_view(Err(error)) == verdict(
                    batch_view(allowed),
                    batch_view(blocked),
                ));
            }
            return Err(error);
        },
    };
    let result = if hits.len() > 0 {
        Ok(Screening::Blocked(hits))
    } else {
        Ok(Screening::Clear)
    };
    result
}

} // verus!
