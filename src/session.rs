//! The current list of news, replaced as a whole by each refresh that
//! succeeds.
use vstd::prelude::*;
use crate::aggregate::{unify, interleave, mergeable, views, AggregationError};
use crate::items::{FeedError, News};

verus! {

/// Why a refresh left the list as it was.
#[derive(Debug, Clone, PartialEq, Eq)]
pub enum RefreshError {
    /// A source group could not be read.
    Feed(FeedError),
    /// There was no group, or the groups did not give the same number of
    /// items.
    Aggregation(AggregationError),
}

/// Owner of the news list that a display shows.
pub struct Session {
    items: Vec<News>,
}

/// Whether every group was read.
pub open spec fn all_fetched(groups: Seq<Result<Vec<News>, FeedError>>) -> bool {
    forall|j: int| 0 <= j < groups.len() ==> #[trigger] groups[j] is Ok
}

/// The items of each group that was read.
pub open spec fn fetched_items(groups: Seq<Result<Vec<News>, FeedError>>) -> Seq<Seq<News>> {
    groups.map_values(|g: Result<Vec<News>, FeedError>| g->Ok_0@)
}

/// The error of the first group that could not be read.
pub open spec fn first_failure(groups: Seq<Result<Vec<News>, FeedError>>) -> Option<FeedError>
    decreases groups.len(),
{
    if groups.len() == 0 {
        None
    } else {
        match groups[0] {
            Err(e) => Some(e),
            Ok(_) => first_failure(groups.drop_first()),
        }
    }
}

impl View for Session {
    type V = Seq<News>;

    closed spec fn view(&self) -> Seq<News> {
        self.items@
    }
}

impl Session {
    /// A session with no news yet.
    pub fn new() -> (s: Session)
        ensures
            s@.len() == 0,
    {
        Session { items: Vec::new() }
    }

    /// The news that the last successful refresh assembled.
    pub fn current(&self) -> (r: &Vec<News>)
        ensures
            r@ == self@,
    {
        &self.items
    }

    /// Replaces the news by the round-robin merge of what every group gave.
    /// When a group failed, or there is no group or they differ in length,
    /// the news stay exactly as they were and the error says why.
    pub fn refresh(&mut self, groups: Vec<Result<Vec<News>, FeedError>>) -> (r: Result<(), RefreshError>)
        ensures
            r is Err ==> final(self)@ == old(self)@,
            !all_fetched(groups@) ==> (r matches Err(RefreshError::Feed(e)) && first_failure(groups@) == Some(e)),
            all_fetched(groups@) && !mergeable(fetched_items(groups@)) ==> (r matches Err(
                RefreshError::Aggregation(_),
            )),
            all_fetched(groups@) && mergeable(fetched_items(groups@)) ==> (r is Ok && final(self)@ == interleave(
                fetched_items(groups@),
            )),
    {
        let ghost orig = groups@;
        let n = groups.len();
        let mut rest = groups;
        let mut lists: Vec<Vec<News>> = Vec::new();
        while rest.len() > 0
            invariant
                n == orig.len(),
                orig == groups@,
                self@ == old(self)@,
                lists@.len() + rest@.len() == n,
                rest@ == orig.subrange(lists@.len() as int, n as int),
                first_failure(orig) == first_failure(rest@),
                forall|j: int| 0 <= j < lists@.len() ==> #[trigger] orig[j] is Ok,
                views(lists@) == fetched_items(orig).subrange(0, lists@.len() as int),
            decreases rest@.len(),
        {
            let ghost before = rest@;
            let ghost done = lists@.len();
            let g = rest.remove(0);
            assert(before.drop_first() =~= rest@);
            assert(g == orig[done as int]);
            match g {
                Err(e) => {
                    return Err(RefreshError::Feed(e));
                },
                Ok(v) => lists.push(v),
            }
            assert(views(lists@) =~= fetched_items(orig).subrange(0, lists@.len() as int));
            assert(rest@ =~= orig.subrange(lists@.len() as int, n as int));
        }
        assert(views(lists@) =~= fetched_items(orig));
        assert(all_fetched(orig));
        match unify(lists) {
            Err(e) => Err(RefreshError::Aggregation(e)),
            Ok(v) => {
                self.items = v;
                Ok(())
            },
        }
    }
}

} // verus!
