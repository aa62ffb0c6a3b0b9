//! News items: how a feed entry becomes one, and how a source group's
//! entries are chosen and turned into news.
use vstd::prelude::*;
use vstd::string::*;
use crate::aggregate::{unify, interleave, mergeable, views};
use crate::cache::{cache_path, path_of, CacheError};
use crate::entry::{image_of, image_url, opt_view, Entry};
use crate::parse::ParseError;

verus! {

/// How many entries a source group contributes per refresh.
pub const GROUP_BUDGET: usize = 10;

/// One normalized news item.
#[derive(Debug, Clone, PartialEq, Eq)]
pub struct News {
    pub title: String,
    pub desc: String,
    /// Local path of the cached image, if one was cached.
    pub image: Option<String>,
    pub url: String,
    pub author: String,
    /// Whether the image was cached.
    pub downloaded: bool,
    /// Name of the source group the item came from.
    pub source: String,
}

/// The news of one or more source groups, in order.
#[derive(Debug)]
pub struct RSS {
    pub items: Vec<News>,
}

/// Why a source group could not be read.
#[derive(Debug, Clone, Copy, PartialEq, Eq, Structural)]
pub enum FeedCause {
    MissingTitle,
    MissingDescription,
    MissingLink,
    /// A channel of the group could not be fetched or parsed.
    Unreadable,
    /// The group has no channel, or its channels do not have the same
    /// number of entries.
    UnequalChannels,
}

/// A source group failed as a whole.
#[derive(Debug, Clone, PartialEq, Eq)]
pub struct FeedError {
    pub source: String,
    pub cause: FeedCause,
}

/// The author recorded when an entry names none.
pub open spec fn no_author() -> Seq<char> {
    "No author found."@
}

/// Whether titles from `source` lose everything from their first `(` on.
pub open spec fn strips_parenthetical(source: Seq<char>) -> bool {
    source == "G1"@
}

/// Index of the first `(` in `t`, or its length when there is none.
pub open spec fn paren_index(t: Seq<char>) -> nat
    decreases t.len(),
{
    if t.len() == 0 || t[0] == '(' {
        0
    } else {
        1 + paren_index(t.drop_first())
    }
}

/// The title that `source` shows for the entry title `t`.
pub open spec fn normal_title(t: Seq<char>, source: Seq<char>) -> Seq<char> {
    if strips_parenthetical(source) {
        t.subrange(0, paren_index(t) as int)
    } else {
        t
    }
}

/// The error an entry gives, if a required field is missing.
pub open spec fn entry_error(e: Entry) -> Option<FeedCause> {
    if e.title is None {
        Some(FeedCause::MissingTitle)
    } else if e.description is None {
        Some(FeedCause::MissingDescription)
    } else if e.link is None {
        Some(FeedCause::MissingLink)
    } else {
        None
    }
}

/// `n` is the news item made of entry `e` with the given image and source.
pub open spec fn is_news_of(n: News, e: Entry, image: Option<Seq<char>>, downloaded: bool, source: Seq<char>) -> bool {
    &&& n.title@ == normal_title(e.title->Some_0@, source)
    &&& n.desc@ == e.description->Some_0@
    &&& n.url@ == e.link->Some_0@
    &&& n.author@ == (match e.author {
        Some(a) => a@,
        None => no_author(),
    })
    &&& opt_view(n.image) == image
    &&& n.downloaded == downloaded
    &&& n.source@ == source
}

/// The cached image of entry `e` of the group `source`, given how caching
/// the image it refers to went: the cache file of that image's URL.
pub open spec fn image_path(e: Entry, source: Seq<char>, outcome: Result<(), CacheError>) -> Option<Seq<char>> {
    match image_of(e, source) {
        Some(u) => if outcome is Ok {
            path_of(u)
        } else {
            None
        },
        None => None,
    }
}

/// `t` up to, not including, its first `(`.
pub fn strip_parenthetical(t: &str) -> (r: String)
    ensures
        r@ == t@.subrange(0, paren_index(t@) as int),
{
    let len = t.unicode_len();
    let mut k: usize = 0;
    assert(t@.subrange(0, len as int) =~= t@);
    while k < len && t.get_char(k) != '('
        invariant
            k <= len,
            len == t@.len(),
            paren_index(t@) == k + paren_index(t@.subrange(k as int, len as int)),
        decreases len - k,
    {
        assert(t@.subrange(k as int, len as int).drop_first() =~= t@.subrange(k + 1, len as int));
        k = k + 1;
    }
    String::from_str(t.substring_char(0, k))
}

impl News {
    /// The item made of entry `item`, or the first required field that it lacks
    /// (title, then description, then link).
    pub fn from(item: Entry, image: Option<String>, downloaded: bool, source: &str) -> (r: Result<News, FeedCause>)
        ensures
            r is Err <==> entry_error(item) is Some,
            r matches Err(c) ==> entry_error(item) == Some(c),
            r matches Ok(n) ==> is_news_of(n, item, opt_view(image), downloaded, source@),
    {
        let title = match item.title {
            Some(t) => t,
            None => return Err(FeedCause::MissingTitle),
        };
        let desc = match item.description {
            Some(d) => d,
            None => return Err(FeedCause::MissingDescription),
        };
        let url = match item.link {
            Some(u) => u,
            None => return Err(FeedCause::MissingLink),
        };
        let g1 = String::from_str("G1");
        let src = String::from_str(source);
        let title = if src == g1 {
            strip_parenthetical(title.as_str())
        } else {
            title
        };
        let author = match item.author {
            Some(a) => a,
            None => String::from_str("No author found."),
        };
        Ok(News { title, desc, image, url, author, downloaded, source: src })
    }
}

/// The item made of `item`, an entry of the group `source`. `outcome` says
/// how caching the image that the entry refers to went; it is not read
/// when the entry refers to none. An image that could not be cached leaves
/// the item without one; it does not fail.
pub fn resolve_news(item: Entry, outcome: Result<(), CacheError>, source: &str) -> (r: Result<News, FeedCause>)
    ensures
        r is Err <==> entry_error(item) is Some,
        r matches Err(c) ==> entry_error(item) == Some(c),
        r matches Ok(n) ==> is_news_of(
            n,
            item,
            image_path(item, source@, outcome),
            image_path(item, source@, outcome) is Some,
            source@,
        ),
{
    let image = match image_url(&item, source) {
        Some(u) => match outcome {
            Ok(()) => match cache_path(u.as_str()) {
                Ok(p) => Some(p),
                Err(_) => None,
            },
            Err(_) => None,
        },
        None => None,
    };
    let downloaded = match &image {
        Some(_) => true,
        None => false,
    };
    News::from(item, image, downloaded, source)
}

/// Whether every channel of a group was read.
pub open spec fn all_read(chs: Seq<Result<Vec<Entry>, ParseError>>) -> bool {
    forall|j: int| 0 <= j < chs.len() ==> #[trigger] chs[j] is Ok
}

/// The entries of each channel that was read.
pub open spec fn read_entries(chs: Seq<Result<Vec<Entry>, ParseError>>) -> Seq<Seq<Entry>> {
    chs.map_values(|c: Result<Vec<Entry>, ParseError>| c->Ok_0@)
}

/// The first entries of `s`, as many as the budget allows.
pub open spec fn within_budget(s: Seq<Entry>) -> Seq<Entry> {
    if s.len() <= GROUP_BUDGET {
        s
    } else {
        s.subrange(0, GROUP_BUDGET as int)
    }
}

/// The entries that a group whose channels were all read keeps: the
/// channels merged round-robin, cut to the budget.
pub open spec fn selected(chs: Seq<Result<Vec<Entry>, ParseError>>) -> Seq<Entry> {
    within_budget(interleave(read_entries(chs)))
}

/// Chooses the entries of a source group from what its channels gave:
/// the channels merged round-robin, cut to the budget. The group fails as
/// a whole when one of its channels could not be read, or when there is no
/// channel or they do not have the same number of entries.
pub fn select_entries(channels: Vec<Result<Vec<Entry>, ParseError>>) -> (r: Result<Vec<Entry>, FeedCause>)
    ensures
        !all_read(channels@) ==> (r matches Err(c) && c == FeedCause::Unreadable),
        all_read(channels@) && !mergeable(read_entries(channels@)) ==> (r matches Err(c) && c == FeedCause::UnequalChannels),
        all_read(channels@) && mergeable(read_entries(channels@)) ==> (r matches Ok(v) && v@ == selected(channels@)),
{
    let ghost orig = channels@;
    let n = channels.len();
    let mut k: usize = 0;
    while k < n
        invariant
            n == orig.len(),
            orig == channels@,
            k <= n,
            forall|j: int| 0 <= j < k ==> #[trigger] orig[j] is Ok,
        decreases n - k,
    {
        match &channels[k] {
            Err(_) => return Err(FeedCause::Unreadable),
            Ok(_) => {},
        }
        k = k + 1;
    }
    let mut chs = channels;
    let mut lists: Vec<Vec<Entry>> = Vec::new();
    while chs.len() > 0
        invariant
            n == orig.len(),
            all_read(orig),
            lists@.len() + chs@.len() == n,
            chs@ == orig.subrange(lists@.len() as int, n as int),
            views(lists@) == read_entries(orig).subrange(0, lists@.len() as int),
        decreases chs@.len(),
    {
        let ghost done = lists@.len();
        let c = chs.remove(0);
        assert(c == orig[done as int]);
        match c {
            Ok(v) => lists.push(v),
            Err(_) => return Err(FeedCause::Unreadable),
        }
        assert(views(lists@) =~= read_entries(orig).subrange(0, lists@.len() as int));
        assert(chs@ =~= orig.subrange(lists@.len() as int, n as int));
    }
    assert(views(lists@) =~= read_entries(orig));
    match unify(lists) {
        Err(_) => Err(FeedCause::UnequalChannels),
        Ok(v) => {
            let mut v = v;
            v.truncate(GROUP_BUDGET);
            Ok(v)
        },
    }
}

/// The error of the first entry that lacks a required field.
pub open spec fn first_error(s: Seq<Entry>) -> Option<FeedCause>
    decreases s.len(),
{
    if s.len() == 0 {
        None
    } else {
        match entry_error(s[0]) {
            Some(c) => Some(c),
            None => first_error(s.drop_first()),
        }
    }
}

/// `after` is `before` with one item of the group `source` appended per
/// entry, in order, each with the image that its outcome gives.
pub open spec fn group_appended(
    before: Seq<News>,
    after: Seq<News>,
    entries: Seq<Entry>,
    outcomes: Seq<Result<(), CacheError>>,
    source: Seq<char>,
) -> bool {
    &&& after.len() == before.len() + entries.len()
    &&& after.subrange(0, before.len() as int) == before
    &&& forall|i: int|
        0 <= i < entries.len() ==> #[trigger] is_news_of(
            after[before.len() + i],
            entries[i],
            image_path(entries[i], source, outcomes[i]),
            image_path(entries[i], source, outcomes[i]) is Some,
            source,
        )
}

/// `e` is an error of the group `source` for the cause `c`.
pub open spec fn group_error(e: FeedError, source: Seq<char>, c: FeedCause) -> bool {
    e.source@ == source && e.cause == c
}

/// The item list `after` and result `r` are what refreshing the group
/// `source` from its channels' read results `chs`, with `outcomes` saying
/// how caching the image of each selected entry went, makes of `before`.
/// An unreadable channel, channels that cannot be merged, or a selected
/// entry that lacks a required field fail the group and leave the list
/// as it was; otherwise one item per selected entry is appended.
pub open spec fn group_refreshed(
    before: Seq<News>,
    after: Seq<News>,
    chs: Seq<Result<Vec<Entry>, ParseError>>,
    outcomes: Seq<Result<(), CacheError>>,
    source: Seq<char>,
    r: Result<(), FeedError>,
) -> bool {
    &&& r is Err ==> after == before
    &&& !all_read(chs) ==> (r matches Err(e) && group_error(e, source, FeedCause::Unreadable))
    &&& all_read(chs) && !mergeable(read_entries(chs)) ==> (r matches Err(e) && group_error(
        e,
        source,
        FeedCause::UnequalChannels,
    ))
    &&& all_read(chs) && mergeable(read_entries(chs)) ==> {
        &&& r is Err <==> first_error(selected(chs)) is Some
        &&& r matches Err(e) ==> first_error(selected(chs)) == Some(e.cause) && e.source@ == source
        &&& r is Ok ==> group_appended(before, after, selected(chs), outcomes, source)
    }
}

/// A group keeps exactly the first `GROUP_BUDGET` of its merged entries
/// when it has at least that many.
pub proof fn lemma_budget_keeps_first(s: Seq<Entry>)
    requires
        s.len() >= GROUP_BUDGET,
    ensures
        within_budget(s).len() == GROUP_BUDGET,
        forall|i: int| 0 <= i < GROUP_BUDGET ==> #[trigger] within_budget(s)[i] == s[i],
{
}

/// An image that could not be cached never fails its group, and its entry
/// becomes an item with no image that is not marked as downloaded.
pub proof fn lemma_image_failure_degrades(
    before: Seq<News>,
    after: Seq<News>,
    entries: Seq<Entry>,
    outcomes: Seq<Result<(), CacheError>>,
    source: Seq<char>,
    i: int,
)
    requires
        group_appended(before, after, entries, outcomes, source),
        0 <= i < entries.len(),
        outcomes[i] is Err,
    ensures
        after[before.len() + i].image is None,
        !after[before.len() + i].downloaded,
{
    assert(is_news_of(
        after[before.len() + i],
        entries[i],
        image_path(entries[i], source, outcomes[i]),
        image_path(entries[i], source, outcomes[i]) is Some,
        source,
    ));
}

/// An item marked as downloaded holds the path of its image's cache file,
/// which is never empty; an item not so marked holds no path.
pub proof fn lemma_downloaded_has_cache_path(n: News, e: Entry, source: Seq<char>, outcome: Result<(), CacheError>)
    requires
        is_news_of(n, e, image_path(e, source, outcome), image_path(e, source, outcome) is Some, source),
    ensures
        n.downloaded <==> n.image is Some,
        n.downloaded ==> image_of(e, source) is Some && path_of(image_of(e, source)->Some_0) == Some(
            n.image->Some_0@,
        ) && n.image->Some_0@.len() > 0,
{
    reveal_strlit("/tmp/raspi-pi-reader/");
}

impl Default for RSS {
    fn default() -> (r: RSS)
        ensures
            r.items@.len() == 0,
    {
        RSS { items: Vec::new() }
    }
}

impl RSS {
    /// A list holding exactly `items`.
    pub fn from(items: Vec<News>) -> (r: RSS)
        ensures
            r.items@ == items@,
    {
        RSS { items }
    }

    /// Appends one item of the group `source` per entry; all of them, or,
    /// when an entry lacks a required field, none.
    fn append_group(&mut self, source: &str, entries: Vec<Entry>, outcomes: Vec<Result<(), CacheError>>) -> (r: Result<(), FeedError>)
        requires
            entries@.len() == outcomes@.len(),
        ensures
            r is Err <==> first_error(entries@) is Some,
            r matches Err(e) ==> first_error(entries@) == Some(e.cause) && e.source@ == source@,
            r is Err ==> final(self).items@ == old(self).items@,
            r is Ok ==> group_appended(old(self).items@, final(self).items@, entries@, outcomes@, source@),
    {
        let ghost orig = entries@;
        let n = entries.len();
        let mut rest = entries;
        let mut made: Vec<News> = Vec::new();
        while rest.len() > 0
            invariant
                n == orig.len(),
                orig == entries@,
                n == outcomes@.len(),
                made@.len() + rest@.len() == n,
                rest@ == orig.subrange(made@.len() as int, n as int),
                first_error(orig) == first_error(rest@),
                forall|i: int|
                    0 <= i < made@.len() ==> #[trigger] is_news_of(
                        made@[i],
                        orig[i],
                        image_path(orig[i], source@, outcomes@[i]),
                        image_path(orig[i], source@, outcomes@[i]) is Some,
                        source@,
                    ),
            decreases rest@.len(),
        {
            let ghost before = rest@;
            let k = made.len();
            let entry = rest.remove(0);
            assert(before.drop_first() =~= rest@);
            match resolve_news(entry, outcomes[k], source) {
                Err(c) => {
                    assert(first_error(before) == Some(c));
                    return Err(FeedError { source: String::from_str(source), cause: c });
                },
                Ok(item) => made.push(item),
            }
            assert(rest@ =~= orig.subrange(made@.len() as int, n as int));
        }
        let ghost old_items = self.items@;
        self.items.append(&mut made);
        assert(self.items@.subrange(0, old_items.len() as int) =~= old_items);
        Ok(())
    }

    /// Refreshes the group `source`: chooses its entries from the channels'
    /// read results and appends their items; all of them, or none.
    fn refresh_source(
        &mut self,
        source: &str,
        channels: Vec<Result<Vec<Entry>, ParseError>>,
        outcomes: Vec<Result<(), CacheError>>,
    ) -> (r: Result<(), FeedError>)
        requires
            all_read(channels@) && mergeable(read_entries(channels@)) ==> outcomes@.len() == selected(
                channels@,
            ).len(),
        ensures
            group_refreshed(old(self).items@, final(self).items@, channels@, outcomes@, source@, r),
    {
        match select_entries(channels) {
            Err(c) => Err(FeedError { source: String::from_str(source), cause: c }),
            Ok(entries) => self.append_group(source, entries, outcomes),
        }
    }

    /// Refreshes the "G1" group from its channels' read results; `outcomes`
    /// says how caching the image of each selected entry went.
    pub fn refresh_g1(&mut self, channels: Vec<Result<Vec<Entry>, ParseError>>, outcomes: Vec<Result<(), CacheError>>) -> (r: Result<(), FeedError>)
        requires
            all_read(channels@) && mergeable(read_entries(channels@)) ==> outcomes@.len() == selected(
                channels@,
            ).len(),
        ensures
            group_refreshed(old(self).items@, final(self).items@, channels@, outcomes@, "G1"@, r),
    {
        self.refresh_source("G1", channels, outcomes)
    }

    /// Refreshes the "Sputnik BR" group from its channel's read result;
    /// `outcomes` says how caching the image of each selected entry went.
    pub fn refresh_sputnikbr(
        &mut self,
        channels: Vec<Result<Vec<Entry>, ParseError>>,
        outcomes: Vec<Result<(), CacheError>>,
    ) -> (r: Result<(), FeedError>)
        requires
            all_read(channels@) && mergeable(read_entries(channels@)) ==> outcomes@.len() == selected(
                channels@,
            ).len(),
        ensures
            group_refreshed(old(self).items@, final(self).items@, channels@, outcomes@, "Sputnik BR"@, r),
    {
        self.refresh_source("Sputnik BR", channels, outcomes)
    }
}

} // verus!
