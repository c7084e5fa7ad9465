//! Merging the happy tweets of this run into those saved before.
//!
//! An entry is known by the URL of its tweet. The entries of this run come
//! first and are never displaced; an entry saved before is appended only if
//! its URL is not in the set yet.

use vstd::prelude::*;
use crate::api::{TwitterApiResponseDataView, TwitterApiResponseUserView};
use crate::error::Error;
use crate::pipeline::{classified, distinct_ids, page_gives_a_set, positives};
use crate::sentiment::Sentiment;
use crate::tweet::{distinct_urls, has_url, HappyTweet, HappyTweetView};

verus! {

/// The set after merging: `new`, then each entry of `old`, in order, whose
/// URL the set does not hold by then.
pub open spec fn merged(new: Seq<HappyTweetView>, old: Seq<HappyTweetView>) -> Seq<
    HappyTweetView,
>
    decreases old.len(),
{
    if old.len() == 0 {
        new
    } else {
        let so_far = merged(new, old.drop_last());
        if has_url(so_far, old.last().tweet.url) {
            so_far
        } else {
            so_far.push(old.last())
        }
    }
}

/// Whether the set holds an entry with the URL of `entry`.
pub fn contains(tweets: &Vec<HappyTweet>, entry: &HappyTweet) -> (found: bool)
    ensures
        found == has_url(tweets.deep_view(), entry@.tweet.url),
{
    let n = tweets.len();
    for i in 0..n
        invariant
            n == tweets.len(),
            forall|j: int|
                0 <= j < i ==> (#[trigger] tweets.deep_view()[j]).tweet.url != entry@.tweet.url,
    {
        assert(tweets.deep_view()[i as int] == tweets@[i as int]@);
        if tweets[i] == *entry {
            return true;
        }
    }
    false
}

/// Extends the entries of this run by those saved before that are not in
/// the set yet.
pub fn merge(new: Vec<HappyTweet>, old: Vec<HappyTweet>) -> (all: Vec<HappyTweet>)
    ensures
        all.deep_view() == merged(new.deep_view(), old.deep_view()),
        distinct_urls(new.deep_view()) ==> distinct_urls(all.deep_view()),
{
    let ghost fresh = new.deep_view();
    let ghost prior = old.deep_view();
    let mut tweets = new;
    assert(prior.take(0) =~= Seq::empty());
    for existing in it: old
        invariant
            prior.len() == it.seq().len(),
            forall|j: int| 0 <= j < prior.len() ==> prior[j] == (#[trigger] it.seq()[j])@,
            tweets.deep_view() == merged(fresh, prior.take(it.index() as int)),
    {
        proof {
            let i = it.index() as int;
            assert(prior.take(i + 1).drop_last() =~= prior.take(i));
            assert(prior.take(i + 1).last() == existing@);
        }
        let ghost before = tweets.deep_view();
        if !contains(&tweets, &existing) {
            tweets.push(existing);
            assert(tweets.deep_view() =~= before.push(existing@));
        }
    }
    assert(prior.take(prior.len() as int) =~= prior);
    proof {
        if distinct_urls(fresh) {
            merge_keeps_urls_distinct(fresh, prior);
        }
    }
    tweets
}

/// What the output location held when the run began.
pub enum Prior {
    /// There was no file.
    Absent,
    /// There was a file, and it does not read as a saved set.
    Corrupt,
    /// There was a file, and it holds these entries.
    Saved(Vec<HappyTweet>),
}

/// The set to write: the entries of this run where nothing was saved before,
/// else the two merged. A file that cannot be read back fails the run before
/// anything is written.
pub fn combine(new: Vec<HappyTweet>, prior: Prior) -> (result: Result<Vec<HappyTweet>, Error>)
    ensures
        match prior {
            Prior::Absent => result matches Ok(all) && all == new,
            Prior::Corrupt => result matches Err(e) && e == Error::CorruptState,
            Prior::Saved(old) => result matches Ok(all) && all.deep_view() == merged(
                new.deep_view(),
                old.deep_view(),
            ),
        },
{
    match prior {
        Prior::Absent => Ok(new),
        Prior::Corrupt => Err(Error::CorruptState),
        Prior::Saved(old) => Ok(merge(new, old)),
    }
}

/// The entries saved before that the entries of this run do not displace.
pub open spec fn unseen(new: Seq<HappyTweetView>, old: Seq<HappyTweetView>) -> Seq<
    HappyTweetView,
> {
    old.filter(|o: HappyTweetView| !has_url(new, o.tweet.url))
}

/// Merging with nothing saved before leaves the entries of this run as
/// they are.
pub proof fn merge_with_nothing(new: Seq<HappyTweetView>)
    ensures
        merged(new, Seq::empty()) == new,
{
}

/// The entries of this run open the merged set, unchanged and in order.
pub proof fn merge_keeps_new(new: Seq<HappyTweetView>, old: Seq<HappyTweetView>)
    ensures
        new.len() <= merged(new, old).len() <= new.len() + old.len(),
        merged(new, old).take(new.len() as int) == new,
    decreases old.len(),
{
    if old.len() > 0 {
        merge_keeps_new(new, old.drop_last());
        let so_far = merged(new, old.drop_last());
        assert(so_far.push(old.last()).take(new.len() as int) =~= so_far.take(new.len() as int));
    } else {
        assert(new.take(new.len() as int) =~= new);
    }
}

/// Every entry of the merged set after those of this run was saved before.
pub proof fn merge_adds_only_old(new: Seq<HappyTweetView>, old: Seq<HappyTweetView>, k: int)
    requires
        new.len() <= k < merged(new, old).len(),
    ensures
        old.contains(merged(new, old)[k]),
    decreases old.len(),
{
    merge_keeps_new(new, old);
    if old.len() > 0 {
        let rest = old.drop_last();
        let so_far = merged(new, rest);
        merge_keeps_new(new, rest);
        if k < so_far.len() {
            merge_adds_only_old(new, rest, k);
            let j = choose|j: int| 0 <= j < rest.len() && rest[j] == so_far[k];
            assert(old[j] == merged(new, old)[k]);
        } else {
            assert(old[old.len() - 1] == merged(new, old)[k]);
        }
    }
}

/// The URL of every entry, of this run or saved before, is in the merged
/// set.
pub proof fn merge_covers_both(new: Seq<HappyTweetView>, old: Seq<HappyTweetView>, url: Seq<char>)
    ensures
        has_url(merged(new, old), url) <==> has_url(new, url) || has_url(old, url),
    decreases old.len(),
{
    let all = merged(new, old);
    if old.len() > 0 {
        let rest = old.drop_last();
        let so_far = merged(new, rest);
        merge_covers_both(new, rest, url);
        if has_url(all, url) {
            let k = choose|k: int| 0 <= k < all.len() && (#[trigger] all[k]).tweet.url == url;
            if k < so_far.len() {
                assert(so_far[k].tweet.url == url);
                if !has_url(new, url) {
                    let j = choose|j: int| 0 <= j < rest.len() && (#[trigger] rest[j]).tweet.url == url;
                    assert(old[j].tweet.url == url);
                }
            } else {
                assert(old[old.len() - 1].tweet.url == url);
            }
        }
        if has_url(new, url) || has_url(rest, url) {
            let k = choose|k: int| 0 <= k < so_far.len() && (#[trigger] so_far[k]).tweet.url == url;
            assert(all[k].tweet.url == url);
        } else if has_url(old, url) {
            let j = choose|j: int| 0 <= j < old.len() && (#[trigger] old[j]).tweet.url == url;
            if j < rest.len() {
                assert(rest[j].tweet.url == url);
            } else if has_url(so_far, url) {
                let k = choose|k: int| 0 <= k < so_far.len() && (#[trigger] so_far[k]).tweet.url == url;
                assert(all[k].tweet.url == url);
            } else {
                assert(all[all.len() - 1].tweet.url == url);
            }
        }
    }
}

/// If no two entries of this run share a URL, no two entries of the merged
/// set do, whatever was saved before.
pub proof fn merge_keeps_urls_distinct(new: Seq<HappyTweetView>, old: Seq<HappyTweetView>)
    requires
        distinct_urls(new),
    ensures
        distinct_urls(merged(new, old)),
    decreases old.len(),
{
    if old.len() > 0 {
        merge_keeps_urls_distinct(new, old.drop_last());
    }
}

/// Where this run and the saved set both hold a URL, the merged set holds
/// the entry of this run for it and no other.
pub proof fn merge_prefers_new(
    new: Seq<HappyTweetView>,
    old: Seq<HappyTweetView>,
    i: int,
    k: int,
)
    requires
        distinct_urls(new),
        0 <= i < new.len(),
        0 <= k < merged(new, old).len(),
        merged(new, old)[k].tweet.url == new[i].tweet.url,
    ensures
        k == i,
        merged(new, old)[k] == new[i],
{
    merge_keeps_new(new, old);
    merge_keeps_urls_distinct(new, old);
    let all = merged(new, old);
    assert(all.take(new.len() as int)[i] == all[i]);
}

/// If no two saved entries share a URL, the merged set is the entries of
/// this run followed by the saved entries whose URL this run does not hold.
pub proof fn merge_appends_unseen(new: Seq<HappyTweetView>, old: Seq<HappyTweetView>)
    requires
        distinct_urls(old),
    ensures
        merged(new, old) == new + unseen(new, old),
    decreases old.len(),
{
    reveal(Seq::filter);
    let keep = |o: HappyTweetView| !has_url(new, o.tweet.url);
    if old.len() == 0 {
        assert(new + unseen(new, old) =~= new);
    } else {
        let rest = old.drop_last();
        let last = old.last();
        let so_far = merged(new, rest);
        merge_appends_unseen(new, rest);
        let kept = unseen(new, rest);
        assert(so_far == new + kept);
        assert(!has_url(kept, last.tweet.url)) by {
            if has_url(kept, last.tweet.url) {
                let k = choose|k: int| 0 <= k < kept.len() && (#[trigger] kept[k]).tweet.url == last.tweet.url;
                rest.lemma_filter_contains_rev(keep, kept[k]);
                let j = choose|j: int| 0 <= j < rest.len() && rest[j] == kept[k];
                assert(old[j].tweet.url == old[old.len() - 1].tweet.url);
            }
        }
        assert(has_url(so_far, last.tweet.url) <==> has_url(new, last.tweet.url)) by {
            if has_url(so_far, last.tweet.url) {
                let k = choose|k: int| 0 <= k < so_far.len() && (#[trigger] so_far[k]).tweet.url == last.tweet.url;
                if k >= new.len() {
                    assert(kept[k - new.len()].tweet.url == last.tweet.url);
                } else {
                    assert(new[k].tweet.url == last.tweet.url);
                }
            }
            if has_url(new, last.tweet.url) {
                let k = choose|k: int| 0 <= k < new.len() && (#[trigger] new[k]).tweet.url == last.tweet.url;
                assert(so_far[k].tweet.url == last.tweet.url);
            }
        }
        if keep(last) {
            assert(unseen(new, old) == kept.push(last));
            assert(so_far.push(last) =~= new + kept.push(last));
        } else {
            assert(unseen(new, old) == kept);
        }
    }
}

/// What a run writes is a set: where no tweet id of the page holds a slash
/// and no two tweets of the page share an id, no two entries of the merged
/// set share a URL, whatever was saved before.
pub proof fn run_gives_a_set(
    posts: Seq<TwitterApiResponseDataView>,
    users: Seq<TwitterApiResponseUserView>,
    sentiments: Seq<Sentiment>,
    old: Seq<HappyTweetView>,
)
    requires
        distinct_ids(posts),
    ensures
        distinct_urls(merged(positives(classified(posts, users, sentiments)), old)),
{
    page_gives_a_set(posts, users, sentiments);
    merge_keeps_urls_distinct(positives(classified(posts, users, sentiments)), old);
}

} // verus!
