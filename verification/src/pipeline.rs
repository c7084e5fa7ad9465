//! From one page of search results and the classifier's verdicts to the
//! happy tweets of this run.

use vstd::prelude::*;
use vstd::string::*;
use crate::api::{
    TwitterApiResponse, TwitterApiResponseData, TwitterApiResponseDataView,
    TwitterApiResponseUser, TwitterApiResponseUserView,
};
use crate::error::Error;
use crate::sentiment::{Polarity, Sentiment};
use crate::tweet::{distinct_urls, HappyTweet, HappyTweetView, Tweet, TweetView, User, UserView};

verus! {

/// The texts of the tweets, in the order received.
pub open spec fn texts_of(posts: Seq<TwitterApiResponseDataView>) -> Seq<Seq<char>> {
    Seq::new(posts.len(), |i: int| posts[i].text)
}

/// Collects the text of every tweet of the page, in the order received:
/// the batch handed to the classifier.
pub fn tweet_texts(response: &TwitterApiResponse) -> (texts: Vec<String>)
    ensures
        texts.deep_view() == texts_of(response.posts()),
{
    let mut texts: Vec<String> = Vec::new();
    let n = response.data.len();
    for i in 0..n
        invariant
            n == response.data.len(),
            texts.len() == i,
            forall|j: int| 0 <= j < i ==> texts@[j]@ == response.data@[j].text@,
    {
        texts.push(response.data[i].text.clone());
    }
    assert(texts.deep_view() =~= texts_of(response.posts()));
    texts
}

/// The permanent address of a tweet: the author's handle and the tweet's id
/// under the site's domain.
pub open spec fn tweet_url(username: Seq<char>, id: Seq<char>) -> Seq<char> {
    "https://twitter.com/"@ + username + "/status/"@ + id
}

/// Builds the permanent address of a tweet.
pub fn permanent_url(username: &str, id: &str) -> (url: String)
    ensures
        url@ == tweet_url(username@, id@),
{
    let mut url = String::from_str("https://twitter.com/");
    url.append(username);
    url.append("/status/");
    url.append(id);
    url
}

/// The first author of the page with the given id, if there is one.
pub open spec fn author(users: Seq<TwitterApiResponseUserView>, id: Seq<char>) -> Option<
    TwitterApiResponseUserView,
>
    decreases users.len(),
{
    if users.len() == 0 {
        None
    } else if users[0].id == id {
        Some(users[0])
    } else {
        author(users.drop_first(), id)
    }
}

/// Looks an author up by id. Of several with the same id the first counts.
pub fn find_author<'a>(users: &'a Vec<TwitterApiResponseUser>, id: &String) -> (found: Option<
    &'a TwitterApiResponseUser,
>)
    ensures
        match found {
            Some(user) => author(users.deep_view(), id@) == Some(user@),
            None => author(users.deep_view(), id@) is None,
        },
{
    let n = users.len();
    let ghost all = users.deep_view();
    assert(all.skip(0) =~= all);
    for i in 0..n
        invariant
            n == users.len(),
            all == users.deep_view(),
            author(all, id@) == author(all.skip(i as int), id@),
    {
        assert(all.skip(i as int)[0] == users@[i as int]@);
        if users[i].id == *id {
            return Some(&users[i]);
        }
        assert(all.skip(i as int).drop_first() =~= all.skip(i + 1));
    }
    None
}

/// The entry made of a tweet, its author and the verdict on its text.
pub open spec fn happy_tweet(
    post: TwitterApiResponseDataView,
    user: TwitterApiResponseUserView,
    sentiment: Sentiment,
) -> HappyTweetView {
    HappyTweetView {
        user: UserView { username: user.username, profile_image_url: user.profile_image_url },
        tweet: TweetView {
            url: tweet_url(user.username, post.id),
            content: post.text,
            created_at: post.created_at,
        },
        sentiment: Some(sentiment),
    }
}

/// Builds the entry for one tweet.
pub fn make_happy_tweet(
    post: &TwitterApiResponseData,
    user: &TwitterApiResponseUser,
    sentiment: Sentiment,
) -> (entry: HappyTweet)
    ensures
        entry@ == happy_tweet(post@, user@, sentiment),
{
    HappyTweet {
        tweet: Tweet {
            content: post.text.clone(),
            url: permanent_url(user.username.as_str(), post.id.as_str()),
            created_at: post.created_at.clone(),
        },
        user: User {
            username: user.username.clone(),
            profile_image_url: user.profile_image_url.clone(),
        },
        sentiment: Some(sentiment),
    }
}

/// Every tweet of the page names an author that the page holds.
pub open spec fn authors_known(
    posts: Seq<TwitterApiResponseDataView>,
    users: Seq<TwitterApiResponseUserView>,
) -> bool {
    forall|i: int| 0 <= i < posts.len() ==> author(users, (#[trigger] posts[i]).author_id) is Some
}

/// The entries of a page: tweet `i` joined to its author and to verdict `i`.
pub open spec fn classified(
    posts: Seq<TwitterApiResponseDataView>,
    users: Seq<TwitterApiResponseUserView>,
    sentiments: Seq<Sentiment>,
) -> Seq<HappyTweetView> {
    Seq::new(
        posts.len(),
        |i: int| happy_tweet(posts[i], author(users, posts[i].author_id).unwrap(), sentiments[i]),
    )
}

/// Joins each tweet of the page to its author and to the verdict at the
/// same position.
///
/// The verdicts must be those of the texts of this page, one for each, in
/// order. A tweet whose author the page does not hold fails the whole page.
pub fn classified_tweets(response: &TwitterApiResponse, sentiments: &Vec<Sentiment>) -> (result:
    Result<Vec<HappyTweet>, Error>)
    requires
        sentiments.len() == response.data.len(),
    ensures
        match result {
            Ok(tweets) => authors_known(response.posts(), response.authors())
                && tweets.deep_view() == classified(
                response.posts(),
                response.authors(),
                sentiments@,
            ),
            Err(e) => e == Error::MissingAuthor && !authors_known(
                response.posts(),
                response.authors(),
            ),
        },
{
    let mut tweets: Vec<HappyTweet> = Vec::new();
    let n = response.data.len();
    let ghost posts = response.posts();
    let ghost users = response.authors();
    for i in 0..n
        invariant
            n == response.data.len(),
            n == sentiments.len(),
            posts == response.posts(),
            users == response.authors(),
            tweets.len() == i,
            forall|j: int| 0 <= j < i ==> author(users, (#[trigger] posts[j]).author_id) is Some,
            forall|j: int|
                0 <= j < i ==> (#[trigger] tweets@[j])@ == happy_tweet(
                    posts[j],
                    author(users, posts[j].author_id).unwrap(),
                    sentiments@[j],
                ),
    {
        let post = &response.data[i];
        assert(posts[i as int] == post@);
        match find_author(&response.includes.users, &post.author_id) {
            Some(user) => {
                tweets.push(make_happy_tweet(post, user, sentiments[i]));
            },
            None => {
                return Err(Error::MissingAuthor);
            },
        }
    }
    assert(tweets.deep_view() =~= classified(posts, users, sentiments@));
    Ok(tweets)
}

/// The entries that were classified and found positive, in order.
pub open spec fn positives(tweets: Seq<HappyTweetView>) -> Seq<HappyTweetView> {
    tweets.filter(|t: HappyTweetView| t.happy())
}

/// Whatever passes the filter was classified positive, and stood in the
/// list that was filtered.
pub proof fn passed_is_positive(tweets: Seq<HappyTweetView>, i: int)
    requires
        0 <= i < positives(tweets).len(),
    ensures
        positives(tweets)[i].sentiment matches Some(s) && s.polarity == Polarity::Positive,
        tweets.contains(positives(tweets)[i]),
{
    let happy = |t: HappyTweetView| t.happy();
    tweets.lemma_filter_pred(happy, i);
    assert(positives(tweets).contains(positives(tweets)[i]));
    tweets.lemma_filter_contains_rev(happy, positives(tweets)[i]);
}

/// An entry classified negative or neutral, or not classified at all, never
/// passes the filter, whatever the confidence of its verdict.
pub proof fn other_never_passes(tweets: Seq<HappyTweetView>, entry: HappyTweetView, score_bits: u64)
    requires
        entry.sentiment is None || entry.sentiment == Some(
            Sentiment { polarity: Polarity::Negative, score_bits },
        ) || entry.sentiment == Some(Sentiment { polarity: Polarity::Neutral, score_bits }),
    ensures
        !positives(tweets).contains(entry),
{
    if positives(tweets).contains(entry) {
        let i = choose|i: int| 0 <= i < positives(tweets).len() && positives(tweets)[i] == entry;
        passed_is_positive(tweets, i);
    }
}

/// Every entry classified positive passes the filter, whatever the
/// confidence of its verdict.
pub proof fn positive_always_passes(tweets: Seq<HappyTweetView>, i: int)
    requires
        0 <= i < tweets.len(),
        tweets[i].sentiment matches Some(s) && s.polarity == Polarity::Positive,
    ensures
        positives(tweets).contains(tweets[i]),
{
    tweets.lemma_filter_contains(|t: HappyTweetView| t.happy(), i);
}

/// Keeps the positive entries and drops every other for good.
pub fn keep_positive(tweets: Vec<HappyTweet>) -> (kept: Vec<HappyTweet>)
    ensures
        kept.deep_view() == positives(tweets.deep_view()),
{
    let ghost all = tweets.deep_view();
    let mut kept: Vec<HappyTweet> = Vec::new();
    proof {
        reveal(Seq::filter);
        assert(all.take(0) =~= Seq::empty());
    }
    for tweet in it: tweets
        invariant
            all.len() == it.seq().len(),
            forall|j: int| 0 <= j < all.len() ==> all[j] == (#[trigger] it.seq()[j])@,
            kept.deep_view() == positives(all.take(it.index() as int)),
    {
        proof {
            let i = it.index() as int;
            assert(all.take(i + 1) =~= all.take(i).push(tweet@));
            all.take(i).lemma_filter_push(tweet@, |t: HappyTweetView| t.happy());
        }
        let ghost before = kept.deep_view();
        if tweet.is_happy() {
            kept.push(tweet);
            assert(kept.deep_view() =~= before.push(tweet@));
        }
    }
    assert(all.take(all.len() as int) =~= all);
    kept
}

/// The happy tweets of a page: every tweet joined to its author and verdict,
/// then the positive ones alone.
pub fn happy_tweets(response: &TwitterApiResponse, sentiments: &Vec<Sentiment>) -> (result:
    Result<Vec<HappyTweet>, Error>)
    requires
        sentiments.len() == response.data.len(),
    ensures
        match result {
            Ok(tweets) => authors_known(response.posts(), response.authors())
                && tweets.deep_view() == positives(
                classified(response.posts(), response.authors(), sentiments@),
            ),
            Err(e) => e == Error::MissingAuthor && !authors_known(
                response.posts(),
                response.authors(),
            ),
        },
{
    match classified_tweets(response, sentiments) {
        Ok(tweets) => Ok(keep_positive(tweets)),
        Err(e) => Err(e),
    }
}

/// No tweet id holds a slash, and no two tweets share an id.
pub open spec fn distinct_ids(posts: Seq<TwitterApiResponseDataView>) -> bool {
    &&& forall|i: int| 0 <= i < posts.len() ==> !(#[trigger] posts[i]).id.contains('/')
    &&& forall|i: int, j: int|
        0 <= i < j < posts.len() ==> (#[trigger] posts[i]).id != (#[trigger] posts[j]).id
}

/// Two tweets with one address have one id, as long as no id holds a slash.
pub proof fn url_tells_id(
    username: Seq<char>,
    id: Seq<char>,
    other_username: Seq<char>,
    other_id: Seq<char>,
)
    requires
        !id.contains('/'),
        !other_id.contains('/'),
        tweet_url(username, id) == tweet_url(other_username, other_id),
    ensures
        id == other_id,
        username == other_username,
{
    reveal_strlit("https://twitter.com/");
    reveal_strlit("/status/");
    let url = tweet_url(username, id);
    let other = tweet_url(other_username, other_id);
    let head = "https://twitter.com/"@;
    let mid = "/status/"@;
    assert(url.len() == head.len() + username.len() + mid.len() + id.len());
    assert(other.len() == head.len() + other_username.len() + mid.len() + other_id.len());
    // The character before each id is the slash that ends "/status/".
    assert(url[url.len() - id.len() - 1] == '/');
    assert(other[other.len() - other_id.len() - 1] == '/');
    if id.len() < other_id.len() {
        let k = url.len() - id.len() - 1;
        assert(other[k] == other_id[k - (other.len() - other_id.len())]);
        assert(false);
    }
    if other_id.len() < id.len() {
        let k = other.len() - other_id.len() - 1;
        assert(url[k] == id[k - (url.len() - id.len())]);
        assert(false);
    }
    assert(id =~= other_id) by {
        assert forall|k: int| 0 <= k < id.len() implies id[k] == other_id[k] by {
            assert(url[url.len() - id.len() + k] == id[k]);
            assert(other[other.len() - other_id.len() + k] == other_id[k]);
        }
    }
    assert(username =~= other_username) by {
        assert forall|k: int| 0 <= k < username.len() implies username[k] == other_username[k] by {
            assert(url[head.len() + k] == username[k]);
            assert(other[head.len() + k] == other_username[k]);
        }
    }
}

/// Filtering leaves no URL twice where none was twice before.
pub proof fn positives_stay_distinct(tweets: Seq<HappyTweetView>)
    requires
        distinct_urls(tweets),
    ensures
        distinct_urls(positives(tweets)),
    decreases tweets.len(),
{
    reveal(Seq::filter);
    let happy = |t: HappyTweetView| t.happy();
    if tweets.len() > 0 {
        let rest = tweets.drop_last();
        positives_stay_distinct(rest);
        let kept = positives(rest);
        if happy(tweets.last()) {
            let all = positives(tweets);
            assert(all == kept.push(tweets.last()));
            assert forall|i: int, j: int| 0 <= i < j < all.len() implies (#[trigger] all[i]).tweet.url
                != (#[trigger] all[j]).tweet.url by {
                if j == all.len() - 1 {
                    assert(kept.contains(kept[i]));
                    rest.lemma_filter_contains_rev(happy, kept[i]);
                    let k = choose|k: int| 0 <= k < rest.len() && rest[k] == kept[i];
                    assert(tweets[k] == kept[i]);
                    assert(tweets[tweets.len() - 1] == all[j]);
                } else {
                    assert(all[i] == kept[i] && all[j] == kept[j]);
                }
            }
        }
    }
}

/// The happy tweets of a page are a set: where no tweet id holds a slash and
/// no two tweets of the page share an id, no two entries share a URL.
pub proof fn page_gives_a_set(
    posts: Seq<TwitterApiResponseDataView>,
    users: Seq<TwitterApiResponseUserView>,
    sentiments: Seq<Sentiment>,
)
    requires
        distinct_ids(posts),
    ensures
        distinct_urls(classified(posts, users, sentiments)),
        distinct_urls(positives(classified(posts, users, sentiments))),
{
    let all = classified(posts, users, sentiments);
    assert forall|i: int, j: int| 0 <= i < j < all.len() implies (#[trigger] all[i]).tweet.url != (
    #[trigger] all[j]).tweet.url by {
        if all[i].tweet.url == all[j].tweet.url {
            url_tells_id(
                author(users, posts[i].author_id).unwrap().username,
                posts[i].id,
                author(users, posts[j].author_id).unwrap().username,
                posts[j].id,
            );
        }
    }
    positives_stay_distinct(all);
}

} // verus!
