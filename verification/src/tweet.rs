//! The records that are saved: a tweet, its author, and the two together.

use vstd::prelude::*;
use crate::sentiment::Sentiment;

verus! {

/// The author of a tweet, as saved with it.
#[derive(Debug)]
pub struct User {
    pub username: String,
    pub profile_image_url: String,
}

/// What a [`User`] holds, as mathematical values.
pub struct UserView {
    pub username: Seq<char>,
    pub profile_image_url: Seq<char>,
}

impl View for User {
    type V = UserView;

    open spec fn view(&self) -> UserView {
        UserView { username: self.username@, profile_image_url: self.profile_image_url@ }
    }
}

impl DeepView for User {
    type V = UserView;

    open spec fn deep_view(&self) -> UserView {
        self@
    }
}

/// A tweet, as saved: where it lives, what it says and when it was written.
#[derive(Debug)]
pub struct Tweet {
    pub url: String,
    pub content: String,
    pub created_at: String,
}

/// What a [`Tweet`] holds, as mathematical values.
pub struct TweetView {
    pub url: Seq<char>,
    pub content: Seq<char>,
    pub created_at: Seq<char>,
}

impl View for Tweet {
    type V = TweetView;

    open spec fn view(&self) -> TweetView {
        TweetView { url: self.url@, content: self.content@, created_at: self.created_at@ }
    }
}

impl DeepView for Tweet {
    type V = TweetView;

    open spec fn deep_view(&self) -> TweetView {
        self@
    }
}

/// One entry of the saved set: a tweet with its author by value.
///
/// The sentiment is known only for entries classified in this run; it is
/// never saved, so entries read back carry `None`.
#[derive(Debug)]
pub struct HappyTweet {
    pub user: User,
    pub tweet: Tweet,
    pub sentiment: Option<Sentiment>,
}

/// What a [`HappyTweet`] holds, as mathematical values.
pub struct HappyTweetView {
    pub user: UserView,
    pub tweet: TweetView,
    pub sentiment: Option<Sentiment>,
}

impl HappyTweetView {
    /// Two entries are the same entry when their URLs match.
    pub open spec fn same_entry(self, other: HappyTweetView) -> bool {
        self.tweet.url == other.tweet.url
    }

    /// The entry was classified and found positive.
    pub open spec fn happy(self) -> bool {
        match self.sentiment {
            Some(s) => s.positive(),
            None => false,
        }
    }
}

impl View for HappyTweet {
    type V = HappyTweetView;

    open spec fn view(&self) -> HappyTweetView {
        HappyTweetView { user: self.user@, tweet: self.tweet@, sentiment: self.sentiment }
    }
}

impl DeepView for HappyTweet {
    type V = HappyTweetView;

    open spec fn deep_view(&self) -> HappyTweetView {
        self@
    }
}

/// Some entry has the given URL.
pub open spec fn has_url(entries: Seq<HappyTweetView>, url: Seq<char>) -> bool {
    exists|i: int| 0 <= i < entries.len() && (#[trigger] entries[i]).tweet.url == url
}

/// No two entries share a URL: what makes a list of entries a set.
pub open spec fn distinct_urls(entries: Seq<HappyTweetView>) -> bool {
    forall|i: int, j: int|
        0 <= i < j < entries.len() ==> (#[trigger] entries[i]).tweet.url != (
        #[trigger] entries[j]).tweet.url
}

impl PartialEq for HappyTweet {
    /// Entries compare by URL alone.
    fn eq(&self, other: &Self) -> (b: bool) {
        self.tweet.url == other.tweet.url
    }
}

impl vstd::std_specs::cmp::PartialEqSpecImpl for HappyTweet {
    open spec fn obeys_eq_spec() -> bool {
        true
    }

    open spec fn eq_spec(&self, other: &Self) -> bool {
        self.tweet.url@ == other.tweet.url@
    }
}

impl HappyTweet {
    /// Whether the entry was classified and found positive.
    pub fn is_happy(&self) -> (b: bool)
        ensures
            b == self@.happy(),
    {
        match &self.sentiment {
            Some(sentiment) => sentiment.is_positive(),
            None => false,
        }
    }
}

} // verus!
