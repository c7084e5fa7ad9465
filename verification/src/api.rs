//! The shape of one page of search results.

use vstd::prelude::*;

verus! {

/// One tweet as the search returns it.
#[derive(Debug)]
pub struct TwitterApiResponseData {
    pub text: String,
    pub created_at: String,
    pub author_id: String,
    pub id: String,
}

/// What a [`TwitterApiResponseData`] holds, as mathematical values.
pub struct TwitterApiResponseDataView {
    pub text: Seq<char>,
    pub created_at: Seq<char>,
    pub author_id: Seq<char>,
    pub id: Seq<char>,
}

impl View for TwitterApiResponseData {
    type V = TwitterApiResponseDataView;

    open spec fn view(&self) -> TwitterApiResponseDataView {
        TwitterApiResponseDataView {
            text: self.text@,
            created_at: self.created_at@,
            author_id: self.author_id@,
            id: self.id@,
        }
    }
}

impl DeepView for TwitterApiResponseData {
    type V = TwitterApiResponseDataView;

    open spec fn deep_view(&self) -> TwitterApiResponseDataView {
        self@
    }
}

/// One author as the search returns it, beside the tweets.
#[derive(Debug)]
pub struct TwitterApiResponseUser {
    pub id: String,
    pub username: String,
    pub name: String,
    pub profile_image_url: String,
}

/// What a [`TwitterApiResponseUser`] holds, as mathematical values.
pub struct TwitterApiResponseUserView {
    pub id: Seq<char>,
    pub username: Seq<char>,
    pub name: Seq<char>,
    pub profile_image_url: Seq<char>,
}

impl View for TwitterApiResponseUser {
    type V = TwitterApiResponseUserView;

    open spec fn view(&self) -> TwitterApiResponseUserView {
        TwitterApiResponseUserView {
            id: self.id@,
            username: self.username@,
            name: self.name@,
            profile_image_url: self.profile_image_url@,
        }
    }
}

impl DeepView for TwitterApiResponseUser {
    type V = TwitterApiResponseUserView;

    open spec fn deep_view(&self) -> TwitterApiResponseUserView {
        self@
    }
}

/// The records the search adds to a page: the authors of its tweets.
#[derive(Debug)]
pub struct TwitterApiResponseIncludes {
    pub users: Vec<TwitterApiResponseUser>,
}

/// Paging information of a page. Nothing here reads it.
#[derive(Debug)]
pub struct TwitterApiResponseMeta {
    pub newest_id: String,
    pub oldest_id: String,
    pub result_count: u16,
    pub next_token: String,
}

/// One page of search results.
#[derive(Debug)]
pub struct TwitterApiResponse {
    pub data: Vec<TwitterApiResponseData>,
    pub includes: TwitterApiResponseIncludes,
    pub meta: TwitterApiResponseMeta,
}

impl TwitterApiResponse {
    /// The tweets of the page, in the order received.
    pub open spec fn posts(&self) -> Seq<TwitterApiResponseDataView> {
        self.data.deep_view()
    }

    /// The authors of the page, in the order received.
    pub open spec fn authors(&self) -> Seq<TwitterApiResponseUserView> {
        self.includes.users.deep_view()
    }
}

} // verus!
