//! The API client's state and the requests it makes.

use vstd::prelude::*;
use crate::url::{channels_url, playlist_items_url};

verus! {

/// A client of the YouTube Data API, identified by its API key.
pub struct MyApi {
    key: String,
}

impl MyApi {
    /// The API key that every request of this client carries.
    pub closed spec fn key(&self) -> Seq<char> {
        self.key@
    }

    /// A client that authorises its requests with `key`.
    pub fn new(key: String) -> (api: Self)
        ensures
            api.key() == key@,
    {
        MyApi { key }
    }

    /// The URL to fetch for the channel that belongs to `username`.
    ///
    /// The answer lists the matching channels with their content details,
    /// among them the uploads playlist.
    pub fn channel_info_url(&self, username: &str) -> (url: String)
        ensures
            url@ == channels_url(self.key(), username@),
    {
        let mut url = String::from_str(
            "https://www.googleapis.com/youtube/v3/channels?part=contentDetails&key=",
        );
        url.append(self.key.as_str());
        url.append("&forUsername=");
        url.append(username);
        url
    }

    /// The URL to fetch for one page of the playlist `uploads_id`.
    ///
    /// `page_token` is the cursor that an earlier page handed out, or `None`
    /// for the first page.
    pub fn items_url(&self, uploads_id: &str, page_token: Option<&str>) -> (url: String)
        ensures
            url@ == playlist_items_url(
                self.key(),
                uploads_id@,
                match page_token {
                    Some(token) => Some(token@),
                    None => None,
                },
            ),
    {
        let mut url = String::from_str("https://www.googleapis.com/youtube/v3/playlistItems?key=");
        url.append(self.key.as_str());
        url.append("&part=contentDetails&maxResults=50&playlistId=");
        url.append(uploads_id);
        match page_token {
            None => {},
            Some(token) => {
                url.append("&pageToken=");
                url.append(token);
            },
        }
        url
    }
}

} // verus!
