//! The text of the two request URLs, as sequences of characters.

use vstd::prelude::*;

verus! {

/// The Channels request for `username`, authorised by `key`.
///
/// Both arguments are inserted as they are: nothing is percent-encoded.
pub open spec fn channels_url(key: Seq<char>, username: Seq<char>) -> Seq<char> {
    "https://www.googleapis.com/youtube/v3/channels?part=contentDetails&key="@ + key
        + "&forUsername="@ + username
}

/// The PlaylistItems request for the first page of `playlist_id`: at most 50
/// items, with their content details.
pub open spec fn playlist_first_page_url(key: Seq<char>, playlist_id: Seq<char>) -> Seq<char> {
    "https://www.googleapis.com/youtube/v3/playlistItems?key="@ + key
        + "&part=contentDetails&maxResults=50&playlistId="@ + playlist_id
}

/// The PlaylistItems request for one page of `playlist_id`.
///
/// Without a page token it asks for the first page. With one, the token is
/// appended as the last query parameter.
pub open spec fn playlist_items_url(
    key: Seq<char>,
    playlist_id: Seq<char>,
    page_token: Option<Seq<char>>,
) -> Seq<char> {
    match page_token {
        None => playlist_first_page_url(key, playlist_id),
        Some(token) => playlist_first_page_url(key, playlist_id) + "&pageToken="@ + token,
    }
}

} // verus!
