//! The answer of the Channels endpoint, as far as this library reads it.

use vstd::prelude::*;

verus! {

/// The playlists that YouTube keeps for a channel.
#[derive(Debug)]
pub struct UploadInfo {
    /// Identifier of the playlist that holds every video the channel published.
    pub uploads: String,
}

/// The `contentDetails` part of a channel.
#[derive(Debug)]
pub struct ChannelContentDetails {
    pub related_playlists: UploadInfo,
}

/// One channel of the answer.
#[derive(Debug)]
pub struct ChannelItem {
    pub content_details: ChannelContentDetails,
}

/// The answer of the Channels endpoint: the channels that matched, in the
/// order the service listed them.
#[derive(Debug)]
pub struct ChannelInfoResponse {
    pub items: Vec<ChannelItem>,
}

impl View for ChannelItem {
    type V = Seq<char>;

    /// A channel is read for one thing only: its uploads playlist identifier.
    open spec fn view(&self) -> Seq<char> {
        self.content_details.related_playlists.uploads@
    }
}

impl View for ChannelInfoResponse {
    type V = Seq<Seq<char>>;

    /// The uploads playlist identifier of each channel, in order.
    open spec fn view(&self) -> Seq<Seq<char>> {
        Seq::new(self.items@.len(), |i: int| self.items@[i]@)
    }
}

impl ChannelInfoResponse {
    /// The uploads playlist identifier of the first channel in the answer.
    ///
    /// An answer without channels has none, so the caller must rule that out.
    pub fn uploads_id(&self) -> (id: String)
        requires
            self@.len() > 0,
        ensures
            id@ == self@[0],
    {
        self.items[0].content_details.related_playlists.uploads.clone()
    }
}

} // verus!
