//! One page of the PlaylistItems endpoint's answer.

use vstd::prelude::*;

verus! {

/// The `contentDetails` part of a playlist item.
#[derive(Debug)]
pub struct ContentDetails {
    /// When the video was published, as the service wrote it.
    pub published_at: String,
    /// Identifier of the video that the playlist item stands for.
    pub video_id: String,
}

/// One entry of a playlist.
#[derive(Debug)]
pub struct Item {
    pub details: ContentDetails,
    pub id: String,
    pub etag: String,
}

/// How the service cut the playlist into pages.
#[derive(Debug)]
pub struct PageInfo {
    pub results_per_page: u64,
    pub total_results: u64,
}

/// One page of a playlist.
#[derive(Debug)]
pub struct ItemsList {
    pub items: Vec<Item>,
    /// Cursor for the page that follows; absent on the last page.
    pub next_page_token: Option<String>,
    pub page_info: PageInfo,
}

/// What a [`ContentDetails`] holds.
pub struct ContentDetailsView {
    pub published_at: Seq<char>,
    pub video_id: Seq<char>,
}

/// What an [`Item`] holds.
pub struct ItemView {
    pub details: ContentDetailsView,
    pub id: Seq<char>,
    pub etag: Seq<char>,
}

/// What a [`PageInfo`] holds.
pub struct PageInfoView {
    pub results_per_page: nat,
    pub total_results: nat,
}

/// What an [`ItemsList`] holds.
pub struct ItemsListView {
    pub items: Seq<ItemView>,
    pub next_page_token: Option<Seq<char>>,
    pub page_info: PageInfoView,
}

impl View for ContentDetails {
    type V = ContentDetailsView;

    open spec fn view(&self) -> ContentDetailsView {
        ContentDetailsView { published_at: self.published_at@, video_id: self.video_id@ }
    }
}

impl View for Item {
    type V = ItemView;

    open spec fn view(&self) -> ItemView {
        ItemView { details: self.details@, id: self.id@, etag: self.etag@ }
    }
}

impl View for PageInfo {
    type V = PageInfoView;

    open spec fn view(&self) -> PageInfoView {
        PageInfoView {
            results_per_page: self.results_per_page as nat,
            total_results: self.total_results as nat,
        }
    }
}

impl View for ItemsList {
    type V = ItemsListView;

    open spec fn view(&self) -> ItemsListView {
        ItemsListView {
            items: Seq::new(self.items@.len(), |i: int| self.items@[i]@),
            next_page_token: match self.next_page_token {
                Some(token) => Some(token@),
                None => None,
            },
            page_info: self.page_info@,
        }
    }
}

} // verus!
