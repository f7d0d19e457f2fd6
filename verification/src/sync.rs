//! The daemon's sync: which resources it mirrors, how the pages of one
//! resource are walked, and the state that reports on the sync.

use vstd::prelude::*;
use vstd::string::*;

verus! {

/// A listing of the server that the daemon mirrors into a table of the same name.
#[derive(Clone, Copy, Debug, PartialEq, Eq, Structural)]
pub enum Resource {
    Users,
    Artists,
    Genres,
    Labels,
    CodecConversions,
    AuthTokens,
    Albums,
    Tracks,
    Plays,
    Playlists,
}

impl Resource {
    /// The name of the listing, which is also that of its table.
    pub open spec fn table(self) -> &'static str {
        match self {
            Resource::Users => "users",
            Resource::Artists => "artists",
            Resource::Genres => "genres",
            Resource::Labels => "labels",
            Resource::CodecConversions => "codec_conversions",
            Resource::AuthTokens => "auth_tokens",
            Resource::Albums => "albums",
            Resource::Tracks => "tracks",
            Resource::Plays => "plays",
            Resource::Playlists => "playlists",
        }
    }

    /// The name of the listing, which is also that of its table.
    pub fn table_name(&self) -> (s: &'static str)
        ensures
            s == self.table(),
    {
        match self {
            Resource::Users => "users",
            Resource::Artists => "artists",
            Resource::Genres => "genres",
            Resource::Labels => "labels",
            Resource::CodecConversions => "codec_conversions",
            Resource::AuthTokens => "auth_tokens",
            Resource::Albums => "albums",
            Resource::Tracks => "tracks",
            Resource::Plays => "plays",
            Resource::Playlists => "playlists",
        }
    }
}

/// Every resource a sync mirrors, in the order the sync starts them.
pub open spec fn synced_resources() -> Seq<Resource> {
    seq![
        Resource::Users,
        Resource::Artists,
        Resource::Genres,
        Resource::Labels,
        Resource::CodecConversions,
        Resource::AuthTokens,
        Resource::Albums,
        Resource::Tracks,
        Resource::Plays,
        Resource::Playlists,
    ]
}

/// Every resource a sync mirrors, in the order the sync starts them.
pub fn all_resources() -> (r: Vec<Resource>)
    ensures
        r@ == synced_resources(),
{
    let r = vec![
        Resource::Users,
        Resource::Artists,
        Resource::Genres,
        Resource::Labels,
        Resource::CodecConversions,
        Resource::AuthTokens,
        Resource::Albums,
        Resource::Tracks,
        Resource::Plays,
        Resource::Playlists,
    ];
    assert(r@ =~= synced_resources());
    r
}


/// What the sync of one resource does next.
#[derive(Clone, Copy, Debug, PartialEq, Eq, Structural)]
pub enum SyncAction {
    /// Fetch this page of the listing and write its items.
    FetchPage(u32),
    /// Drop what this sync did not load again.
    Prune,
    /// Nothing is left to do.
    Done,
}

/// The number of pages a sync fetches when the first page reports `total`
/// pages: at least the first one.
pub open spec fn pages_to_fetch(total: u32) -> nat {
    if total <= 1 {
        1
    } else {
        total as nat
    }
}

/// What the sync of a resource does next, once `fetched` pages were fetched
/// and the first of them reported `total` pages.
pub open spec fn action_after(total: u32, fetched: nat, pruned: bool) -> SyncAction {
    if fetched == 0 {
        SyncAction::FetchPage(1)
    } else if fetched < pages_to_fetch(total) {
        SyncAction::FetchPage((fetched + 1) as u32)
    } else if !pruned {
        SyncAction::Prune
    } else {
        SyncAction::Done
    }
}

/// How far the sync of one resource has come: the pages fetched so far, the
/// number of pages the first page reported, and whether it has pruned.
pub struct PageWalk {
    pub fetched: u64,
    pub total_pages: u32,
    pub pruned: bool,
}

impl PageWalk {
    /// The walk has fetched no more pages than there are to fetch, and pruned
    /// only after the last of them.
    pub open spec fn wf(&self) -> bool {
        &&& self.fetched <= pages_to_fetch(self.total_pages)
        &&& self.pruned ==> self.fetched == pages_to_fetch(self.total_pages)
    }

    /// What the walk does next.
    pub open spec fn action(&self) -> SyncAction {
        action_after(self.total_pages, self.fetched as nat, self.pruned)
    }

    /// A walk that has fetched nothing yet.
    pub fn new() -> (w: PageWalk)
        ensures
            w.wf(),
            w.fetched == 0,
            w.total_pages == 0,
            !w.pruned,
            w.action() == SyncAction::FetchPage(1),
    {
        PageWalk { fetched: 0, total_pages: 0, pruned: false }
    }

    /// What the walk does next.
    pub fn next_action(&self) -> (a: SyncAction)
        requires
            self.wf(),
        ensures
            a == self.action(),
            self.fetched == 0 ==> a == SyncAction::FetchPage(1),
            0 < self.fetched < self.total_pages ==> a == SyncAction::FetchPage((self.fetched + 1) as u32),
            self.fetched >= 1 && self.fetched >= self.total_pages ==> a == if self.pruned {
                SyncAction::Done
            } else {
                SyncAction::Prune
            },
    {
        if self.fetched == 0 {
            SyncAction::FetchPage(1)
        } else if self.total_pages <= 1 {
            if self.pruned { SyncAction::Done } else { SyncAction::Prune }
        } else if self.fetched < self.total_pages as u64 {
            SyncAction::FetchPage((self.fetched + 1) as u32)
        } else if !self.pruned {
            SyncAction::Prune
        } else {
            SyncAction::Done
        }
    }

    /// Records that the page the walk asked for was fetched and written; the
    /// first page tells how many pages there are.
    pub fn page_fetched(&mut self, total_pages: u32)
        requires
            old(self).wf(),
            old(self).action() is FetchPage,
        ensures
            final(self).wf(),
            final(self).fetched == old(self).fetched + 1,
            final(self).total_pages == if old(self).fetched == 0 { total_pages } else { old(self).total_pages },
            !final(self).pruned,
    {
        if self.fetched == 0 {
            self.total_pages = total_pages;
        }
        self.fetched = self.fetched + 1;
    }

    /// Records that the walk pruned.
    pub fn prune_done(&mut self)
        requires
            old(self).wf(),
            old(self).action() == SyncAction::Prune,
        ensures
            final(self).wf(),
            final(self).fetched == old(self).fetched,
            final(self).total_pages == old(self).total_pages,
            final(self).pruned,
            final(self).action() == SyncAction::Done,
    {
        self.pruned = true;
    }
}

/// A walk whose first page reports `total` pages fetches page 1, then each
/// page up to `total` once and in order, then prunes once, then is done:
/// after `k` pages it fetches page `k + 1` exactly while `k` is 0 or below
/// `total`, and prunes once `k` has reached both 1 and `total`. So it makes
/// `max(total, 1)` fetches before it prunes.
pub proof fn lemma_page_walk_order(total: u32, k: nat)
    ensures
        (k == 0 || k < total) ==> action_after(total, k, false) == SyncAction::FetchPage((k + 1) as u32),
        (k >= 1 && k >= total) ==> action_after(total, k, false) == SyncAction::Prune,
        (k >= 1 && k >= total) ==> action_after(total, k, true) == SyncAction::Done,
        pages_to_fetch(total) == if total == 0 { 1 } else { total as nat },
        k < pages_to_fetch(total) ==> action_after(total, k, false) == SyncAction::FetchPage((k + 1) as u32),
        action_after(total, pages_to_fetch(total), false) == SyncAction::Prune,
        action_after(total, pages_to_fetch(total), true) == SyncAction::Done,
{
}

} // verus!
