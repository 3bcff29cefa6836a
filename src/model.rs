//! The event model: immutable values that describe one release and who wants it.
use vstd::prelude::*;

verus! {

/// A point in time in UTC, as whole seconds since 1970-01-01 and a nanosecond part.
/// The nanosecond part may reach into a second second to stand for a leap second.
#[derive(Debug, Clone, Copy, PartialEq, Eq, Structural)]
pub struct UtcTimestamp {
    pub seconds: i64,
    pub nanos: u32,
}

/// One episode of a show. A part that the feed leaves out is `None`.
#[derive(Debug, Clone, PartialEq)]
pub struct Episode {
    pub number: u32,
    pub decimal: Option<u32>,
    pub version: Option<u32>,
    pub extra: Option<String>,
}

/// What a release covers: an inclusive range of episodes, one episode, or a movie.
#[derive(Debug, Clone, PartialEq)]
pub enum DownloadVariant {
    Batch { start: u32, end: u32 },
    Episode(Episode),
    Movie,
}

/// One downloadable file of a release.
#[derive(Debug, Clone, PartialEq)]
pub struct Download {
    pub published_date: UtcTimestamp,
    pub resolution: u16,
    pub comments: String,
    pub torrent: String,
    pub file_name: String,
}

/// A validated release event.
#[derive(Debug, Clone, PartialEq)]
pub struct DownloadCollection {
    pub title: String,
    pub variant: DownloadVariant,
    pub created_at: UtcTimestamp,
    pub updated_at: UtcTimestamp,
    pub downloads: Vec<Download>,
}

/// One notification target. Identifiers handed out by this library are never zero.
#[derive(Debug, Clone, Copy, PartialEq, Eq, Structural)]
pub enum Subscriber {
    User(u64),
    Channel { channel_id: u64, guild_id: u64 },
}

impl Subscriber {
    /// Every identifier of the handle is non-zero.
    pub open spec fn is_valid(&self) -> bool {
        match *self {
            Subscriber::User(id) => id != 0,
            Subscriber::Channel { channel_id, guild_id } => channel_id != 0 && guild_id != 0,
        }
    }
}

/// A piece of content together with the recipients that asked for it.
#[derive(Debug, Clone, PartialEq)]
pub struct Subscribed<T: Clone + PartialEq> {
    pub content: T,
    pub subscribers: Vec<Subscriber>,
}

/// The balance of one user in the virtual-currency ledger.
#[derive(Debug, Clone, Copy, PartialEq, Eq, Structural)]
pub struct UserBalance {
    pub user_id: u64,
    pub balance: i64,
}

/// The resolution whose presence marks a release as complete.
pub const CANONICAL_RESOLUTION: u16 = 1080;

/// The event holds a download in the canonical resolution.
pub open spec fn is_complete(downloads: Seq<Download>) -> bool {
    exists|i: int| 0 <= i < downloads.len() && #[trigger] downloads[i].resolution == CANONICAL_RESOLUTION
}

impl DownloadCollection {
    /// Whether this event is final enough to notify on: it has a download in the
    /// canonical resolution.
    pub fn is_ready(&self) -> (r: bool)
        ensures
            r == is_complete(self.downloads@),
    {
        let mut i: usize = 0;
        while i < self.downloads.len()
            invariant
                0 <= i <= self.downloads@.len(),
                forall|j: int| 0 <= j < i ==> #[trigger] self.downloads@[j].resolution != CANONICAL_RESOLUTION,
            decreases self.downloads@.len() - i,
        {
            if self.downloads[i].resolution == CANONICAL_RESOLUTION {
                return true;
            }
            i = i + 1;
        }
        false
    }
}

} // verus!
