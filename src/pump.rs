//! What the stream pump decides for each message of a live connection: convert it,
//! keep it only when complete, and attach its recipients before it is enqueued.
use crate::model::{is_complete, Download, DownloadCollection, Subscribed, CANONICAL_RESOLUTION};
use crate::resolver::{
    all_valid, first_row_error, resolution_error, resolve, row_handles, row_result,
    ResolutionError, StoreError, SubscriptionRow,
};
use crate::wire::{
    conversion_error, download_error, owed_collection, owed_download, first_download_error, represents, spec_download,
    ConversionError, WireDownload, WireDownloadCollection, WireField,
};
use vstd::prelude::*;

verus! {

/// Why a message is dropped before any recipient is looked up.
#[derive(Debug, Clone, Copy, PartialEq, Eq, Structural)]
pub enum Rejection {
    /// The message does not convert into an event.
    Conversion(ConversionError),
    /// The event has no download in the canonical resolution yet.
    Incomplete,
}

/// The downloads of the event that a wire message stands for.
pub open spec fn converted_downloads(m: WireDownloadCollection) -> Seq<Download> {
    m.downloads@.map_values(|w: WireDownload| spec_download(w))
}

/// Why the message is dropped, or `None` when it goes on to recipient lookup.
pub open spec fn rejection(m: WireDownloadCollection) -> Option<Rejection> {
    match conversion_error(m) {
        Some(e) => Some(Rejection::Conversion(e)),
        None => if is_complete(converted_downloads(m)) {
            None
        } else {
            Some(Rejection::Incomplete)
        },
    }
}

/// Converts a message and keeps it only when it is complete.
pub fn screen(m: WireDownloadCollection) -> (r: Result<DownloadCollection, Rejection>)
    ensures
        match r {
            Ok(c) => rejection(m) is None && represents(c, m),
            Err(x) => rejection(m) == Some(x),
        },
        owed_collection(m) && (exists|i: int|
            0 <= i < m.downloads@.len() && #[trigger] m.downloads@[i].resolution == 1080) ==> r is Ok,
{
    let ghost m0 = m;
    match DownloadCollection::from_wire(m) {
        Err(e) => Err(Rejection::Conversion(e)),
        Ok(c) => {
            proof {
                if owed_collection(m0) && (exists|i: int|
                    0 <= i < m0.downloads@.len() && #[trigger] m0.downloads@[i].resolution == 1080) {
                    let i = choose|i: int|
                        0 <= i < m0.downloads@.len() && #[trigger] m0.downloads@[i].resolution == 1080;
                    assert(owed_download(m0.downloads@[i]));
                    assert(c.downloads@[i].resolution == CANONICAL_RESOLUTION);
                }
            }
            if c.is_ready() {
                Ok(c)
            } else {
                Err(Rejection::Incomplete)
            }
        },
    }
}

/// Builds the event to enqueue from a screened event and the outcome of the store
/// lookup for its title; any resolution failure means nothing is enqueued.
pub fn attach(content: DownloadCollection, lookup: Result<Vec<SubscriptionRow>, StoreError>) -> (r:
    Result<Subscribed<DownloadCollection>, ResolutionError>)
    ensures
        match lookup {
            Err(e) => r == Err::<Subscribed<DownloadCollection>, ResolutionError>(
                ResolutionError::Store(e),
            ),
            Ok(rows) => match r {
                Ok(s) => resolution_error(rows@) is None && s.content == content
                    && s.subscribers@ == row_handles(rows@) && all_valid(s.subscribers@)
                    && s.subscribers@.len() >= 1,
                Err(e) => resolution_error(rows@) == Some(e),
            },
        },
{
    match resolve(lookup) {
        Ok(subscribers) => Ok(Subscribed { content, subscribers }),
        Err(e) => Err(e),
    }
}

/// With no error among the downloads, each of them converts.
proof fn lemma_no_download_error(ws: Seq<WireDownload>, i: int)
    requires
        first_download_error(ws) is None,
        0 <= i < ws.len(),
    ensures
        download_error(ws[i]) is None,
    decreases ws.len(),
{
    assert(ws.drop_last().len() == ws.len() - 1);
    if i < ws.len() - 1 {
        assert(ws.drop_last()[i] == ws[i]);
        lemma_no_download_error(ws.drop_last(), i);
    }
}

/// With no error among the rows, each of them gives a handle.
proof fn lemma_no_row_error(rows: Seq<SubscriptionRow>, i: int)
    requires
        first_row_error(rows) is None,
        0 <= i < rows.len(),
    ensures
        row_result(rows[i]) is Ok,
    decreases rows.len(),
{
    if i < rows.len() - 1 {
        assert(rows.drop_last()[i] == rows[i]);
        lemma_no_row_error(rows.drop_last(), i);
    }
}

/// A message that converts, holds a download in the canonical resolution, and whose
/// title has at least one subscription row with valid identifiers, goes on to lookup
/// and yields exactly one event: the converted one, with one handle per row, each the
/// reading of its row.
pub proof fn lemma_complete_message_is_delivered(m: WireDownloadCollection, rows: Seq<SubscriptionRow>)
    requires
        conversion_error(m) is None,
        exists|i: int| 0 <= i < m.downloads@.len() && #[trigger] m.downloads@[i].resolution == 1080,
        rows.len() >= 1,
        first_row_error(rows) is None,
    ensures
        rejection(m) is None,
        resolution_error(rows) is None,
        row_handles(rows).len() == rows.len(),
        forall|i: int| 0 <= i < rows.len() ==> row_result(#[trigger] rows[i]) == Ok::<
            crate::model::Subscriber,
            ResolutionError,
        >(row_handles(rows)[i]),
{
    let i = choose|i: int| 0 <= i < m.downloads@.len() && #[trigger] m.downloads@[i].resolution == 1080;
    lemma_no_download_error(m.downloads@, i);
    assert(converted_downloads(m)[i].resolution == CANONICAL_RESOLUTION);
    assert forall|j: int| 0 <= j < rows.len() implies row_result(#[trigger] rows[j]) == Ok::<
        crate::model::Subscriber,
        ResolutionError,
    >(row_handles(rows)[j]) by {
        lemma_no_row_error(rows, j);
    }
}

/// A message without `variant`, `created_at` or `updated_at` is dropped for the
/// missing field, before any lookup.
pub proof fn lemma_missing_header_is_dropped(m: WireDownloadCollection)
    requires
        m.variant is None || m.created_at is None || m.updated_at is None,
    ensures
        rejection(m) matches Some(Rejection::Conversion(ConversionError::MissingField(f))) && (f
            == WireField::Variant || f == WireField::CreatedAt || f == WireField::UpdatedAt),
{
}

/// A message with no download in the canonical resolution is dropped, whatever else
/// it holds.
pub proof fn lemma_incomplete_message_is_dropped(m: WireDownloadCollection)
    requires
        forall|i: int| 0 <= i < m.downloads@.len() ==> #[trigger] m.downloads@[i].resolution != 1080,
    ensures
        rejection(m) is Some,
{
    if conversion_error(m) is None {
        assert forall|i: int| 0 <= i < converted_downloads(m).len() implies #[trigger] converted_downloads(
            m,
        )[i].resolution != CANONICAL_RESOLUTION by {
            lemma_no_download_error(m.downloads@, i);
        }
    }
}

/// Converting the same message twice gives the same event, field for field.
pub proof fn lemma_conversion_is_deterministic(
    m1: WireDownloadCollection,
    m2: WireDownloadCollection,
    c1: DownloadCollection,
    c2: DownloadCollection,
)
    requires
        m1 == m2,
        represents(c1, m1),
        represents(c2, m2),
    ensures
        conversion_error(m1) == conversion_error(m2),
        c1.title == c2.title,
        c1.variant == c2.variant,
        c1.created_at == c2.created_at,
        c1.updated_at == c2.updated_at,
        c1.downloads@ == c2.downloads@,
{
}

} // verus!
