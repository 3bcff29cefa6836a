//! The upstream wire representation and its conversion into the event model.
use crate::model::{Download, DownloadCollection, DownloadVariant, Episode, UtcTimestamp};
use vstd::prelude::*;

verus! {

/// A timestamp as the feed sends it.
#[derive(Debug, Clone, Copy, PartialEq, Eq, Structural)]
pub struct WireTimestamp {
    pub seconds: i64,
    pub nanos: u32,
}

/// An inclusive range of episodes as the feed sends it.
#[derive(Debug, Clone, Copy, PartialEq, Eq, Structural)]
pub struct WireBatch {
    pub start: u32,
    pub end: u32,
}

/// An episode as the feed sends it: `0` and the empty string stand for "absent".
#[derive(Debug, Clone, PartialEq)]
pub struct WireEpisode {
    pub number: u32,
    pub decimal: u32,
    pub version: u32,
    pub extra: String,
}

/// The variant of a release as the feed sends it.
#[derive(Debug, Clone, PartialEq)]
pub enum WireVariant {
    Batch(WireBatch),
    Episode(WireEpisode),
    Movie,
}

/// One download as the feed sends it.
#[derive(Debug, Clone, PartialEq)]
pub struct WireDownload {
    pub published_date: Option<WireTimestamp>,
    pub resolution: u32,
    pub comments: String,
    pub torrent: String,
    pub file_name: String,
}

/// One pushed message of the feed, before validation.
#[derive(Debug, Clone, PartialEq)]
pub struct WireDownloadCollection {
    pub title: String,
    pub variant: Option<WireVariant>,
    pub created_at: Option<WireTimestamp>,
    pub updated_at: Option<WireTimestamp>,
    pub downloads: Vec<WireDownload>,
}

/// A field that a wire message must carry.
#[derive(Debug, Clone, Copy, PartialEq, Eq, Structural)]
pub enum WireField {
    Variant,
    CreatedAt,
    UpdatedAt,
    PublishedDate,
}

impl WireField {
    /// The field's name on the wire.
    pub fn name(&self) -> (r: &'static str)
        ensures
            match *self {
                WireField::Variant => r@ == "variant"@,
                WireField::CreatedAt => r@ == "created_at"@,
                WireField::UpdatedAt => r@ == "updated_at"@,
                WireField::PublishedDate => r@ == "published_date"@,
            },
    {
        match self {
            WireField::Variant => "variant",
            WireField::CreatedAt => "created_at",
            WireField::UpdatedAt => "updated_at",
            WireField::PublishedDate => "published_date",
        }
    }
}

/// Why a wire message could not be turned into an event.
#[derive(Debug, Clone, Copy, PartialEq, Eq, Structural)]
pub enum ConversionError {
    /// A required field is absent.
    MissingField(WireField),
    /// Seconds and nanoseconds do not make a calendar timestamp.
    InvalidTimestamp(WireTimestamp),
    /// A numeric field does not fit its target width; the value is carried.
    OutOfRange(u32),
}

/// Whether chrono accepts the pair as a UTC timestamp.
pub uninterp spec fn utc_accepts(seconds: i64, nanos: u32) -> bool;

/// The nanosecond part is below one second, or below two on the last second of a
/// minute (a leap second).
pub open spec fn fits_time_of_day(seconds: i64, nanos: u32) -> bool {
    nanos < 1_000_000_000 || (nanos < 2_000_000_000 && (seconds as int) % 60 == 59)
}

/// Seconds that lie well inside the calendar range that chrono supports
/// (about 253,000 years either side of 1970).
pub open spec fn within_calendar(seconds: i64) -> bool {
    -8_000_000_000_000 <= seconds <= 8_000_000_000_000
}

/// Relies on chrono's `DateTime::<Utc>::from_timestamp`: it decides on the two numbers
/// alone, refuses a nanosecond part that is no valid time of day, accepts every second
/// count inside its calendar range, and what it builds reads back (`timestamp`,
/// `timestamp_subsec_nanos`) as the two numbers it was given.
#[verifier::external_body]
fn utc_from_timestamp(seconds: i64, nanos: u32) -> (r: Option<UtcTimestamp>)
    ensures
        r is Some == utc_accepts(seconds, nanos),
        r matches Some(t) ==> t.seconds == seconds && t.nanos == nanos,
        r is Some ==> fits_time_of_day(seconds, nanos),
        fits_time_of_day(seconds, nanos) && within_calendar(seconds) ==> r is Some,
{
    chrono::DateTime::from_timestamp(seconds, nanos).map(
        |t| UtcTimestamp { seconds: t.timestamp(), nanos: t.timestamp_subsec_nanos() },
    )
}

/// The timestamp that a wire timestamp stands for.
pub open spec fn spec_timestamp(t: WireTimestamp) -> UtcTimestamp {
    UtcTimestamp { seconds: t.seconds, nanos: t.nanos }
}

/// The error that converting a wire timestamp gives, if any.
pub open spec fn timestamp_error(t: WireTimestamp) -> Option<ConversionError> {
    if utc_accepts(t.seconds, t.nanos) {
        None
    } else {
        Some(ConversionError::InvalidTimestamp(t))
    }
}

/// A wire timestamp that plainly converts: a valid time of day well inside the calendar.
pub open spec fn owed_timestamp(t: WireTimestamp) -> bool {
    fits_time_of_day(t.seconds, t.nanos) && within_calendar(t.seconds)
}

/// Converts a wire timestamp into a calendar timestamp.
pub fn convert_timestamp(t: WireTimestamp) -> (r: Result<UtcTimestamp, ConversionError>)
    ensures
        match r {
            Ok(u) => timestamp_error(t) is None && u == spec_timestamp(t),
            Err(e) => timestamp_error(t) == Some(e),
        },
        owed_timestamp(t) ==> r is Ok,
        r is Ok ==> fits_time_of_day(t.seconds, t.nanos),
{
    match utc_from_timestamp(t.seconds, t.nanos) {
        Some(u) => Ok(u),
        None => Err(ConversionError::InvalidTimestamp(t)),
    }
}

/// A wire number where `0` means "absent".
pub open spec fn spec_nonzero(v: u32) -> Option<u32> {
    if v == 0 {
        None
    } else {
        Some(v)
    }
}

/// Reads a wire number where `0` stands for "absent".
pub fn nonzero_or_absent(v: u32) -> (r: Option<u32>)
    ensures
        r == spec_nonzero(v),
{
    if v == 0 {
        None
    } else {
        Some(v)
    }
}

/// Reads a wire string where the empty string stands for "absent".
pub fn nonempty_or_absent(s: String) -> (r: Option<String>)
    ensures
        r == (if s@.len() == 0 {
            None
        } else {
            Some(s)
        }),
{
    if s.as_str().is_empty() {
        None
    } else {
        Some(s)
    }
}

/// The episode that a wire episode stands for.
pub open spec fn spec_episode(w: WireEpisode) -> Episode {
    Episode {
        number: w.number,
        decimal: spec_nonzero(w.decimal),
        version: spec_nonzero(w.version),
        extra: if w.extra@.len() == 0 {
            None
        } else {
            Some(w.extra)
        },
    }
}

impl Episode {
    /// Converts a wire episode, reading `0` and the empty string as absent parts.
    pub fn from_wire(w: WireEpisode) -> (r: Episode)
        ensures
            r == spec_episode(w),
    {
        Episode {
            number: w.number,
            decimal: nonzero_or_absent(w.decimal),
            version: nonzero_or_absent(w.version),
            extra: nonempty_or_absent(w.extra),
        }
    }
}

/// The variant that a wire variant stands for.
pub open spec fn spec_variant(w: WireVariant) -> DownloadVariant {
    match w {
        WireVariant::Batch(b) => DownloadVariant::Batch { start: b.start, end: b.end },
        WireVariant::Episode(e) => DownloadVariant::Episode(spec_episode(e)),
        WireVariant::Movie => DownloadVariant::Movie,
    }
}

impl DownloadVariant {
    /// Converts a wire variant; this cannot fail.
    pub fn from_wire(w: WireVariant) -> (r: DownloadVariant)
        ensures
            r == spec_variant(w),
    {
        match w {
            WireVariant::Batch(b) => DownloadVariant::Batch { start: b.start, end: b.end },
            WireVariant::Episode(e) => DownloadVariant::Episode(Episode::from_wire(e)),
            WireVariant::Movie => DownloadVariant::Movie,
        }
    }
}


/// The error that converting a wire download gives, if any: a missing publication
/// date, then an invalid one, then a resolution that does not fit 16 bits.
pub open spec fn download_error(w: WireDownload) -> Option<ConversionError> {
    match w.published_date {
        None => Some(ConversionError::MissingField(WireField::PublishedDate)),
        Some(t) => if timestamp_error(t) is Some {
            timestamp_error(t)
        } else if w.resolution > u16::MAX {
            Some(ConversionError::OutOfRange(w.resolution))
        } else {
            None
        },
    }
}

/// The download that a wire download stands for, where it converts.
pub open spec fn spec_download(w: WireDownload) -> Download {
    Download {
        published_date: spec_timestamp(w.published_date->0),
        resolution: w.resolution as u16,
        comments: w.comments,
        torrent: w.torrent,
        file_name: w.file_name,
    }
}

/// The first error among wire downloads, in their order.
pub open spec fn first_download_error(ws: Seq<WireDownload>) -> Option<ConversionError>
    decreases ws.len(),
{
    if ws.len() == 0 {
        None
    } else {
        match first_download_error(ws.drop_last()) {
            Some(e) => Some(e),
            None => download_error(ws.last()),
        }
    }
}

/// Once a prefix of the downloads holds an error, it is the first error of the whole.
proof fn lemma_first_error_of_prefix(ws: Seq<WireDownload>, k: int)
    requires
        0 <= k <= ws.len(),
        first_download_error(ws.subrange(0, k)) is Some,
    ensures
        first_download_error(ws) == first_download_error(ws.subrange(0, k)),
    decreases ws.len() - k,
{
    if k < ws.len() {
        assert(ws.subrange(0, k + 1).drop_last() == ws.subrange(0, k));
        lemma_first_error_of_prefix(ws, k + 1);
    } else {
        assert(ws.subrange(0, k) == ws);
    }
}

/// A wire download that plainly converts: it has a publication date that plainly
/// converts, and a resolution that fits 16 bits.
pub open spec fn owed_download(w: WireDownload) -> bool {
    &&& w.published_date matches Some(t) && owed_timestamp(t)
    &&& w.resolution <= u16::MAX
}

/// A wire message that plainly converts: all fields present, every timestamp plainly
/// converts, every resolution fits.
pub open spec fn owed_collection(m: WireDownloadCollection) -> bool {
    &&& m.variant is Some
    &&& m.created_at matches Some(t) && owed_timestamp(t)
    &&& m.updated_at matches Some(t) && owed_timestamp(t)
    &&& forall|i: int| 0 <= i < m.downloads@.len() ==> owed_download(#[trigger] m.downloads@[i])
}

impl Download {
    /// Converts a wire download.
    pub fn from_wire(w: &WireDownload) -> (r: Result<Download, ConversionError>)
        ensures
            match r {
                Ok(d) => download_error(*w) is None && d == spec_download(*w),
                Err(e) => download_error(*w) == Some(e),
            },
            owed_download(*w) ==> r is Ok,
    {
        let published = match w.published_date {
            None => {
                return Err(ConversionError::MissingField(WireField::PublishedDate));
            },
            Some(t) => t,
        };
        let published_date = match convert_timestamp(published) {
            Ok(u) => u,
            Err(e) => {
                return Err(e);
            },
        };
        if w.resolution > u16::MAX as u32 {
            return Err(ConversionError::OutOfRange(w.resolution));
        }
        Ok(
            Download {
                published_date,
                resolution: w.resolution as u16,
                comments: w.comments.clone(),
                torrent: w.torrent.clone(),
                file_name: w.file_name.clone(),
            },
        )
    }
}

/// The error that converting a wire message gives, if any, in the order in which the
/// fields are checked: presence of `variant`, `created_at` and `updated_at`, then the
/// two timestamps, then the downloads in their order.
pub open spec fn conversion_error(m: WireDownloadCollection) -> Option<ConversionError> {
    if m.variant is None {
        Some(ConversionError::MissingField(WireField::Variant))
    } else if m.created_at is None {
        Some(ConversionError::MissingField(WireField::CreatedAt))
    } else if m.updated_at is None {
        Some(ConversionError::MissingField(WireField::UpdatedAt))
    } else if timestamp_error(m.created_at->0) is Some {
        timestamp_error(m.created_at->0)
    } else if timestamp_error(m.updated_at->0) is Some {
        timestamp_error(m.updated_at->0)
    } else {
        first_download_error(m.downloads@)
    }
}

/// `c` is the event that the wire message `m` stands for: every field maps one to one,
/// with the coercions of absent parts.
pub open spec fn represents(c: DownloadCollection, m: WireDownloadCollection) -> bool {
    &&& c.title == m.title
    &&& c.variant == spec_variant(m.variant->0)
    &&& c.created_at == spec_timestamp(m.created_at->0)
    &&& c.updated_at == spec_timestamp(m.updated_at->0)
    &&& c.downloads@ == m.downloads@.map_values(|w: WireDownload| spec_download(w))
}

impl DownloadCollection {
    /// Converts a wire message into an event, or says which check it fails first.
    pub fn from_wire(m: WireDownloadCollection) -> (r: Result<DownloadCollection, ConversionError>)
        ensures
            match r {
                Ok(c) => conversion_error(m) is None && represents(c, m),
                Err(e) => conversion_error(m) == Some(e),
            },
            owed_collection(m) ==> r is Ok,
    {
        let ghost m0 = m;
        let variant = match m.variant {
            None => {
                return Err(ConversionError::MissingField(WireField::Variant));
            },
            Some(v) => v,
        };
        let created = match m.created_at {
            None => {
                return Err(ConversionError::MissingField(WireField::CreatedAt));
            },
            Some(t) => t,
        };
        let updated = match m.updated_at {
            None => {
                return Err(ConversionError::MissingField(WireField::UpdatedAt));
            },
            Some(t) => t,
        };
        let created_at = match convert_timestamp(created) {
            Ok(u) => u,
            Err(e) => {
                return Err(e);
            },
        };
        let updated_at = match convert_timestamp(updated) {
            Ok(u) => u,
            Err(e) => {
                return Err(e);
            },
        };
        let ws = &m.downloads;
        let mut downloads: Vec<Download> = Vec::new();
        let mut i: usize = 0;
        while i < ws.len()
            invariant
                m0 == m,
                ws@ == m0.downloads@,
                m0.variant is Some,
                m0.created_at == Some(created),
                m0.updated_at == Some(updated),
                timestamp_error(created) is None,
                timestamp_error(updated) is None,
                owed_collection(m0) ==> owed_timestamp(created) && owed_timestamp(updated),
                0 <= i <= ws@.len(),
                first_download_error(ws@.subrange(0, i as int)) is None,
                downloads@ == ws@.subrange(0, i as int).map_values(|w: WireDownload| spec_download(w)),
            decreases ws@.len() - i,
        {
            assert(ws@.subrange(0, i + 1).drop_last() == ws@.subrange(0, i as int));
            match Download::from_wire(&ws[i]) {
                Ok(d) => {
                    downloads.push(d);
                },
                Err(e) => {
                    proof {
                        assert(owed_collection(m0) ==> owed_download(ws@[i as int]));
                        assert(ws@.subrange(0, i + 1).last() == ws@[i as int]);
                        lemma_first_error_of_prefix(ws@, i + 1);
                    }
                    return Err(e);
                },
            }
            assert(downloads@ == ws@.subrange(0, i + 1).map_values(|w: WireDownload| spec_download(w)));
            i = i + 1;
        }
        assert(ws@.subrange(0, ws@.len() as int) == ws@);
        Ok(
            DownloadCollection {
                title: m.title,
                variant: DownloadVariant::from_wire(variant),
                created_at,
                updated_at,
                downloads,
            },
        )
    }
}

} // verus!
