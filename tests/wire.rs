use otaku::model::{Download, DownloadCollection, DownloadVariant, Episode, UtcTimestamp};
use otaku::wire::{
    convert_timestamp, nonempty_or_absent, nonzero_or_absent, ConversionError, WireBatch,
    WireDownload, WireDownloadCollection, WireEpisode, WireField, WireTimestamp, WireVariant,
};

fn ts(seconds: i64, nanos: u32) -> WireTimestamp {
    WireTimestamp { seconds, nanos }
}

fn download(resolution: u32) -> WireDownload {
    WireDownload {
        published_date: Some(ts(1_700_000_100, 5)),
        resolution,
        comments: "https://example.org/c".to_string(),
        torrent: "https://example.org/t".to_string(),
        file_name: format!("Show A - 05 ({resolution}p).mkv"),
    }
}

fn message(resolutions: &[u32]) -> WireDownloadCollection {
    WireDownloadCollection {
        title: "Show A".to_string(),
        variant: Some(WireVariant::Episode(WireEpisode {
            number: 5,
            decimal: 0,
            version: 0,
            extra: String::new(),
        })),
        created_at: Some(ts(1_700_000_000, 0)),
        updated_at: Some(ts(1_700_000_050, 250)),
        downloads: resolutions.iter().map(|&r| download(r)).collect(),
    }
}

#[test]
fn converts_well_formed_message() {
    let c = DownloadCollection::from_wire(message(&[720, 1080])).unwrap();
    assert_eq!(c.title, "Show A");
    assert_eq!(
        c.variant,
        DownloadVariant::Episode(Episode { number: 5, decimal: None, version: None, extra: None })
    );
    assert_eq!(c.created_at, UtcTimestamp { seconds: 1_700_000_000, nanos: 0 });
    assert_eq!(c.updated_at, UtcTimestamp { seconds: 1_700_000_050, nanos: 250 });
    assert_eq!(c.downloads.len(), 2);
    assert_eq!(c.downloads[0].resolution, 720);
    assert_eq!(c.downloads[1].resolution, 1080);
    assert_eq!(
        c.downloads[1],
        Download {
            published_date: UtcTimestamp { seconds: 1_700_000_100, nanos: 5 },
            resolution: 1080,
            comments: "https://example.org/c".to_string(),
            torrent: "https://example.org/t".to_string(),
            file_name: "Show A - 05 (1080p).mkv".to_string(),
        }
    );
}

#[test]
fn episode_keeps_non_zero_parts() {
    let e = Episode::from_wire(WireEpisode {
        number: 12,
        decimal: 5,
        version: 2,
        extra: "END".to_string(),
    });
    assert_eq!(
        e,
        Episode { number: 12, decimal: Some(5), version: Some(2), extra: Some("END".to_string()) }
    );
    assert_eq!(nonzero_or_absent(0), None);
    assert_eq!(nonzero_or_absent(3), Some(3));
    assert_eq!(nonempty_or_absent(String::new()), None);
    assert_eq!(nonempty_or_absent("x".to_string()), Some("x".to_string()));
}

#[test]
fn batch_and_movie_variants() {
    assert_eq!(
        DownloadVariant::from_wire(WireVariant::Batch(WireBatch { start: 1, end: 12 })),
        DownloadVariant::Batch { start: 1, end: 12 }
    );
    assert_eq!(DownloadVariant::from_wire(WireVariant::Movie), DownloadVariant::Movie);
}

#[test]
fn missing_variant_is_reported() {
    let mut m = message(&[1080]);
    m.variant = None;
    m.created_at = None;
    assert_eq!(
        DownloadCollection::from_wire(m),
        Err(ConversionError::MissingField(WireField::Variant))
    );
}

#[test]
fn missing_created_at_is_reported() {
    let mut m = message(&[1080]);
    m.created_at = None;
    assert_eq!(
        DownloadCollection::from_wire(m),
        Err(ConversionError::MissingField(WireField::CreatedAt))
    );
}

#[test]
fn missing_updated_at_is_reported() {
    let mut m = message(&[1080]);
    m.updated_at = None;
    assert_eq!(
        DownloadCollection::from_wire(m),
        Err(ConversionError::MissingField(WireField::UpdatedAt))
    );
    assert_eq!(WireField::UpdatedAt.name(), "updated_at");
}

#[test]
fn missing_published_date_is_reported() {
    let mut m = message(&[720, 1080]);
    m.downloads[1].published_date = None;
    assert_eq!(
        DownloadCollection::from_wire(m),
        Err(ConversionError::MissingField(WireField::PublishedDate))
    );
}

#[test]
fn invalid_timestamp_is_reported() {
    let mut m = message(&[1080]);
    m.updated_at = Some(ts(1_700_000_000, 2_000_000_000));
    assert_eq!(
        DownloadCollection::from_wire(m),
        Err(ConversionError::InvalidTimestamp(ts(1_700_000_000, 2_000_000_000)))
    );
}

#[test]
fn timestamp_outside_calendar_is_reported() {
    assert_eq!(
        convert_timestamp(ts(i64::MAX, 0)),
        Err(ConversionError::InvalidTimestamp(ts(i64::MAX, 0)))
    );
}

#[test]
fn leap_second_only_on_last_second_of_minute() {
    assert_eq!(
        convert_timestamp(ts(59, 1_500_000_000)),
        Ok(UtcTimestamp { seconds: 59, nanos: 1_500_000_000 })
    );
    assert_eq!(
        convert_timestamp(ts(58, 1_500_000_000)),
        Err(ConversionError::InvalidTimestamp(ts(58, 1_500_000_000)))
    );
    assert_eq!(
        convert_timestamp(ts(-1, 999_999_999)),
        Ok(UtcTimestamp { seconds: -1, nanos: 999_999_999 })
    );
}

#[test]
fn resolution_out_of_range_is_reported() {
    let m = message(&[1080, 70_000]);
    assert_eq!(DownloadCollection::from_wire(m), Err(ConversionError::OutOfRange(70_000)));
}

#[test]
fn first_failing_download_decides() {
    let mut m = message(&[70_000, 1080]);
    m.downloads[1].published_date = None;
    assert_eq!(DownloadCollection::from_wire(m), Err(ConversionError::OutOfRange(70_000)));
}

#[test]
fn converting_twice_gives_identical_events() {
    let m = message(&[480, 1080]);
    let a = DownloadCollection::from_wire(m.clone());
    let b = DownloadCollection::from_wire(m);
    assert!(a.is_ok());
    assert_eq!(a, b);
}

#[test]
fn readiness_requires_canonical_resolution() {
    let ready = DownloadCollection::from_wire(message(&[720, 1080])).unwrap();
    assert!(ready.is_ready());
    let not_ready = DownloadCollection::from_wire(message(&[480, 720])).unwrap();
    assert!(!not_ready.is_ready());
    let empty = DownloadCollection::from_wire(message(&[])).unwrap();
    assert!(!empty.is_ready());
}
