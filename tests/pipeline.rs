use otaku::model::{DownloadCollection, Subscribed, Subscriber};
use otaku::pump::{attach, screen, Rejection};
use otaku::queue::{OutboundQueue, QUEUE_CAPACITY};
use otaku::resolver::{IdField, ResolutionError, StoreError, SubscriptionRow};
use otaku::ident::IdErrorKind;
use otaku::wire::{
    ConversionError, WireDownload, WireDownloadCollection, WireEpisode, WireField, WireTimestamp,
    WireVariant,
};

fn ts(seconds: i64) -> WireTimestamp {
    WireTimestamp { seconds, nanos: 0 }
}

fn message(title: &str, resolutions: &[u32]) -> WireDownloadCollection {
    WireDownloadCollection {
        title: title.to_string(),
        variant: Some(WireVariant::Episode(WireEpisode {
            number: 5,
            decimal: 0,
            version: 0,
            extra: String::new(),
        })),
        created_at: Some(ts(1_700_000_000)),
        updated_at: Some(ts(1_700_000_000)),
        downloads: resolutions
            .iter()
            .map(|&resolution| WireDownload {
                published_date: Some(ts(1_700_000_000)),
                resolution,
                comments: String::new(),
                torrent: String::new(),
                file_name: String::new(),
            })
            .collect(),
    }
}

fn rows(n: u64) -> Vec<SubscriptionRow> {
    (1..=n)
        .map(|i| SubscriptionRow { channel_id: (100 + i).to_string(), guild_id: i.to_string() })
        .collect()
}

/// Runs one message through the pump's decisions against a store that answers `lookup`,
/// pushing the result onto `queue`.
fn pump_one(
    m: WireDownloadCollection,
    lookup: Result<Vec<SubscriptionRow>, StoreError>,
    queue: &mut OutboundQueue<Subscribed<DownloadCollection>>,
) -> Option<ResolutionError> {
    let Ok(event) = screen(m) else {
        return None;
    };
    match attach(event, lookup) {
        Ok(outbound) => {
            assert!(queue.try_push(outbound).is_ok());
            None
        }
        Err(e) => Some(e),
    }
}

#[test]
fn scenario_two_channels_enqueue_one_event() {
    let mut queue = OutboundQueue::new(QUEUE_CAPACITY);
    let m = message("Show A", &[720, 1080]);
    let expected = DownloadCollection::from_wire(m.clone()).unwrap();
    assert_eq!(pump_one(m, Ok(rows(2)), &mut queue), None);
    assert_eq!(queue.len(), 1);
    let out = queue.pop().unwrap();
    assert_eq!(out.content, expected);
    assert_eq!(
        out.subscribers,
        vec![
            Subscriber::Channel { channel_id: 101, guild_id: 1 },
            Subscriber::Channel { channel_id: 102, guild_id: 2 },
        ]
    );
    assert!(queue.is_empty());
}

#[test]
fn scenario_no_rows_enqueues_nothing() {
    let mut queue = OutboundQueue::new(QUEUE_CAPACITY);
    let m = message("Show A", &[720, 1080]);
    assert_eq!(pump_one(m, Ok(vec![]), &mut queue), Some(ResolutionError::NoSubscribers));
    assert!(queue.is_empty());
}

#[test]
fn missing_header_fields_are_dropped_and_next_message_proceeds() {
    let mut queue = OutboundQueue::new(QUEUE_CAPACITY);
    for field in [WireField::Variant, WireField::CreatedAt, WireField::UpdatedAt] {
        let mut m = message("Show A", &[1080]);
        match field {
            WireField::Variant => m.variant = None,
            WireField::CreatedAt => m.created_at = None,
            _ => m.updated_at = None,
        }
        assert_eq!(
            screen(m.clone()).unwrap_err(),
            Rejection::Conversion(ConversionError::MissingField(field))
        );
        assert_eq!(pump_one(m, Ok(rows(1)), &mut queue), None);
        assert!(queue.is_empty());
    }
    assert_eq!(pump_one(message("Show B", &[1080]), Ok(rows(1)), &mut queue), None);
    assert_eq!(queue.len(), 1);
}

#[test]
fn incomplete_messages_are_dropped() {
    let mut queue = OutboundQueue::new(QUEUE_CAPACITY);
    assert_eq!(screen(message("Show A", &[480, 720])).unwrap_err(), Rejection::Incomplete);
    assert_eq!(screen(message("Show A", &[])).unwrap_err(), Rejection::Incomplete);
    assert_eq!(pump_one(message("Show A", &[720]), Ok(rows(3)), &mut queue), None);
    assert!(queue.is_empty());
}

#[test]
fn resolution_failures_enqueue_nothing() {
    let mut queue = OutboundQueue::new(QUEUE_CAPACITY);
    let store = StoreError { message: "timeout".to_string() };
    assert_eq!(
        pump_one(message("Show A", &[1080]), Err(store.clone()), &mut queue),
        Some(ResolutionError::Store(store))
    );
    let bad = vec![SubscriptionRow { channel_id: "0".to_string(), guild_id: "1".to_string() }];
    assert_eq!(
        pump_one(message("Show A", &[1080]), Ok(bad), &mut queue),
        Some(ResolutionError::InvalidIdentifier(IdField::ChannelId, IdErrorKind::Zero))
    );
    assert!(queue.is_empty());
}

#[test]
fn full_queue_refuses_and_keeps_order() {
    let mut queue = OutboundQueue::new(2);
    assert_eq!(queue.capacity(), 2);
    assert_eq!(queue.try_push(1), Ok(()));
    assert_eq!(queue.try_push(2), Ok(()));
    assert!(queue.is_full());
    assert_eq!(queue.try_push(3), Err(3));
    assert_eq!(queue.len(), 2);
    assert_eq!(queue.pop(), Some(1));
    assert_eq!(queue.try_push(3), Ok(()));
    assert_eq!(queue.pop(), Some(2));
    assert_eq!(queue.pop(), Some(3));
    assert_eq!(queue.pop(), None);
}

#[test]
fn queued_events_keep_wire_order() {
    let mut queue = OutboundQueue::new(QUEUE_CAPACITY);
    let titles: Vec<String> = (0..QUEUE_CAPACITY).map(|i| format!("Show {i}")).collect();
    for title in &titles {
        assert_eq!(pump_one(message(title, &[1080]), Ok(rows(1)), &mut queue), None);
    }
    assert!(queue.is_full());
    let late = screen(message("Late", &[1080])).unwrap();
    let outbound = attach(late, Ok(rows(1))).unwrap();
    let outbound = queue.try_push(outbound).unwrap_err();
    assert_eq!(outbound.content.title, "Late");
    let first = queue.pop().unwrap();
    assert_eq!(first.content.title, "Show 0");
    assert!(queue.try_push(outbound).is_ok());
    let mut seen = vec![first.content.title];
    while let Some(e) = queue.pop() {
        seen.push(e.content.title);
    }
    let mut expected = titles.clone();
    expected.push("Late".to_string());
    assert_eq!(seen, expected);
}
