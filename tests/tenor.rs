use otaku::tenor::{Config, ContentFilter, MediaFilter, Response};

#[test]
fn new_config_sets_nothing() {
    let c = Config::new();
    assert!(c.country.is_none() && c.locale.is_none() && c.content_filter.is_none());
    assert!(c.media_filter.is_none() && c.random.is_none() && c.limit.is_none());
    assert!(c.position.is_none());
    let d = Config::default();
    assert!(d.country.is_none() && d.limit.is_none());
}

#[test]
fn builders_set_one_field() {
    let filters = [MediaFilter::Gif, MediaFilter::TinyGif];
    let c = Config::new()
        .country("US")
        .locale("en_US")
        .content_filter(ContentFilter::Medium)
        .media_filter(&filters)
        .random(true)
        .limit(8)
        .position("abc");
    assert_eq!(c.country, Some("US"));
    assert_eq!(c.locale, Some("en_US"));
    assert_eq!(c.content_filter, Some(ContentFilter::Medium));
    assert_eq!(c.media_filter, Some(&filters[..]));
    assert_eq!(c.random, Some(true));
    assert_eq!(c.limit, Some(8));
    assert_eq!(c.position, Some("abc"));
}

#[test]
fn merge_takes_what_the_other_sets() {
    let base = Config::new().country("US").limit(10).random(false);
    let other = Config::new().limit(3).locale("de_DE");
    let merged = base.merge(other).unwrap();
    assert_eq!(merged.country, Some("US"));
    assert_eq!(merged.limit, Some(3));
    assert_eq!(merged.locale, Some("de_DE"));
    assert_eq!(merged.random, Some(false));
    assert_eq!(merged.position, None);
    let same = base.merge(Config::new()).unwrap();
    assert_eq!(same.limit, Some(10));
}

#[test]
fn filter_names() {
    assert_eq!(ContentFilter::default(), ContentFilter::Off);
    assert_eq!(ContentFilter::High.as_str(), "high");
    assert_eq!(ContentFilter::Off.as_str(), "off");
    assert_eq!(MediaFilter::NanoGifTransparent.as_str(), "nanogif_transparent");
    assert_eq!(MediaFilter::Preview.as_str(), "preview");
    let r = Response { results: vec![1, 2], next: Some("p2".to_string()) };
    assert_eq!(r.results.len(), 2);
}
