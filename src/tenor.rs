//! Search settings for the Tenor GIF service and how two of them combine.
use vstd::prelude::*;

verus! {

/// A page of results of the service.
#[derive(Debug)]
pub struct Response<T> {
    pub results: T,
    pub next: Option<String>,
}

/// The rating up to which content is shown.
#[derive(Debug, Clone, Copy, PartialEq, Eq, Structural)]
pub enum ContentFilter {
    /// Rated G
    High,
    /// Rated G and PG
    Medium,
    /// Rated G, PG, and PG-13
    Low,
    /// Rated G, PG, PG-13 and R (no nudity)
    Off,
}

impl ContentFilter {
    /// The filter's name in a query.
    pub fn as_str(&self) -> (r: &'static str)
        ensures
            match *self {
                ContentFilter::High => r@ == "high"@,
                ContentFilter::Medium => r@ == "medium"@,
                ContentFilter::Low => r@ == "low"@,
                ContentFilter::Off => r@ == "off"@,
            },
    {
        match self {
            ContentFilter::High => "high",
            ContentFilter::Medium => "medium",
            ContentFilter::Low => "low",
            ContentFilter::Off => "off",
        }
    }
}

impl Default for ContentFilter {
    fn default() -> (r: Self)
        ensures
            r == ContentFilter::Off,
    {
        ContentFilter::Off
    }
}

/// A media format that results may be restricted to.
#[derive(Debug, Clone, Copy, PartialEq, Eq, Structural, Hash)]
pub enum MediaFilter {
    Preview,
    Gif,
    MediumGif,
    TinyGif,
    NanoGif,
    Mp4,
    LoopedMp4,
    TinyMp4,
    NanoMp4,
    Webm,
    TinyWebm,
    NanoWebm,
    WebpTransparent,
    TinyWebpTransparent,
    NanoWebpTransparent,
    GifTransparent,
    TinyGifTransparent,
    NanoGifTransparent,
}

impl MediaFilter {
    /// The format's name in a query.
    pub fn as_str(&self) -> (r: &'static str)
        ensures
            match *self {
                MediaFilter::Preview => r@ == "preview"@,
                MediaFilter::Gif => r@ == "gif"@,
                MediaFilter::MediumGif => r@ == "mediumgif"@,
                MediaFilter::TinyGif => r@ == "tinygif"@,
                MediaFilter::NanoGif => r@ == "nanogif"@,
                MediaFilter::Mp4 => r@ == "mp4"@,
                MediaFilter::LoopedMp4 => r@ == "loopedmp4"@,
                MediaFilter::TinyMp4 => r@ == "tinymp4"@,
                MediaFilter::NanoMp4 => r@ == "nanomp4"@,
                MediaFilter::Webm => r@ == "webm"@,
                MediaFilter::TinyWebm => r@ == "tinywebm"@,
                MediaFilter::NanoWebm => r@ == "nanowebm"@,
                MediaFilter::WebpTransparent => r@ == "webp_transparent"@,
                MediaFilter::TinyWebpTransparent => r@ == "tinywebp_transparent"@,
                MediaFilter::NanoWebpTransparent => r@ == "nanowebp_transparent"@,
                MediaFilter::GifTransparent => r@ == "gif_transparent"@,
                MediaFilter::TinyGifTransparent => r@ == "tinygif_transparent"@,
                MediaFilter::NanoGifTransparent => r@ == "nanogif_transparent"@,
            },
    {
        match self {
            MediaFilter::Preview => "preview",
            MediaFilter::Gif => "gif",
            MediaFilter::MediumGif => "mediumgif",
            MediaFilter::TinyGif => "tinygif",
            MediaFilter::NanoGif => "nanogif",
            MediaFilter::Mp4 => "mp4",
            MediaFilter::LoopedMp4 => "loopedmp4",
            MediaFilter::TinyMp4 => "tinymp4",
            MediaFilter::NanoMp4 => "nanomp4",
            MediaFilter::Webm => "webm",
            MediaFilter::TinyWebm => "tinywebm",
            MediaFilter::NanoWebm => "nanowebm",
            MediaFilter::WebpTransparent => "webp_transparent",
            MediaFilter::TinyWebpTransparent => "tinywebp_transparent",
            MediaFilter::NanoWebpTransparent => "nanowebp_transparent",
            MediaFilter::GifTransparent => "gif_transparent",
            MediaFilter::TinyGifTransparent => "tinygif_transparent",
            MediaFilter::NanoGifTransparent => "nanogif_transparent",
        }
    }
}

/// Optional search settings; an unset one is left to the service.
#[derive(Debug, Clone, Copy)]
pub struct Config<'config> {
    pub country: Option<&'config str>,
    pub locale: Option<&'config str>,
    pub content_filter: Option<ContentFilter>,
    pub media_filter: Option<&'config [MediaFilter]>,
    pub random: Option<bool>,
    pub limit: Option<u8>,
    pub position: Option<&'config str>,
}

/// The value of a setting after merging: the other's where it is set.
pub open spec fn overridden<T>(base: Option<T>, other: Option<T>) -> Option<T> {
    match other {
        Some(v) => Some(v),
        None => base,
    }
}

impl<'config> Config<'config> {
    /// No setting is set.
    pub open spec fn is_empty_spec(&self) -> bool {
        &&& self.country is None
        &&& self.locale is None
        &&& self.content_filter is None
        &&& self.media_filter is None
        &&& self.random is None
        &&& self.limit is None
        &&& self.position is None
    }

    /// Settings with nothing set.
    pub fn new() -> (r: Self)
        ensures
            r.is_empty_spec(),
    {
        Config {
            country: None,
            locale: None,
            content_filter: None,
            media_filter: None,
            random: None,
            limit: None,
            position: None,
        }
    }

    /// Sets the country.
    pub fn country(self, country: &'config str) -> (r: Self)
        ensures
            r == (Config { country: Some(country), ..self }),
    {
        Config { country: Some(country), ..self }
    }

    /// Sets the locale.
    pub fn locale(self, country: &'config str) -> (r: Self)
        ensures
            r == (Config { locale: Some(country), ..self }),
    {
        Config { locale: Some(country), ..self }
    }

    /// Sets the content filter.
    pub fn content_filter(self, content_filter: ContentFilter) -> (r: Self)
        ensures
            r == (Config { content_filter: Some(content_filter), ..self }),
    {
        Config { content_filter: Some(content_filter), ..self }
    }

    /// Sets the media formats.
    pub fn media_filter(self, media_filter: &'config [MediaFilter]) -> (r: Self)
        ensures
            r == (Config { media_filter: Some(media_filter), ..self }),
    {
        Config { media_filter: Some(media_filter), ..self }
    }

    /// Sets whether results come in random order.
    pub fn random(self, random: bool) -> (r: Self)
        ensures
            r == (Config { random: Some(random), ..self }),
    {
        Config { random: Some(random), ..self }
    }

    /// Sets the number of results.
    pub fn limit(self, limit: u8) -> (r: Self)
        ensures
            r == (Config { limit: Some(limit), ..self }),
    {
        Config { limit: Some(limit), ..self }
    }

    /// Sets the position to continue from.
    pub fn position(self, position: &'config str) -> (r: Self)
        ensures
            r == (Config { position: Some(position), ..self }),
    {
        Config { position: Some(position), ..self }
    }

    /// These settings with every setting that `other` sets taken from `other`.
    pub fn merge(self, other: Self) -> (r: Option<Self>)
        ensures
            r == Some(
                Config {
                    country: overridden(self.country, other.country),
                    locale: overridden(self.locale, other.locale),
                    content_filter: overridden(self.content_filter, other.content_filter),
                    media_filter: overridden(self.media_filter, other.media_filter),
                    random: overridden(self.random, other.random),
                    limit: overridden(self.limit, other.limit),
                    position: overridden(self.position, other.position),
                },
            ),
    {
        let mut merged = self;
        if let Some(country) = other.country {
            merged.country = Some(country);
        }
        if let Some(locale) = other.locale {
            merged.locale = Some(locale);
        }
        if let Some(content_filter) = other.content_filter {
            merged.content_filter = Some(content_filter);
        }
        if let Some(media_filter) = other.media_filter {
            merged.media_filter = Some(media_filter);
        }
        if let Some(random) = other.random {
            merged.random = Some(random);
        }
        if let Some(limit) = other.limit {
            merged.limit = Some(limit);
        }
        if let Some(position) = other.position {
            merged.position = Some(position);
        }
        Some(merged)
    }
}

impl Default for Config<'static> {
    fn default() -> (r: Self)
        ensures
            r.is_empty_spec(),
    {
        Self::new()
    }
}

} // verus!
