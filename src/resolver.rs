//! Turning the rows that the recipient store returns for a title into typed,
//! non-zero recipient handles.
use crate::ident::{id_from_bytes, parse_id, IdErrorKind};
use crate::model::Subscriber;
use vstd::prelude::*;
use vstd::utf8::encode_utf8;

verus! {

/// One row of the store's answer: the textual identifiers of a subscribed channel.
#[derive(Debug, Clone, PartialEq)]
pub struct SubscriptionRow {
    pub channel_id: String,
    pub guild_id: String,
}

/// A failure of the store itself (unreachable, query refused), as its message.
#[derive(Debug, Clone, PartialEq)]
pub struct StoreError {
    pub message: String,
}

/// The identifier column of a row.
#[derive(Debug, Clone, Copy, PartialEq, Eq, Structural)]
pub enum IdField {
    ChannelId,
    GuildId,
}

impl IdField {
    /// The column's name.
    pub fn name(&self) -> (r: &'static str)
        ensures
            match *self {
                IdField::ChannelId => r@ == "channel_id"@,
                IdField::GuildId => r@ == "guild_id"@,
            },
    {
        match self {
            IdField::ChannelId => "channel_id",
            IdField::GuildId => "guild_id",
        }
    }
}

/// Why no recipients could be attached to an event.
#[derive(Debug, Clone, PartialEq)]
pub enum ResolutionError {
    /// The store could not be consulted.
    Store(StoreError),
    /// A row holds an identifier that is no non-zero 64-bit integer.
    InvalidIdentifier(IdField, IdErrorKind),
    /// Nobody subscribed to the title.
    NoSubscribers,
}

/// The text of a string, as bytes.
pub open spec fn text_bytes(s: String) -> Seq<u8> {
    encode_utf8(s@)
}

/// What one row gives: the channel identifier is read first, then the guild's.
pub open spec fn row_result(row: SubscriptionRow) -> Result<Subscriber, ResolutionError> {
    match id_from_bytes(text_bytes(row.channel_id)) {
        Err(k) => Err(ResolutionError::InvalidIdentifier(IdField::ChannelId, k)),
        Ok(channel_id) => match id_from_bytes(text_bytes(row.guild_id)) {
            Err(k) => Err(ResolutionError::InvalidIdentifier(IdField::GuildId, k)),
            Ok(guild_id) => Ok(Subscriber::Channel { channel_id, guild_id }),
        },
    }
}

/// The first row that fails, in the store's order, with its error.
pub open spec fn first_row_error(rows: Seq<SubscriptionRow>) -> Option<ResolutionError>
    decreases rows.len(),
{
    if rows.len() == 0 {
        None
    } else {
        match first_row_error(rows.drop_last()) {
            Some(e) => Some(e),
            None => match row_result(rows.last()) {
                Err(e) => Some(e),
                Ok(_) => None,
            },
        }
    }
}

/// What resolving a title gives for the rows the store returned: the first invalid
/// identifier, else `NoSubscribers` for no rows, else one channel handle per row.
pub open spec fn resolution_error(rows: Seq<SubscriptionRow>) -> Option<ResolutionError> {
    if first_row_error(rows) is Some {
        first_row_error(rows)
    } else if rows.len() == 0 {
        Some(ResolutionError::NoSubscribers)
    } else {
        None
    }
}

/// The handles of valid rows, in the store's order.
pub open spec fn row_handles(rows: Seq<SubscriptionRow>) -> Seq<Subscriber> {
    rows.map_values(|row: SubscriptionRow| row_result(row)->Ok_0)
}

/// Reads one row into a channel handle.
pub fn parse_row(row: &SubscriptionRow) -> (r: Result<Subscriber, ResolutionError>)
    ensures
        r == row_result(*row),
        r matches Ok(s) ==> s.is_valid(),
{
    let channel_id = match parse_id(row.channel_id.as_str()) {
        Err(k) => {
            return Err(ResolutionError::InvalidIdentifier(IdField::ChannelId, k));
        },
        Ok(v) => v,
    };
    let guild_id = match parse_id(row.guild_id.as_str()) {
        Err(k) => {
            return Err(ResolutionError::InvalidIdentifier(IdField::GuildId, k));
        },
        Ok(v) => v,
    };
    Ok(Subscriber::Channel { channel_id, guild_id })
}

/// Once a prefix of the rows holds an error, it is the first error of the whole.
proof fn lemma_first_row_error_of_prefix(rows: Seq<SubscriptionRow>, k: int)
    requires
        0 <= k <= rows.len(),
        first_row_error(rows.subrange(0, k)) is Some,
    ensures
        first_row_error(rows) == first_row_error(rows.subrange(0, k)),
    decreases rows.len() - k,
{
    if k < rows.len() {
        assert(rows.subrange(0, k + 1).drop_last() == rows.subrange(0, k));
        lemma_first_row_error_of_prefix(rows, k + 1);
    } else {
        assert(rows.subrange(0, k) == rows);
    }
}

/// Every identifier of the handles is non-zero.
pub open spec fn all_valid(handles: Seq<Subscriber>) -> bool {
    forall|i: int| 0 <= i < handles.len() ==> #[trigger] handles[i].is_valid()
}

/// Turns the store's rows for a title into recipient handles. The lookup fails as a
/// whole on the first invalid identifier, and with `NoSubscribers` when there are no
/// rows.
pub fn resolve_rows(rows: &Vec<SubscriptionRow>) -> (r: Result<Vec<Subscriber>, ResolutionError>)
    ensures
        match r {
            Ok(handles) => resolution_error(rows@) is None && handles@ == row_handles(rows@)
                && all_valid(handles@) && handles@.len() >= 1,
            Err(e) => resolution_error(rows@) == Some(e),
        },
{
    let mut handles: Vec<Subscriber> = Vec::new();
    let mut i: usize = 0;
    while i < rows.len()
        invariant
            0 <= i <= rows@.len(),
            first_row_error(rows@.subrange(0, i as int)) is None,
            handles@ == row_handles(rows@.subrange(0, i as int)),
            all_valid(handles@),
        decreases rows@.len() - i,
    {
        assert(rows@.subrange(0, i + 1).drop_last() == rows@.subrange(0, i as int));
        assert(rows@.subrange(0, i + 1).last() == rows@[i as int]);
        match parse_row(&rows[i]) {
            Ok(s) => {
                handles.push(s);
            },
            Err(e) => {
                proof {
                    lemma_first_row_error_of_prefix(rows@, i + 1);
                }
                return Err(e);
            },
        }
        assert(handles@ == row_handles(rows@.subrange(0, i + 1)));
        i = i + 1;
    }
    assert(rows@.subrange(0, rows@.len() as int) == rows@);
    if handles.len() == 0 {
        return Err(ResolutionError::NoSubscribers);
    }
    Ok(handles)
}

/// Resolves recipients from the outcome of one store lookup: a store failure is
/// passed on as `Store`, rows are read as `resolve_rows` reads them.
pub fn resolve(lookup: Result<Vec<SubscriptionRow>, StoreError>) -> (r: Result<Vec<Subscriber>, ResolutionError>)
    ensures
        match lookup {
            Err(e) => r == Err::<Vec<Subscriber>, ResolutionError>(ResolutionError::Store(e)),
            Ok(rows) => match r {
                Ok(handles) => resolution_error(rows@) is None && handles@ == row_handles(rows@)
                    && all_valid(handles@),
                Err(e) => resolution_error(rows@) == Some(e),
            },
        },
{
    match lookup {
        Err(e) => Err(ResolutionError::Store(e)),
        Ok(rows) => resolve_rows(&rows),
    }
}

} // verus!
