//! Bounds of queries to the IGDB game database.
use vstd::prelude::*;

verus! {

/// The number of results a query asks for: between one and five hundred.
#[derive(Debug, Clone, Copy)]
pub struct Limit {
    value: u16,
}

/// The largest number of results the service hands out at once.
pub const LIMIT_MAX: u16 = 500;

impl Limit {
    /// The number of results.
    pub closed spec fn spec_get(&self) -> u16 {
        self.value
    }

    /// A limit of `limit` results, if that is between one and five hundred.
    pub fn new(limit: u16) -> (r: Option<Self>)
        ensures
            r is Some <==> 1 <= limit <= LIMIT_MAX,
            r matches Some(l) ==> l.spec_get() == limit,
    {
        if limit == 0 || limit > LIMIT_MAX {
            None
        } else {
            Some(Limit { value: limit })
        }
    }

    /// The smallest limit: one result.
    pub fn smallest() -> (r: Self)
        ensures
            r.spec_get() == 1,
    {
        Limit { value: 1 }
    }

    /// The largest limit: five hundred results.
    pub fn largest() -> (r: Self)
        ensures
            r.spec_get() == LIMIT_MAX,
    {
        Limit { value: LIMIT_MAX }
    }

    /// The number of results.
    pub fn get(&self) -> (r: u16)
        ensures
            r == self.spec_get(),
    {
        self.value
    }
}

/// The identifier of a game type.
#[derive(Debug, Clone, Copy, PartialEq, Eq, Structural)]
pub struct GameTypeId(pub u32);

} // verus!
