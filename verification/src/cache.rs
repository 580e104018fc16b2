//! A response cache that serves its last stored value for ten minutes.
use std::time::Instant;
use vstd::prelude::*;
use crate::clock::{duration_as_secs, instant_elapsed, instant_now};

verus! {

/// How long, in whole seconds, a stored value stays fresh.
pub const FRESH_SECS: u64 = 600;

/// What a cache holding `stored` answers when the stored value is
/// `elapsed_secs` whole seconds old.
pub open spec fn fresh_value<T>(stored: Option<T>, elapsed_secs: u64) -> Option<T> {
    match stored {
        Some(v) => if elapsed_secs < FRESH_SECS {
            Some(v)
        } else {
            None
        },
        None => None,
    }
}

/// A stored value is answered while it is younger than ten minutes and not
/// afterwards; an empty cache answers nothing.
pub proof fn lemma_fresh_value<T>(data: T, elapsed_secs: u64)
    ensures
        fresh_value(Some(data), elapsed_secs) == (if elapsed_secs < 600 {
            Some(data)
        } else {
            None
        }),
        fresh_value(None::<T>, elapsed_secs) is None,
{
}

struct CacheEntry<T> {
    data: T,
    fetched_at: Instant,
}

/// The last value fetched from a remote service, with the instant of the fetch.
pub struct ResponseCache<T> {
    entry: Option<CacheEntry<T>>,
}

impl<T> ResponseCache<T> {
    /// The stored value, if any.
    pub closed spec fn stored(&self) -> Option<T> {
        match self.entry {
            Some(e) => Some(e.data),
            None => None,
        }
    }

    /// An empty cache.
    pub fn new() -> (r: Self)
        ensures
            r.stored() is None,
    {
        ResponseCache { entry: None }
    }

    /// The stored value when it is `elapsed_secs` whole seconds old.
    pub fn fresh_at(&self, elapsed_secs: u64) -> (r: Option<&T>)
        ensures
            r is Some == fresh_value(self.stored(), elapsed_secs) is Some,
            r matches Some(v) ==> fresh_value(self.stored(), elapsed_secs) == Some(*v),
    {
        match &self.entry {
            Some(e) => {
                if elapsed_secs < FRESH_SECS {
                    Some(&e.data)
                } else {
                    None
                }
            },
            None => None,
        }
    }

    /// The whole seconds since the stored value was fetched, 0 for an empty
    /// cache. The age comes from the clock, so nothing is claimed of it.
    pub fn age_secs(&self) -> u64 {
        match &self.entry {
            Some(e) => duration_as_secs(&instant_elapsed(&e.fetched_at)),
            None => 0,
        }
    }

    /// The stored value, if it was stored less than ten minutes ago.
    /// The age comes from the clock, so the contract states only that an
    /// answer is the stored value and that an empty cache answers nothing;
    /// `fresh_at` states the rule for a given age.
    pub fn fresh(&self) -> (r: Option<&T>)
        ensures
            r matches Some(v) ==> self.stored() == Some(*v),
            self.stored() is None ==> r is None,
    {
        self.fresh_at(self.age_secs())
    }

    /// Stores `data`, fetched now, in place of any earlier value.
    pub fn store(&mut self, data: T)
        ensures
            final(self).stored() == Some(data),
    {
        self.entry = Some(CacheEntry { data, fetched_at: instant_now() });
    }
}

} // verus!
