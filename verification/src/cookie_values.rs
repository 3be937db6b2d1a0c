//! The resolved configuration value object that both pipelines consume:
//! host, cookie name, path, the secure flag, the same-site policy, and
//! the two instants of the run. Timestamps are Unix microseconds; the
//! expiry horizon is a fixed thirty days past the creation instant.

use crate::epoch::{CHROMIUM_EPOCH_OFFSET_MICROS, THIRTY_DAYS_MICROS};
use crate::sys::now_unix_micros;
use vstd::prelude::*;

verus! {

pub struct CookieValue {
    pub host: String,
    pub name: String,
    pub path: String,
    /// 0 or 1.
    pub is_secure: i8,
    /// The same-site policy: 0 none, 1 lax, 2 strict.
    pub same_site: i8,
    /// Expiry instant, Unix microseconds.
    pub expiry: i64,
    /// Creation instant, Unix microseconds.
    pub creation_time: i64,
}

impl CookieValue {
    /// Well-formedness: the instants are nonnegative and ordered, small
    /// enough that the Chromium epoch conversion cannot overflow, and
    /// the two flags are within their policies.
    pub open spec fn wf(&self) -> bool {
        &&& 0 <= self.creation_time
        &&& self.creation_time <= self.expiry
        &&& self.expiry + CHROMIUM_EPOCH_OFFSET_MICROS <= i64::MAX
        &&& 0 <= self.is_secure <= 1
        &&& 0 <= self.same_site <= 2
    }

    /// Builds the value object for a run whose creation instant is
    /// `now_micros`: creation is `now`, expiry is `now` plus thirty
    /// days, and the configured fields are carried over unchanged.
    pub fn get_values(
        host: String,
        name: String,
        path: String,
        is_secure: i8,
        same_site: i8,
        now_micros: i64,
    ) -> (r: CookieValue)
        requires
            0 <= now_micros,
            now_micros + THIRTY_DAYS_MICROS + CHROMIUM_EPOCH_OFFSET_MICROS <= i64::MAX,
            0 <= is_secure <= 1,
            0 <= same_site <= 2,
        ensures
            r.host == host,
            r.name == name,
            r.path == path,
            r.is_secure == is_secure,
            r.same_site == same_site,
            r.creation_time == now_micros,
            r.expiry == now_micros + THIRTY_DAYS_MICROS,
            r.wf(),
    {
        let expiry = now_micros + THIRTY_DAYS_MICROS;
        CookieValue {
            host,
            name,
            path,
            is_secure,
            same_site,
            expiry,
            creation_time: now_micros,
        }
    }

    /// Builds the value object for the instant `now_micros`, deciding
    /// whether the instant admits the epoch arithmetic at all: exactly
    /// the instants that are nonnegative and leave headroom for the
    /// thirty-day horizon and the Chromium offset yield a value.
    pub fn values_at(
        host: String,
        name: String,
        path: String,
        is_secure: i8,
        same_site: i8,
        now_micros: i64,
    ) -> (r: Option<CookieValue>)
        requires
            0 <= is_secure <= 1,
            0 <= same_site <= 2,
        ensures
            (r is Some) == (0 <= now_micros && now_micros + THIRTY_DAYS_MICROS
                + CHROMIUM_EPOCH_OFFSET_MICROS <= i64::MAX),
            match r {
                Some(v) => {
                    &&& v.wf()
                    &&& v.host == host
                    &&& v.name == name
                    &&& v.path == path
                    &&& v.is_secure == is_secure
                    &&& v.same_site == same_site
                    &&& v.creation_time == now_micros
                    &&& v.expiry == now_micros + THIRTY_DAYS_MICROS
                },
                None => true,
            },
    {
        if 0 <= now_micros && now_micros <= i64::MAX - THIRTY_DAYS_MICROS
            - CHROMIUM_EPOCH_OFFSET_MICROS {
            Some(Self::get_values(host, name, path, is_secure, same_site, now_micros))
        } else {
            None
        }
    }

    /// Builds the value object at the current wall clock: the clock
    /// read, then `values_at` on what it returned. `None` exactly when
    /// the clock reads an instant on which the epoch arithmetic could
    /// not be carried out; on any plausible clock the result is present.
    pub fn current_values(
        host: String,
        name: String,
        path: String,
        is_secure: i8,
        same_site: i8,
    ) -> (r: Option<CookieValue>)
        requires
            0 <= is_secure <= 1,
            0 <= same_site <= 2,
        ensures
            match r {
                Some(v) => {
                    &&& v.wf()
                    &&& v.host == host
                    &&& v.name == name
                    &&& v.path == path
                    &&& v.is_secure == is_secure
                    &&& v.same_site == same_site
                    &&& v.expiry == v.creation_time + THIRTY_DAYS_MICROS
                },
                None => true,
            },
    {
        let now = now_unix_micros();
        Self::values_at(host, name, path, is_secure, same_site, now)
    }
}

} // verus!
