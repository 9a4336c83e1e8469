//! Fixed-window rate limiting per client address: at most a given number of
//! requests per client in each one-minute window.
use vstd::prelude::*;
use crate::text::str_eq;

verus! {

/// Length of a window, in milliseconds.
pub const WINDOW_MS: u64 = 60_000;

/// A client's current window: when it began (milliseconds on a monotonic
/// clock) and how many requests it has counted.
#[derive(Clone, Copy, Debug, PartialEq, Eq, Structural)]
pub struct RequestState {
    pub last_time: u64,
    pub requests: usize,
}

/// The limiter: the limit (0 means unlimited) and one window per client.
pub struct FixWindowRateLimit {
    max_requests_per_minute: usize,
    requests_per_ip: Vec<(String, RequestState)>,
}

/// The position of `ip`'s window in `s`, if it has one.
pub open spec fn client_index(s: Seq<(Seq<char>, RequestState)>, ip: Seq<char>) -> Option<int> {
    if exists|i: int| 0 <= i < s.len() && s[i].0 == ip {
        Some(choose|i: int| 0 <= i < s.len() && s[i].0 == ip)
    } else {
        None
    }
}

/// The rule for one request from a client whose window is `entry`, at time
/// `now`, under limit `max`: the client's new window and whether the request
/// is refused.
pub open spec fn decide(max: usize, entry: Option<RequestState>, now: u64) -> (Option<RequestState>, bool) {
    if max == 0 {
        (entry, false)
    } else {
        match entry {
            None => (Some(RequestState { last_time: now, requests: 1 }), false),
            Some(st) => if st.last_time + WINDOW_MS < now {
                (Some(RequestState { last_time: now, requests: 0 }), false)
            } else {
                let n = if st.requests < usize::MAX {
                    (st.requests + 1) as usize
                } else {
                    usize::MAX
                };
                (Some(RequestState { last_time: st.last_time, requests: n }), n > max)
            },
        }
    }
}

impl FixWindowRateLimit {
    /// The windows, one per client, as (address, window) pairs.
    pub closed spec fn windows(&self) -> Seq<(Seq<char>, RequestState)> {
        self.requests_per_ip@.map_values(|e: (String, RequestState)| (e.0@, e.1))
    }

    pub closed spec fn limit(&self) -> usize {
        self.max_requests_per_minute
    }

    /// No client has two windows.
    pub open spec fn wf(&self) -> bool {
        forall|i: int, j: int|
            0 <= i < self.windows().len() && 0 <= j < self.windows().len() && i != j
                ==> #[trigger] self.windows()[i].0 != #[trigger] self.windows()[j].0
    }

    /// A limiter allowing `max_requests_per_minute` requests per client per
    /// window; 0 allows any number.
    pub fn new(max_requests_per_minute: usize) -> (r: FixWindowRateLimit)
        ensures
            r.wf(),
            r.limit() == max_requests_per_minute,
            r.windows() == Seq::<(Seq<char>, RequestState)>::empty(),
    {
        let r = FixWindowRateLimit { max_requests_per_minute, requests_per_ip: Vec::new() };
        assert(r.windows() =~= Seq::<(Seq<char>, RequestState)>::empty());
        r
    }

    /// Counts a request from `ip` at time `now` (milliseconds) and returns
    /// whether it must be refused. A client's first request opens its window;
    /// a request after its window has run out opens a new one, counted as
    /// empty; any other request is counted and refused once the count exceeds
    /// the limit.
    pub fn rate_limit(&mut self, ip: &str, now: u64) -> (r: bool)
        requires
            old(self).wf(),
        ensures
            final(self).wf(),
            final(self).limit() == old(self).limit(),
            ({
                let old_entry = match client_index(old(self).windows(), ip@) {
                    Some(i) => Some(old(self).windows()[i].1),
                    None => None,
                };
                let (new_entry, refused) = decide(old(self).limit(), old_entry, now);
                &&& r == refused
                &&& match (client_index(old(self).windows(), ip@), new_entry) {
                    (Some(i), Some(st)) => final(self).windows() == old(self).windows().update(
                        i,
                        (ip@, st),
                    ),
                    (None, Some(st)) => final(self).windows() == old(self).windows().push(
                        (ip@, st),
                    ),
                    _ => final(self).windows() == old(self).windows(),
                }
            }),
    {
        if self.max_requests_per_minute == 0 {
            return false;
        }
        let mut i: usize = 0;
        while i < self.requests_per_ip.len()
            invariant
                i <= self.windows().len(),
                self.windows().len() == self.requests_per_ip@.len(),
                forall|j: int| 0 <= j < i ==> self.windows()[j].0 != ip@,
            ensures
                i <= self.windows().len(),
                forall|j: int| 0 <= j < i ==> self.windows()[j].0 != ip@,
                i < self.windows().len() ==> self.windows()[i as int].0 == ip@,
            decreases self.requests_per_ip@.len() - i,
        {
            if str_eq(self.requests_per_ip[i].0.as_str(), ip) {
                break;
            }
            i += 1;
        }
        let ghost before = self.windows();
        if i == self.requests_per_ip.len() {
            proof {
                assert(client_index(before, ip@) is None);
            }
            let st = RequestState { last_time: now, requests: 1 };
            self.requests_per_ip.push((ip.to_owned(), st));
            proof {
                assert(self.windows() =~= before.push((ip@, st)));
            }
            return false;
        }
        proof {
            assert(before[i as int].0 == ip@);
            let k = choose|k: int| 0 <= k < before.len() && before[k].0 == ip@;
            assert(k == i as int);
        }
        let st = self.requests_per_ip[i].1;
        let (next, refused) = if now > st.last_time && now - st.last_time > WINDOW_MS {
            (RequestState { last_time: now, requests: 0 }, false)
        } else {
            let n = st.requests.saturating_add(1);
            (RequestState { last_time: st.last_time, requests: n }, n > self.max_requests_per_minute)
        };
        let key = self.requests_per_ip[i].0.clone();
        self.requests_per_ip.set(i, (key, next));
        proof {
            assert(self.windows() =~= before.update(i as int, (ip@, next)));
        }
        refused
    }
}

} // verus!
