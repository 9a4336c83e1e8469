//! Choosing an upstream server for a proxied connection: uniformly at random
//! among those currently believed alive.
use vstd::prelude::*;
use rand::Rng;

verus! {

/// What health checks last found of an upstream server.
#[derive(Clone, Copy, Debug, PartialEq, Eq, Structural)]
pub enum UpstreamState {
    Active,
    Dead,
}

/// How an active health check of one server went.
#[derive(Clone, Copy, Debug, PartialEq, Eq, Structural)]
pub enum HealthProbe {
    /// No connection could be opened.
    ConnectFailed,
    /// The request could not be sent.
    SendFailed,
    /// A response came back with this HTTP status code.
    Responded(u16),
    /// No well-formed response could be read.
    ReadFailed,
}

/// HTTP status code `200 OK`.
pub const HTTP_OK: u16 = 200;

/// The server's state after a health check: a `200 OK` answer marks it
/// active, any other answer or an unreadable one marks it dead, and a check
/// that never reached the server leaves its state as it was.
pub fn state_after_probe(current: UpstreamState, probe: HealthProbe) -> (r: UpstreamState)
    ensures
        r == match probe {
            HealthProbe::ConnectFailed | HealthProbe::SendFailed => current,
            HealthProbe::Responded(code) => if code == HTTP_OK {
                UpstreamState::Active
            } else {
                UpstreamState::Dead
            },
            HealthProbe::ReadFailed => UpstreamState::Dead,
        },
{
    match probe {
        HealthProbe::ConnectFailed | HealthProbe::SendFailed => current,
        HealthProbe::Responded(code) => if code == HTTP_OK {
            UpstreamState::Active
        } else {
            UpstreamState::Dead
        },
        HealthProbe::ReadFailed => UpstreamState::Dead,
    }
}

/// The number of active servers in `s`.
pub open spec fn count_active(s: Seq<UpstreamState>) -> nat
    decreases s.len(),
{
    if s.len() == 0 {
        0
    } else {
        count_active(s.drop_last()) + if s.last() is Active {
            1nat
        } else {
            0nat
        }
    }
}

proof fn lemma_count_active_bound(s: Seq<UpstreamState>)
    ensures
        count_active(s) <= s.len(),
    decreases s.len(),
{
    if s.len() > 0 {
        lemma_count_active_bound(s.drop_last());
    }
}

/// Relies on `rand::Rng::gen_range` (rand 0.7) on the thread-local generator:
/// a value drawn from `0..n`. It panics on an empty range, hence `n > 0`.
#[verifier::external_body]
fn random_below(n: usize) -> (r: usize)
    requires
        n > 0,
    ensures
        r < n,
{
    rand::thread_rng().gen_range(0, n)
}

/// The number of active servers.
pub fn active_count(states: &Vec<UpstreamState>) -> (r: usize)
    ensures
        r == count_active(states@),
{
    let mut c: usize = 0;
    let mut i: usize = 0;
    while i < states.len()
        invariant
            i <= states.len(),
            c == count_active(states@.take(i as int)),
        decreases states.len() - i,
    {
        proof {
            assert(states@.take(i + 1).drop_last() =~= states@.take(i as int));
            lemma_count_active_bound(states@.take(i as int));
        }
        if states[i] == UpstreamState::Active {
            c += 1;
        }
        i += 1;
    }
    assert(states@.take(i as int) =~= states@);
    c
}

/// The position of the `k`-th active server (counting from 0), if there are
/// more than `k` of them.
pub fn nth_active(states: &Vec<UpstreamState>, k: usize) -> (r: Option<usize>)
    ensures
        r is Some <==> k < count_active(states@),
        r matches Some(i) ==> i < states.len() && states@[i as int] is Active && count_active(
            states@.take(i as int),
        ) == k,
{
    let mut c: usize = 0;
    let mut i: usize = 0;
    while i < states.len()
        invariant
            i <= states.len(),
            c == count_active(states@.take(i as int)),
            c <= k,
        decreases states.len() - i,
    {
        proof {
            assert(states@.take(i + 1).drop_last() =~= states@.take(i as int));
        }
        if states[i] == UpstreamState::Active {
            if c == k {
                proof {
                    lemma_count_grows(states@, i + 1);
                }
                return Some(i);
            }
            c += 1;
        }
        i += 1;
    }
    assert(states@.take(i as int) =~= states@);
    None
}

proof fn lemma_count_grows(s: Seq<UpstreamState>, j: int)
    requires
        0 <= j <= s.len(),
    ensures
        count_active(s.take(j)) <= count_active(s),
    decreases s.len() - j,
{
    if j < s.len() {
        assert(s.take(j + 1).drop_last() =~= s.take(j));
        lemma_count_grows(s, j + 1);
    } else {
        assert(s.take(j) =~= s);
    }
}

/// Picks an active server at random: `None` when none is active, else the
/// position of an active one.
pub fn select_upstream(states: &Vec<UpstreamState>) -> (r: Option<usize>)
    ensures
        r is Some <==> count_active(states@) > 0,
        r matches Some(i) ==> i < states.len() && states@[i as int] is Active,
{
    let n = active_count(states);
    if n == 0 {
        return None;
    }
    let k = random_below(n);
    nth_active(states, k)
}

} // verus!
