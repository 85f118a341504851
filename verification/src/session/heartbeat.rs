//! Heartbeat: pings the registered sessions to detect stale Virtuoso
//! processes. Stale sessions are marked, not deleted, so that the user can
//! inspect or recover them.
//!
//! The background thread, the sleeping, the pings and the flag files stand
//! outside the library; the state kept and the decisions stand here.
use vstd::prelude::*;

use std::sync::atomic::AtomicBool;
use std::sync::atomic::Ordering;
use std::sync::Arc;
use std::time::SystemTime;

use crate::commands::session::{indices_where, indices_with};

verus! {

broadcast use vstd::string::group_string_axioms;

#[verifier::external_type_specification]
#[verifier::external_body]
pub struct ExSystemTime(SystemTime);

/// Heartbeat state tracked per session.
#[derive(Debug)]
pub struct SessionHeartbeatState {
    pub session_id: String,
    pub last_heartbeat: SystemTime,
    pub is_stale: bool,
}

impl SessionHeartbeatState {
    /// The state of a session pinged at `at`: stale when the ping failed.
    pub fn observed(session_id: &str, at: SystemTime, reachable: bool) -> (r: Self)
        ensures
            r.session_id@ == session_id@,
            r.last_heartbeat == at,
            r.is_stale == !reachable,
    {
        SessionHeartbeatState {
            session_id: String::from_str(session_id),
            last_heartbeat: at,
            is_stale: !reachable,
        }
    }
}

/// The staleness of each state, in order.
pub open spec fn stale_flags(states: Seq<SessionHeartbeatState>) -> Seq<bool> {
    states.map_values(|s: SessionHeartbeatState| s.is_stale)
}

/// The positions of the sessions to mark as stale: those whose ping failed.
pub fn stale_sessions(states: &[SessionHeartbeatState]) -> (r: Vec<usize>)
    ensures
        r@ == indices_with(stale_flags(states@), true),
{
    let mut flags: Vec<bool> = Vec::new();
    let mut i: usize = 0;
    while i < states.len()
        invariant
            i <= states@.len(),
            flags@ == stale_flags(states@.take(i as int)),
        decreases states@.len() - i,
    {
        flags.push(states[i].is_stale);
        i = i + 1;
        assert(flags@ =~= stale_flags(states@.take(i as int)));
    }
    assert(states@.take(states@.len() as int) =~= states@);
    indices_where(flags.as_slice(), true)
}

/// The name of the flag file that marks a session as stale.
pub open spec fn stale_flag_name(session_id: Seq<char>) -> Seq<char> {
    session_id + ".stale"@
}

/// The name of the flag file that marks a session as stale.
pub fn stale_flag_file(session_id: &str) -> (r: String)
    ensures
        r@ == stale_flag_name(session_id@),
{
    let mut r = String::from_str(session_id);
    r.append(".stale");
    r
}

/// Heartbeat manager that periodically pings all registered sessions.
pub struct SessionHeartbeat {
    interval_secs: u64,
    stop_flag: Arc<AtomicBool>,
}

impl SessionHeartbeat {
    /// The number of seconds between two rounds of pings.
    pub closed spec fn interval(&self) -> u64 {
        self.interval_secs
    }

    /// The flag that tells the heartbeat thread to stop.
    pub closed spec fn flag(&self) -> Arc<AtomicBool> {
        self.stop_flag
    }

    /// A heartbeat that pings every `interval_secs` seconds, not yet told to
    /// stop.
    pub fn new(interval_secs: u64) -> (r: Self)
        ensures
            r.interval() == interval_secs,
    {
        SessionHeartbeat { interval_secs, stop_flag: Arc::new(AtomicBool::new(false)) }
    }

    /// The number of seconds between two rounds of pings.
    pub fn interval_secs(&self) -> (r: u64)
        ensures
            r == self.interval(),
    {
        self.interval_secs
    }

    /// The flag that tells the heartbeat thread to stop; the thread holds a
    /// clone of it.
    pub fn stop_flag(&self) -> (r: &Arc<AtomicBool>)
        ensures
            *r == self.flag(),
    {
        &self.stop_flag
    }

    /// Signal the heartbeat thread to stop.
    pub fn stop(&self) {
        self.stop_flag.store(true, Ordering::SeqCst);
    }
}

} // verus!
