//! The table of tracking sessions: starting, stopping, finalising on process
//! exit, and reading the current playtime. Times are milliseconds of a
//! monotonic clock; durations are whole seconds.
use vstd::prelude::*;
use crate::error::TrackError;
use crate::table::KeyedTable;

verus! {

/// One application's tracking state.
#[derive(Clone, Copy, Debug, PartialEq, Eq, Structural)]
pub struct TrackingSession {
    /// When the current run segment began.
    pub start_ms: u64,
    /// Seconds of all segments completed before the current one.
    pub accumulated_secs: u64,
    pub is_running: bool,
}

/// Whole seconds from `start_ms` to `now_ms`; none when the clock reads earlier.
pub open spec fn segment_secs(start_ms: u64, now_ms: u64) -> nat {
    if now_ms >= start_ms {
        ((now_ms - start_ms) / 1000) as nat
    } else {
        0
    }
}

/// `a + b`, held at `u64::MAX`.
pub open spec fn sat_add(a: u64, b: nat) -> u64 {
    if a + b > u64::MAX {
        u64::MAX
    } else {
        (a + b) as u64
    }
}

/// A running session ends its segment at `now_ms`; a stopped one stays as it is.
pub open spec fn finalize(s: TrackingSession, now_ms: u64) -> TrackingSession {
    if s.is_running {
        TrackingSession {
            start_ms: s.start_ms,
            accumulated_secs: sat_add(s.accumulated_secs, segment_secs(s.start_ms, now_ms)),
            is_running: false,
        }
    } else {
        s
    }
}

/// Seconds played by `s` as of `now_ms`.
pub open spec fn playtime_of(s: TrackingSession, now_ms: u64) -> u64 {
    if s.is_running {
        sat_add(s.accumulated_secs, segment_secs(s.start_ms, now_ms))
    } else {
        s.accumulated_secs
    }
}

pub open spec fn running_in(m: Map<Seq<char>, TrackingSession>, id: Seq<char>) -> bool {
    m.contains_key(id) && m[id].is_running
}

/// Starting `id` at `now_ms` with `prior` seconds: refused while a session
/// for `id` runs, otherwise a fresh running session replaces any old one.
pub open spec fn start_step(
    m: Map<Seq<char>, TrackingSession>,
    id: Seq<char>,
    prior: u64,
    now_ms: u64,
) -> Map<Seq<char>, TrackingSession> {
    if running_in(m, id) {
        m
    } else {
        m.insert(id, TrackingSession { start_ms: now_ms, accumulated_secs: prior, is_running: true })
    }
}

/// Ending the current segment of `id` at `now_ms`, by a stop request or by the
/// monitor seeing the process gone; only a running session changes.
pub open spec fn end_step(m: Map<Seq<char>, TrackingSession>, id: Seq<char>, now_ms: u64) -> Map<
    Seq<char>,
    TrackingSession,
> {
    if m.contains_key(id) {
        m.insert(id, finalize(m[id], now_ms))
    } else {
        m
    }
}

/// Seconds played by `id` as of `now_ms`; zero for an unknown id.
pub open spec fn playtime_in(m: Map<Seq<char>, TrackingSession>, id: Seq<char>, now_ms: u64) -> u64 {
    if m.contains_key(id) {
        playtime_of(m[id], now_ms)
    } else {
        0
    }
}

fn add_elapsed(acc: u64, start_ms: u64, now_ms: u64) -> (r: u64)
    ensures
        r == sat_add(acc, segment_secs(start_ms, now_ms)),
{
    let secs: u64 = if now_ms >= start_ms {
        (now_ms - start_ms) / 1000
    } else {
        0
    };
    acc.saturating_add(secs)
}

/// Owns the sessions of all applications, keyed by application id.
pub struct ProcessManager {
    sessions: KeyedTable<TrackingSession>,
}

impl ProcessManager {
    pub closed spec fn wf(&self) -> bool {
        self.sessions.wf()
    }

    pub closed spec fn view(&self) -> Map<Seq<char>, TrackingSession> {
        self.sessions@
    }

    pub fn new() -> (r: Self)
        ensures
            r.wf(),
            r@ == Map::<Seq<char>, TrackingSession>::empty(),
    {
        ProcessManager { sessions: KeyedTable::new() }
    }

    /// The session of `app_id`, if one was ever started.
    pub fn session(&self, app_id: &str) -> (r: Option<TrackingSession>)
        requires
            self.wf(),
        ensures
            r is Some <==> self@.contains_key(app_id@),
            r matches Some(s) ==> s == self@[app_id@],
    {
        match self.sessions.get(app_id) {
            Some(s) => Some(*s),
            None => None,
        }
    }

    /// Fails with `AlreadyTracking` while a session for `app_id` runs.
    pub fn check_can_start(&self, app_id: &str) -> (r: Result<(), TrackError>)
        requires
            self.wf(),
        ensures
            r is Err <==> running_in(self@, app_id@),
            r matches Err(e) ==> e == TrackError::AlreadyTracking,
    {
        match self.sessions.get(app_id) {
            Some(s) => {
                if s.is_running {
                    Err(TrackError::AlreadyTracking)
                } else {
                    Ok(())
                }
            },
            None => Ok(()),
        }
    }

    /// Records a running session for `app_id` that began at `now_ms` with
    /// `prior` seconds already played. Fails with `AlreadyTracking`, changing
    /// nothing, while a session for `app_id` runs.
    pub fn start_session(&mut self, app_id: String, prior: u64, now_ms: u64) -> (r: Result<
        (),
        TrackError,
    >)
        requires
            old(self).wf(),
        ensures
            final(self).wf(),
            final(self)@ == start_step(old(self)@, app_id@, prior, now_ms),
            r is Err <==> running_in(old(self)@, app_id@),
            r matches Err(e) ==> e == TrackError::AlreadyTracking,
    {
        let checked = self.check_can_start(app_id.as_str());
        match checked {
            Err(e) => Err(e),
            Ok(()) => {
                self.sessions.set(
                    app_id,
                    TrackingSession { start_ms: now_ms, accumulated_secs: prior, is_running: true },
                );
                Ok(())
            },
        }
    }

    /// Seconds played by `app_id` as of `now_ms`: the completed segments plus
    /// the running one; zero for an unknown id.
    pub fn current_playtime(&self, app_id: &str, now_ms: u64) -> (r: u64)
        requires
            self.wf(),
        ensures
            r == playtime_in(self@, app_id@, now_ms),
    {
        match self.sessions.get(app_id) {
            Some(s) => {
                if s.is_running {
                    add_elapsed(s.accumulated_secs, s.start_ms, now_ms)
                } else {
                    s.accumulated_secs
                }
            },
            None => 0,
        }
    }

    /// Ends the running segment of `app_id` at `now_ms` and returns the total
    /// seconds, which the caller persists. A stopped session returns its total
    /// unchanged; an unknown id fails with `NotTracking`.
    pub fn stop_tracking(&mut self, app_id: String, now_ms: u64) -> (r: Result<u64, TrackError>)
        requires
            old(self).wf(),
        ensures
            final(self).wf(),
            final(self)@ == end_step(old(self)@, app_id@, now_ms),
            match r {
                Ok(total) => old(self)@.contains_key(app_id@) && total == finalize(
                    old(self)@[app_id@],
                    now_ms,
                ).accumulated_secs,
                Err(e) => !old(self)@.contains_key(app_id@) && e == TrackError::NotTracking,
            },
    {
        let found = self.session(app_id.as_str());
        match found {
            None => Err(TrackError::NotTracking),
            Some(s) => {
                if s.is_running {
                    let total = add_elapsed(s.accumulated_secs, s.start_ms, now_ms);
                    self.sessions.set(
                        app_id,
                        TrackingSession { start_ms: s.start_ms, accumulated_secs: total, is_running: false },
                    );
                    Ok(total)
                } else {
                    let ghost before = self@;
                    proof {
                        assert(before.insert(app_id@, s) =~= before);
                    }
                    Ok(s.accumulated_secs)
                }
            },
        }
    }

    /// The monitor saw the process of `app_id` gone at `now_ms`. Only the first
    /// to end a running segment adds it: the total comes back, to be persisted,
    /// when this call did; otherwise nothing changes and `None` comes back.
    pub fn finish_on_exit(&mut self, app_id: String, now_ms: u64) -> (r: Option<u64>)
        requires
            old(self).wf(),
        ensures
            final(self).wf(),
            final(self)@ == end_step(old(self)@, app_id@, now_ms),
            r is Some <==> running_in(old(self)@, app_id@),
            r matches Some(total) ==> total == finalize(old(self)@[app_id@], now_ms).accumulated_secs,
    {
        let found = self.session(app_id.as_str());
        match found {
            Some(s) => {
                if s.is_running {
                    let total = add_elapsed(s.accumulated_secs, s.start_ms, now_ms);
                    self.sessions.set(
                        app_id,
                        TrackingSession { start_ms: s.start_ms, accumulated_secs: total, is_running: false },
                    );
                    Some(total)
                } else {
                    let ghost before = self@;
                    proof {
                        assert(before.insert(app_id@, s) =~= before);
                    }
                    None
                }
            },
            None => None,
        }
    }
}

/// Starting an application whose session runs changes nothing, whatever the
/// prior seconds and the time.
pub proof fn lemma_start_while_running_is_refused(
    m: Map<Seq<char>, TrackingSession>,
    id: Seq<char>,
    prior: u64,
    now_ms: u64,
)
    requires
        running_in(m, id),
    ensures
        start_step(m, id, prior, now_ms) == m,
{
}

/// A stop request and the monitor's exit handling may both end one segment,
/// in either order and at any times: the segment is counted once, by the
/// first of the two.
pub proof fn lemma_segment_counted_once(
    m: Map<Seq<char>, TrackingSession>,
    id: Seq<char>,
    first_ms: u64,
    second_ms: u64,
    read_ms: u64,
)
    requires
        running_in(m, id),
    ensures
        playtime_in(end_step(end_step(m, id, first_ms), id, second_ms), id, read_ms) == sat_add(
            m[id].accumulated_secs,
            segment_secs(m[id].start_ms, first_ms),
        ),
        end_step(end_step(m, id, first_ms), id, second_ms) == end_step(m, id, first_ms),
{
    let m1 = end_step(m, id, first_ms);
    assert(m1.insert(id, finalize(m1[id], second_ms)) =~= m1);
}

/// One run of an application: started at `start_ms`, ended first at
/// `first_end_ms` by whichever of the monitor's exit handling and the stop
/// request came first, and again at `second_end_ms` by the other.
pub struct Segment {
    pub start_ms: u64,
    pub first_end_ms: u64,
    pub second_end_ms: u64,
}

/// The table after each segment in turn is started, then ended twice; the
/// first start carries `prior` seconds, each later one the total that the
/// previous segment reached.
pub open spec fn run_segments(
    m: Map<Seq<char>, TrackingSession>,
    id: Seq<char>,
    prior: u64,
    segs: Seq<Segment>,
) -> Map<Seq<char>, TrackingSession>
    decreases segs.len(),
{
    if segs.len() == 0 {
        m
    } else {
        let before = run_segments(m, id, prior, segs.drop_last());
        let carried = if segs.len() == 1 {
            prior
        } else {
            playtime_in(before, id, 0)
        };
        let s = segs.last();
        let started = start_step(before, id, carried, s.start_ms);
        end_step(end_step(started, id, s.first_end_ms), id, s.second_end_ms)
    }
}

/// The sum of the segments' durations, added to `prior` and held at `u64::MAX`.
pub open spec fn total_after(prior: u64, segs: Seq<Segment>) -> u64
    decreases segs.len(),
{
    if segs.len() == 0 {
        prior
    } else {
        sat_add(
            total_after(prior, segs.drop_last()),
            segment_secs(segs.last().start_ms, segs.last().first_end_ms),
        )
    }
}

/// After any number of start / stop cycles of one application, with the
/// monitor's exit handling racing each stop, the playtime read after the last
/// stop is the sum of all segment durations on top of the prior seconds.
pub proof fn lemma_playtime_sums_segments(
    m: Map<Seq<char>, TrackingSession>,
    id: Seq<char>,
    prior: u64,
    segs: Seq<Segment>,
    read_ms: u64,
)
    requires
        !running_in(m, id),
        segs.len() > 0,
    ensures
        playtime_in(run_segments(m, id, prior, segs), id, read_ms) == total_after(prior, segs),
        !running_in(run_segments(m, id, prior, segs), id),
    decreases segs.len(),
{
    let rest = segs.drop_last();
    if segs.len() > 1 {
        lemma_playtime_sums_segments(m, id, prior, rest, 0);
    } else {
        assert(run_segments(m, id, prior, rest) == m);
        assert(total_after(prior, rest) == prior);
    }
}

} // verus!
