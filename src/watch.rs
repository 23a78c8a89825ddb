//! Per-path watch state: content baselines, the debounce gate, and the change
//! notifications produced once a burst of events has settled.
use vstd::prelude::*;
use crate::diff::{added_lines, get_added_lines, lines_of, views};
use crate::error::TrackError;
use crate::table::KeyedTable;

verus! {

/// How long a path must stay quiet before its change is applied.
pub const DEBOUNCE_MS: u64 = 1000;

/// State kept for one watched path.
pub struct WatchTarget {
    pub content: String,
    pub last_event_ms: Option<u64>,
    pub pending: bool,
}

/// The mathematical value of a `WatchTarget`.
pub struct TargetView {
    pub content: Seq<char>,
    pub last_event_ms: Option<u64>,
    pub pending: bool,
}

impl WatchTarget {
    pub open spec fn view(&self) -> TargetView {
        TargetView {
            content: self.content@,
            last_event_ms: self.last_event_ms,
            pending: self.pending,
        }
    }
}

/// A settled change of one path.
pub struct ChangeNotification {
    pub path: String,
    pub kind: String,
    pub added_lines: Vec<String>,
    pub content: String,
}

/// The tag that every change notification carries.
pub open spec fn modified_tag() -> Seq<char> {
    seq!['F', 'i', 'l', 'e', 'M', 'o', 'd', 'i', 'f', 'i', 'e', 'd']
}

/// Names the text that `String::from_utf8_lossy` makes of some bytes.
pub uninterp spec fn lossy_text(b: Seq<u8>) -> Seq<char>;

/// Relies on `String::from_utf8_lossy`: the text depends on the bytes alone,
/// and no bytes give no text.
#[verifier::external_body]
fn decode_lossy(bytes: &[u8]) -> (r: String)
    ensures
        r@ == lossy_text(bytes@),
        bytes@.len() == 0 ==> r@.len() == 0,
{
    String::from_utf8_lossy(bytes).into_owned()
}

/// What is known of a path: its entry, or an empty baseline with no event seen.
pub open spec fn target_of(m: Map<Seq<char>, TargetView>, p: Seq<char>) -> TargetView {
    if m.contains_key(p) {
        m[p]
    } else {
        TargetView { content: Seq::empty(), last_event_ms: None, pending: false }
    }
}

/// An event for `p` at `now`: dropped while a deferred apply is pending,
/// otherwise it marks the path pending and records the time. The flag says
/// whether a deferred apply is to be scheduled.
pub open spec fn event_step(m: Map<Seq<char>, TargetView>, p: Seq<char>, now: u64) -> (
    Map<Seq<char>, TargetView>,
    bool,
) {
    let t = target_of(m, p);
    if t.pending {
        (m, false)
    } else {
        (m.insert(p, TargetView { last_event_ms: Some(now), pending: true, ..t }), true)
    }
}

/// No newer event has been recorded within the debounce window before `now`.
pub open spec fn settled(m: Map<Seq<char>, TargetView>, p: Seq<char>, now: u64) -> bool {
    match target_of(m, p).last_event_ms {
        Some(t) => now >= t && now - t >= DEBOUNCE_MS,
        None => false,
    }
}

/// New content counts as a change when it is non-empty and differs from the baseline.
pub open spec fn changed(m: Map<Seq<char>, TargetView>, p: Seq<char>, new: Seq<char>) -> bool {
    new.len() > 0 && new != target_of(m, p).content
}

/// Applying re-read content: a change replaces the baseline; anything else
/// leaves the state as it was.
pub open spec fn apply_step(m: Map<Seq<char>, TargetView>, p: Seq<char>, new: Seq<char>) -> Map<
    Seq<char>,
    TargetView,
> {
    if changed(m, p, new) {
        m.insert(p, TargetView { content: new, ..target_of(m, p) })
    } else {
        m
    }
}

/// The end of a deferred apply: the path is no longer pending.
pub open spec fn finish_step(m: Map<Seq<char>, TargetView>, p: Seq<char>) -> Map<
    Seq<char>,
    TargetView,
> {
    m.insert(p, TargetView { pending: false, ..target_of(m, p) })
}

/// `n` reports the change of `p` from `old` to `new`.
pub open spec fn reports(n: ChangeNotification, p: Seq<char>, old: Seq<char>, new: Seq<char>) -> bool {
    &&& n.path@ == p
    &&& n.kind@ == modified_tag()
    &&& views(n.added_lines@) == added_lines(lines_of(old), lines_of(new))
    &&& n.content@ == new
}

/// The paths whose flag says that they exist, in their order.
pub open spec fn existing_paths(paths: Seq<Seq<char>>, exists: Seq<bool>) -> Seq<Seq<char>>
    decreases paths.len(),
{
    if paths.len() == 0 || exists.len() == 0 {
        Seq::empty()
    } else {
        let prev = existing_paths(paths.drop_last(), exists.drop_last());
        if exists.last() {
            prev.push(paths.last())
        } else {
            prev
        }
    }
}

/// Keeps the paths that exist. Fails with `NoValidPaths` when none does.
pub fn select_watch_paths(paths: &Vec<String>, exists: &Vec<bool>) -> (r: Result<
    Vec<String>,
    TrackError,
>)
    requires
        paths@.len() == exists@.len(),
    ensures
        match r {
            Ok(kept) => views(kept@) == existing_paths(views(paths@), exists@) && kept@.len() > 0,
            Err(e) => e == TrackError::NoValidPaths && existing_paths(views(paths@), exists@).len()
                == 0,
        },
{
    let mut kept: Vec<String> = Vec::new();
    let mut i: usize = 0;
    while i < paths.len()
        invariant
            i <= paths@.len(),
            paths@.len() == exists@.len(),
            views(kept@) == existing_paths(views(paths@).take(i as int), exists@.take(i as int)),
        decreases paths@.len() - i,
    {
        let ghost prev = kept@;
        proof {
            assert(views(paths@).take(i + 1).drop_last() =~= views(paths@).take(i as int));
            assert(exists@.take(i + 1).drop_last() =~= exists@.take(i as int));
        }
        if exists[i] {
            kept.push(paths[i].clone());
            assert(views(kept@) =~= views(prev).push(paths@[i as int]@));
        }
        i = i + 1;
    }
    assert(views(paths@).take(paths@.len() as int) =~= views(paths@));
    assert(exists@.take(exists@.len() as int) =~= exists@);
    if kept.len() == 0 {
        Err(TrackError::NoValidPaths)
    } else {
        Ok(kept)
    }
}

/// The watch state of every path seen so far.
pub struct FileWatch {
    targets: KeyedTable<WatchTarget>,
}

impl FileWatch {
    pub closed spec fn wf(&self) -> bool {
        self.targets.wf()
    }

    pub closed spec fn view(&self) -> Map<Seq<char>, TargetView> {
        self.targets@.map_values(|t: WatchTarget| t@)
    }

    pub fn new() -> (r: Self)
        ensures
            r.wf(),
            r@ == Map::<Seq<char>, TargetView>::empty(),
    {
        let r = FileWatch { targets: KeyedTable::new() };
        assert(r@ =~= Map::<Seq<char>, TargetView>::empty());
        r
    }

    /// The stored state of `path`, as a fresh value.
    fn current(&self, path: &str) -> (r: WatchTarget)
        requires
            self.wf(),
        ensures
            r@ == target_of(self@, path@),
    {
        match self.targets.get(path) {
            Some(t) => WatchTarget {
                content: t.content.clone(),
                last_event_ms: t.last_event_ms,
                pending: t.pending,
            },
            None => WatchTarget { content: String::new(), last_event_ms: None, pending: false },
        }
    }

    fn store(&mut self, path: String, t: WatchTarget)
        requires
            old(self).wf(),
        ensures
            final(self).wf(),
            final(self)@ == old(self)@.insert(path@, t@),
    {
        let ghost before = self@;
        let ghost p = path@;
        let ghost tv = t@;
        self.targets.set(path, t);
        assert(self@ =~= before.insert(p, tv));
    }

    /// Takes `content` as the baseline of `path`; its event and pending state stay.
    pub fn register(&mut self, path: String, content: String)
        requires
            old(self).wf(),
        ensures
            final(self).wf(),
            final(self)@ == old(self)@.insert(
                path@,
                TargetView { content: content@, ..target_of(old(self)@, path@) },
            ),
    {
        let cur = self.current(path.as_str());
        let t = WatchTarget { content, last_event_ms: cur.last_event_ms, pending: cur.pending };
        self.store(path, t);
    }

    /// Takes what was read from `path` as its baseline, decoded lossily.
    pub fn register_bytes(&mut self, path: String, bytes: &[u8])
        requires
            old(self).wf(),
        ensures
            final(self).wf(),
            final(self)@ == old(self)@.insert(
                path@,
                TargetView { content: lossy_text(bytes@), ..target_of(old(self)@, path@) },
            ),
    {
        let content = decode_lossy(bytes);
        self.register(path, content);
    }

    /// An event for `path` at `now_ms`. Returns whether a deferred apply is to
    /// be scheduled after `DEBOUNCE_MS`; while one is pending the event is dropped.
    pub fn on_event(&mut self, path: String, now_ms: u64) -> (r: bool)
        requires
            old(self).wf(),
        ensures
            final(self).wf(),
            (final(self)@, r) == event_step(old(self)@, path@, now_ms),
    {
        let cur = self.current(path.as_str());
        if cur.pending {
            false
        } else {
            let t = WatchTarget { content: cur.content, last_event_ms: Some(now_ms), pending: true };
            self.store(path, t);
            true
        }
    }

    /// Whether the deferred apply running at `now_ms` is still the latest:
    /// the last event of `path` lies at least `DEBOUNCE_MS` back.
    pub fn is_settled(&self, path: &str, now_ms: u64) -> (r: bool)
        requires
            self.wf(),
        ensures
            r == settled(self@, path@, now_ms),
    {
        let cur = self.current(path);
        match cur.last_event_ms {
            Some(t) => now_ms >= t && now_ms - t >= DEBOUNCE_MS,
            None => false,
        }
    }

    /// Compares re-read content with the baseline of `path`. A change becomes
    /// the new baseline and is reported with the lines it adds; empty or
    /// unchanged content reports nothing.
    pub fn apply_content(&mut self, path: String, new_content: String) -> (r: Option<
        ChangeNotification,
    >)
        requires
            old(self).wf(),
        ensures
            final(self).wf(),
            final(self)@ == apply_step(old(self)@, path@, new_content@),
            r is Some <==> changed(old(self)@, path@, new_content@),
            r matches Some(n) ==> reports(
                n,
                path@,
                target_of(old(self)@, path@).content,
                new_content@,
            ),
    {
        let cur = self.current(path.as_str());
        if new_content.as_str().unicode_len() == 0 {
            return None;
        }
        if cur.content == new_content {
            return None;
        }
        let added = get_added_lines(cur.content.as_str(), new_content.as_str());
        let kind = String::from_str("FileModified");
        proof {
            reveal_strlit("FileModified");
            assert(kind@ =~= modified_tag());
        }
        let n = ChangeNotification {
            path: path.clone(),
            kind,
            added_lines: added,
            content: new_content.clone(),
        };
        let t = WatchTarget {
            content: new_content,
            last_event_ms: cur.last_event_ms,
            pending: cur.pending,
        };
        self.store(path, t);
        Some(n)
    }

    /// `apply_content` on bytes read from `path`, decoded lossily.
    pub fn apply_bytes(&mut self, path: String, bytes: &[u8]) -> (r: Option<ChangeNotification>)
        requires
            old(self).wf(),
        ensures
            final(self).wf(),
            final(self)@ == apply_step(old(self)@, path@, lossy_text(bytes@)),
            r is Some <==> changed(old(self)@, path@, lossy_text(bytes@)),
            r matches Some(n) ==> reports(
                n,
                path@,
                target_of(old(self)@, path@).content,
                lossy_text(bytes@),
            ),
    {
        let content = decode_lossy(bytes);
        self.apply_content(path, content)
    }

    /// Ends a deferred apply: `path` is no longer pending.
    pub fn finish_task(&mut self, path: String)
        requires
            old(self).wf(),
        ensures
            final(self).wf(),
            final(self)@ == finish_step(old(self)@, path@),
    {
        let cur = self.current(path.as_str());
        let t = WatchTarget { content: cur.content, last_event_ms: cur.last_event_ms, pending: false };
        self.store(path, t);
    }
}

/// A burst of events on one path is coalesced: the first event schedules the
/// only deferred apply, the later ones are dropped, and that apply, once
/// settled, reports the whole change from the baseline to the final content.
pub proof fn lemma_burst_coalesces(
    m: Map<Seq<char>, TargetView>,
    p: Seq<char>,
    t0: u64,
    t1: u64,
    t2: u64,
    t_apply: u64,
    final_content: Seq<char>,
)
    requires
        !target_of(m, p).pending,
        t0 <= t1 <= t2 <= t_apply,
        t_apply - t0 >= DEBOUNCE_MS,
        final_content.len() > 0,
        final_content != target_of(m, p).content,
    ensures
        ({
            let (m1, s1) = event_step(m, p, t0);
            let (m2, s2) = event_step(m1, p, t1);
            let (m3, s3) = event_step(m2, p, t2);
            &&& s1 && !s2 && !s3
            &&& settled(m3, p, t_apply)
            &&& changed(m3, p, final_content)
            &&& target_of(m3, p).content == target_of(m, p).content
            &&& target_of(apply_step(m3, p, final_content), p).content == final_content
            &&& !target_of(finish_step(apply_step(m3, p, final_content), p), p).pending
        }),
{
}

/// Re-reading content equal to the baseline reports nothing and changes nothing.
pub proof fn lemma_unchanged_content_is_silent(m: Map<Seq<char>, TargetView>, p: Seq<char>)
    ensures
        !changed(m, p, target_of(m, p).content),
        apply_step(m, p, target_of(m, p).content) == m,
{
}

} // verus!
