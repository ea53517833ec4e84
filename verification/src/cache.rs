//! The program cache: tracks the one current asynchronous compile request,
//! the status the host's compiler last reported for it, and the program most
//! recently observed ready, which dispatch uses.

use vstd::prelude::*;

verus! {

/// An opaque handle naming one compile request. Handles are issued by
/// [`ProgramCache::compile`] and never reused.
#[derive(Clone, Copy, PartialEq, Eq, Structural, Debug)]
pub struct ProgramHandle {
    pub id: u64,
}

/// What the host's asynchronous compiler reports when a request is polled.
#[derive(Clone, Copy, PartialEq, Eq, Structural, Debug)]
pub enum ProgramStatus {
    /// Compilation has not finished; dispatch must skip and try again later.
    Pending,
    /// The program is compiled, validated and usable for dispatch.
    Ready,
    /// Compilation failed; any previously installed program stays in use.
    Failed,
}

/// Tracks the current compile request and the installed (last ready) program.
///
/// `installed` only ever advances to `current` on a `Ready` observation; a
/// `Failed` or `Pending` observation leaves it untouched, so a bad recompile
/// never unseats a working program.
pub struct ProgramCache {
    /// The id the next compile request will receive.
    pub next_id: u64,
    /// The most recent compile request; earlier requests are abandoned.
    pub current: Option<ProgramHandle>,
    /// The status the host last reported for `current`.
    pub status: ProgramStatus,
    /// The program dispatch uses: the last request observed `Ready`.
    pub installed: Option<ProgramHandle>,
    /// The source identifier behind `current`.
    pub source: Option<String>,
}

/// Where `installed` stands after one poll observation: a `Ready` report
/// promotes the current request, anything else changes nothing.
pub open spec fn observe_installed(
    installed: Option<ProgramHandle>,
    current: Option<ProgramHandle>,
    status: ProgramStatus,
) -> Option<ProgramHandle> {
    if status is Ready {
        current
    } else {
        installed
    }
}

/// Where `installed` stands after a whole run of poll observations with no
/// intervening compile request.
pub open spec fn installed_after(
    installed: Option<ProgramHandle>,
    current: Option<ProgramHandle>,
    events: Seq<ProgramStatus>,
) -> Option<ProgramHandle>
    decreases events.len(),
{
    if events.len() == 0 {
        installed
    } else {
        installed_after(
            observe_installed(installed, current, events[0]),
            current,
            events.drop_first(),
        )
    }
}

impl ProgramCache {
    /// Every handle the cache holds was issued before `next_id`.
    pub open spec fn wf(self) -> bool {
        &&& (self.current matches Some(h) ==> h.id < self.next_id)
        &&& (self.installed matches Some(h) ==> h.id < self.next_id)
    }

    /// An empty cache: nothing requested, nothing installed.
    pub fn new() -> (c: Self)
        ensures
            c.wf(),
            c.current is None,
            c.installed is None,
            c.status is Pending,
            c.source is None,
            c.next_id == 0,
    {
        ProgramCache {
            next_id: 0,
            current: None,
            status: ProgramStatus::Pending,
            installed: None,
            source: None,
        }
    }

    /// Hand a source to the compiler: returns at once with a fresh pending
    /// handle. A still-pending earlier request is superseded and silently
    /// abandoned; the installed program is untouched until the new request
    /// is observed ready.
    pub fn compile(&mut self, source_ref: String) -> (h: ProgramHandle)
        requires
            old(self).wf(),
            old(self).next_id < u64::MAX,
        ensures
            final(self).wf(),
            h.id == old(self).next_id,
            old(self).current matches Some(p) ==> h != p,
            old(self).installed matches Some(p) ==> h != p,
            final(self).current == Some(h),
            final(self).status is Pending,
            final(self).installed == old(self).installed,
            final(self).next_id == old(self).next_id + 1,
            final(self).source matches Some(s) && s@ == source_ref@,
    {
        let h = ProgramHandle { id: self.next_id };
        self.next_id = self.next_id + 1;
        self.current = Some(h);
        self.status = ProgramStatus::Pending;
        self.source = Some(source_ref);
        h
    }

    /// Record what the host's compiler reported for the current request.
    /// Only a `Ready` report moves the installed program; in particular a
    /// failed recompile leaves a previously installed program in place.
    pub fn observe(&mut self, status: ProgramStatus)
        requires
            old(self).wf(),
            old(self).current is Some,
        ensures
            final(self).wf(),
            final(self).status == status,
            final(self).installed == observe_installed(
                old(self).installed,
                old(self).current,
                status,
            ),
            final(self).current == old(self).current,
            final(self).next_id == old(self).next_id,
            final(self).source == old(self).source,
    {
        self.status = status;
        if matches!(status, ProgramStatus::Ready) {
            self.installed = self.current;
        }
    }

    /// The program dispatch may use this frame, if any.
    pub fn ready_program(&self) -> (r: Option<ProgramHandle>)
        ensures
            r == self.installed,
    {
        self.installed
    }
}

/// Once a program is both current and installed, no run of poll
/// observations — of any length, with any mix of reports — moves the
/// installed handle, so the program in use is stable across frames until a
/// reload issues a new compile request.
pub proof fn lemma_installed_stable(h: ProgramHandle, events: Seq<ProgramStatus>)
    ensures
        installed_after(Some(h), Some(h), events) == Some(h),
    decreases events.len(),
{
    if events.len() > 0 {
        assert(observe_installed(Some(h), Some(h), events[0]) == Some(h));
        lemma_installed_stable(h, events.drop_first());
    }
}

/// No run of poll observations can unseat an installed program unless some
/// observation is `Ready`: the installed handle after the run is either what
/// it was, or the current request.
pub proof fn lemma_installed_moves_only_to_current(
    installed: Option<ProgramHandle>,
    current: Option<ProgramHandle>,
    events: Seq<ProgramStatus>,
)
    ensures
        installed_after(installed, current, events) == installed
            || installed_after(installed, current, events) == current,
        (forall|i: int| 0 <= i < events.len() ==> !(events[i] is Ready))
            ==> installed_after(installed, current, events) == installed,
    decreases events.len(),
{
    if events.len() > 0 {
        let next = observe_installed(installed, current, events[0]);
        lemma_installed_moves_only_to_current(next, current, events.drop_first());
        assert(forall|i: int| 0 <= i < events.drop_first().len()
            ==> events.drop_first()[i] == events[i + 1]);
    }
}

} // verus!
