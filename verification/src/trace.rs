//! What holds of a thread's scopes and of a call site's records over time.
//!
//! A thread's history is a sequence of events: a scope is entered, or the
//! innermost open scope is left and its record is stored or not. A call
//! site's history is the sequence of its records' fates. The laws here are
//! stated over the views and transitions that the contracts of `ThreadInfo`,
//! `ZoneInfo` and `Zone` use.

use crate::shmem::Time;
use crate::span;
use crate::ThreadInfoView;
use crate::ZoneInfoView;
use crate::ZoneView;
use vstd::prelude::*;

verus! {

/// One step in the history of a thread's scopes.
pub enum ScopeEvent {
    /// A scope is entered.
    Enter,
    /// The innermost open scope is left; `stored` tells whether its record
    /// found room in the channel.
    Leave { stored: bool },
}

/// What a scope took along when it was entered.
pub struct EnteredScope {
    /// The depth that its record reports.
    pub depth: nat,
    /// Whether its record carries the thread's name.
    pub carries_name: bool,
}

/// A thread together with its open scopes and the records stored so far.
pub struct ThreadTrace {
    pub thread: ThreadInfoView,
    /// The scopes entered and not yet left, outermost first.
    pub open: Seq<EnteredScope>,
    /// The scopes whose records were stored, in the order of their leaving.
    pub stored: Seq<EnteredScope>,
}

impl ThreadTrace {
    /// A thread with no scope open and no record stored.
    pub open spec fn start(thread: ThreadInfoView) -> ThreadTrace {
        ThreadTrace { thread, open: Seq::empty(), stored: Seq::empty() }
    }

    /// Whether `event` can happen now: only an open scope can be left.
    pub open spec fn admits(self, event: ScopeEvent) -> bool {
        event is Leave ==> self.open.len() > 0
    }

    /// The trace after `event`.
    pub open spec fn step(self, event: ScopeEvent) -> ThreadTrace {
        match event {
            ScopeEvent::Enter => ThreadTrace {
                thread: self.thread.entered(),
                open: self.open.push(
                    EnteredScope {
                        depth: self.thread.depth,
                        carries_name: self.thread.name_to_send() is Some,
                    },
                ),
                stored: self.stored,
            },
            ScopeEvent::Leave { stored } => ThreadTrace {
                thread: self.thread.left(stored, self.open.last().carries_name),
                open: self.open.drop_last(),
                stored: if stored {
                    self.stored.push(self.open.last())
                } else {
                    self.stored
                },
            },
        }
    }

    /// The trace after `events`, in order.
    pub open spec fn run(self, events: Seq<ScopeEvent>) -> ThreadTrace
        decreases events.len(),
    {
        if events.len() == 0 {
            self
        } else {
            self.run(events.drop_last()).step(events.last())
        }
    }

    /// Whether each of `events` can happen in its turn.
    pub open spec fn admits_all(self, events: Seq<ScopeEvent>) -> bool
        decreases events.len(),
    {
        events.len() == 0 || (self.admits_all(events.drop_last()) && self.run(
            events.drop_last(),
        ).admits(events.last()))
    }

    /// Whether the thread's count is the number of open scopes and each open
    /// scope reports the number of scopes that enclose it.
    spec fn nested(self) -> bool {
        &&& self.thread.depth == self.open.len()
        &&& forall|k: int| 0 <= k < self.open.len() ==> (#[trigger] self.open[k]).depth == k
    }

    /// Whether the thread counts its name as sent exactly when a record has
    /// been stored, a stored record carries the name if any is stored, and
    /// every open scope carries the name unless it has been sent.
    spec fn named(self) -> bool {
        &&& forall|k: int|
            0 <= k < self.open.len() && !(#[trigger] self.open[k]).carries_name
                ==> self.thread.name_sent
        &&& self.thread.name_sent <==> self.stored.len() > 0
        &&& self.stored.len() > 0 ==> exists|i: int|
            0 <= i < self.stored.len() && (#[trigger] self.stored[i]).carries_name
    }

    proof fn lemma_step_keeps_nested(self, event: ScopeEvent)
        requires
            self.nested(),
            self.admits(event),
        ensures
            self.step(event).nested(),
    {
        let next = self.step(event);
        assert forall|k: int| 0 <= k < next.open.len() implies (#[trigger] next.open[k]).depth
            == k by {
            if k < self.open.len() {
                assert(next.open[k] == self.open[k]);
            }
        }
    }

    proof fn lemma_step_keeps_named(self, event: ScopeEvent)
        requires
            self.named(),
            self.admits(event),
        ensures
            self.step(event).named(),
    {
        let next = self.step(event);
        assert forall|k: int|
            0 <= k < next.open.len() && !(#[trigger] next.open[k]).carries_name
            implies next.thread.name_sent by {
            if k < self.open.len() {
                assert(next.open[k] == self.open[k]);
            }
        }
        if let ScopeEvent::Leave { stored: true } = event {
            if self.open.last().carries_name {
                assert(next.stored[next.stored.len() - 1].carries_name);
            } else {
                let i = choose|i: int|
                    0 <= i < self.stored.len() && (#[trigger] self.stored[i]).carries_name;
                assert(next.stored[i] == self.stored[i]);
            }
        }
    }

    proof fn lemma_run_keeps_nested(self, events: Seq<ScopeEvent>)
        requires
            self.nested(),
            self.admits_all(events),
        ensures
            self.run(events).nested(),
        decreases events.len(),
    {
        if events.len() > 0 {
            self.lemma_run_keeps_nested(events.drop_last());
            self.run(events.drop_last()).lemma_step_keeps_nested(events.last());
        }
    }

    proof fn lemma_run_keeps_named(self, events: Seq<ScopeEvent>)
        requires
            self.named(),
            self.admits_all(events),
        ensures
            self.run(events).named(),
        decreases events.len(),
    {
        if events.len() > 0 {
            self.lemma_run_keeps_named(events.drop_last());
            self.run(events.drop_last()).lemma_step_keeps_named(events.last());
        }
    }
}

/// The depth that a thread counts is the number of its scopes that are
/// entered and not yet left, whatever the history: so a scope's record
/// reports how many scopes enclosed it when it was entered, the outermost
/// scope reporting 0.
pub proof fn lemma_depth_counts_open_scopes(thread: ThreadInfoView, events: Seq<ScopeEvent>)
    requires
        thread.depth == 0,
        ThreadTrace::start(thread).admits_all(events),
    ensures
        ({
            let trace = ThreadTrace::start(thread).run(events);
            &&& trace.thread.depth == trace.open.len()
            &&& forall|k: int| 0 <= k < trace.open.len() ==> (#[trigger] trace.open[k]).depth == k
            &&& trace.step(ScopeEvent::Enter).open.last().depth == trace.open.len()
        }),
{
    ThreadTrace::start(thread).lemma_run_keeps_nested(events);
}

/// A thread's name reaches the collector with the first record that is
/// stored: as soon as any record of the thread has been stored, one of the
/// stored records carries the name, and from then on, and no sooner, the
/// thread counts its name as sent.
pub proof fn lemma_thread_name_is_sent(thread: ThreadInfoView, events: Seq<ScopeEvent>)
    requires
        !thread.name_sent,
        ThreadTrace::start(thread).admits_all(events),
    ensures
        ({
            let trace = ThreadTrace::start(thread).run(events);
            &&& trace.thread.name_sent <==> trace.stored.len() > 0
            &&& trace.stored.len() > 0 ==> exists|i: int|
                0 <= i < trace.stored.len() && (#[trigger] trace.stored[i]).carries_name
        }),
{
    ThreadTrace::start(thread).lemma_run_keeps_named(events);
}

/// The call site after scopes of it were left one after the other, `stored[i]`
/// telling whether the record of the `i`-th found room.
pub open spec fn site_after(info: ZoneInfoView, stored: Seq<bool>) -> ZoneInfoView
    decreases stored.len(),
{
    if stored.len() == 0 {
        info
    } else {
        site_after(info, stored.drop_last()).published(stored.last())
    }
}

/// A call site goes on sending its name exactly until one of its records has
/// been stored; its colour, its name and the name's key never change, so all
/// its records bear the same key.
pub proof fn lemma_site_sends_name_until_stored(info: ZoneInfoView, stored: Seq<bool>)
    ensures
        site_after(info, stored).copy_name == (info.copy_name && forall|j: int|
            0 <= j < stored.len() ==> !stored[j]),
        site_after(info, stored).color == info.color,
        site_after(info, stored).name == info.name,
        site_after(info, stored).name_key == info.name_key,
    decreases stored.len(),
{
    if stored.len() > 0 {
        let front = stored.drop_last();
        lemma_site_sends_name_until_stored(info, front);
        assert(forall|j: int| 0 <= j < front.len() ==> front[j] == stored[j]);
        if forall|j: int| 0 <= j < stored.len() ==> !stored[j] {
            assert(!stored.last());
        }
    }
}

/// Of the records of a call site whose name is still to be sent, the first
/// that is stored carries the name and no later one does. So if any of them
/// is stored, the collector gets the name, and gets it once.
pub proof fn lemma_first_stored_record_names_site(info: ZoneInfoView, stored: Seq<bool>, i: int)
    requires
        info.copy_name,
        0 <= i < stored.len(),
        stored[i],
    ensures
        site_after(info, stored.take(i)).copy_name <==> forall|j: int| 0 <= j < i ==> !stored[j],
        exists|k: int|
            0 <= k <= i && stored[k] && #[trigger] site_after(info, stored.take(k)).copy_name,
    decreases i,
{
    lemma_site_sends_name_until_stored(info, stored.take(i));
    assert(forall|j: int| 0 <= j < i ==> stored.take(i)[j] == stored[j]);
    if forall|j: int| 0 <= j < i ==> !stored[j] {
        assert(site_after(info, stored.take(i)).copy_name);
    } else {
        let j = choose|j: int| 0 <= j < i && stored[j];
        lemma_first_stored_record_names_site(info, stored, j);
    }
}

/// A scope's record never reports a duration longer than the time at which
/// the scope ended, and where the clock did not run backwards the scope's
/// start is its end less its duration.
pub proof fn lemma_scope_times(zone: ZoneView, now: Time, copy_name: bool)
    ensures
        zone.left_at(now, copy_name).duration <= zone.left_at(now, copy_name).end,
        zone.left_at(now, copy_name).end == now,
        now >= zone.start ==> zone.left_at(now, copy_name).end - zone.left_at(
            now,
            copy_name,
        ).duration == zone.start,
        forall|from: Time, to: Time| #[trigger] span(from, to) <= to,
{
}

} // verus!
