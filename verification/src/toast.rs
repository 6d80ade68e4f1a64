//! Toast notifications: short messages that pass across a corner of the
//! window.

use vstd::prelude::*;

use crate::text::same;

verus! {

/// The most toasts shown at once. Anything beyond this is a wall of boxes, so
/// the oldest is dropped.
pub const MAX_VISIBLE: usize = 5;

/// How long, in milliseconds, an error or warning stays suppressed after it
/// was shown once. Backend failures tend to repeat on a timer, and showing
/// each identical failure again would bury everything else.
pub const REPEAT_SUPPRESSION: u64 = 60_000;

/// How long, in milliseconds, a toast stays on screen.
pub const TOAST_DURATION: u64 = 4_000;

/// What a toast is about.
#[derive(Debug, Clone, Copy, PartialEq, Eq, Structural)]
pub enum ToastLevel {
    Info,
    Success,
    Warning,
    Error,
}

/// One message. Times are readings of a clock in milliseconds.
#[derive(Debug)]
pub struct Toast {
    pub message: String,
    pub level: ToastLevel,
    pub created: u64,
    pub duration: u64,
}

/// What a [`Toast`] says, with its message as a sequence of characters.
pub struct ToastView {
    pub message: Seq<char>,
    pub level: ToastLevel,
    pub created: u64,
    pub duration: u64,
}

/// The time between two clock readings, zero where they are out of order.
pub open spec fn elapsed(since: u64, now: u64) -> u64 {
    if now >= since {
        (now - since) as u64
    } else {
        0
    }
}

impl View for Toast {
    type V = ToastView;

    open spec fn view(&self) -> ToastView {
        ToastView {
            message: self.message@,
            level: self.level,
            created: self.created,
            duration: self.duration,
        }
    }
}

impl ToastView {
    /// A toast that is made at `now` and stays for the usual time.
    pub open spec fn made(message: Seq<char>, level: ToastLevel, now: u64) -> ToastView {
        ToastView { message, level, created: now, duration: TOAST_DURATION }
    }

    /// Whether the toast has been on screen for its whole duration.
    pub open spec fn expired(self, now: u64) -> bool {
        elapsed(self.created, now) >= self.duration
    }
}

impl Toast {
    pub fn new(message: &str, level: ToastLevel, now: u64) -> (t: Toast)
        ensures
            t@ == ToastView::made(message@, level, now),
    {
        Toast { message: message.to_owned(), level, created: now, duration: TOAST_DURATION }
    }

    pub fn info(msg: &str, now: u64) -> (t: Toast)
        ensures
            t@ == ToastView::made(msg@, ToastLevel::Info, now),
    {
        Toast::new(msg, ToastLevel::Info, now)
    }

    pub fn success(msg: &str, now: u64) -> (t: Toast)
        ensures
            t@ == ToastView::made(msg@, ToastLevel::Success, now),
    {
        Toast::new(msg, ToastLevel::Success, now)
    }

    pub fn error(msg: &str, now: u64) -> (t: Toast)
        ensures
            t@ == ToastView::made(msg@, ToastLevel::Error, now),
    {
        Toast::new(msg, ToastLevel::Error, now)
    }

    pub fn warning(msg: &str, now: u64) -> (t: Toast)
        ensures
            t@ == ToastView::made(msg@, ToastLevel::Warning, now),
    {
        Toast::new(msg, ToastLevel::Warning, now)
    }

    /// Whether the toast has been on screen for its whole duration at `now`.
    pub fn is_expired(&self, now: u64) -> (b: bool)
        ensures
            b == self@.expired(now),
    {
        now.saturating_sub(self.created) >= self.duration
    }
}

/// The queue of toasts.
#[derive(Debug)]
pub struct Toasts {
    /// The toasts, oldest first.
    pub queue: Vec<Toast>,
    /// When each error or warning was last shown.
    pub last_shown: Vec<(String, u64)>,
}

/// What [`Toasts`] holds.
pub struct ToastsView {
    pub queue: Seq<ToastView>,
    pub last_shown: Seq<(Seq<char>, u64)>,
}

impl View for Toasts {
    type V = ToastsView;

    open spec fn view(&self) -> ToastsView {
        ToastsView {
            queue: self.queue@.map_values(|t: Toast| t@),
            last_shown: self.last_shown@.map_values(|e: (String, u64)| (e.0@, e.1)),
        }
    }
}

impl ToastsView {
    /// At most [`MAX_VISIBLE`] toasts are queued, and no message is on record
    /// twice.
    pub open spec fn well_formed(self) -> bool {
        &&& self.queue.len() <= MAX_VISIBLE
        &&& forall|i: int, j: int|
            0 <= i < j < self.last_shown.len() ==> (#[trigger] self.last_shown[i]).0 != (
            #[trigger] self.last_shown[j]).0
    }

    /// The record without the entries old enough to be shown again.
    pub open spec fn recently_shown(self, now: u64) -> Seq<(Seq<char>, u64)> {
        self.last_shown.filter(|e: (Seq<char>, u64)| elapsed(e.1, now) < REPEAT_SUPPRESSION)
    }

    /// Whether a toast that is still on screen says `message`.
    pub open spec fn on_screen(self, message: Seq<char>, now: u64) -> bool {
        exists|i: int|
            0 <= i < self.queue.len() && !(#[trigger] self.queue[i]).expired(now)
                && self.queue[i].message == message
    }

    /// The queue with `t` at its end, and without its front where it would be
    /// too long.
    pub open spec fn queued(self, t: ToastView) -> Seq<ToastView> {
        let all = self.queue.push(t);
        if all.len() > MAX_VISIBLE {
            all.skip(all.len() - MAX_VISIBLE)
        } else {
            all
        }
    }

    /// What showing `t` at `now` leaves. An error or warning is dropped where
    /// the same message was shown within [`REPEAT_SUPPRESSION`]; an info or
    /// success only where a copy of it is still on screen.
    pub open spec fn pushed(self, t: ToastView, now: u64) -> ToastsView {
        if t.level == ToastLevel::Error || t.level == ToastLevel::Warning {
            let recent = self.recently_shown(now);
            if exists|i: int| 0 <= i < recent.len() && (#[trigger] recent[i]).0 == t.message {
                ToastsView { queue: self.queue, last_shown: recent }
            } else {
                ToastsView { queue: self.queued(t), last_shown: recent.push((t.message, now)) }
            }
        } else if self.on_screen(t.message, now) {
            self
        } else {
            ToastsView { queue: self.queued(t), last_shown: self.last_shown }
        }
    }

    /// What showing a fresh toast leaves.
    pub open spec fn said(self, message: Seq<char>, level: ToastLevel, now: u64) -> ToastsView {
        self.pushed(ToastView::made(message, level, now), now)
    }

    /// What is left once the expired toasts are gone.
    pub open spec fn pruned(self, now: u64) -> ToastsView {
        ToastsView {
            queue: self.queue.filter(|t: ToastView| !t.expired(now)),
            last_shown: self.last_shown,
        }
    }
}

impl Default for Toasts {
    fn default() -> (t: Toasts)
        ensures
            t@.queue == Seq::<ToastView>::empty(),
            t@.last_shown == Seq::<(Seq<char>, u64)>::empty(),
    {
        let t = Toasts { queue: Vec::new(), last_shown: Vec::new() };
        assert(t@.queue =~= Seq::<ToastView>::empty());
        assert(t@.last_shown =~= Seq::<(Seq<char>, u64)>::empty());
        t
    }
}

impl Toasts {
    /// Drops the entries of the record that are old enough to be shown again.
    fn forget_old(&mut self, now: u64)
        ensures
            final(self)@ == (ToastsView {
                queue: old(self)@.queue,
                last_shown: old(self)@.recently_shown(now),
            }),
            final(self).queue == old(self).queue,
    {
        let mut kept: Vec<(String, u64)> = Vec::new();
        let ghost shown = self@.last_shown;
        let ghost recent = |e: (Seq<char>, u64)| elapsed(e.1, now) < REPEAT_SUPPRESSION;
        let mut i: usize = 0;
        proof {
            reveal(Seq::filter);
            assert(kept@.map_values(|e: (String, u64)| (e.0@, e.1)) =~= shown.take(0).filter(recent));
        }
        while i < self.last_shown.len()
            invariant
                0 <= i <= self.last_shown@.len(),
                self@ == old(self)@,
                self.queue == old(self).queue,
                shown == self@.last_shown,
                recent == (|e: (Seq<char>, u64)| elapsed(e.1, now) < REPEAT_SUPPRESSION),
                kept@.map_values(|e: (String, u64)| (e.0@, e.1)) == shown.take(i as int).filter(
                    recent,
                ),
            decreases self.last_shown@.len() - i,
        {
            let entry: (String, u64) = (self.last_shown[i].0.clone(), self.last_shown[i].1);
            proof {
                reveal(Seq::filter);
                assert(shown.take(i + 1).drop_last() =~= shown.take(i as int));
                assert(shown.take(i + 1).last() == (entry.0@, entry.1));
            }
            let ghost before = kept@;
            if now.saturating_sub(entry.1) < REPEAT_SUPPRESSION {
                kept.push(entry);
                assert(kept@.map_values(|e: (String, u64)| (e.0@, e.1)) =~= before.map_values(
                    |e: (String, u64)| (e.0@, e.1),
                ).push((entry.0@, entry.1)));
            }
            i += 1;
        }
        assert(shown.take(shown.len() as int) =~= shown);
        self.last_shown = kept;
    }

    /// Whether `message` is on record.
    fn on_record(&self, message: &str) -> (b: bool)
        ensures
            b == exists|i: int|
                0 <= i < self@.last_shown.len() && (#[trigger] self@.last_shown[i]).0 == message@,
    {
        let mut i: usize = 0;
        while i < self.last_shown.len()
            invariant
                0 <= i <= self.last_shown@.len(),
                forall|j: int| 0 <= j < i ==> (#[trigger] self@.last_shown[j]).0 != message@,
            decreases self.last_shown@.len() - i,
        {
            assert(self@.last_shown[i as int].0 == self.last_shown@[i as int].0@);
            if same(&self.last_shown[i].0, message) {
                return true;
            }
            i += 1;
        }
        false
    }

    /// Whether a toast that is still on screen says `message`.
    fn on_screen(&self, message: &str, now: u64) -> (b: bool)
        ensures
            b == self@.on_screen(message@, now),
    {
        let mut i: usize = 0;
        while i < self.queue.len()
            invariant
                0 <= i <= self.queue@.len(),
                forall|j: int|
                    0 <= j < i ==> (#[trigger] self@.queue[j]).expired(now) || self@.queue[j].message
                        != message@,
            decreases self.queue@.len() - i,
        {
            assert(self@.queue[i as int] == self.queue@[i as int]@);
            if !self.queue[i].is_expired(now) && same(&self.queue[i].message, message) {
                return true;
            }
            i += 1;
        }
        false
    }

    /// Queue a toast, unless it is a repeat.
    pub fn push(&mut self, toast: Toast, now: u64)
        requires
            old(self)@.queue.len() <= MAX_VISIBLE,
        ensures
            final(self)@ == old(self)@.pushed(toast@, now),
            final(self)@.queue.len() <= MAX_VISIBLE,
    {
        let loud: bool = match toast.level {
            ToastLevel::Error | ToastLevel::Warning => true,
            _ => false,
        };
        if loud {
            self.forget_old(now);
            if self.on_record(&toast.message) {
                return;
            }
            let ghost recent = self@.last_shown;
            self.last_shown.push((toast.message.clone(), now));
            assert(self@.last_shown =~= recent.push((toast.message@, now)));
            assert(self@.queue == old(self)@.queue);
        } else if self.on_screen(&toast.message, now) {
            return;
        }
        let ghost before = self.queue@;
        let ghost t = toast@;
        self.queue.push(toast);
        assert(self@.queue =~= before.map_values(|t: Toast| t@).push(t));
        if self.queue.len() > MAX_VISIBLE {
            self.queue.remove(0);
            assert(self@.queue =~= before.map_values(|t: Toast| t@).push(t).skip(1));
        }
        assert(before.map_values(|t: Toast| t@) == old(self)@.queue);
        assert(self@.queue =~= old(self)@.queued(t));
        assert(loud ==> self@.last_shown == old(self)@.recently_shown(now).push((t.message, now)));
        assert(!loud ==> self@.last_shown == old(self)@.last_shown);
    }

    /// Show a fresh toast, unless it is a repeat.
    pub fn say(&mut self, message: &str, level: ToastLevel, now: u64)
        requires
            old(self)@.queue.len() <= MAX_VISIBLE,
        ensures
            final(self)@ == old(self)@.said(message@, level, now),
            final(self)@.queue.len() <= MAX_VISIBLE,
    {
        self.push(Toast::new(message, level, now), now)
    }

    /// Remove expired toasts and return the active ones, oldest first.
    pub fn active(&mut self, now: u64) -> (r: &Vec<Toast>)
        ensures
            final(self)@ == old(self)@.pruned(now),
            r@.map_values(|t: Toast| t@) == final(self)@.queue,
            forall|i: int| 0 <= i < r@.len() ==> !(#[trigger] r@[i])@.expired(now),
            old(self)@.queue.len() <= MAX_VISIBLE ==> final(self)@.queue.len() <= MAX_VISIBLE,
    {
        let ghost all = self@.queue;
        let ghost live = |t: ToastView| !t.expired(now);
        let mut i: usize = 0;
        let ghost mut seen: int = 0;
        proof {
            reveal(Seq::filter);
            assert(all.take(0).filter(live) + all.skip(0) =~= self@.queue);
            assert(all.take(0).filter(live).len() == 0);
        }
        while i < self.queue.len()
            invariant
                0 <= i <= self.queue@.len(),
                0 <= seen <= all.len(),
                i == all.take(seen).filter(live).len(),
                self@.queue == all.take(seen).filter(live) + all.skip(seen),
                self@.last_shown == old(self)@.last_shown,
                all == old(self)@.queue,
                live == (|t: ToastView| !t.expired(now)),
                forall|j: int| 0 <= j < i ==> !(#[trigger] self.queue@[j])@.expired(now),
            decreases self.queue@.len() - i,
        {
            proof {
                reveal(Seq::filter);
                assert(all.take(seen + 1).drop_last() =~= all.take(seen));
                assert(self@.queue[i as int] == all[seen]);
                assert(self@.queue[i as int] == self.queue@[i as int]@);
            }
            let ghost before = self.queue@;
            if self.queue[i].is_expired(now) {
                self.queue.remove(i as usize);
                assert(self@.queue =~= before.map_values(|t: Toast| t@).remove(i as int));
                assert(self@.queue =~= all.take(seen + 1).filter(live) + all.skip(seen + 1));
            } else {
                i += 1;
                assert(self@.queue =~= all.take(seen + 1).filter(live) + all.skip(seen + 1));
            }
            proof {
                seen = seen + 1;
            }
        }
        proof {
            assert(all.skip(seen).len() == 0);
            assert(all.take(seen) =~= all);
            assert(self@.queue =~= all.filter(live));
            all.lemma_filter_len(live);
        }
        &self.queue
    }
}

/// Showing a toast keeps the queue short and the record free of repeats.
pub proof fn pushing_keeps_the_queue_well_formed(v: ToastsView, t: ToastView, now: u64)
    requires
        v.well_formed(),
    ensures
        v.pushed(t, now).well_formed(),
{
    let recent = v.recently_shown(now);
    let p = |e: (Seq<char>, u64)| elapsed(e.1, now) < REPEAT_SUPPRESSION;
    filter_keeps_messages_apart(v.last_shown, p);
    if t.level == ToastLevel::Error || t.level == ToastLevel::Warning {
        let grown = recent.push((t.message, now));
        if !(exists|i: int| 0 <= i < recent.len() && (#[trigger] recent[i]).0 == t.message) {
            assert forall|i: int, j: int| 0 <= i < j < grown.len() implies (#[trigger] grown[i]).0
                != (#[trigger] grown[j]).0 by {
                assert(grown[i] == recent[i]);
            }
        }
    }
}

proof fn filter_keeps_messages_apart(
    s: Seq<(Seq<char>, u64)>,
    p: spec_fn((Seq<char>, u64)) -> bool,
)
    requires
        forall|i: int, j: int|
            0 <= i < j < s.len() ==> (#[trigger] s[i]).0 != (#[trigger] s[j]).0,
    ensures
        forall|i: int, j: int|
            0 <= i < j < s.filter(p).len() ==> (#[trigger] s.filter(p)[i]).0 != (
            #[trigger] s.filter(p)[j]).0,
    decreases s.len(),
{
    reveal(Seq::filter);
    if s.len() > 0 {
        let front = s.drop_last();
        filter_keeps_messages_apart(front, p);
        assert forall|i: int, j: int| 0 <= i < j < s.filter(p).len() implies (
        #[trigger] s.filter(p)[i]).0 != (#[trigger] s.filter(p)[j]).0 by {
            if j == front.filter(p).len() {
                let entry = front.filter(p)[i];
                assert(front.filter(p).contains(entry));
                front.lemma_filter_contains_rev(p, entry);
                let k = choose|k: int| 0 <= k < front.len() && front[k] == entry;
                assert(s[k] == entry);
            }
        }
    }
}

/// A toast that is not held back stands at the end of the queue.
pub proof fn a_shown_toast_is_the_newest(v: ToastsView, t: ToastView, now: u64)
    requires
        v.pushed(t, now).queue != v.queue,
    ensures
        v.pushed(t, now).queue.len() > 0,
        v.pushed(t, now).queue.last() == t,
{
}

/// An error or warning that was just shown is shown once, however often it is
/// repeated within the suppression time.
pub proof fn repeated_errors_toast_once(
    v: ToastsView,
    first: ToastView,
    again: ToastView,
    now: u64,
    later: u64,
)
    requires
        first.level == ToastLevel::Error || first.level == ToastLevel::Warning,
        again.level == ToastLevel::Error || again.level == ToastLevel::Warning,
        again.message == first.message,
        forall|i: int|
            0 <= i < v.recently_shown(now).len() ==> (#[trigger] v.recently_shown(now)[i]).0
                != first.message,
        now <= later < now + REPEAT_SUPPRESSION,
    ensures
        v.pushed(first, now).queue.last() == first,
        v.pushed(first, now).pushed(again, later).queue == v.pushed(first, now).queue,
{
    let one = v.pushed(first, now);
    let entry = (first.message, now);
    let p = |e: (Seq<char>, u64)| elapsed(e.1, later) < REPEAT_SUPPRESSION;
    assert(one.last_shown == v.recently_shown(now).push(entry));
    reveal(Seq::filter);
    assert(p(entry));
    assert(one.last_shown.drop_last() =~= v.recently_shown(now));
    let recent = one.recently_shown(later);
    assert(recent.last() == entry);
    assert(recent[recent.len() - 1].0 == again.message);
}

/// An info or success is shown again once every copy of it has expired.
pub proof fn an_expired_info_can_repeat(v: ToastsView, t: ToastView, now: u64)
    requires
        t.level == ToastLevel::Info || t.level == ToastLevel::Success,
        forall|i: int|
            0 <= i < v.queue.len() && (#[trigger] v.queue[i]).message == t.message
                ==> v.queue[i].expired(now),
    ensures
        v.pushed(t, now).queue.len() > 0,
        v.pushed(t, now).queue.last() == t,
{
}

/// An info or success collapses into a copy of it that is still on screen.
pub proof fn a_visible_info_collapses(v: ToastsView, t: ToastView, now: u64, i: int)
    requires
        t.level == ToastLevel::Info || t.level == ToastLevel::Success,
        0 <= i < v.queue.len(),
        v.queue[i].message == t.message,
        !v.queue[i].expired(now),
    ensures
        v.pushed(t, now) == v,
{
}

} // verus!
