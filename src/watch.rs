use vstd::prelude::*;

verus! {

/// The quiet window, in milliseconds, that ends a burst of changes.
pub const QUIET_MS: u64 = 500;

/// The kind of a raw filesystem event.
#[derive(Clone, Copy, Debug, PartialEq, Eq, Structural)]
pub enum ChangeKind {
    Create,
    Modify,
    Remove,
    Access,
    Other,
}

/// Only creations and modifications count as changes of the theme.
pub fn counts_as_change(kind: ChangeKind) -> (r: bool)
    ensures
        r <==> (kind == ChangeKind::Create || kind == ChangeKind::Modify),
{
    match kind {
        ChangeKind::Create | ChangeKind::Modify => true,
        _ => false,
    }
}

/// Coalesces bursts of changes: idle, or waiting for quiet since the last
/// change seen.
pub struct Debouncer {
    pub pending: bool,
    pub last_event: u64,
}

impl Debouncer {
    pub fn new() -> (r: Debouncer)
        ensures
            !r.pending,
    {
        Debouncer { pending: false, last_event: 0 }
    }

    /// Records a raw event observed at time `at`; changes start or extend a burst.
    pub fn on_event(&mut self, kind: ChangeKind, at: u64)
        ensures
            (kind == ChangeKind::Create || kind == ChangeKind::Modify) ==> (final(self).pending
                && final(self).last_event == at),
            !(kind == ChangeKind::Create || kind == ChangeKind::Modify) ==> *final(self)
                == *old(self),
    {
        if counts_as_change(kind) {
            self.pending = true;
            self.last_event = at;
        }
    }

    /// Called at time `now`: emits one trigger, and returns to idle, when a
    /// burst has been quiet for longer than the window.
    pub fn on_tick(&mut self, now: u64) -> (fire: bool)
        ensures
            fire <==> (old(self).pending && now > old(self).last_event + QUIET_MS),
            fire ==> !final(self).pending,
            !fire ==> *final(self) == *old(self),
    {
        if self.pending && now > self.last_event && now - self.last_event > QUIET_MS {
            self.pending = false;
            true
        } else {
            false
        }
    }
}

/// How many gaps longer than the window separate consecutive change times.
pub open spec fn long_gaps(times: Seq<u64>) -> nat
    decreases times.len(),
{
    if times.len() <= 1 {
        0
    } else {
        long_gaps(times.drop_last()) + if times.last() > times[times.len() - 2] + QUIET_MS {
            1nat
        } else {
            0nat
        }
    }
}

/// The number of bursts in a sequence of change times.
pub open spec fn bursts(times: Seq<u64>) -> nat {
    if times.len() == 0 {
        0
    } else {
        long_gaps(times) + 1
    }
}

pub open spec fn ordered(times: Seq<u64>) -> bool {
    forall|i: int, j: int| 0 <= i <= j < times.len() ==> times[i] <= times[j]
}

/// Runs the debouncer over changes at the given times, with a tick just
/// before each change and one after the last, and counts the triggers.
pub fn count_triggers(times: &Vec<u64>) -> (r: u64)
    requires
        ordered(times@),
    ensures
        r == bursts(times@),
{
    let mut d = Debouncer::new();
    let mut count: u64 = 0;
    let mut i: usize = 0;
    while i < times.len()
        invariant
            i <= times@.len(),
            ordered(times@),
            i == 0 ==> !d.pending,
            i > 0 ==> d.pending && d.last_event == times@[i - 1],
            count == long_gaps(times@.take(i as int)),
            count <= i,
            i > 0 ==> count < i,
        decreases times@.len() - i,
    {
        let t = times[i];
        let fired = d.on_tick(t);
        if fired {
            count = count + 1;
        }
        d.on_event(ChangeKind::Modify, t);
        assert(times@.take(i + 1).drop_last() =~= times@.take(i as int));
        i = i + 1;
    }
    assert(times@.take(times@.len() as int) =~= times@);
    if d.pending {
        // The last burst ends once the window has passed.
        count = count + 1;
    }
    count
}

/// Changes each within the window of the one before form one burst, which
/// yields exactly one trigger.
pub proof fn lemma_one_burst(times: Seq<u64>)
    requires
        times.len() > 0,
        forall|i: int| 0 < i < times.len() ==> #[trigger] times[i] <= times[i - 1] + QUIET_MS,
    ensures
        bursts(times) == 1,
    decreases times.len(),
{
    lemma_no_long_gaps(times);
}

proof fn lemma_no_long_gaps(times: Seq<u64>)
    requires
        forall|i: int| 0 < i < times.len() ==> #[trigger] times[i] <= times[i - 1] + QUIET_MS,
    ensures
        long_gaps(times) == 0,
    decreases times.len(),
{
    if times.len() > 1 {
        lemma_no_long_gaps(times.drop_last());
    }
}

/// Two bursts separated by more than the window yield two triggers.
pub proof fn lemma_two_bursts(a: Seq<u64>, b: Seq<u64>)
    requires
        a.len() > 0,
        b.len() > 0,
        forall|i: int| 0 < i < a.len() ==> #[trigger] a[i] <= a[i - 1] + QUIET_MS,
        forall|i: int| 0 < i < b.len() ==> #[trigger] b[i] <= b[i - 1] + QUIET_MS,
        b[0] > a.last() + QUIET_MS,
    ensures
        bursts(a + b) == 2,
    decreases b.len(),
{
    lemma_gaps_split(a, b);
}

proof fn lemma_gaps_split(a: Seq<u64>, b: Seq<u64>)
    requires
        a.len() > 0,
        b.len() > 0,
        forall|i: int| 0 < i < a.len() ==> #[trigger] a[i] <= a[i - 1] + QUIET_MS,
        forall|i: int| 0 < i < b.len() ==> #[trigger] b[i] <= b[i - 1] + QUIET_MS,
        b[0] > a.last() + QUIET_MS,
    ensures
        long_gaps(a + b) == 1,
    decreases b.len(),
{
    if b.len() == 1 {
        assert((a + b).drop_last() =~= a);
        lemma_no_long_gaps(a);
    } else {
        assert((a + b).drop_last() =~= a + b.drop_last());
        lemma_gaps_split(a, b.drop_last());
    }
}

} // verus!
