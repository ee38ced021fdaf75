//! The debounce behind the editors' writes: every change arms a timer, and
//! only the timer of the latest change writes (a note is saved, a shared
//! page's text is sent), so a burst of typing costs one write.

use vstd::prelude::*;

verus! {

/// An editor's debounce state.
#[derive(Debug, Clone, Copy, PartialEq, Eq, Structural)]
pub struct Debounce {
    /// How many changes were made; a timer carries the count of its change.
    pub epoch: u32,
    /// Everything typed has been written (the "Saved" indicator).
    pub saved: bool,
}

/// The state after one change.
pub open spec fn changed(d: Debounce) -> Debounce {
    Debounce { epoch: (d.epoch + 1) as u32, saved: false }
}

/// The state after `m` changes.
pub open spec fn changed_times(d: Debounce, m: nat) -> Debounce
    decreases m,
{
    if m == 0 {
        d
    } else {
        changed(changed_times(d, (m - 1) as nat))
    }
}

/// Whether the timer armed with `ticket` writes in state `d`.
pub open spec fn fires(d: Debounce, ticket: u32) -> bool {
    ticket == d.epoch
}

/// The state after the timer with `ticket` went off.
pub open spec fn after_timer(d: Debounce, ticket: u32) -> Debounce {
    if fires(d, ticket) {
        Debounce { saved: true, ..d }
    } else {
        d
    }
}

/// An editor as opened: nothing to write.
pub fn debounce_new() -> (d: Debounce)
    ensures
        d == (Debounce { epoch: 0, saved: true }),
{
    Debounce { epoch: 0, saved: true }
}

/// A change: the state after it, and the ticket its timer carries.
pub fn on_change(d: Debounce) -> (r: (Debounce, u32))
    requires
        d.epoch < u32::MAX,
    ensures
        r.0 == changed(d),
        r.1 == r.0.epoch,
{
    let epoch = d.epoch + 1;
    (Debounce { epoch, saved: false }, epoch)
}

/// A timer goes off: the state after it, and whether it writes.
pub fn on_timer(d: Debounce, ticket: u32) -> (r: (Debounce, bool))
    ensures
        r.1 == fires(d, ticket),
        r.0 == after_timer(d, ticket),
{
    if ticket == d.epoch {
        (Debounce { epoch: d.epoch, saved: true }, true)
    } else {
        (d, false)
    }
}

/// After a change and `m` more, the change's timer writes exactly when no
/// later change came (`m == 0`); and the write of the latest change marks
/// everything saved.
pub proof fn lemma_only_latest_change_writes(d: Debounce, m: nat)
    requires
        d.epoch + 1 + m <= u32::MAX,
    ensures
        ({
            let first = changed(d);
            let now = changed_times(first, m);
            &&& fires(now, first.epoch) <==> m == 0
            &&& fires(now, now.epoch)
            &&& after_timer(now, now.epoch).saved
            &&& (m > 0 ==> !now.saved)
        }),
{
    lemma_changed_times(changed(d), m);
}

/// `m` changes add `m` to the count; any change leaves something unsaved.
pub proof fn lemma_changed_times(d: Debounce, m: nat)
    requires
        d.epoch + m <= u32::MAX,
    ensures
        changed_times(d, m).epoch == d.epoch + m,
        m > 0 ==> !changed_times(d, m).saved,
        m == 0 ==> changed_times(d, m) == d,
    decreases m,
{
    if m > 0 {
        lemma_changed_times(d, (m - 1) as nat);
    }
}

} // verus!
