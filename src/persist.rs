use crate::date::{current_timestamp, Date};
use crate::record::{started_view, DoneConf, DoneConfView};
use vstd::prelude::*;

verus! {

/// A record freshly reset on `today`: nothing in progress, nothing finished.
pub open spec fn fresh(today: Date) -> DoneConfView {
    DoneConfView { started: None, done: Seq::empty(), date: today }
}

/// The record as it stands once the daily reset has been applied on `today`.
pub open spec fn refreshed(c: DoneConfView, today: Date) -> DoneConfView {
    if c.date == today {
        c
    } else {
        fresh(today)
    }
}

/// The record to work on, given what could be read from the store (`None`
/// when nothing usable was there).
pub open spec fn prepared(loaded: Option<DoneConfView>, today: Date) -> DoneConfView {
    match loaded {
        Some(c) => refreshed(c, today),
        None => fresh(today),
    }
}

/// Whether the store has to be rewritten to hold `prepared(loaded, today)`.
pub open spec fn needs_write(loaded: Option<DoneConfView>, today: Date) -> bool {
    match loaded {
        Some(c) => c.date != today,
        None => true,
    }
}

pub open spec fn loaded_view(loaded: Option<DoneConf>) -> Option<DoneConfView> {
    match loaded {
        Some(c) => Some(c@),
        None => None,
    }
}

/// A record freshly reset on `today`.
pub fn clear_config(today: Date) -> (r: DoneConf)
    ensures
        r@ == fresh(today),
{
    let r = DoneConf { started: None, done: Vec::new(), date: today };
    proof {
        assert(r@.done =~= Seq::<Seq<char>>::empty());
    }
    r
}

/// Resets the record when it was last reset on a day other than `today`.
/// Returns whether it did.
pub fn check_date(config: &mut DoneConf, today: Date) -> (reset: bool)
    ensures
        reset == (old(config).date != today),
        final(config)@ == refreshed(old(config)@, today),
        !reset ==> *final(config) == *old(config),
{
    if config.date != today {
        *config = clear_config(today);
        true
    } else {
        false
    }
}

/// The record to work on, from what was read from the store (`None` when the
/// store was missing, empty or unreadable as a record), and whether the store
/// must be written with it. A record that was read is kept as it is, whatever
/// its date; a missing one is replaced by a record freshly reset on `today`.
pub fn check_file(loaded: Option<DoneConf>, today: Date) -> (r: (DoneConf, bool))
    ensures
        loaded is Some ==> r.0 == loaded->Some_0 && !r.1,
        loaded is None ==> r.0@ == fresh(today) && r.1,
{
    match loaded {
        Some(c) => (c, false),
        None => (clear_config(today), true),
    }
}

/// Both checks in turn: a usable record from what was read (`check_file`),
/// then the daily reset on `today` (`check_date`). Also says whether the store
/// must be written with the result.
pub fn prepare(loaded: Option<DoneConf>, today: Date) -> (r: (DoneConf, bool))
    ensures
        r.0@ == prepared(loaded_view(loaded), today),
        r.1 == needs_write(loaded_view(loaded), today),
{
    let (mut c, created) = check_file(loaded, today);
    let reset = check_date(&mut c, today);
    (c, created || reset)
}

/// As `prepare`, on today's date as the system clock gives it: the date used
/// is the date of the returned record. `None` when the clock gives no date.
pub fn check_file_now(loaded: Option<DoneConf>) -> (r: Option<(DoneConf, bool)>)
    ensures
        r matches Some(p) ==> p.0.date.valid() && p.0@ == prepared(loaded_view(loaded), p.0.date)
            && p.1 == needs_write(loaded_view(loaded), p.0.date),
{
    match current_timestamp() {
        None => None,
        Some(today) => Some(prepare(loaded, today)),
    }
}

/// The daily reset, applied twice on the same day, does no more than once;
/// on a record already dated that day it changes nothing.
pub proof fn lemma_check_date_idempotent(c: DoneConfView, today: Date)
    ensures
        refreshed(refreshed(c, today), today) == refreshed(c, today),
        c.date == today ==> refreshed(c, today) == c,
{
}

} // verus!
