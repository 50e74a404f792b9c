//! The decisions behind the subcommands: which registry operations a
//! validated command reference translates to, which timer is created
//! from which arguments, and which error is reported when a name is
//! absent. The surrounding program only loads the registry, hands the
//! plain values in, and persists the outcome.

use crate::cli_args::{kind_or_default, ClockKind, ExistingClockKindReference, ManyClockReferenceKind};
use crate::timing::clock_table::{AlreadyAdded, ClockTable};
use crate::timing::count_down::CountDown;
use crate::timing::stopwatch::Stopwatch;
use crate::timing::{ClockCommand, ClockDuration, InvalidDateInFuture, TimeImpl, UtcDateTime};
use vstd::prelude::*;

verus! {

use vstd::string::StrSliceExecFns;
use vstd::string::StringExecFns;

/// No timer of the reported kind is registered under the reported name.
#[derive(Debug, PartialEq, Eq)]
pub struct NotFoundClockErr {
    /// The name that was looked up.
    pub name: String,
    /// The kind whose namespace was searched.
    pub kind: ClockKind,
}

impl NotFoundClockErr {
    /// Records the name and kind of a failed lookup.
    pub fn new(value: String, kind: ClockKind) -> (r: NotFoundClockErr)
        ensures
            r.name == value,
            r.kind == kind,
    {
        NotFoundClockErr { name: value, kind }
    }

    /// The reading of this report.
    pub fn message(&self) -> (r: String)
        ensures
            r@ == "No "@ + self.kind.spec_text() + " found under the name \""@ + self.name@
                + "\""@,
    {
        let mut s = String::from_str("No ");
        s.append(self.kind.text());
        s.append(" found under the name \"");
        s.append(self.name.as_str());
        s.append("\"");
        s
    }
}

/// Why a create command failed: the start date lies in the future, or
/// the name is already taken in the addressed kind's namespace.
#[derive(Debug)]
pub enum CreateTimerError {
    /// The caller-supplied start date is strictly after "now".
    InFuture(InvalidDateInFuture),
    /// The addressed namespace already holds the name.
    AlreadyAdded(AlreadyAdded),
}

/// The start a new timer measures from: the caller-supplied date if one
/// was given, else the observed instant.
pub open spec fn spec_start_of(start_date: Option<UtcDateTime>, now: UtcDateTime) -> UtcDateTime {
    match start_date {
        Some(sd) => sd,
        None => now,
    }
}

/// Creates the timer a create command describes and registers it under
/// `name`: a countdown of the given budget when one is given, else a
/// stopwatch; measuring from the caller-supplied start date when one is
/// given (rejected if strictly after "now"), else from now. A name
/// already taken in the addressed namespace is refused; the other
/// namespace plays no part.
pub fn create_entry<T: TimeImpl>(
    table: &mut ClockTable<T>,
    name: String,
    to_count_down: Option<ClockDuration>,
    start_date: Option<UtcDateTime>,
    time_impl: T,
) -> (r: Result<(), CreateTimerError>)
    requires
        old(table).wf(),
        to_count_down matches Some(d) ==> d.wf(),
        start_date matches Some(sd) ==> sd.wf(),
    ensures
        final (table).wf(),
        to_count_down is Some ==> final (table).stopwatches@ == old(table).stopwatches@,
        to_count_down is None ==> final (table).count_downs@ == old(table).count_downs@,
        r matches Err(CreateTimerError::AlreadyAdded(a)) ==> a.0 == name && final (
        table).stopwatches@ == old(table).stopwatches@ && final (table).count_downs@ == old(
            table,
        ).count_downs@ && (match to_count_down {
            Some(_) => old(table).cd_map().contains_key(name@),
            None => old(table).sw_map().contains_key(name@),
        }),
        r matches Err(CreateTimerError::InFuture(e)) ==> final (table).stopwatches@ == old(
            table,
        ).stopwatches@ && final (table).count_downs@ == old(table).count_downs@ && start_date
            is Some && (start_date matches Some(sd) ==> e.0 == sd && exists|now: UtcDateTime|
            #[trigger] now.wf() && now.secs < sd.secs),
        start_date is None ==> (r is Ok <==> (match to_count_down {
            Some(_) => !old(table).cd_map().contains_key(name@),
            None => !old(table).sw_map().contains_key(name@),
        })),
        to_count_down matches Some(d) ==> (r is Ok ==> !old(table).cd_map().contains_key(name@)
            && exists|now: UtcDateTime|
            #[trigger] now.wf() && final (table).cd_map() == old(table).cd_map().insert(
                name@,
                CountDown {
                    stopwatch: Stopwatch::spec_fresh(spec_start_of(start_date, now), time_impl),
                    time: d,
                },
            )),
        r is Ok && to_count_down is None ==> !old(table).sw_map().contains_key(name@) && exists|
            now: UtcDateTime,
        |
            #[trigger] now.wf() && final (table).sw_map() == old(table).sw_map().insert(
                name@,
                Stopwatch::spec_fresh(spec_start_of(start_date, now), time_impl),
            ),
{
    let stopwatch = match start_date {
        Some(sd) => {
            match Stopwatch::new_with_impl_and_start_date(time_impl, sd) {
                Ok(sw) => sw,
                Err(e) => {
                    proof {
                        let n = choose|n: UtcDateTime|
                            n.wf() && ((Err::<Stopwatch<T>, _>(e) matches Err(e2) ==> Err::<
                                (),
                                _,
                            >(e2) == crate::timing::spec_check_not_in_future(n, sd)) && (Err::<
                                Stopwatch<T>,
                                InvalidDateInFuture,
                            >(e) is Ok <==> crate::timing::spec_check_not_in_future(n, sd) is Ok));
                        assert(n.wf() && n.secs < sd.secs);
                    }
                    return Err(CreateTimerError::InFuture(e));
                },
            }
        },
        None => Stopwatch::new_with_impl(time_impl),
    };
    proof {
        match start_date {
            Some(sd) => {
                assert(sd.wf() && stopwatch == Stopwatch::spec_fresh(
                    spec_start_of(start_date, sd),
                    time_impl,
                ));
            },
            None => {
                let n = choose|n: UtcDateTime|
                    n.wf() && stopwatch == Stopwatch::<T>::spec_fresh(n, stopwatch.time_impl);
                assert(n.wf() && stopwatch == Stopwatch::spec_fresh(
                    spec_start_of(start_date, n),
                    time_impl,
                ));
            },
        }
    }
    let ghost gsw = stopwatch;
    match to_count_down {
        Some(d) => {
            let cd = CountDown { stopwatch, time: d };
            match table.add_count_down(name, cd) {
                Ok(_) => {
                    proof {
                        let n = choose|n: UtcDateTime|
                            n.wf() && gsw == Stopwatch::<T>::spec_fresh(
                                spec_start_of(start_date, n),
                                time_impl,
                            );
                        assert(n.wf() && final (table).cd_map() == old(table).cd_map().insert(
                            name@,
                            CountDown {
                                stopwatch: Stopwatch::spec_fresh(
                                    spec_start_of(start_date, n),
                                    time_impl,
                                ),
                                time: d,
                            },
                        ));
                    }
                    Ok(())
                },
                Err(a) => Err(CreateTimerError::AlreadyAdded(a)),
            }
        },
        None => {
            match table.add_stopwatch(name, stopwatch) {
                Ok(_) => {
                    proof {
                        let n = choose|n: UtcDateTime|
                            n.wf() && gsw == Stopwatch::<T>::spec_fresh(
                                spec_start_of(start_date, n),
                                time_impl,
                            );
                        assert(n.wf() && final (table).sw_map() == old(table).sw_map().insert(
                            name@,
                            Stopwatch::spec_fresh(spec_start_of(start_date, n), time_impl),
                        ));
                    }
                    Ok(())
                },
                Err(a) => Err(CreateTimerError::AlreadyAdded(a)),
            }
        },
    }
}

/// Removes what a validated reference names: a bulk selector empties
/// its namespaces and always succeeds, even on empty mappings; a single
/// reference removes one timer and reports the absence of its name.
pub fn delete_reference<T>(table: &mut ClockTable<T>, reference: &ExistingClockKindReference) -> (r:
    Result<(), NotFoundClockErr>)
    requires
        old(table).wf(),
    ensures
        final (table).wf(),
        reference matches ExistingClockKindReference::All(k) ==> r is Ok && (match k {
            ManyClockReferenceKind::All => final (table).stopwatches@.len() == 0 && final (
            table).count_downs@.len() == 0,
            ManyClockReferenceKind::Stopwatch => final (table).stopwatches@.len() == 0 && final (
            table).count_downs@ == old(table).count_downs@,
            ManyClockReferenceKind::CountDown => final (table).count_downs@.len() == 0 && final (
            table).stopwatches@ == old(table).stopwatches@,
        }),
        reference matches ExistingClockKindReference::Single(cr) ==> (kind_or_default(cr.kind)
            == ClockKind::StopWatch ==> final (table).count_downs@ == old(table).count_downs@ && (
        if old(table).sw_map().contains_key(cr.name@) {
            r is Ok && final (table).sw_map() == old(table).sw_map().remove(cr.name@)
        } else {
            r == Err::<(), NotFoundClockErr>(
                NotFoundClockErr { name: cr.name, kind: ClockKind::StopWatch },
            ) && final (table).stopwatches@ == old(table).stopwatches@
        })) && (kind_or_default(cr.kind) == ClockKind::CountDown ==> final (table).stopwatches@
            == old(table).stopwatches@ && (
        if old(table).cd_map().contains_key(cr.name@) {
            r is Ok && final (table).cd_map() == old(table).cd_map().remove(cr.name@)
        } else {
            r == Err::<(), NotFoundClockErr>(
                NotFoundClockErr { name: cr.name, kind: ClockKind::CountDown },
            ) && final (table).count_downs@ == old(table).count_downs@
        })),
{
    match reference {
        ExistingClockKindReference::All(kind) => {
            match kind {
                ManyClockReferenceKind::All => {
                    table.remove_all_stopwatches();
                    table.remove_all_count_donws();
                },
                ManyClockReferenceKind::Stopwatch => table.remove_all_stopwatches(),
                ManyClockReferenceKind::CountDown => table.remove_all_count_donws(),
            }
            Ok(())
        },
        ExistingClockKindReference::Single(single) => {
            let name = single.name();
            match single.kind() {
                ClockKind::StopWatch => {
                    if table.remove_stopwatch(name) {
                        Ok(())
                    } else {
                        Err(NotFoundClockErr::new(single.name.clone(), ClockKind::StopWatch))
                    }
                },
                ClockKind::CountDown => {
                    if table.remove_count_down(name) {
                        Ok(())
                    } else {
                        Err(NotFoundClockErr::new(single.name.clone(), ClockKind::CountDown))
                    }
                },
            }
        },
    }
}

/// Every stopwatch entry of `news` is the matching entry of `olds`
/// with the commanded transition applied at some observed instant;
/// names and order kept.
pub open spec fn all_applied_sw<T>(
    olds: Seq<(String, Stopwatch<T>)>,
    news: Seq<(String, Stopwatch<T>)>,
    cmd: ClockCommand,
) -> bool {
    news.len() == olds.len() && forall|j: int|
        0 <= j < olds.len() ==> (#[trigger] news[j]).0 == olds[j].0 && exists|now: UtcDateTime|
            #[trigger] now.wf() && news[j].1 == olds[j].1.spec_apply(cmd, now)
}

/// Every countdown entry of `news` is the matching entry of `olds`
/// with the commanded transition applied to its engine at some
/// observed instant; names, order and budgets kept.
pub open spec fn all_applied_cd<T>(
    olds: Seq<(String, CountDown<T>)>,
    news: Seq<(String, CountDown<T>)>,
    cmd: ClockCommand,
) -> bool {
    news.len() == olds.len() && forall|j: int|
        0 <= j < olds.len() ==> (#[trigger] news[j]).0 == olds[j].0 && news[j].1.time
            == olds[j].1.time && exists|now: UtcDateTime|
            #[trigger] now.wf() && news[j].1.stopwatch == olds[j].1.stopwatch.spec_apply(cmd, now)
}

/// Performs the commanded transition on what a validated reference
/// names: a bulk selector drives every timer of its namespaces and
/// always succeeds; a single reference drives one timer and reports the
/// absence of its name.
pub fn modify_reference<T: TimeImpl>(
    table: &mut ClockTable<T>,
    reference: &ExistingClockKindReference,
    cmd: ClockCommand,
) -> (r: Result<(), NotFoundClockErr>)
    requires
        old(table).wf(),
    ensures
        final (table).wf(),
        reference matches ExistingClockKindReference::All(k) ==> r is Ok && (match k {
            ManyClockReferenceKind::All => all_applied_sw(
                old(table).stopwatches@,
                final (table).stopwatches@,
                cmd,
            ) && all_applied_cd(old(table).count_downs@, final (table).count_downs@, cmd),
            ManyClockReferenceKind::Stopwatch => all_applied_sw(
                old(table).stopwatches@,
                final (table).stopwatches@,
                cmd,
            ) && final (table).count_downs@ == old(table).count_downs@,
            ManyClockReferenceKind::CountDown => all_applied_cd(
                old(table).count_downs@,
                final (table).count_downs@,
                cmd,
            ) && final (table).stopwatches@ == old(table).stopwatches@,
        }),
        reference matches ExistingClockKindReference::Single(cr) ==> (kind_or_default(cr.kind)
            == ClockKind::StopWatch ==> final (table).count_downs@ == old(table).count_downs@ && (
        if old(table).sw_map().contains_key(cr.name@) {
            r is Ok && exists|now: UtcDateTime|
                #[trigger] now.wf() && final (table).sw_map() == old(table).sw_map().insert(
                    cr.name@,
                    old(table).sw_map()[cr.name@].spec_apply(cmd, now),
                )
        } else {
            r == Err::<(), NotFoundClockErr>(
                NotFoundClockErr { name: cr.name, kind: ClockKind::StopWatch },
            ) && final (table).stopwatches@ == old(table).stopwatches@
        })) && (kind_or_default(cr.kind) == ClockKind::CountDown ==> final (table).stopwatches@
            == old(table).stopwatches@ && (
        if old(table).cd_map().contains_key(cr.name@) {
            r is Ok && exists|now: UtcDateTime|
                #[trigger] now.wf() && final (table).cd_map() == old(table).cd_map().insert(
                    cr.name@,
                    CountDown {
                        stopwatch: old(table).cd_map()[cr.name@].stopwatch.spec_apply(cmd, now),
                        time: old(table).cd_map()[cr.name@].time,
                    },
                )
        } else {
            r == Err::<(), NotFoundClockErr>(
                NotFoundClockErr { name: cr.name, kind: ClockKind::CountDown },
            ) && final (table).count_downs@ == old(table).count_downs@
        })),
{
    match reference {
        ExistingClockKindReference::All(kind) => {
            match kind {
                ManyClockReferenceKind::All => {
                    table.modify_all_stop_watches(cmd);
                    table.modify_all_count_downs(cmd);
                },
                ManyClockReferenceKind::Stopwatch => table.modify_all_stop_watches(cmd),
                ManyClockReferenceKind::CountDown => table.modify_all_count_downs(cmd),
            }
            Ok(())
        },
        ExistingClockKindReference::Single(single) => {
            let name = single.name();
            match single.kind() {
                ClockKind::StopWatch => {
                    if table.modify_stopwatch(name, cmd) {
                        Ok(())
                    } else {
                        Err(NotFoundClockErr::new(single.name.clone(), ClockKind::StopWatch))
                    }
                },
                ClockKind::CountDown => {
                    if table.modify_count_down(name, cmd) {
                        Ok(())
                    } else {
                        Err(NotFoundClockErr::new(single.name.clone(), ClockKind::CountDown))
                    }
                },
            }
        },
    }
}

/// The stopwatch registered under `name`, or the not-found report a
/// get command surfaces.
pub fn get_stopwatch_or_not_found<'a, T>(table: &'a ClockTable<T>, name: &str) -> (r: Result<
    &'a Stopwatch<T>,
    NotFoundClockErr,
>)
    requires
        table.wf(),
    ensures
        r matches Ok(sw) ==> table.sw_map().contains_key(name@) && *sw == table.sw_map()[name@]
            && sw.wf(),
        r matches Err(e) ==> !table.sw_map().contains_key(name@) && e.name@ == name@ && e.kind
            == ClockKind::StopWatch,
        r is Ok <==> table.sw_map().contains_key(name@),
{
    match table.get_stopwatch(name) {
        Some(sw) => Ok(sw),
        None => Err(NotFoundClockErr::new(name.to_string(), ClockKind::StopWatch)),
    }
}

/// The countdown registered under `name`, or the not-found report a
/// get command surfaces.
pub fn get_count_down_or_not_found<'a, T>(table: &'a ClockTable<T>, name: &str) -> (r: Result<
    &'a CountDown<T>,
    NotFoundClockErr,
>)
    requires
        table.wf(),
    ensures
        r matches Ok(cd) ==> table.cd_map().contains_key(name@) && *cd == table.cd_map()[name@]
            && cd.wf(),
        r matches Err(e) ==> !table.cd_map().contains_key(name@) && e.name@ == name@ && e.kind
            == ClockKind::CountDown,
        r is Ok <==> table.cd_map().contains_key(name@),
{
    match table.get_count_down(name) {
        Some(cd) => Ok(cd),
        None => Err(NotFoundClockErr::new(name.to_string(), ClockKind::CountDown)),
    }
}

} // verus!
