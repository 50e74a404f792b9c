//! The validated argument model of the command line: which kind of
//! timer a command addresses, by name or as a bulk selector, and the
//! display options. The surrounding argument parser hands these plain
//! values in; the rules that combine them are decided here.

use crate::non_zero::AtLeastOne;
use vstd::prelude::*;

verus! {

use vstd::string::StrSliceExecFns;

/// Which namespace of the registry a command addresses.
#[derive(Debug, Clone, Copy, PartialEq, Eq, Structural)]
pub enum ClockKind {
    /// The stopwatch namespace.
    StopWatch,
    /// The countdown namespace.
    CountDown,
}

impl ClockKind {
    /// The kind's reading in user-facing messages.
    pub open spec fn spec_text(&self) -> Seq<char> {
        match *self {
            ClockKind::StopWatch => "stop watch"@,
            ClockKind::CountDown => "count down"@,
        }
    }

    /// The kind's reading in user-facing messages.
    pub fn text(&self) -> (r: &'static str)
        ensures
            r@ == self.spec_text(),
    {
        match *self {
            ClockKind::StopWatch => "stop watch",
            ClockKind::CountDown => "count down",
        }
    }
}

impl Default for ClockKind {
    /// An unnamed kind means the stopwatch namespace.
    fn default() -> (r: Self)
        ensures
            r == ClockKind::StopWatch,
    {
        ClockKind::StopWatch
    }
}

/// The kind a possibly absent kind argument denotes.
pub open spec fn kind_or_default(kind: Option<ClockKind>) -> ClockKind {
    match kind {
        Some(k) => k,
        None => ClockKind::StopWatch,
    }
}

/// An optional kind argument.
#[derive(Debug, Clone, Copy, PartialEq, Eq, Structural)]
pub struct ClockKindArg {
    /// The kind as given, if any.
    pub kind: Option<ClockKind>,
}

impl ClockKindArg {
    /// The addressed kind; stopwatches when none was named.
    pub fn kind(&self) -> (r: ClockKind)
        ensures
            r == kind_or_default(self.kind),
    {
        match self.kind {
            Some(k) => k,
            None => ClockKind::StopWatch,
        }
    }
}

/// A single timer addressed by name, with an optional kind.
#[derive(Debug, Clone)]
pub struct ClockReference {
    /// The timer's name.
    pub name: String,
    /// The kind as given, if any.
    pub kind: Option<ClockKind>,
}

impl ClockReference {
    /// A reference to the named timer.
    pub fn new(name: String, kind: Option<ClockKind>) -> (r: ClockReference)
        ensures
            r.name == name,
            r.kind == kind,
    {
        ClockReference { name, kind }
    }

    /// The timer's name.
    pub fn name(&self) -> (r: &str)
        ensures
            r@ == self.name@,
    {
        self.name.as_str()
    }

    /// The addressed kind; stopwatches when none was named.
    pub fn kind(&self) -> (r: ClockKind)
        ensures
            r == kind_or_default(self.kind),
    {
        match self.kind {
            Some(k) => k,
            None => ClockKind::StopWatch,
        }
    }
}

/// How many columns a printed row may hold, if limited.
#[derive(Debug, Clone, Copy, PartialEq, Eq, Structural)]
pub struct ColumnShowArg {
    /// The limit, if one was given; always positive.
    pub colums_num: Option<AtLeastOne>,
}

impl ColumnShowArg {
    /// The column limit, if any.
    pub fn colums_num(&self) -> (r: Option<AtLeastOne>)
        ensures
            r == self.colums_num,
    {
        self.colums_num
    }
}

/// The arguments of a delete command: the timer to remove.
#[derive(Debug, Clone)]
pub struct DeleteArgs {
    /// The addressed timer.
    pub reference: ClockReference,
}

impl DeleteArgs {
    /// The addressed timer.
    pub fn reference(&self) -> (r: &ClockReference)
        ensures
            r == &self.reference,
    {
        &self.reference
    }
}

/// The arguments of a get command: one timer and the display options.
#[derive(Debug, Clone)]
pub struct GetClockArgs {
    /// The addressed timer.
    pub reference: ClockReference,
    /// The display options.
    pub column_num: ColumnShowArg,
}

impl GetClockArgs {
    /// The addressed timer.
    pub fn reference(&self) -> (r: &ClockReference)
        ensures
            r == &self.reference,
    {
        &self.reference
    }

    /// The column limit, if any.
    pub fn column_num(&self) -> (r: Option<AtLeastOne>)
        ensures
            r == self.column_num.colums_num,
    {
        self.column_num.colums_num()
    }
}

/// The arguments of a list command: an optional kind filter and the
/// display options.
#[derive(Debug, Clone)]
pub struct ListArgs {
    /// The kind to list; both kinds when absent.
    pub kind: Option<ClockKind>,
    /// The display options.
    pub colums_num: ColumnShowArg,
}

impl ListArgs {
    /// The kind filter, if any.
    pub fn kind(&self) -> (r: Option<ClockKind>)
        ensures
            r == self.kind,
    {
        self.kind
    }

    /// The column limit, if any.
    pub fn colums_num(&self) -> (r: Option<AtLeastOne>)
        ensures
            r == self.colums_num.colums_num,
    {
        self.colums_num.colums_num()
    }
}

/// A bulk selector: all timers, all stopwatches, or all countdowns.
#[derive(Debug, Clone, Copy, PartialEq, Eq, Structural)]
pub enum ManyClockReferenceKind {
    /// Every timer of both kinds.
    All,
    /// Every stopwatch.
    Stopwatch,
    /// Every countdown.
    CountDown,
}

impl Default for ManyClockReferenceKind {
    /// An unnamed selector means every timer.
    fn default() -> (r: Self)
        ensures
            r == ManyClockReferenceKind::All,
    {
        ManyClockReferenceKind::All
    }
}

/// The raw arguments addressing existing timers: either a name (with
/// an optional kind) or a bulk selector, but never both and never
/// neither.
#[derive(Debug, Clone)]
pub struct ExistingClockReference {
    /// The single timer's name, if one was given.
    pub name: Option<String>,
    /// The single timer's kind, if one was given.
    pub kind: Option<ClockKind>,
    /// The bulk selector, if one was given.
    pub all: Option<ManyClockReferenceKind>,
}

/// A validated address: one named timer, or all timers of a selector.
#[derive(Debug, Clone)]
pub enum ExistingClockKindReference {
    /// Every timer the selector names.
    All(ManyClockReferenceKind),
    /// The one named timer.
    Single(ClockReference),
}

/// Why a combination of name, kind and bulk selector is refused.
#[derive(Debug, Clone, Copy, PartialEq, Eq, Structural)]
pub enum InvalidArgsClockReference {
    /// A name or kind was given alongside the bulk selector.
    AllWithName,
    /// Neither a name nor a bulk selector was given.
    NoNameForSingle,
}

/// The validated address that raw arguments denote: the bulk selector
/// excludes a name or kind, a single timer needs its name.
pub open spec fn spec_kind_reference(r: ExistingClockReference) -> Result<
    ExistingClockKindReference,
    InvalidArgsClockReference,
> {
    let flags_for_single = r.name is Some || r.kind is Some;
    if r.all is Some && flags_for_single {
        Err(InvalidArgsClockReference::AllWithName)
    } else if r.all is None && !flags_for_single {
        Err(InvalidArgsClockReference::NoNameForSingle)
    } else {
        match r.name {
            Some(name) => Ok(
                ExistingClockKindReference::Single(ClockReference { name, kind: r.kind }),
            ),
            None => Ok(ExistingClockKindReference::All(r.all->Some_0)),
        }
    }
}

impl ExistingClockReference {
    /// Validates the raw arguments into a single or bulk address: a
    /// bulk selector must come alone, and without one a name is
    /// required. A kind given alone, with neither name nor selector,
    /// is no valid address at all and is left out.
    pub fn kind_reference(&self) -> (r: Result<
        ExistingClockKindReference,
        InvalidArgsClockReference,
    >)
        requires
            !(self.name is None && self.kind is Some && self.all is None),
        ensures
            r == spec_kind_reference(*self),
    {
        let flags_for_single = self.name.is_some() || self.kind.is_some();
        if self.all.is_some() && flags_for_single {
            return Err(InvalidArgsClockReference::AllWithName);
        }
        if self.all.is_none() && !flags_for_single {
            return Err(InvalidArgsClockReference::NoNameForSingle);
        }
        match &self.name {
            Some(name) => Ok(
                ExistingClockKindReference::Single(
                    ClockReference { name: name.clone(), kind: self.kind },
                ),
            ),
            None => {
                match self.all {
                    Some(all) => Ok(ExistingClockKindReference::All(all)),
                    None => {
                        proof {
                            assert(false);
                        }
                        Err(InvalidArgsClockReference::NoNameForSingle)
                    },
                }
            },
        }
    }
}

} // verus!
