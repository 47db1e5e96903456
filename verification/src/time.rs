//! Spans and instants in nanoseconds.

use vstd::prelude::*;

verus! {

/// A span of time, or an instant measured from a fixed origin of a clock that
/// never steps back.
#[derive(Debug, Clone, Copy, PartialEq, Eq, PartialOrd, Ord, Hash, Structural)]
pub struct Nanos(pub u128);

/// A wall-clock instant, in nanoseconds from the Unix epoch.
#[derive(Debug, Clone, Copy, PartialEq, Eq, PartialOrd, Ord, Hash, Structural)]
pub struct Timestamp(pub i128);

pub const NANOS_PER_SECOND: u128 = 1_000_000_000;

pub const NANOS_PER_MILLI: u128 = 1_000_000;

impl Nanos {
    /// A span of whole seconds.
    pub fn from_secs(secs: u64) -> (span: Self)
        ensures
            span.0 == secs * NANOS_PER_SECOND,
    {
        assert(secs * 1_000_000_000 <= u128::MAX) by (nonlinear_arith)
            requires
                secs <= u64::MAX,
        ;
        Nanos(secs as u128 * NANOS_PER_SECOND)
    }

    /// How long after `earlier` this instant is; zero where it is not later.
    pub fn since(self, earlier: Nanos) -> (span: Nanos)
        ensures
            span.0 == (if self.0 >= earlier.0 {
                self.0 - earlier.0
            } else {
                0
            }),
    {
        if self.0 >= earlier.0 {
            Nanos(self.0 - earlier.0)
        } else {
            Nanos(0)
        }
    }
}

/// A span of whole seconds and nanoseconds, as its own unit shows it.
pub uninterp spec fn span_text(secs: u64, nanos: u32) -> Seq<char>;

/// Calls `std::time::Duration::new` and the `Debug` of `Duration`. The text is a
/// function of the span alone, named by [`span_text`].
#[verifier::external_body]
fn shown_span(secs: u64, nanos: u32) -> (text: String)
    requires
        nanos < 1_000_000_000,
    ensures
        text@ == span_text(secs, nanos),
{
    format!("{:?}", std::time::Duration::new(secs, nanos))
}

impl Nanos {
    /// The span as text. A span of more seconds than can be counted is shown as
    /// the longest that can.
    pub open spec fn text(self) -> Seq<char> {
        let secs = self.0 / NANOS_PER_SECOND;
        if secs <= u64::MAX {
            span_text(secs as u64, (self.0 % NANOS_PER_SECOND) as u32)
        } else {
            span_text(u64::MAX, 999_999_999)
        }
    }

    /// The span as text.
    pub fn to_text(&self) -> (text: String)
        ensures
            text@ == self.text(),
    {
        let secs: u128 = self.0 / NANOS_PER_SECOND;
        if secs <= u64::MAX as u128 {
            shown_span(secs as u64, (self.0 % NANOS_PER_SECOND) as u32)
        } else {
            shown_span(u64::MAX, 999_999_999)
        }
    }
}

/// Calls `std::time::SystemTime::now` and measures it from the Unix epoch: how
/// long after it, or how long before. The result depends on the machine's clock,
/// so nothing is claimed of it.
#[verifier::external_body]
pub(crate) fn since_epoch() -> (span: Result<u128, u128>) {
    match std::time::SystemTime::now().duration_since(std::time::UNIX_EPOCH) {
        Ok(after) => Ok(after.as_nanos()),
        Err(before) => Err(before.duration().as_nanos()),
    }
}

/// The instant that lies `span` after the epoch, or before it. One that cannot
/// be held is the last or the first that can.
pub fn instant(span: Result<u128, u128>) -> (at: Timestamp)
    ensures
        at.0 == (match span {
            Ok(after) => if after <= i128::MAX {
                after as int
            } else {
                i128::MAX as int
            },
            Err(before) => if before <= i128::MAX {
                -(before as int)
            } else {
                -(i128::MAX as int)
            },
        }),
{
    let far: i128 = i128::MAX;
    match span {
        Ok(after) => if after <= far as u128 {
            Timestamp(after as i128)
        } else {
            Timestamp(far)
        },
        Err(before) => if before <= far as u128 {
            Timestamp(-(before as i128))
        } else {
            Timestamp(-far)
        },
    }
}

/// The current wall-clock instant. What it is depends on the machine's clock;
/// [`instant`] says what each reading comes to.
pub(crate) fn wall_clock() -> (now: Timestamp) {
    instant(since_epoch())
}

} // verus!
