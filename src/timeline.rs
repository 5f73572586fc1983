use vstd::arithmetic::div_mod::{lemma_fundamental_div_mod, lemma_fundamental_div_mod_converse};
use vstd::arithmetic::mul::lemma_mul_inequality;
use vstd::prelude::*;

verus! {

/// A half-open span of time `[start, stop)`, in nanoseconds since the Unix epoch.
#[derive(Debug, Clone, Copy, PartialEq, Eq, Structural)]
pub struct TimeWindow {
    pub start: i64,
    pub stop: i64,
}

/// Number of whole steps of length `step` that fit between `start` and `stop`.
pub open spec fn step_count(start: int, stop: int, step: int) -> int {
    if stop <= start {
        0
    } else {
        (stop - start) / step
    }
}

/// Start of extraction step `i`.
pub open spec fn window_start(start: int, step: int, i: int) -> int {
    start + i * step
}

/// End (exclusive) of extraction step `i`.
pub open spec fn window_stop(start: int, step: int, i: int) -> int {
    start + (i + 1) * step
}

/// The extraction windows between `start` and `stop`, each `step_duration` long, in order.
/// A remainder shorter than one step is not extracted.
pub fn extraction_windows(start: i64, stop: i64, step_duration: i64) -> (r: Vec<TimeWindow>)
    requires
        step_duration > 0,
    ensures
        r@.len() == step_count(start as int, stop as int, step_duration as int),
        forall|i: int|
            0 <= i < r@.len() ==> {
                &&& (#[trigger] r@[i]).start == window_start(start as int, step_duration as int, i)
                &&& r@[i].stop == window_stop(start as int, step_duration as int, i)
            },
{
    let mut out: Vec<TimeWindow> = Vec::new();
    if stop <= start {
        return out;
    }
    let span: i128 = stop as i128 - start as i128;
    let count: i128 = span / (step_duration as i128);
    proof {
        let sp = span as int;
        let d = step_duration as int;
        lemma_fundamental_div_mod(sp, d);
        assert(0 <= sp % d < d);
        assert(count * d <= sp && count >= 0) by (nonlinear_arith)
            requires
                sp == d * (sp / d) + sp % d,
                count == sp / d,
                0 <= sp % d < d,
                sp > 0,
                d > 0,
        ;
    }
    let mut i: i128 = 0;
    let mut current: i64 = start;
    assert(start + i * step_duration == start) by (nonlinear_arith)
        requires
            i == 0,
    ;
    while i < count
        invariant
            0 <= i <= count,
            count == step_count(start as int, stop as int, step_duration as int),
            count * step_duration <= stop - start,
            step_duration > 0,
            out@.len() == i,
            current == start + i * step_duration,
            forall|j: int|
                0 <= j < out@.len() ==> {
                    &&& (#[trigger] out@[j]).start == window_start(
                        start as int,
                        step_duration as int,
                        j,
                    )
                    &&& out@[j].stop == window_stop(start as int, step_duration as int, j)
                },
        decreases count - i,
    {
        proof {
            lemma_mul_inequality(i + 1, count as int, step_duration as int);
            assert((i + 1) * step_duration == i * step_duration + step_duration)
                by (nonlinear_arith);
        }
        let next: i64 = current + step_duration;
        out.push(TimeWindow { start: current, stop: next });
        current = next;
        i = i + 1;
    }
    out
}

/// What a caller asks of a recording's time range; every part is optional.
/// Times and durations are in nanoseconds.
#[derive(Debug, Clone, Copy, PartialEq, Eq, Structural)]
pub struct TimeRangeRequest {
    pub start: Option<i64>,
    pub stop: Option<i64>,
    pub start_offset: Option<i64>,
    pub total_duration: Option<i64>,
}

/// A note on how a request was adjusted; none of them is an error.
#[derive(Debug, Clone, Copy, PartialEq, Eq, Structural)]
pub enum TimeRangeWarning {
    /// Both a stop time and a total duration were given; the stop time is used.
    StopAndDurationGiven,
    /// The requested start lies before the recording's start, which is used instead.
    StartBeforeSource { requested: i64, source_start: i64 },
    /// The requested stop lies after the recording's stop, which is used instead.
    StopAfterSource { requested: i64, source_stop: i64 },
}

/// The range to extract, and the warnings recorded while resolving it.
#[derive(Debug, Clone, PartialEq, Eq)]
pub struct ResolvedTimeRange {
    pub window: TimeWindow,
    pub warnings: Vec<TimeRangeWarning>,
}

/// Start asked for: the given start, or the recording's, shifted by the offset.
pub open spec fn requested_start(request: TimeRangeRequest, source: TimeWindow) -> int {
    let base = match request.start {
        Some(t) => t as int,
        None => source.start as int,
    };
    let offset = match request.start_offset {
        Some(d) => d as int,
        None => 0,
    };
    base + offset
}

/// Stop asked for: the given stop, else the requested start plus the total
/// duration, else the recording's stop.
pub open spec fn requested_stop(request: TimeRangeRequest, source: TimeWindow) -> int {
    match (request.stop, request.total_duration) {
        (Some(t), _) => t as int,
        (None, Some(d)) => requested_start(request, source) + d,
        (None, None) => source.stop as int,
    }
}

/// The request's times can be held as nanoseconds in an `i64`.
pub open spec fn request_fits(request: TimeRangeRequest, source: TimeWindow) -> bool {
    &&& i64::MIN <= requested_start(request, source) <= i64::MAX
    &&& i64::MIN <= requested_stop(request, source) <= i64::MAX
}

/// The warnings, in the order in which they are recorded.
pub open spec fn range_warnings(request: TimeRangeRequest, source: TimeWindow) -> Seq<
    TimeRangeWarning,
> {
    let both = if request.stop is Some && request.total_duration is Some {
        seq![TimeRangeWarning::StopAndDurationGiven]
    } else {
        Seq::empty()
    };
    let early = if requested_start(request, source) < source.start {
        seq![
            TimeRangeWarning::StartBeforeSource {
                requested: requested_start(request, source) as i64,
                source_start: source.start,
            },
        ]
    } else {
        Seq::empty()
    };
    let late = if requested_stop(request, source) > source.stop {
        seq![
            TimeRangeWarning::StopAfterSource {
                requested: requested_stop(request, source) as i64,
                source_stop: source.stop,
            },
        ]
    } else {
        Seq::empty()
    };
    both + early + late
}

/// Resolves the range to extract from a recording that spans `source`: the request's
/// start and stop, clamped to the recording's bounds. Clamping records a warning and
/// is never an error.
pub fn resolve_time_range(request: TimeRangeRequest, source: TimeWindow) -> (r:
    ResolvedTimeRange)
    requires
        request_fits(request, source),
    ensures
        r.window.start == if requested_start(request, source) < source.start {
            source.start as int
        } else {
            requested_start(request, source)
        },
        r.window.stop == if requested_stop(request, source) > source.stop {
            source.stop as int
        } else {
            requested_stop(request, source)
        },
        r.warnings@ == range_warnings(request, source),
        requested_start(request, source) < source.start ==> r.window.start == source.start
            && r.warnings@.contains(
            TimeRangeWarning::StartBeforeSource {
                requested: requested_start(request, source) as i64,
                source_start: source.start,
            },
        ),
{
    let base: i64 = match request.start {
        Some(t) => t,
        None => source.start,
    };
    let offset: i64 = match request.start_offset {
        Some(d) => d,
        None => 0,
    };
    let start: i64 = base + offset;
    let mut warnings: Vec<TimeRangeWarning> = Vec::new();
    let stop: i64 = match (request.stop, request.total_duration) {
        (Some(t), Some(_)) => {
            warnings.push(TimeRangeWarning::StopAndDurationGiven);
            t
        },
        (Some(t), None) => t,
        (None, Some(d)) => start + d,
        (None, None) => source.stop,
    };
    let ghost both = warnings@;
    let clamped_start: i64 = if start < source.start {
        warnings.push(TimeRangeWarning::StartBeforeSource { requested: start, source_start: source.start });
        source.start
    } else {
        start
    };
    let ghost early = warnings@;
    let clamped_stop: i64 = if stop > source.stop {
        warnings.push(TimeRangeWarning::StopAfterSource { requested: stop, source_stop: source.stop });
        source.stop
    } else {
        stop
    };
    proof {
        let w = range_warnings(request, source);
        assert(warnings@ =~= w);
        if start < source.start {
            assert(w[both.len() as int] == TimeRangeWarning::StartBeforeSource {
                requested: start,
                source_start: source.start,
            });
        }
    }
    ResolvedTimeRange { window: TimeWindow { start: clamped_start, stop: clamped_stop }, warnings }
}

/// Steps of length `d` from `t0` to `t0 + 3d` are exactly three: `[t0, t0 + d)`,
/// `[t0 + d, t0 + 2d)` and `[t0 + 2d, t0 + 3d)`.
pub proof fn lemma_three_steps(t0: int, d: int)
    requires
        d > 0,
    ensures
        step_count(t0, t0 + 3 * d, d) == 3,
        window_start(t0, d, 0) == t0,
        window_stop(t0, d, 0) == t0 + d,
        window_start(t0, d, 1) == t0 + d,
        window_stop(t0, d, 1) == t0 + 2 * d,
        window_start(t0, d, 2) == t0 + 2 * d,
        window_stop(t0, d, 2) == t0 + 3 * d,
{
    lemma_fundamental_div_mod_converse(3 * d, d, 3, 0);
    assert(3 * d == 3 * d + 0);
}

} // verus!
