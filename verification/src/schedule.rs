//! The fixed stage sequence of one full run, as a state machine.
//!
//! A run walks grayscale conversion, the pyramid levels in order, corner
//! detection, the compaction rounds (for the chunked-scan strategy), the
//! scatter, and the final readback; `Done` is terminal and a failure at any
//! stage aborts the whole batch. The pyramid and compaction strategies are
//! chosen at construction and only select which dispatches a stage records;
//! the stage sequence itself stays one state machine.

use vstd::prelude::*;

use crate::geometry::{ceil_log2, is_ceil_log2};

verus! {

/// How pyramid levels are produced: a render blit of each level followed by
/// a separable blur, or a compute-built integral image.
#[derive(Clone, Copy, Debug, PartialEq, Eq, Structural)]
pub enum PyramidStrategy {
    BlitBlur,
    IntegralImage,
}

/// How per-group results become one contiguous output: one global atomic
/// counter, or the two-level chunked scan.
#[derive(Clone, Copy, Debug, PartialEq, Eq, Structural)]
pub enum CompactionStrategy {
    SingleAtomic,
    ChunkedScan,
}

/// One stage of a full run.
#[derive(Clone, Copy, Debug, PartialEq, Eq, Structural)]
pub enum Stage {
    /// Convert the 4-channel input into the single-channel level 0.
    GrayscaleConvert,
    /// Produce pyramid level `level` from level `level - 1` (level 0 is the
    /// grayscale target itself and only gets its post-processing).
    PyramidLevel { level: u32 },
    /// Detect corner candidates, one execution group per chunk.
    CornerDetect,
    /// One Hillis–Steele sweep of the chunked scan, at stride `2^round`.
    CompactionRound { round: u32 },
    /// Copy each chunk's stored results to its global offset.
    Scatter,
    /// Read the final count back across the completion boundary.
    Readback,
    /// Terminal.
    Done,
}

/// The successor of a stage in a run over `levels` pyramid levels with
/// `rounds` compaction rounds. The single-atomic strategy has no
/// compaction rounds and no scatter: detection writes through its global
/// counter directly, so it proceeds straight to readback.
pub open spec fn spec_next_stage(s: Stage, levels: u32, rounds: u32, chunked: bool) -> Stage {
    match s {
        Stage::GrayscaleConvert => Stage::PyramidLevel { level: 0 },
        Stage::PyramidLevel { level } => if level + 1 < levels {
            Stage::PyramidLevel { level: (level + 1) as u32 }
        } else {
            Stage::CornerDetect
        },
        Stage::CornerDetect => if chunked {
            if rounds > 0 {
                Stage::CompactionRound { round: 0 }
            } else {
                Stage::Scatter
            }
        } else {
            Stage::Readback
        },
        Stage::CompactionRound { round } => if round + 1 < rounds {
            Stage::CompactionRound { round: (round + 1) as u32 }
        } else {
            Stage::Scatter
        },
        Stage::Scatter => Stage::Readback,
        Stage::Readback => Stage::Done,
        Stage::Done => Stage::Done,
    }
}

/// Steps the run's state machine once.
pub fn next_stage(s: Stage, levels: u32, rounds: u32, chunked: bool) -> (r: Stage)
    requires
        levels >= 1,
        rounds < u32::MAX,
    ensures
        r == spec_next_stage(s, levels, rounds, chunked),
{
    match s {
        Stage::GrayscaleConvert => Stage::PyramidLevel { level: 0 },
        Stage::PyramidLevel { level } => if level < u32::MAX && level + 1 < levels {
            Stage::PyramidLevel { level: level + 1 }
        } else {
            Stage::CornerDetect
        },
        Stage::CornerDetect => if chunked {
            if rounds > 0 {
                Stage::CompactionRound { round: 0 }
            } else {
                Stage::Scatter
            }
        } else {
            Stage::Readback
        },
        Stage::CompactionRound { round } => if round < u32::MAX && round + 1 < rounds {
            Stage::CompactionRound { round: round + 1 }
        } else {
            Stage::Scatter
        },
        Stage::Scatter => Stage::Readback,
        Stage::Readback => Stage::Done,
        Stage::Done => Stage::Done,
    }
}

/// Number of compaction rounds a strategy needs over `chunks` execution
/// groups: `ceil(log2(chunks))` sweeps for the chunked scan, none for the
/// single atomic counter.
pub fn compaction_rounds(strategy: CompactionStrategy, chunks: u64) -> (r: u32)
    requires
        1 <= chunks <= 0x8000_0000_0000_0000u64,
    ensures
        strategy == CompactionStrategy::ChunkedScan ==> is_ceil_log2(r as nat, chunks as nat),
        strategy == CompactionStrategy::SingleAtomic ==> r == 0,
{
    match strategy {
        CompactionStrategy::ChunkedScan => ceil_log2(chunks),
        CompactionStrategy::SingleAtomic => 0,
    }
}

/// The full ordered stage sequence of one run: grayscale, every pyramid
/// level in order, corner detection, every compaction round in order, the
/// scatter (both only for the chunked scan), the readback, and `Done`.
pub fn schedule(levels: u32, rounds: u32, chunked: bool) -> (s: Vec<Stage>)
    requires
        1 <= levels <= 10,
        rounds <= 64,
    ensures
        s@.len() == (if chunked {
            levels + rounds + 5
        } else {
            levels + 4
        }),
        s@[0] == Stage::GrayscaleConvert,
        forall|i: int|
            1 <= i < 1 + levels ==> #[trigger] s@[i] == (Stage::PyramidLevel {
                level: (i - 1) as u32,
            }),
        s@[1 + levels] == Stage::CornerDetect,
        chunked ==> forall|i: int|
            2 + levels <= i < 2 + levels + rounds ==> #[trigger] s@[i] == (Stage::CompactionRound {
                round: (i - 2 - levels) as u32,
            }),
        chunked ==> s@[2 + levels + rounds] == Stage::Scatter,
        chunked ==> s@[3 + levels + rounds] == Stage::Readback,
        chunked ==> s@[4 + levels + rounds] == Stage::Done,
        !chunked ==> s@[2 + levels] == Stage::Readback,
        !chunked ==> s@[3 + levels] == Stage::Done,
        forall|i: int|
            0 <= i < s@.len() - 1 ==> s@[i + 1] == spec_next_stage(
                #[trigger] s@[i],
                levels,
                rounds,
                chunked,
            ),
{
    let mut s: Vec<Stage> = Vec::new();
    s.push(Stage::GrayscaleConvert);
    let mut lvl: u32 = 0;
    while lvl < levels
        invariant
            lvl <= levels,
            s@.len() == 1 + lvl,
            s@[0] == Stage::GrayscaleConvert,
            forall|i: int|
                1 <= i < 1 + lvl ==> #[trigger] s@[i] == (Stage::PyramidLevel {
                    level: (i - 1) as u32,
                }),
        decreases levels - lvl,
    {
        s.push(Stage::PyramidLevel { level: lvl });
        lvl = lvl + 1;
    }
    s.push(Stage::CornerDetect);
    if chunked {
        let mut r: u32 = 0;
        while r < rounds
            invariant
                r <= rounds,
                levels >= 1,
                s@.len() == 2 + levels + r,
                s@[0] == Stage::GrayscaleConvert,
                forall|i: int|
                    1 <= i < 1 + levels ==> #[trigger] s@[i] == (Stage::PyramidLevel {
                        level: (i - 1) as u32,
                    }),
                s@[1 + levels] == Stage::CornerDetect,
                forall|i: int|
                    2 + levels <= i < 2 + levels + r ==> #[trigger] s@[i] == (Stage::CompactionRound {
                        round: (i - 2 - levels) as u32,
                    }),
            decreases rounds - r,
        {
            s.push(Stage::CompactionRound { round: r });
            r = r + 1;
        }
        s.push(Stage::Scatter);
    }
    s.push(Stage::Readback);
    s.push(Stage::Done);
    proof {
        assert forall|i: int| 0 <= i < s@.len() - 1 implies s@[i + 1] == spec_next_stage(
            #[trigger] s@[i],
            levels,
            rounds,
            chunked,
        ) by {
            if 1 <= i < 1 + levels {
                assert(s@[i] == (Stage::PyramidLevel { level: (i - 1) as u32 }));
                if i + 1 < 1 + levels {
                    assert(s@[i + 1] == (Stage::PyramidLevel { level: i as u32 }));
                }
            }
            if chunked && 2 + levels <= i < 2 + levels + rounds {
                assert(s@[i] == (Stage::CompactionRound { round: (i - 2 - levels) as u32 }));
                if i + 1 < 2 + levels + rounds {
                    assert(s@[i + 1] == (Stage::CompactionRound { round: (i - 1 - levels) as u32 }));
                }
            }
        }
    }
    s
}

} // verus!
