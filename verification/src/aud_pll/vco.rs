//! Open-loop calibration of the PLL's oscillator.
//!
//! The oscillator has a 5-bit tuning code. A measurement at a code counts
//! oscillator cycles over a fixed window; the calibration looks for the
//! code whose count is closest to the target. It runs in two phases: a
//! binary search from the middle code, then a comparison of the code found
//! with its two neighbours. The count is a noisy function of the code, so
//! the search alone can end one code off the best.
//!
//! A [`VcoCalibration`] decides which code to measure next and takes each
//! measured count; the measuring itself is left to the caller.

use vstd::prelude::*;

verus! {

/// The count that the calibration aims for.
pub const TARGET_CNT: u16 = 1838;

/// The length of the measurement window, in reference cycles.
pub const CAL_LEN: u16 = 2000;

/// The code that the search starts from.
pub const START_CODE: u8 = 16;

/// The first step of the search.
pub const START_STEP: u8 = 8;

/// The highest tuning code.
pub const MAX_CODE: u8 = 31;

/// How far a count is from the target.
pub open spec fn deviation(cnt: int) -> int {
    if cnt >= TARGET_CNT {
        cnt - TARGET_CNT
    } else {
        TARGET_CNT - cnt
    }
}

/// The code after one search step: up by `delta` when the count is below
/// the target, down by `delta` when it is above, unchanged when it is met.
pub open spec fn search_step(fc: int, delta: int, cnt: int) -> int {
    if cnt < TARGET_CNT {
        fc + delta
    } else if cnt > TARGET_CNT {
        fc - delta
    } else {
        fc
    }
}

/// The code that the binary search ends on when it stands at `fc` with
/// step `delta` and the counts are those of the table `counts`.
pub open spec fn search(counts: Seq<u16>, fc: int, delta: nat) -> int
    decreases delta,
{
    if delta == 0 {
        fc
    } else {
        search(counts, search_step(fc, delta as int, counts[fc] as int), delta / 2)
    }
}

/// The codes that the binary search measures, in order, when it stands
/// at `fc` with step `delta`.
pub open spec fn search_path(counts: Seq<u16>, fc: int, delta: nat) -> Seq<int>
    decreases delta,
{
    if delta == 0 {
        Seq::<int>::empty()
    } else {
        seq![fc] + search_path(
            counts,
            search_step(fc, delta as int, counts[fc] as int),
            delta / 2,
        )
    }
}

/// The three codes that the second phase measures around `fc`, in order:
/// the code itself, its lower and its upper neighbour.
pub open spec fn refinement_codes(fc: int) -> Seq<int> {
    seq![fc, lower(fc), upper(fc)]
}

/// All codes that a calibration measures for the table `counts`, in
/// order: those of the search, then those of the second phase.
pub open spec fn asked(counts: Seq<u16>) -> Seq<int> {
    search_path(counts, START_CODE as int, START_STEP as nat) + refinement_codes(searched(counts))
}

/// The code that the whole binary search ends on.
pub open spec fn searched(counts: Seq<u16>) -> int {
    search(counts, START_CODE as int, START_STEP as nat)
}

/// The neighbour below `fc`; code 0 has none and stands for itself.
pub open spec fn lower(fc: int) -> int {
    if fc > 0 {
        fc - 1
    } else {
        0
    }
}

/// The neighbour above `fc`; the highest code has none and stands for
/// itself.
pub open spec fn upper(fc: int) -> int {
    if fc < MAX_CODE {
        fc + 1
    } else {
        fc
    }
}

/// The code chosen among `fc` and its neighbours, given the three counts:
/// the one with the smallest deviation, the lower neighbour before the
/// upper one before `fc` itself where deviations are equal.
pub open spec fn refined(fc: int, cnt_lo: int, cnt_mid: int, cnt_hi: int) -> int {
    if deviation(cnt_lo) <= deviation(cnt_mid) && deviation(cnt_lo) <= deviation(cnt_hi) {
        lower(fc)
    } else if deviation(cnt_hi) <= deviation(cnt_mid) && deviation(cnt_hi) <= deviation(cnt_lo) {
        upper(fc)
    } else {
        fc
    }
}

/// The code that the two-phase calibration chooses for the table `counts`.
pub open spec fn calibrated(counts: Seq<u16>) -> int {
    let fc = searched(counts);
    refined(fc, counts[lower(fc)] as int, counts[fc] as int, counts[upper(fc)] as int)
}

/// A search position from which every further step stays among the codes
/// 1 to 31: the step is a power of two up to 8, and the code is at least
/// two steps from either end of the range 0 to 32.
pub open spec fn in_reach(fc: int, delta: nat) -> bool {
    if delta == 0 {
        1 <= fc <= MAX_CODE
    } else {
        (delta == 1 || delta == 2 || delta == 4 || delta == 8) && 2 * delta <= fc && fc + 2 * delta
            <= 32
    }
}

/// The search stays within reach, and ends on a code from 1 to 31.
pub proof fn lemma_search_in_range(counts: Seq<u16>, fc: int, delta: nat)
    requires
        in_reach(fc, delta),
    ensures
        1 <= search(counts, fc, delta) <= MAX_CODE,
    decreases delta,
{
    if delta != 0 {
        let next = search_step(fc, delta as int, counts[fc] as int);
        assert(in_reach(next, delta / 2));
        lemma_search_in_range(counts, next, delta / 2);
    }
}

/// The second phase never makes the result worse: the count at the chosen
/// code is at least as close to the target as the count at the code that
/// the binary search alone ends on. Both codes are valid tuning codes.
pub proof fn lemma_refinement_no_worse(counts: Seq<u16>)
    requires
        counts.len() == 32,
    ensures
        1 <= searched(counts) <= MAX_CODE,
        0 <= calibrated(counts) <= MAX_CODE,
        deviation(counts[calibrated(counts)] as int) <= deviation(counts[searched(counts)] as int),
        calibrated(counts) == searched(counts) || calibrated(counts) == lower(searched(counts))
            || calibrated(counts) == upper(searched(counts)),
{
    lemma_search_in_range(counts, START_CODE as int, START_STEP as nat);
}

/// The chosen code has the smallest deviation of the three that were
/// compared.
pub proof fn lemma_refined_is_closest(fc: int, cnt_lo: int, cnt_mid: int, cnt_hi: int)
    ensures
        ({
            let best = refined(fc, cnt_lo, cnt_mid, cnt_hi);
            let cnt = if best == lower(fc) && deviation(cnt_lo) <= deviation(cnt_mid) && deviation(
                cnt_lo,
            ) <= deviation(cnt_hi) {
                cnt_lo
            } else if best == upper(fc) && deviation(cnt_hi) <= deviation(cnt_mid) && deviation(
                cnt_hi,
            ) <= deviation(cnt_lo) {
                cnt_hi
            } else {
                cnt_mid
            };
            deviation(cnt) <= deviation(cnt_lo) && deviation(cnt) <= deviation(cnt_mid)
                && deviation(cnt) <= deviation(cnt_hi)
        }),
{
}

/// Where a calibration stands.
#[derive(Debug, Clone, Copy, PartialEq, Eq, Structural)]
pub enum VcoPhase {
    /// The binary search is under way.
    Search,
    /// The code found is measured once more.
    Confirm,
    /// The lower neighbour is measured.
    Lower,
    /// The upper neighbour is measured.
    Upper,
    /// All counts are in; the best code is known.
    Done,
}

/// The state of one calibration run.
#[derive(Debug, Clone, Copy)]
pub struct VcoCalibration {
    phase: VcoPhase,
    fc_vco: u8,
    delta: u8,
    cnt_mid: u16,
    cnt_lo: u16,
    cnt_hi: u16,
}

/// One recorded count keeps a run in agreement with a table, when the
/// count is the table's for the code that was wanted.
pub proof fn lemma_follows_step(
    before: VcoCalibration,
    after: VcoCalibration,
    counts: Seq<u16>,
    cnt: u16,
)
    requires
        before.follows(counts),
        before.wanted() is Some,
        cnt == counts[before.wanted().unwrap()],
        before.phase() == VcoPhase::Search ==> {
            &&& after.code() == search_step(before.code(), before.step() as int, cnt as int)
            &&& after.step() == before.step() / 2
            &&& after.phase() == (if before.step() / 2 == 0 {
                VcoPhase::Confirm
            } else {
                VcoPhase::Search
            })
            &&& before.step() != 0
        },
        before.phase() == VcoPhase::Confirm ==> {
            &&& after.phase() == VcoPhase::Lower
            &&& after.code() == before.code()
            &&& after.count_mid() == cnt
        },
        before.phase() == VcoPhase::Lower ==> {
            &&& after.phase() == VcoPhase::Upper
            &&& after.code() == before.code()
            &&& after.count_mid() == before.count_mid()
            &&& after.count_lower() == cnt
        },
        before.phase() == VcoPhase::Upper ==> {
            &&& after.phase() == VcoPhase::Done
            &&& after.code() == before.code()
            &&& after.count_mid() == before.count_mid()
            &&& after.count_lower() == before.count_lower()
            &&& after.count_upper() == cnt
        },
    ensures
        after.follows(counts),
        before.to_ask(counts) == seq![before.wanted().unwrap()] + after.to_ask(counts),
{
    if before.phase() == VcoPhase::Search {
        let next = search_step(before.code(), before.step() as int, cnt as int);
        let half = before.step() / 2;
        assert(search(counts, before.code(), before.step()) == search(counts, next, half));
        assert(half == 0 ==> search(counts, next, 0) == next);
        assert(search_path(counts, before.code(), before.step()) == seq![before.code()]
            + search_path(counts, next, half));
        assert(half == 0 ==> search_path(counts, next, 0) == Seq::<int>::empty());
        let tail = refinement_codes(search(counts, next, half));
        assert((seq![before.code()] + search_path(counts, next, half)) + tail =~= seq![
            before.code(),
        ] + (search_path(counts, next, half) + tail));
        if half == 0 {
            assert(Seq::<int>::empty() + tail =~= tail);
        }
    } else {
        assert(before.to_ask(counts) =~= seq![before.wanted().unwrap()] + after.to_ask(counts));
    }
}

/// The absolute deviation of a count from the target.
pub fn deviation_of(cnt: u16) -> (r: u16)
    ensures
        r == deviation(cnt as int),
{
    if cnt >= TARGET_CNT {
        cnt - TARGET_CNT
    } else {
        TARGET_CNT - cnt
    }
}

/// Chooses among a code and its neighbours by their counts.
pub fn refine(fc: u8, cnt_lo: u16, cnt_mid: u16, cnt_hi: u16) -> (r: u8)
    requires
        fc <= MAX_CODE,
    ensures
        r == refined(fc as int, cnt_lo as int, cnt_mid as int, cnt_hi as int),
        r <= MAX_CODE,
{
    let fc_min: u8 = if fc > 0 {
        fc - 1
    } else {
        0
    };
    let fc_max: u8 = if fc < MAX_CODE {
        fc + 1
    } else {
        fc
    };
    let delta_mid: u16 = deviation_of(cnt_mid);
    let delta_lo: u16 = deviation_of(cnt_lo);
    let delta_hi: u16 = deviation_of(cnt_hi);
    if delta_lo <= delta_mid && delta_lo <= delta_hi {
        fc_min
    } else if delta_hi <= delta_mid && delta_hi <= delta_lo {
        fc_max
    } else {
        fc
    }
}

impl VcoCalibration {
    #[verifier::type_invariant]
    spec fn inv(self) -> bool {
        match self.phase {
            VcoPhase::Search => self.delta != 0 && in_reach(self.fc_vco as int, self.delta as nat),
            _ => self.delta == 0 && in_reach(self.fc_vco as int, 0),
        }
    }

    /// The phase that the run is in.
    pub closed spec fn phase(&self) -> VcoPhase {
        self.phase
    }

    /// The code that the search stands at, or has ended on.
    pub closed spec fn code(&self) -> int {
        self.fc_vco as int
    }

    /// The search's current step; zero once the search has ended.
    pub closed spec fn step(&self) -> nat {
        self.delta as nat
    }

    /// The count taken at the code that the search ended on.
    pub closed spec fn count_mid(&self) -> int {
        self.cnt_mid as int
    }

    /// The count taken at the lower neighbour.
    pub closed spec fn count_lower(&self) -> int {
        self.cnt_lo as int
    }

    /// The count taken at the upper neighbour.
    pub closed spec fn count_upper(&self) -> int {
        self.cnt_hi as int
    }

    /// The code to measure next, if any.
    pub open spec fn wanted(&self) -> Option<int> {
        match self.phase() {
            VcoPhase::Search => Some(self.code()),
            VcoPhase::Confirm => Some(self.code()),
            VcoPhase::Lower => Some(lower(self.code())),
            VcoPhase::Upper => Some(upper(self.code())),
            VcoPhase::Done => None,
        }
    }

    /// The number of measurements still to come.
    pub open spec fn remaining(&self) -> nat {
        match self.phase() {
            VcoPhase::Search => 3 + self.step(),
            VcoPhase::Confirm => 3,
            VcoPhase::Lower => 2,
            VcoPhase::Upper => 1,
            VcoPhase::Done => 0,
        }
    }

    /// The run so far agrees with the table `counts`: the search is on the
    /// way to the code that it ends on for this table, and every count
    /// taken is the table's.
    pub open spec fn follows(&self, counts: Seq<u16>) -> bool {
        match self.phase() {
            VcoPhase::Search => search(counts, self.code(), self.step()) == searched(counts),
            VcoPhase::Confirm => self.code() == searched(counts),
            VcoPhase::Lower => self.code() == searched(counts) && self.count_mid() == counts[self.code()],
            VcoPhase::Upper => self.code() == searched(counts) && self.count_mid()
                == counts[self.code()] && self.count_lower() == counts[lower(self.code())],
            VcoPhase::Done => self.code() == searched(counts) && self.count_mid()
                == counts[self.code()] && self.count_lower() == counts[lower(self.code())]
                && self.count_upper() == counts[upper(self.code())],
        }
    }

    /// The codes that the run still measures for the table `counts`, in
    /// order.
    pub open spec fn to_ask(&self, counts: Seq<u16>) -> Seq<int> {
        match self.phase() {
            VcoPhase::Search => search_path(counts, self.code(), self.step()) + refinement_codes(
                search(counts, self.code(), self.step()),
            ),
            VcoPhase::Confirm => refinement_codes(self.code()),
            VcoPhase::Lower => seq![lower(self.code()), upper(self.code())],
            VcoPhase::Upper => seq![upper(self.code())],
            VcoPhase::Done => Seq::<int>::empty(),
        }
    }

    /// A run at its start: the search stands at the middle code with the
    /// first step.
    pub fn start() -> (r: VcoCalibration)
        ensures
            r.phase() == VcoPhase::Search,
            r.code() == START_CODE,
            r.step() == START_STEP,
            forall|counts: Seq<u16>| #[trigger] r.to_ask(counts) == asked(counts),
            forall|counts: Seq<u16>| #[trigger] r.follows(counts),
    {
        VcoCalibration {
            phase: VcoPhase::Search,
            fc_vco: START_CODE,
            delta: START_STEP,
            cnt_mid: 0,
            cnt_lo: 0,
            cnt_hi: 0,
        }
    }

    /// The code to measure next; none when the run is done. The code is a
    /// valid tuning code.
    pub fn next_code(&self) -> (r: Option<u8>)
        ensures
            r.is_some() == self.wanted().is_some(),
            r.is_some() ==> r.unwrap() == self.wanted().unwrap() && r.unwrap() <= MAX_CODE,
            self.phase() == VcoPhase::Search ==> in_reach(self.code(), self.step()) && self.step()
                != 0,
            self.phase() != VcoPhase::Search ==> 1 <= self.code() <= MAX_CODE && self.step() == 0,
    {
        proof {
            use_type_invariant(self);
        }
        match self.phase {
            VcoPhase::Search => Some(self.fc_vco),
            VcoPhase::Confirm => Some(self.fc_vco),
            VcoPhase::Lower => Some(self.fc_vco - 1),
            VcoPhase::Upper => Some(
                if self.fc_vco < MAX_CODE {
                    self.fc_vco + 1
                } else {
                    self.fc_vco
                },
            ),
            VcoPhase::Done => None,
        }
    }

    /// Takes the count measured at the code that `next_code` gave.
    ///
    /// During the search the code moves by the step towards the target and
    /// the step halves; when the step reaches zero the search has ended.
    /// After that the three counts of the second phase are taken in turn.
    pub fn record(&mut self, cnt: u16)
        ensures
            match old(self).phase() {
                VcoPhase::Search => {
                    &&& final(self).code() == search_step(
                        old(self).code(),
                        old(self).step() as int,
                        cnt as int,
                    )
                    &&& final(self).step() == old(self).step() / 2
                    &&& final(self).phase() == (if old(self).step() / 2 == 0 {
                        VcoPhase::Confirm
                    } else {
                        VcoPhase::Search
                    })
                },
                VcoPhase::Confirm => {
                    &&& final(self).phase() == VcoPhase::Lower
                    &&& final(self).code() == old(self).code()
                    &&& final(self).step() == 0
                    &&& final(self).count_mid() == cnt
                },
                VcoPhase::Lower => {
                    &&& final(self).phase() == VcoPhase::Upper
                    &&& final(self).code() == old(self).code()
                    &&& final(self).step() == 0
                    &&& final(self).count_mid() == old(self).count_mid()
                    &&& final(self).count_lower() == cnt
                },
                VcoPhase::Upper => {
                    &&& final(self).phase() == VcoPhase::Done
                    &&& final(self).code() == old(self).code()
                    &&& final(self).step() == 0
                    &&& final(self).count_mid() == old(self).count_mid()
                    &&& final(self).count_lower() == old(self).count_lower()
                    &&& final(self).count_upper() == cnt
                },
                VcoPhase::Done => *final(self) == *old(self),
            },
            final(self).remaining() < old(self).remaining() || old(self).phase() == VcoPhase::Done,
    {
        proof {
            use_type_invariant(&*self);
        }
        let s = *self;
        match s.phase {
            VcoPhase::Search => {
                let fc: u8 = if cnt < TARGET_CNT {
                    s.fc_vco + s.delta
                } else if cnt > TARGET_CNT {
                    s.fc_vco - s.delta
                } else {
                    s.fc_vco
                };
                let delta: u8 = s.delta / 2;
                let phase = if delta == 0 {
                    VcoPhase::Confirm
                } else {
                    VcoPhase::Search
                };
                *self = VcoCalibration { phase, fc_vco: fc, delta, ..s };
            },
            VcoPhase::Confirm => {
                *self = VcoCalibration { phase: VcoPhase::Lower, cnt_mid: cnt, ..s };
            },
            VcoPhase::Lower => {
                *self = VcoCalibration { phase: VcoPhase::Upper, cnt_lo: cnt, ..s };
            },
            VcoPhase::Upper => {
                *self = VcoCalibration { phase: VcoPhase::Done, cnt_hi: cnt, ..s };
            },
            VcoPhase::Done => {},
        }
    }

    /// The chosen code, once the run is done.
    pub fn best(&self) -> (r: Option<u8>)
        ensures
            r.is_some() == (self.phase() == VcoPhase::Done),
            r.is_some() ==> r.unwrap() == refined(
                self.code(),
                self.count_lower(),
                self.count_mid(),
                self.count_upper(),
            ) && r.unwrap() <= MAX_CODE,
    {
        proof {
            use_type_invariant(self);
        }
        match self.phase {
            VcoPhase::Done => Some(refine(self.fc_vco, self.cnt_lo, self.cnt_mid, self.cnt_hi)),
            _ => None,
        }
    }

    /// Runs a whole calibration against a table that gives the count of
    /// every tuning code, and returns the chosen code.
    pub fn run(counts: &[u16; 32]) -> (r: u8)
        ensures
            r == calibrated(counts@),
            r <= MAX_CODE,
            deviation(counts@[r as int] as int) <= deviation(
                counts@[searched(counts@)] as int,
            ),
    {
        let mut m = VcoCalibration::start();
        loop
            invariant
                m.follows(counts@),
            ensures
                m.phase() == VcoPhase::Done,
                m.follows(counts@),
            decreases m.remaining(),
        {
            match m.next_code() {
                None => {
                    break ;
                },
                Some(code) => {
                    let cnt: u16 = counts[code as usize];
                    let ghost before = m;
                    m.record(cnt);
                    proof {
                        lemma_follows_step(before, m, counts@, cnt);
                    }
                },
            }
        }
        proof {
            lemma_refinement_no_worse(counts@);
        }
        match m.best() {
            Some(code) => code,
            None => START_CODE,
        }
    }
}

} // verus!
