//! What a run reports: its findings, their tally, and its progress.

use vstd::prelude::*;
use crate::algorithm::{detections_view, Detection, DetectionView};
use crate::util::helpers::UNIT;
use crate::util::text::same_text;

verus! {

/// What a run has to say at its end.
#[derive(Debug, Clone, PartialEq, Eq)]
pub struct Analysis {
    pub server_ip: String,
    /// The last tick that was seen.
    pub duration: u32,
    pub author: String,
    pub map: String,
    pub detections: Vec<Detection>,
}

/// The mathematical content of an `Analysis`.
pub struct AnalysisView {
    pub server_ip: Seq<char>,
    pub duration: u32,
    pub author: Seq<char>,
    pub map: Seq<char>,
    pub detections: Seq<DetectionView>,
}

impl View for Analysis {
    type V = AnalysisView;

    open spec fn view(&self) -> AnalysisView {
        AnalysisView {
            server_ip: self.server_ip@,
            duration: self.duration,
            author: self.author@,
            map: self.map@,
            detections: detections_view(self.detections@),
        }
    }
}

/// What stands in for a text of the header when there is no header.
pub open spec fn unknown_text() -> Seq<char> {
    "unknown"@
}

/// How often a detector flagged a player.
#[derive(Debug, Clone, PartialEq, Eq)]
pub struct Tally {
    pub algorithm: String,
    pub player: u64,
    pub count: usize,
}

/// The mathematical content of a `Tally`.
pub struct TallyView {
    pub algorithm: Seq<char>,
    pub player: u64,
    pub count: usize,
}

impl View for Tally {
    type V = TallyView;

    open spec fn view(&self) -> TallyView {
        TallyView { algorithm: self.algorithm@, player: self.player, count: self.count }
    }
}

/// The views of a list of tallies.
pub open spec fn tallies_view(tallies: Seq<Tally>) -> Seq<TallyView> {
    Seq::new(tallies.len(), |i: int| tallies[i]@)
}

/// The position of the tally for a detector and a player among the first `n`
/// tallies.
pub open spec fn tally_slot(tallies: Seq<TallyView>, algorithm: Seq<char>, player: u64, n: int)
    -> Option<int>
    decreases n,
{
    if n <= 0 {
        None
    } else {
        match tally_slot(tallies, algorithm, player, n - 1) {
            Some(i) => Some(i),
            None => if tallies[n - 1].algorithm == algorithm && tallies[n - 1].player == player {
                Some(n - 1)
            } else {
                None
            },
        }
    }
}

/// The tallies with one more finding counted: under the tally of its
/// detector and player if there is one, else under a new tally at the end.
pub open spec fn counted(tallies: Seq<TallyView>, d: DetectionView) -> Seq<TallyView> {
    match tally_slot(tallies, d.algorithm, d.player, tallies.len() as int) {
        Some(i) => tallies.update(
            i,
            TallyView { count: (tallies[i].count + 1) as usize, ..tallies[i] },
        ),
        None => tallies.push(TallyView { algorithm: d.algorithm, player: d.player, count: 1 }),
    }
}

/// The tallies of the first `n` findings: one for each pair of detector and
/// player that occurs, in the order of first occurrence.
pub open spec fn tallied(detections: Seq<DetectionView>, n: int) -> Seq<TallyView>
    decreases n,
{
    if n <= 0 {
        Seq::empty()
    } else {
        counted(tallied(detections, n - 1), detections[n - 1])
    }
}

/// How many of the first `n` findings a detector has about a player.
pub open spec fn occurrences(
    detections: Seq<DetectionView>,
    algorithm: Seq<char>,
    player: u64,
    n: int,
) -> int
    decreases n,
{
    if n <= 0 {
        0
    } else {
        occurrences(detections, algorithm, player, n - 1) + if detections[n - 1].algorithm
            == algorithm && detections[n - 1].player == player {
            1int
        } else {
            0int
        }
    }
}

proof fn lemma_tally_slot_bounds(tallies: Seq<TallyView>, algorithm: Seq<char>, player: u64, n: int)
    requires
        0 <= n <= tallies.len(),
    ensures
        match tally_slot(tallies, algorithm, player, n) {
            Some(i) => 0 <= i < n && tallies[i].algorithm == algorithm && tallies[i].player
                == player,
            None => forall|j: int|
                0 <= j < n ==> !((#[trigger] tallies[j]).algorithm == algorithm && tallies[j].player
                    == player),
        },
    decreases n,
{
    if n > 0 {
        lemma_tally_slot_bounds(tallies, algorithm, player, n - 1);
    }
}

proof fn lemma_tally_slot_stays(
    tallies: Seq<TallyView>,
    algorithm: Seq<char>,
    player: u64,
    n: int,
    m: int,
)
    requires
        0 <= n <= m,
        tally_slot(tallies, algorithm, player, n) is Some,
    ensures
        tally_slot(tallies, algorithm, player, m) == tally_slot(tallies, algorithm, player, n),
    decreases m - n,
{
    if n < m {
        lemma_tally_slot_stays(tallies, algorithm, player, n, m - 1);
    }
}

/// The tallies tell how often each pair of detector and player occurs: no
/// pair has two tallies, each tally counts the occurrences of its pair, and
/// each finding falls under a tally.
pub proof fn lemma_tallied_counts(detections: Seq<DetectionView>, n: int)
    requires
        0 <= n <= detections.len(),
        n <= usize::MAX,
    ensures
        forall|i: int, j: int|
            0 <= i < j < tallied(detections, n).len() ==> !((#[trigger] tallied(
                detections,
                n,
            )[i]).algorithm == (#[trigger] tallied(detections, n)[j]).algorithm && tallied(
                detections,
                n,
            )[i].player == tallied(detections, n)[j].player),
        forall|i: int|
            0 <= i < tallied(detections, n).len() ==> (#[trigger] tallied(detections, n)[i]).count
                == occurrences(
                detections,
                tallied(detections, n)[i].algorithm,
                tallied(detections, n)[i].player,
                n,
            ) && 1 <= tallied(detections, n)[i].count <= n,
        forall|k: int|
            0 <= k < n ==> tally_slot(
                tallied(detections, n),
                (#[trigger] detections[k]).algorithm,
                detections[k].player,
                tallied(detections, n).len() as int,
            ) is Some,
        tallied(detections, n).len() <= n,
    decreases n,
{
    if n > 0 {
        lemma_tallied_counts(detections, n - 1);
        let before = tallied(detections, n - 1);
        let after = tallied(detections, n);
        let d = detections[n - 1];
        lemma_tally_slot_bounds(before, d.algorithm, d.player, before.len() as int);
        let slot = tally_slot(before, d.algorithm, d.player, before.len() as int);
        assert forall|i: int| 0 <= i < after.len() implies (#[trigger] after[i]).count
            == occurrences(detections, after[i].algorithm, after[i].player, n) && 1
            <= after[i].count <= n by {
            if i < before.len() {
                assert(before[i].count == occurrences(
                    detections,
                    before[i].algorithm,
                    before[i].player,
                    n - 1,
                ));
                assert(1 <= before[i].count <= n - 1);
                assert(after[i].algorithm == before[i].algorithm);
                assert(after[i].player == before[i].player);
                if slot == Some(i) {
                    assert(after[i].count == before[i].count + 1);
                } else {
                    assert(after[i].count == before[i].count);
                    if slot is Some {
                        let k = slot.unwrap();
                        if i < k {
                            assert(!(before[i].algorithm == before[k].algorithm && before[i].player
                                == before[k].player));
                        } else {
                            assert(!(before[k].algorithm == before[i].algorithm && before[k].player
                                == before[i].player));
                        }
                    }
                }
            } else {
                lemma_no_tally_no_occurrence(detections, n - 1, d.algorithm, d.player);
            }
        }
        assert forall|i: int, j: int| 0 <= i < j < after.len() implies !((#[trigger] after[i]).algorithm
            == (#[trigger] after[j]).algorithm && after[i].player == after[j].player) by {
            if j < before.len() {
                assert(!(before[i].algorithm == before[j].algorithm && before[i].player
                    == before[j].player));
                assert(after[i].algorithm == before[i].algorithm);
                assert(after[j].algorithm == before[j].algorithm);
            } else {
                assert(after[i].algorithm == before[i].algorithm);
            }
        }
        assert forall|k: int| 0 <= k < n implies tally_slot(
            after,
            (#[trigger] detections[k]).algorithm,
            detections[k].player,
            after.len() as int,
        ) is Some by {
            let e = detections[k];
            if k < n - 1 {
                lemma_tally_slot_bounds(before, e.algorithm, e.player, before.len() as int);
                let i = tally_slot(before, e.algorithm, e.player, before.len() as int).unwrap();
                assert(after[i].algorithm == e.algorithm && after[i].player == e.player);
                lemma_tally_slot_found(after, e.algorithm, e.player, i);
            } else {
                match tally_slot(before, d.algorithm, d.player, before.len() as int) {
                    Some(i) => {
                        assert(after[i].algorithm == d.algorithm && after[i].player == d.player);
                        lemma_tally_slot_found(after, d.algorithm, d.player, i);
                    },
                    None => {
                        let i = before.len() as int;
                        assert(after[i].algorithm == d.algorithm && after[i].player == d.player);
                        lemma_tally_slot_found(after, d.algorithm, d.player, i);
                    },
                }
            }
        }
    }
}

proof fn lemma_tally_slot_found(tallies: Seq<TallyView>, algorithm: Seq<char>, player: u64, i: int)
    requires
        0 <= i < tallies.len(),
        tallies[i].algorithm == algorithm,
        tallies[i].player == player,
    ensures
        tally_slot(tallies, algorithm, player, tallies.len() as int) is Some,
{
    lemma_tally_slot_bounds(tallies, algorithm, player, tallies.len() as int);
}

proof fn lemma_no_tally_no_occurrence(
    detections: Seq<DetectionView>,
    n: int,
    algorithm: Seq<char>,
    player: u64,
)
    requires
        0 <= n <= detections.len(),
        tally_slot(tallied(detections, n), algorithm, player, tallied(detections, n).len() as int)
            is None,
    ensures
        occurrences(detections, algorithm, player, n) == 0,
    decreases n,
{
    if n > 0 {
        let before = tallied(detections, n - 1);
        let after = tallied(detections, n);
        let d = detections[n - 1];
        lemma_tally_slot_bounds(after, algorithm, player, after.len() as int);
        lemma_tally_slot_bounds(before, d.algorithm, d.player, before.len() as int);
        lemma_tally_slot_bounds(before, algorithm, player, before.len() as int);
        match tally_slot(before, d.algorithm, d.player, before.len() as int) {
            Some(i) => {
                assert(after[i].algorithm == d.algorithm && after[i].player == d.player);
            },
            None => {
                let i = before.len() as int;
                assert(after[i].algorithm == d.algorithm && after[i].player == d.player);
            },
        }
        match tally_slot(before, algorithm, player, before.len() as int) {
            Some(i) => {
                assert(after[i].algorithm == algorithm && after[i].player == player);
            },
            None => {},
        }
        lemma_no_tally_no_occurrence(detections, n - 1, algorithm, player);
    }
}

/// Finds the tally for a detector and a player.
fn find_tally(tallies: &Vec<Tally>, algorithm: &str, player: u64) -> (slot: Option<usize>)
    ensures
        match slot {
            Some(k) => k < tallies@.len() && tally_slot(
                tallies_view(tallies@),
                algorithm@,
                player,
                tallies@.len() as int,
            ) == Some(k as int),
            None => tally_slot(tallies_view(tallies@), algorithm@, player, tallies@.len() as int)
                is None,
        },
{
    let mut i: usize = 0;
    while i < tallies.len()
        invariant
            i <= tallies.len(),
            tally_slot(tallies_view(tallies@), algorithm@, player, i as int) is None,
        decreases tallies.len() - i,
    {
        if tallies[i].player == player && same_text(tallies[i].algorithm.as_str(), algorithm) {
            proof {
                lemma_tally_slot_stays(
                    tallies_view(tallies@),
                    algorithm@,
                    player,
                    i as int + 1,
                    tallies@.len() as int,
                );
            }
            return Some(i);
        }
        i += 1;
    }
    None
}

/// Counts the findings by detector and player.
pub fn tally(detections: &Vec<Detection>) -> (tallies: Vec<Tally>)
    ensures
        tallies_view(tallies@) == tallied(
            detections_view(detections@),
            detections@.len() as int,
        ),
{
    let ghost all = detections_view(detections@);
    let mut tallies: Vec<Tally> = Vec::new();
    assert(tallies_view(tallies@) =~= Seq::empty());
    let mut n: usize = 0;
    while n < detections.len()
        invariant
            n <= detections.len(),
            all == detections_view(detections@),
            tallies_view(tallies@) == tallied(all, n as int),
        decreases detections.len() - n,
    {
        let d = &detections[n];
        let ghost before = tallies_view(tallies@);
        proof {
            lemma_tallied_counts(all, n as int);
        }
        match find_tally(&tallies, d.algorithm.as_str(), d.player) {
            Some(k) => {
                assert(before[k as int].count <= n);
                tallies[k].count = tallies[k].count + 1;
                assert(tallies_view(tallies@) =~= counted(before, d@));
            },
            None => {
                tallies.push(Tally { algorithm: d.algorithm.clone(), player: d.player, count: 1 });
                assert(tallies_view(tallies@) =~= counted(before, d@));
            },
        }
        n += 1;
    }
    tallies
}

/// The hours, minutes, seconds and hundredths of a second of a length of
/// time given in fixed-point seconds. A negative length counts as none.
pub open spec fn clock_parts(duration: i64) -> (int, int, int, int) {
    let d: int = if duration < 0 {
        0
    } else {
        duration as int
    };
    let seconds = d / (UNIT as int);
    (
        seconds / 3600,
        (seconds % 3600) / 60,
        seconds % 60,
        ((d % (UNIT as int)) * 100) / (UNIT as int),
    )
}

/// Splits a length of time into hours, minutes, seconds and hundredths of a
/// second.
pub fn duration_parts(duration: i64) -> (parts: (u64, u64, u64, u64))
    ensures
        (parts.0 as int, parts.1 as int, parts.2 as int, parts.3 as int) == clock_parts(duration),
        parts.1 < 60,
        parts.2 < 60,
        parts.3 < 100,
{
    let d: u64 = if duration < 0 {
        0
    } else {
        duration as u64
    };
    let unit: u64 = 1_000_000;
    let seconds: u64 = d / unit;
    let fraction: u64 = d % unit;
    (seconds / 3600, (seconds % 3600) / 60, seconds % 60, (fraction * 100) / unit)
}

/// The ticks at which progress was last reported, oldest first: at most
/// `PROGRESS_WINDOW` of them.
pub struct ProgressWindow {
    progress: Vec<u32>,
}

/// How many reports the rate of progress is averaged over.
pub const PROGRESS_WINDOW: usize = 10;

impl View for ProgressWindow {
    type V = Seq<u32>;

    closed spec fn view(&self) -> Seq<u32> {
        self.progress@
    }
}

/// The reports after one more: the newest `PROGRESS_WINDOW` of them.
pub open spec fn reports_after(reports: Seq<u32>, tick: u32) -> Seq<u32> {
    let all = reports.push(tick);
    if all.len() > PROGRESS_WINDOW {
        all.subrange(all.len() - PROGRESS_WINDOW, all.len() as int)
    } else {
        all
    }
}

/// The ticks per report over a window of reports: the ticks from the oldest
/// to the newest, spread over the steps between them. With a single report,
/// its tick.
pub open spec fn report_rate(reports: Seq<u32>) -> int {
    if reports.len() >= 2 {
        let span: int = if reports.last() >= reports.first() {
            reports.last() - reports.first()
        } else {
            0
        };
        span / (reports.len() - 1)
    } else if reports.len() == 1 {
        reports[0] as int
    } else {
        0
    }
}

impl ProgressWindow {
    /// A window without reports.
    pub fn new() -> (window: ProgressWindow)
        ensures
            window@ == Seq::<u32>::empty(),
    {
        ProgressWindow { progress: Vec::new() }
    }

    /// Notes that progress is reported at `tick`, and tells the rate of
    /// progress in ticks per report.
    pub fn record(&mut self, tick: u32) -> (rate: u32)
        ensures
            final(self)@ == reports_after(old(self)@, tick),
            rate == report_rate(final(self)@),
    {
        self.progress.push(tick);
        let ghost all = self.progress@;
        assert(all.subrange(0, all.len() as int) =~= all);
        while self.progress.len() > PROGRESS_WINDOW
            invariant
                all == old(self)@.push(tick),
                self.progress@.len() <= all.len(),
                all.len() > PROGRESS_WINDOW ==> self.progress@.len() >= PROGRESS_WINDOW,
                all.len() <= PROGRESS_WINDOW ==> self.progress@.len() == all.len(),
                self.progress@ == all.subrange(all.len() - self.progress@.len(), all.len() as int),
            decreases self.progress.len(),
        {
            self.progress.remove(0);
            assert(self.progress@ =~= all.subrange(
                all.len() - self.progress@.len(),
                all.len() as int,
            ));
        }
        assert(self.progress@ =~= reports_after(old(self)@, tick));
        let n: usize = self.progress.len();
        if n >= 2 {
            let first: u32 = self.progress[0];
            let last: u32 = self.progress[n - 1];
            let span: u32 = if last >= first {
                last - first
            } else {
                0
            };
            span / ((n - 1) as u32)
        } else {
            tick
        }
    }
}

} // verus!
