//! The detector of half turns within one tick.

use vstd::prelude::*;
use crate::algorithm::{
    declaration_covers, detections_view, queries_view, AlgorithmError, AngleQuery, AngleQueryView,
    CheatAlgorithm, Detection, DetectionData, DetectionDataView, DetectionView, Interest, Outcome,
    TickReport, TickReportView,
};
use crate::base::records::{Message, MessageType};
use crate::parameters::{params_view, Parameter, Parameters};
use crate::algorithms::aim_snap::angles_of;
use crate::base::identity::{detector_view, is_visible, tracked_identity, visible_players};
use crate::base::state::{CheatAnalyserState, PlayerView, StateView};
use crate::util::helpers::{
    per_tick, saturate, viewangle_delta, yaw_delta, ViewAngles, HALF_TURN,
};
use crate::util::jankguard::ticks_since;

verus! {

/// Flags a player that turns by half a circle or more within one tick.
///
/// The detector compares the orientation of each followed player with the
/// one it had at the previous tick boundary.
pub struct ViewAngles180Degrees {
    previous: Option<(u32, Vec<(u64, ViewAngles)>)>,
}

/// The mathematical content of a `ViewAngles180Degrees`: the tick of the
/// previous boundary and the orientation of each player followed at it, in
/// the order of the players; `None` before the first boundary.
pub struct ViewAngles180DegreesView {
    pub previous: Option<(u32, Seq<(u64, ViewAngles)>)>,
}

impl View for ViewAngles180Degrees {
    type V = ViewAngles180DegreesView;

    closed spec fn view(&self) -> ViewAngles180DegreesView {
        ViewAngles180DegreesView {
            previous: match self.previous {
                Some((tick, samples)) => Some((tick, samples@)),
                None => None,
            },
        }
    }
}

/// The first of the first `n` samples that belongs to the given identity.
pub open spec fn sample_among(samples: Seq<(u64, ViewAngles)>, id: u64, n: int) -> Option<
    ViewAngles,
>
    decreases n,
{
    if n <= 0 {
        None
    } else {
        match sample_among(samples, id, n - 1) {
            Some(a) => Some(a),
            None => if samples[n - 1].0 == id {
                Some(samples[n - 1].1)
            } else {
                None
            },
        }
    }
}

/// The ticks between the previous boundary and this one. Nothing has passed
/// at tick zero, nor where the previous boundary does not lie before this
/// one.
pub open spec fn ticks_between(previous_tick: u32, tick: u32) -> u32 {
    if tick == 0 {
        0
    } else {
        ticks_since(previous_tick, tick)
    }
}

/// The yaw and pitch rates per tick of a turn from `before` to `now`.
pub open spec fn turn_rates(before: ViewAngles, now: ViewAngles, tick_delta: u32) -> (int, int) {
    (
        per_tick(yaw_delta(before.yaw as int, now.yaw as int), tick_delta),
        per_tick(saturate(now.pitch - before.pitch), tick_delta),
    )
}

/// Whether a rate amounts to half a turn per tick or more, in either
/// direction.
pub open spec fn is_half_turn(rate: int) -> bool {
    rate >= HALF_TURN || rate <= -HALF_TURN
}

/// What a pass over the players has gathered: the findings, and the
/// orientation of each followed player.
pub struct TurnScan {
    pub found: Seq<DetectionView>,
    pub samples: Seq<(u64, ViewAngles)>,
}

/// The scan after one player.
pub open spec fn turn_step(
    scan: TurnScan,
    previous: Option<(u32, Seq<(u64, ViewAngles)>)>,
    p: PlayerView,
    tick: u32,
) -> TurnScan {
    match tracked_identity(p) {
        Some(id) => TurnScan {
            found: match previous {
                Some((previous_tick, samples)) => match sample_among(
                    samples,
                    id,
                    samples.len() as int,
                ) {
                    Some(before) => {
                        let rates = turn_rates(
                            before,
                            angles_of(p),
                            ticks_between(previous_tick, tick),
                        );
                        if is_half_turn(rates.0) || is_half_turn(rates.1) {
                            scan.found.push(
                                DetectionView {
                                    tick,
                                    algorithm: ViewAngles180Degrees::name(),
                                    player: id,
                                    data: DetectionDataView::ViewAngleDelta {
                                        va_delta: rates.0 as i64,
                                        pa_delta: rates.1 as i64,
                                    },
                                },
                            )
                        } else {
                            scan.found
                        }
                    },
                    None => scan.found,
                },
                None => scan.found,
            },
            samples: scan.samples.push((id, angles_of(p))),
        },
        None => scan,
    }
}

/// The scan after the first `n` players.
pub open spec fn turn_scanned(
    previous: Option<(u32, Seq<(u64, ViewAngles)>)>,
    players: Seq<PlayerView>,
    tick: u32,
    n: int,
) -> TurnScan
    decreases n,
{
    if n <= 0 {
        TurnScan { found: Seq::empty(), samples: Seq::empty() }
    } else {
        turn_step(turn_scanned(previous, players, tick, n - 1), previous, players[n - 1], tick)
    }
}

proof fn lemma_sample_among_stays(samples: Seq<(u64, ViewAngles)>, id: u64, n: int, m: int)
    requires
        0 <= n <= m,
        sample_among(samples, id, n) is Some,
    ensures
        sample_among(samples, id, m) == sample_among(samples, id, n),
    decreases m - n,
{
    if n < m {
        lemma_sample_among_stays(samples, id, n, m - 1);
    }
}

/// Finds the first sample of the given identity.
fn find_sample(samples: &Vec<(u64, ViewAngles)>, id: u64) -> (found: Option<ViewAngles>)
    ensures
        found == sample_among(samples@, id, samples@.len() as int),
{
    let mut i: usize = 0;
    while i < samples.len()
        invariant
            i <= samples.len(),
            sample_among(samples@, id, i as int) is None,
        decreases samples.len() - i,
    {
        if samples[i].0 == id {
            proof {
                lemma_sample_among_stays(samples@, id, i as int + 1, samples@.len() as int);
            }
            return Some(samples[i].1);
        }
        i += 1;
    }
    None
}

proof fn lemma_turn_nobody_followed(
    previous: Option<(u32, Seq<(u64, ViewAngles)>)>,
    players: Seq<PlayerView>,
    tick: u32,
    n: int,
)
    requires
        0 <= n <= players.len(),
        forall|i: int| 0 <= i < players.len() ==> tracked_identity(#[trigger] players[i]) is None,
    ensures
        turn_scanned(previous, players, tick, n) == (TurnScan {
            found: Seq::empty(),
            samples: Seq::empty(),
        }),
    decreases n,
{
    if n > 0 {
        lemma_turn_nobody_followed(previous, players, tick, n - 1);
    }
}

proof fn lemma_turn_scanned_prefix(
    previous: Option<(u32, Seq<(u64, ViewAngles)>)>,
    players: Seq<PlayerView>,
    tick: u32,
    extra: PlayerView,
    n: int,
)
    requires
        0 <= n <= players.len(),
    ensures
        turn_scanned(previous, players.push(extra), tick, n) == turn_scanned(previous, players, tick, n),
    decreases n,
{
    if n > 0 {
        lemma_turn_scanned_prefix(previous, players, tick, extra, n - 1);
        assert(players.push(extra)[n - 1] == players[n - 1]);
    }
}

/// A pass over the visible ones among the first `n` players gathers what a
/// pass over all of the first `n` gathers: players that are not visible are
/// not followed, and a pass takes note of followed players only.
pub proof fn lemma_turn_scanned_of_visible(
    previous: Option<(u32, Seq<(u64, ViewAngles)>)>,
    players: Seq<PlayerView>,
    tick: u32,
    n: int,
)
    requires
        0 <= n <= players.len(),
    ensures
        turn_scanned(
            previous, visible_players(players, n), tick,
            visible_players(players, n).len() as int,
        ) == turn_scanned(previous, players, tick, n),
    decreases n,
{
    if n > 0 {
        lemma_turn_scanned_of_visible(previous, players, tick, n - 1);
        let fewer = visible_players(players, n - 1);
        let p = players[n - 1];
        if is_visible(p) {
            lemma_turn_scanned_prefix(previous, fewer, tick, p, fewer.len() as int);
            assert(fewer.push(p)[fewer.len() as int] == p);
        }
    }
}

impl ViewAngles180Degrees {
    /// A tick boundary means the same to the detector whether it is shown
    /// the whole state or the state limited to the visible players.
    pub proof fn lemma_after_tick_of_view(v: ViewAngles180DegreesView, s: StateView)
        ensures
            ViewAngles180Degrees::after_tick(v, detector_view(s))
                == ViewAngles180Degrees::after_tick(v, s),
    {
        lemma_turn_scanned_of_visible(v.previous, s.players, s.tick, s.players.len() as int);
    }

    /// Where no player is followed, a tick boundary gives no finding.
    pub proof fn lemma_nobody_followed(v: ViewAngles180DegreesView, s: StateView)
        requires
            forall|i: int|
                0 <= i < s.players.len() ==> tracked_identity(#[trigger] s.players[i]) is None,
        ensures
            ViewAngles180Degrees::after_tick(v, s).1 == Seq::<DetectionView>::empty(),
    {
        lemma_turn_nobody_followed(v.previous, s.players, s.tick, s.players.len() as int);
    }

    /// The name under which the detector is selected and under which it
    /// reports.
    pub open spec fn name() -> Seq<char> {
        "viewangles_180degrees"@
    }

    /// The state of a detector that has seen nothing yet.
    pub open spec fn fresh() -> ViewAngles180DegreesView {
        ViewAngles180DegreesView { previous: None }
    }

    /// A detector that has seen nothing yet.
    pub fn new() -> (detector: ViewAngles180Degrees)
        ensures
            detector@ == ViewAngles180Degrees::fresh(),
    {
        ViewAngles180Degrees { previous: None }
    }

    /// The state after a tick boundary, and the findings that it gives: one
    /// for each followed player that was also followed at the previous
    /// boundary and whose yaw or pitch changed by half a turn per tick or
    /// more, in the order of the players.
    pub open spec fn after_tick(v: ViewAngles180DegreesView, s: StateView) -> (
        ViewAngles180DegreesView,
        Seq<DetectionView>,
    ) {
        let scan = turn_scanned(v.previous, s.players, s.tick, s.players.len() as int);
        (ViewAngles180DegreesView { previous: Some((s.tick, scan.samples)) }, scan.found)
    }

}

impl CheatAlgorithm for ViewAngles180Degrees {
    type Model = ViewAngles180DegreesView;

    open spec fn model(&self) -> ViewAngles180DegreesView {
        self@
    }

    open spec fn default_model(m: ViewAngles180DegreesView) -> bool {
        true
    }

    open spec fn name_model(m: ViewAngles180DegreesView) -> Seq<char> {
        ViewAngles180Degrees::name()
    }

    open spec fn interest_model(m: ViewAngles180DegreesView) -> Interest {
        Interest::Nothing
    }

    open spec fn init_model(m: ViewAngles180DegreesView) -> Outcome<ViewAngles180DegreesView, ()> {
        Outcome { model: m, result: Some(()) }
    }

    open spec fn message_model(
        m: ViewAngles180DegreesView,
        message: Message,
        s: StateView,
        tick: u32,
    ) -> Outcome<ViewAngles180DegreesView, Seq<DetectionView>> {
        Outcome { model: m, result: Some(Seq::empty()) }
    }

    /// The findings of a tick boundary are final at once; nothing is to be
    /// measured.
    open spec fn tick_model(m: ViewAngles180DegreesView, s: StateView) -> Outcome<
        ViewAngles180DegreesView,
        TickReportView,
    > {
        Outcome {
            model: ViewAngles180Degrees::after_tick(m, s).0,
            result: Some(
                TickReportView {
                    detections: ViewAngles180Degrees::after_tick(m, s).1,
                    queries: Seq::empty(),
                },
            ),
        }
    }

    open spec fn angles_model(
        m: ViewAngles180DegreesView,
        query: AngleQueryView,
        deltas: Seq<i64>,
    ) -> Outcome<ViewAngles180DegreesView, Seq<DetectionView>> {
        Outcome { model: m, result: Some(Seq::empty()) }
    }

    open spec fn finish_model(m: ViewAngles180DegreesView) -> Outcome<
        ViewAngles180DegreesView,
        Seq<DetectionView>,
    > {
        Outcome { model: m, result: Some(Seq::empty()) }
    }

    /// The detector has no parameters.
    open spec fn param_model(m: ViewAngles180DegreesView, name: Seq<char>, value: Parameter)
        -> ViewAngles180DegreesView {
        m
    }

    open spec fn params_model(m: ViewAngles180DegreesView) -> Seq<(Seq<char>, Parameter)> {
        Seq::empty()
    }

    fn default(&self) -> (enabled: bool) {
        true
    }

    fn algorithm_name(&self) -> (name: &str) {
        "viewangles_180degrees"
    }

    fn handled_messages(&self) -> (kinds: Result<Vec<MessageType>, bool>) {
        Err(false)
    }

    fn does_handle(&self, message_type: MessageType) -> (wanted: bool) {
        let kinds = self.handled_messages();
        declaration_covers(&kinds, message_type)
    }

    fn init(&mut self) -> (done: Result<(), AlgorithmError>) {
        Ok(())
    }

    fn on_message(&mut self, message: &Message, state: &CheatAnalyserState, tick: u32) -> (found:
        Result<Vec<Detection>, AlgorithmError>) {
        let found: Vec<Detection> = Vec::new();
        assert(detections_view(found@) =~= Seq::empty());
        Ok(found)
    }

    fn on_tick(&mut self, state: &CheatAnalyserState) -> (report: Result<
        TickReport,
        AlgorithmError,
    >) {
        let ticknum: u32 = state.tick;
        let mut detections: Vec<Detection> = Vec::new();
        let mut samples: Vec<(u64, ViewAngles)> = Vec::new();
        assert(detections_view(detections@) =~= Seq::empty());
        let mut i: usize = 0;
        while i < state.players.len()
            invariant
                i <= state.players.len(),
                ticknum == state.tick,
                *self == *old(self),
                (TurnScan { found: detections_view(detections@), samples: samples@ })
                    == turn_scanned(old(self)@.previous, state@.players, ticknum, i as int),
            decreases state.players.len() - i,
        {
            let player = &state.players[i];
            if let Some(steam_id) = player.tracked_identity() {
                let now = ViewAngles { yaw: player.view_angle, pitch: player.pitch_angle };
                if let Some((previous_tick, previous_samples)) = &self.previous {
                    if let Some(before) = find_sample(previous_samples, steam_id) {
                        let tick_delta: u32 = if ticknum == 0 || ticknum < *previous_tick {
                            0
                        } else {
                            ticknum - *previous_tick
                        };
                        let (va_delta, pa_delta) = viewangle_delta(
                            now.yaw,
                            now.pitch,
                            before.yaw,
                            before.pitch,
                            tick_delta,
                        );
                        if va_delta >= HALF_TURN || va_delta <= -HALF_TURN || pa_delta
                            >= HALF_TURN || pa_delta <= -HALF_TURN {
                            let ghost earlier = detections_view(detections@);
                            let ghost flagged = DetectionView {
                                tick: ticknum,
                                algorithm: ViewAngles180Degrees::name(),
                                player: steam_id,
                                data: DetectionDataView::ViewAngleDelta { va_delta, pa_delta },
                            };
                            let name = self.algorithm_name().to_owned();
                            detections.push(
                                Detection {
                                    tick: ticknum,
                                    algorithm: name,
                                    player: steam_id,
                                    data: DetectionData::ViewAngleDelta { va_delta, pa_delta },
                                },
                            );
                            assert(detections_view(detections@) =~= earlier.push(flagged));
                        }
                    }
                }
                samples.push((steam_id, now));
            }
            i += 1;
        }
        self.previous = Some((ticknum, samples));
        let queries: Vec<AngleQuery> = Vec::new();
        assert(queries_view(queries@) =~= Seq::empty());
        Ok(TickReport { detections, queries })
    }

    fn on_angles(&mut self, query: &AngleQuery, deltas: &Vec<i64>) -> (found: Result<
        Vec<Detection>,
        AlgorithmError,
    >) {
        let found: Vec<Detection> = Vec::new();
        assert(detections_view(found@) =~= Seq::empty());
        Ok(found)
    }

    fn finish(&mut self) -> (found: Result<Vec<Detection>, AlgorithmError>) {
        let found: Vec<Detection> = Vec::new();
        assert(detections_view(found@) =~= Seq::empty());
        Ok(found)
    }

    fn set_param(&mut self, name: &str, value: Parameter) {
    }

    fn params(&self) -> (params: Parameters) {
        let params: Parameters = Vec::new();
        assert(params_view(params@) =~= Seq::empty());
        params
    }
}

} // verus!
