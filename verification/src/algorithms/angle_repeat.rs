//! The detector of aims that jump away and come back.

use vstd::prelude::*;
use std::collections::HashMap;
use crate::algorithm::{
    copy_detections, declaration_covers, detections_view, queries_view, AlgorithmError, AngleQuery,
    AngleQueryView, CheatAlgorithm, Detection, DetectionData, DetectionDataView, DetectionView,
    Interest, Outcome, TickReport, TickReportView,
};
use crate::algorithms::aim_snap::{
    angles_of, newest, samples_view, FIRE_QUIET_TICKS,
};
use crate::base::identity::{detector_view, is_visible, tracked_identity, visible_players};
use crate::base::records::{Message, MessageType};
use crate::base::state::{CheatAnalyserState, PlayerView, StateView};
use crate::parameters::{params_view, Parameter, Parameters};
use crate::util::helpers::{divide_toward_zero, quotient_toward_zero, ViewAngles, UNIT};
use crate::algorithm::retracted_by;
use crate::util::jankguard::{
    after_message, after_tick, is_quiet, last_of, lemma_settled, lemma_teleport_quiets, settled,
    ticks_since, JankGuard, JankGuardView, QUIET_TICKS,
};
use crate::util::text::same_text;

verus! {

/// How many consecutive samples of a player's orientation are judged
/// together.
pub const REPEAT_WINDOW: usize = 3;

/// How many times farther the second sample must lie from the first than the
/// third does, by default.
pub const DEFAULT_MIN_ANGLE_DIFF_RATIO: i64 = 3_000_000;

/// The least distance from the first sample to the second that is judged, by
/// default.
pub const DEFAULT_MIN_FIRST_SECOND_ANGLE_DELTA: i64 = 0;

/// The greatest distance from the first sample to the third that counts as a
/// return, by default.
pub const DEFAULT_MAX_FIRST_THIRD_ANGLE_DELTA: i64 = 28_000;

/// Flags an aim that jumps away and is back where it was one tick later.
///
/// The detector keeps the orientation of each followed player at the last
/// three tick boundaries and asks for the angular distances from the first
/// sample to the second and to the third. Findings are buffered, so that a
/// spawn or teleport that shows up later can still withdraw them, and handed
/// out at the end.
pub struct AngleRepeat {
    ticks: Vec<HashMap<u64, ViewAngles>>,
    jg: JankGuard,
    min_angle_diff_ratio: i64,
    min_first_second_angle_delta: i64,
    max_first_third_angle_delta: i64,
    detections: Vec<Detection>,
}

/// The mathematical content of an `AngleRepeat`: the samples of the last tick
/// boundaries, newest first, the guard, the three thresholds and the
/// buffered findings.
pub struct AngleRepeatView {
    pub ticks: Seq<Map<u64, ViewAngles>>,
    pub guard: JankGuardView,
    pub min_angle_diff_ratio: i64,
    pub min_first_second_angle_delta: i64,
    pub max_first_third_angle_delta: i64,
    pub detections: Seq<DetectionView>,
}

impl View for AngleRepeat {
    type V = AngleRepeatView;

    closed spec fn view(&self) -> AngleRepeatView {
        AngleRepeatView {
            ticks: samples_view(self.ticks@),
            guard: self.jg@,
            min_angle_diff_ratio: self.min_angle_diff_ratio,
            min_first_second_angle_delta: self.min_first_second_angle_delta,
            max_first_third_angle_delta: self.max_first_third_angle_delta,
            detections: detections_view(self.detections@),
        }
    }
}

/// The distance that the ratio is taken against: the distance from the first
/// sample to the third, but no less than one degree.
pub open spec fn ratio_base(first_third: i64) -> int {
    if first_third > UNIT {
        first_third as int
    } else {
        UNIT as int
    }
}

/// Whether the second sample lies more than `min_ratio` times as far from
/// the first as the third does. The ratio is judged exactly, as a fraction.
pub open spec fn ratio_exceeds(first_second: i64, first_third: i64, min_ratio: i64) -> bool {
    first_second * UNIT > min_ratio * ratio_base(first_third)
}

/// The ratio of the two distances in fixed point, rounded toward zero.
pub open spec fn ratio_of(first_second: i64, first_third: i64) -> int {
    quotient_toward_zero(first_second * UNIT, ratio_base(first_third))
}

/// The three samples that a request speaks of, if it has the shape of a
/// request of this detector: the pair of the first and second sample, then
/// the pair of the first and third.
pub open spec fn repeat_pairs(first: ViewAngles, second: ViewAngles, third: ViewAngles) -> Seq<
    (ViewAngles, ViewAngles),
> {
    seq![(first, second), (first, third)]
}

/// What a pass over the players at a tick boundary has gathered: the samples
/// of this boundary, the buffered findings, and the distances to measure.
pub struct RepeatScan {
    pub current: Map<u64, ViewAngles>,
    pub detections: Seq<DetectionView>,
    pub queries: Seq<AngleQueryView>,
}

/// The scan after one player. A followed player that spawned or teleported
/// too recently gets no sample; any other followed player gets one, and a
/// request for its distances if it has a sample at both boundaries before.
pub open spec fn repeat_step(
    scan: RepeatScan,
    history: Seq<Map<u64, ViewAngles>>,
    g: JankGuardView,
    p: PlayerView,
    tick: u32,
) -> RepeatScan {
    match tracked_identity(p) {
        Some(id) => {
            let detections = settled(scan.detections, g, id, tick);
            if is_quiet(g, id, tick) {
                RepeatScan { detections, ..scan }
            } else {
                RepeatScan {
                    current: scan.current.insert(id, angles_of(p)),
                    detections,
                    queries: if history.len() >= 2 && history[0].contains_key(id)
                        && history[1].contains_key(id) {
                        scan.queries.push(
                            AngleQueryView {
                                player: id,
                                tick,
                                pairs: repeat_pairs(history[1][id], history[0][id], angles_of(p)),
                            },
                        )
                    } else {
                        scan.queries
                    },
                }
            }
        },
        None => scan,
    }
}

/// The scan after the first `n` players.
pub open spec fn repeat_scanned(
    detections: Seq<DetectionView>,
    history: Seq<Map<u64, ViewAngles>>,
    g: JankGuardView,
    players: Seq<PlayerView>,
    tick: u32,
    n: int,
) -> RepeatScan
    decreases n,
{
    if n <= 0 {
        RepeatScan { current: Map::empty(), detections, queries: Seq::empty() }
    } else {
        repeat_step(
            repeat_scanned(detections, history, g, players, tick, n - 1),
            history,
            g,
            players[n - 1],
            tick,
        )
    }
}

/// Once a pass has met a player that spawned or teleported at this very
/// tick, no finding about that player of the last `QUIET_TICKS` ticks is
/// left in the buffer, however many players the pass goes on to meet.
pub proof fn lemma_scan_withdraws(
    detections: Seq<DetectionView>,
    history: Seq<Map<u64, ViewAngles>>,
    g: JankGuardView,
    players: Seq<PlayerView>,
    tick: u32,
    n: int,
    i: int,
    player: u64,
)
    requires
        0 <= i < n <= players.len(),
        tracked_identity(players[i]) == Some(player),
        crate::util::jankguard::quiet_for(g, player, tick) == 0,
    ensures
        forall|d: DetectionView| #[trigger]
            repeat_scanned(detections, history, g, players, tick, n).detections.contains(d)
                ==> !retracted_by(d, player, tick, QUIET_TICKS),
    decreases n,
{
    let before = repeat_scanned(detections, history, g, players, tick, n - 1);
    let after = repeat_scanned(detections, history, g, players, tick, n);
    match tracked_identity(players[n - 1]) {
        Some(id) => {
            lemma_settled(before.detections, g, id, tick);
            assert(after.detections == settled(before.detections, g, id, tick));
        },
        None => {
            assert(after.detections == before.detections);
        },
    }
    if i < n - 1 {
        lemma_scan_withdraws(detections, history, g, players, tick, n - 1, i, player);
    }
}

proof fn lemma_ratio_fits(a: int, m: int)
    requires
        m >= UNIT,
        i64::MIN <= a <= i64::MAX,
    ensures
        i64::MIN <= quotient_toward_zero(a * UNIT, m) <= i64::MAX,
{
    let unit = UNIT as int;
    if a >= 0 {
        let x = a * unit;
        let q = x / m;
        assert(x >= 0) by (nonlinear_arith)
            requires
                a >= 0,
                unit > 0,
                x == a * unit,
        ;
        assert(0 <= q <= a) by (nonlinear_arith)
            requires
                x == a * unit,
                x >= 0,
                m >= unit,
                unit > 0,
                q == x / m,
        ;
    } else {
        let x = -(a * unit);
        let q = x / m;
        assert(x == (-a) * unit) by (nonlinear_arith)
            requires
                x == -(a * unit),
        ;
        assert(0 <= q <= -a) by (nonlinear_arith)
            requires
                x == (-a) * unit,
                -a > 0,
                m >= unit,
                unit > 0,
                q == x / m,
        ;
    }
}

/// Tells whether the ratio of the two distances exceeds `min_ratio`, and
/// computes the ratio.
pub fn judge_ratio(first_second: i64, first_third: i64, min_ratio: i64) -> (judged: (bool, i64))
    ensures
        judged.0 == ratio_exceeds(first_second, first_third, min_ratio),
        judged.1 == ratio_of(first_second, first_third),
{
    let unit: i128 = 1_000_000;
    let base: i128 = if first_third > UNIT {
        first_third as i128
    } else {
        unit
    };
    proof {
        lemma_ratio_fits(first_second as int, base as int);
        assert(-0x8000_0000_0000_0000 * 1_000_000 <= first_second * unit
            <= 0x7FFF_FFFF_FFFF_FFFF * 1_000_000) by (nonlinear_arith)
            requires
                -0x8000_0000_0000_0000 <= first_second <= 0x7FFF_FFFF_FFFF_FFFF,
                unit == 1_000_000,
        ;
        assert(-0x8000_0000_0000_0000 * 0x8000_0000_0000_0000 <= min_ratio * base
            <= 0x8000_0000_0000_0000 * 0x8000_0000_0000_0000) by (nonlinear_arith)
            requires
                -0x8000_0000_0000_0000 <= min_ratio <= 0x7FFF_FFFF_FFFF_FFFF,
                0 < base <= 0x7FFF_FFFF_FFFF_FFFF,
        ;
    }
    let scaled: i128 = first_second as i128 * unit;
    let exceeds: bool = scaled > min_ratio as i128 * base;
    let ratio: i128 = divide_toward_zero(scaled, base);
    (exceeds, ratio as i64)
}

proof fn lemma_scan_nobody_followed(
    detections: Seq<DetectionView>,
    history: Seq<Map<u64, ViewAngles>>,
    g: JankGuardView,
    players: Seq<PlayerView>,
    tick: u32,
    n: int,
)
    requires
        0 <= n <= players.len(),
        forall|i: int| 0 <= i < players.len() ==> tracked_identity(#[trigger] players[i]) is None,
    ensures
        repeat_scanned(detections, history, g, players, tick, n) == (RepeatScan {
            current: Map::empty(),
            detections,
            queries: Seq::empty(),
        }),
    decreases n,
{
    if n > 0 {
        lemma_scan_nobody_followed(detections, history, g, players, tick, n - 1);
    }
}

proof fn lemma_repeat_scanned_prefix(
    detections: Seq<DetectionView>,
    history: Seq<Map<u64, ViewAngles>>,
    g: JankGuardView,
    players: Seq<PlayerView>,
    tick: u32,
    extra: PlayerView,
    n: int,
)
    requires
        0 <= n <= players.len(),
    ensures
        repeat_scanned(detections, history, g, players.push(extra), tick, n) == repeat_scanned(detections, history, g, players, tick, n),
    decreases n,
{
    if n > 0 {
        lemma_repeat_scanned_prefix(detections, history, g, players, tick, extra, n - 1);
        assert(players.push(extra)[n - 1] == players[n - 1]);
    }
}

/// A pass over the visible ones among the first `n` players gathers what a
/// pass over all of the first `n` gathers: players that are not visible are
/// not followed, and a pass takes note of followed players only.
pub proof fn lemma_repeat_scanned_of_visible(
    detections: Seq<DetectionView>,
    history: Seq<Map<u64, ViewAngles>>,
    g: JankGuardView,
    players: Seq<PlayerView>,
    tick: u32,
    n: int,
)
    requires
        0 <= n <= players.len(),
    ensures
        repeat_scanned(
            detections, history, g, visible_players(players, n), tick,
            visible_players(players, n).len() as int,
        ) == repeat_scanned(detections, history, g, players, tick, n),
    decreases n,
{
    if n > 0 {
        lemma_repeat_scanned_of_visible(detections, history, g, players, tick, n - 1);
        let fewer = visible_players(players, n - 1);
        let p = players[n - 1];
        if is_visible(p) {
            lemma_repeat_scanned_prefix(detections, history, g, fewer, tick, p, fewer.len() as int);
            assert(fewer.push(p)[fewer.len() as int] == p);
        }
    }
}

impl AngleRepeat {
    /// A tick boundary means the same to the detector whether it is shown
    /// the whole state or the state limited to the visible players.
    pub proof fn lemma_after_tick_of_view(v: AngleRepeatView, s: StateView)
        ensures
            AngleRepeat::after_tick(v, detector_view(s)) == AngleRepeat::after_tick(v, s),
    {
        crate::util::jankguard::lemma_after_tick_of_view(v.guard, s);
        lemma_repeat_scanned_of_visible(
            v.detections,
            newest(v.ticks, REPEAT_WINDOW - 1),
            after_tick(v.guard, s),
            s.players,
            s.tick,
            s.players.len() as int,
        );
    }

    /// Where no player is followed, a tick boundary asks for nothing and
    /// leaves the buffered findings as they are.
    pub proof fn lemma_nobody_followed(v: AngleRepeatView, s: StateView)
        requires
            forall|i: int|
                0 <= i < s.players.len() ==> tracked_identity(#[trigger] s.players[i]) is None,
        ensures
            AngleRepeat::after_tick(v, s).1 == Seq::<AngleQueryView>::empty(),
            AngleRepeat::after_tick(v, s).0.detections == v.detections,
    {
        lemma_scan_nobody_followed(
            v.detections,
            newest(v.ticks, REPEAT_WINDOW - 1),
            after_tick(v.guard, s),
            s.players,
            s.tick,
            s.players.len() as int,
        );
    }

    /// The name under which the detector is selected and under which it
    /// reports.
    pub open spec fn name() -> Seq<char> {
        "nocrex/angle_repeat"@
    }

    /// The state of a detector with the default thresholds that has seen
    /// nothing yet.
    pub open spec fn fresh() -> AngleRepeatView {
        AngleRepeatView {
            ticks: Seq::empty(),
            guard: JankGuardView::fresh(),
            min_angle_diff_ratio: DEFAULT_MIN_ANGLE_DIFF_RATIO,
            min_first_second_angle_delta: DEFAULT_MIN_FIRST_SECOND_ANGLE_DELTA,
            max_first_third_angle_delta: DEFAULT_MAX_FIRST_THIRD_ANGLE_DELTA,
            detections: Seq::empty(),
        }
    }

    /// A detector with the default thresholds that has seen nothing yet.
    pub fn new() -> (detector: AngleRepeat)
        ensures
            detector@ == AngleRepeat::fresh(),
    {
        let detector = AngleRepeat {
            ticks: Vec::new(),
            jg: JankGuard::new(),
            min_angle_diff_ratio: DEFAULT_MIN_ANGLE_DIFF_RATIO,
            min_first_second_angle_delta: DEFAULT_MIN_FIRST_SECOND_ANGLE_DELTA,
            max_first_third_angle_delta: DEFAULT_MAX_FIRST_THIRD_ANGLE_DELTA,
            detections: Vec::new(),
        };
        assert(detector@.ticks =~= Seq::empty());
        assert(detector@.detections =~= Seq::empty());
        detector
    }

    /// The state after a tick boundary, and the distances that are to be
    /// measured for it, one request for each player with a sample at both
    /// boundaries before, in the order of the players.
    pub open spec fn after_tick(v: AngleRepeatView, s: StateView) -> (AngleRepeatView, Seq<
        AngleQueryView,
    >) {
        let guard = after_tick(v.guard, s);
        let history = newest(v.ticks, REPEAT_WINDOW - 1);
        let scan = repeat_scanned(
            v.detections,
            history,
            guard,
            s.players,
            s.tick,
            s.players.len() as int,
        );
        (
            AngleRepeatView {
                ticks: seq![scan.current] + history,
                guard,
                detections: scan.detections,
                ..v
            },
            scan.queries,
        )
    }

    /// A buffered finding is withdrawn when a teleport of its player comes
    /// on record within `QUIET_TICKS` ticks of it: if the detector follows
    /// the player at the tick boundary for which the teleport is on record,
    /// and that boundary is less than `QUIET_TICKS` ticks after the
    /// finding's tick, the finding is gone after the boundary.
    pub proof fn lemma_teleport_retracts(
        v: AngleRepeatView,
        s: StateView,
        i: int,
        d: DetectionView,
    )
        requires
            0 <= i < s.players.len(),
            tracked_identity(s.players[i]) == Some(d.player),
            after_tick(v.guard, s).last_teleport.contains_key(d.player),
            after_tick(v.guard, s).last_teleport[d.player] == s.tick,
            d.tick <= s.tick < d.tick + QUIET_TICKS,
        ensures
            !AngleRepeat::after_tick(v, s).0.detections.contains(d),
    {
        let guard = after_tick(v.guard, s);
        lemma_teleport_quiets(guard, d.player, s.tick);
        lemma_scan_withdraws(
            v.detections,
            newest(v.ticks, REPEAT_WINDOW - 1),
            guard,
            s.players,
            s.tick,
            s.players.len() as int,
            i,
            d.player,
        );
    }

    /// A finding is withdrawn when the game reports a teleport of its player
    /// within `QUIET_TICKS` ticks of it: if a teleport event for the
    /// player's user id arrives for a tick less than `QUIET_TICKS` after the
    /// finding's tick, and the detector follows the player at the boundary
    /// of that tick, the finding is gone after the boundary.
    pub proof fn lemma_reported_teleport_retracts(
        v: AngleRepeatView,
        seen: StateView,
        user_id: u16,
        s: StateView,
        i: int,
        d: DetectionView,
    )
        requires
            crate::base::identity::identity_of_user(seen.players, user_id) == Some(d.player),
            0 <= i < s.players.len(),
            tracked_identity(s.players[i]) == Some(d.player),
            d.tick <= s.tick < d.tick + QUIET_TICKS,
        ensures
            !AngleRepeat::after_tick(
                AngleRepeat::message_model(
                    v,
                    Message::GameEvent(crate::base::records::GameEvent::PlayerTeleported { user_id }),
                    seen,
                    s.tick,
                ).model,
                s,
            ).0.detections.contains(d),
    {
        let told = AngleRepeat::message_model(
            v,
            Message::GameEvent(crate::base::records::GameEvent::PlayerTeleported { user_id }),
            seen,
            s.tick,
        ).model;
        crate::util::jankguard::lemma_teleport_stays_recorded(told.guard, s, d.player);
        AngleRepeat::lemma_teleport_retracts(told, s, i, d);
    }

    /// Whether three samples with the given distances show a repetition: the
    /// second lies at least `min_first_second_angle_delta` from the first,
    /// the third at most `max_first_third_angle_delta`, and the ratio of the
    /// two distances exceeds `min_angle_diff_ratio`.
    pub open spec fn repeats(v: AngleRepeatView, first_second: i64, first_third: i64) -> bool {
        &&& first_second >= v.min_first_second_angle_delta
        &&& first_third <= v.max_first_third_angle_delta
        &&& ratio_exceeds(first_second, first_third, v.min_angle_diff_ratio)
    }

    /// The state after the distances of a request were measured. A request
    /// of this detector holds two pairs and gets two distances; any other
    /// shape is passed over. A repetition gives a finding at the request's
    /// tick, unless the player fired within the last `FIRE_QUIET_TICKS`
    /// ticks.
    pub open spec fn after_angles(v: AngleRepeatView, query: AngleQueryView, deltas: Seq<i64>)
        -> AngleRepeatView {
        if query.pairs.len() == 2 && deltas.len() == 2 && AngleRepeat::repeats(
            v,
            deltas[0],
            deltas[1],
        ) && ticks_since(last_of(v.guard.last_fire, query.player), query.tick)
            >= FIRE_QUIET_TICKS {
            AngleRepeatView {
                detections: v.detections.push(
                    DetectionView {
                        tick: query.tick,
                        algorithm: AngleRepeat::name(),
                        player: query.player,
                        data: DetectionDataView::AngleRepeat {
                            angle_1: query.pairs[0].0,
                            angle_2: query.pairs[0].1,
                            angle_3: query.pairs[1].1,
                            delta_1_3: deltas[1],
                            delta_1_2: deltas[0],
                            ratio: ratio_of(deltas[0], deltas[1]) as i64,
                        },
                    },
                ),
                ..v
            }
        } else {
            v
        }
    }

    /// The parameters after an attempt to set the one named `name`: each
    /// threshold takes a float, and any other name or kind of value changes
    /// nothing.
    pub open spec fn with_param(v: AngleRepeatView, name: Seq<char>, value: Parameter)
        -> AngleRepeatView {
        match value {
            Parameter::Float(f) => if name == "min_angle_diff_ratio"@ {
                AngleRepeatView { min_angle_diff_ratio: f, ..v }
            } else if name == "min_first_second_angle_delta"@ {
                AngleRepeatView { min_first_second_angle_delta: f, ..v }
            } else if name == "max_first_third_angle_delta"@ {
                AngleRepeatView { max_first_third_angle_delta: f, ..v }
            } else {
                v
            },
            _ => v,
        }
    }

}

impl CheatAlgorithm for AngleRepeat {
    type Model = AngleRepeatView;

    open spec fn model(&self) -> AngleRepeatView {
        self@
    }

    open spec fn default_model(m: AngleRepeatView) -> bool {
        true
    }

    open spec fn name_model(m: AngleRepeatView) -> Seq<char> {
        AngleRepeat::name()
    }

    open spec fn interest_model(m: AngleRepeatView) -> Interest {
        Interest::Only(seq![MessageType::GameEvent, MessageType::TempEntities])
    }

    open spec fn init_model(m: AngleRepeatView) -> Outcome<AngleRepeatView, ()> {
        Outcome { model: m, result: Some(()) }
    }

    /// The guard records the spawns, teleports and shots that the message
    /// announces; no finding comes of a message.
    open spec fn message_model(m: AngleRepeatView, message: Message, s: StateView, tick: u32)
        -> Outcome<AngleRepeatView, Seq<DetectionView>> {
        Outcome {
            model: AngleRepeatView { guard: after_message(m.guard, message, s, tick), ..m },
            result: Some(Seq::empty()),
        }
    }

    /// No finding is final at a tick boundary: the detector asks for
    /// distances.
    open spec fn tick_model(m: AngleRepeatView, s: StateView) -> Outcome<
        AngleRepeatView,
        TickReportView,
    > {
        Outcome {
            model: AngleRepeat::after_tick(m, s).0,
            result: Some(
                TickReportView {
                    detections: Seq::empty(),
                    queries: AngleRepeat::after_tick(m, s).1,
                },
            ),
        }
    }

    /// Findings are buffered, not handed out.
    open spec fn angles_model(m: AngleRepeatView, query: AngleQueryView, deltas: Seq<i64>)
        -> Outcome<AngleRepeatView, Seq<DetectionView>> {
        Outcome { model: AngleRepeat::after_angles(m, query, deltas), result: Some(Seq::empty()) }
    }

    /// The buffered findings are handed out.
    open spec fn finish_model(m: AngleRepeatView) -> Outcome<AngleRepeatView, Seq<DetectionView>> {
        Outcome { model: m, result: Some(m.detections) }
    }

    open spec fn param_model(m: AngleRepeatView, name: Seq<char>, value: Parameter)
        -> AngleRepeatView {
        AngleRepeat::with_param(m, name, value)
    }

    open spec fn params_model(m: AngleRepeatView) -> Seq<(Seq<char>, Parameter)> {
        seq![
            ("min_angle_diff_ratio"@, Parameter::Float(m.min_angle_diff_ratio)),
            ("min_first_second_angle_delta"@, Parameter::Float(m.min_first_second_angle_delta)),
            ("max_first_third_angle_delta"@, Parameter::Float(m.max_first_third_angle_delta)),
        ]
    }

    fn default(&self) -> (enabled: bool) {
        true
    }

    fn algorithm_name(&self) -> (name: &str) {
        "nocrex/angle_repeat"
    }

    fn handled_messages(&self) -> (kinds: Result<Vec<MessageType>, bool>) {
        self.jg.handled_messages()
    }

    fn does_handle(&self, message_type: MessageType) -> (wanted: bool) {
        let kinds = self.handled_messages();
        declaration_covers(&kinds, message_type)
    }

    fn init(&mut self) -> (done: Result<(), AlgorithmError>) {
        Ok(())
    }

    fn on_message(&mut self, message: &Message, state: &CheatAnalyserState, tick: u32) -> (found:
        Result<Vec<Detection>, AlgorithmError>) {
        self.jg.on_message(message, state, tick);
        let found: Vec<Detection> = Vec::new();
        assert(detections_view(found@) =~= Seq::empty());
        Ok(found)
    }

    fn on_tick(&mut self, state: &CheatAnalyserState) -> (report: Result<
        TickReport,
        AlgorithmError,
    >) {
        self.jg.on_tick(state);
        let ticknum: u32 = state.tick;
        self.ticks.truncate(REPEAT_WINDOW - 1);
        let ghost history = samples_view(self.ticks@);
        assert(history =~= newest(old(self)@.ticks, REPEAT_WINDOW - 1));
        let mut current: HashMap<u64, ViewAngles> = HashMap::new();
        let mut queries: Vec<AngleQuery> = Vec::new();
        assert(queries_view(queries@) =~= Seq::empty());
        let mut i: usize = 0;
        while i < state.players.len()
            invariant
                i <= state.players.len(),
                ticknum == state.tick,
                self.jg@ == after_tick(old(self)@.guard, state@),
                samples_view(self.ticks@) == history,
                self.min_angle_diff_ratio == old(self).min_angle_diff_ratio,
                self.min_first_second_angle_delta == old(self).min_first_second_angle_delta,
                self.max_first_third_angle_delta == old(self).max_first_third_angle_delta,
                (RepeatScan {
                    current: current@,
                    detections: detections_view(self.detections@),
                    queries: queries_view(queries@),
                }) == repeat_scanned(
                    old(self)@.detections,
                    history,
                    self.jg@,
                    state@.players,
                    ticknum,
                    i as int,
                ),
            decreases state.players.len() - i,
        {
            let player = &state.players[i];
            if let Some(steam_id) = player.tracked_identity() {
                let quiet = self.jg.settle(&mut self.detections, &steam_id, ticknum);
                if !quiet {
                    let third_angle = ViewAngles {
                        yaw: player.view_angle,
                        pitch: player.pitch_angle,
                    };
                    current.insert(steam_id, third_angle);
                    if self.ticks.len() >= 2 {
                        let prev_player = self.ticks[0].get(&steam_id);
                        let second_prev_player = self.ticks[1].get(&steam_id);
                        if let (Some(second_angle), Some(first_angle)) = (
                            prev_player,
                            second_prev_player,
                        ) {
                            let mut pairs: Vec<(ViewAngles, ViewAngles)> = Vec::new();
                            pairs.push((*first_angle, *second_angle));
                            pairs.push((*first_angle, third_angle));
                            assert(pairs@ =~= repeat_pairs(
                                *first_angle,
                                *second_angle,
                                third_angle,
                            ));
                            let ghost earlier = queries_view(queries@);
                            let ghost asked = AngleQueryView {
                                player: steam_id,
                                tick: ticknum,
                                pairs: pairs@,
                            };
                            queries.push(AngleQuery { player: steam_id, tick: ticknum, pairs });
                            assert(queries_view(queries@) =~= earlier.push(asked));
                        }
                    }
                }
            }
            i += 1;
        }
        self.ticks.insert(0, current);
        assert(samples_view(self.ticks@) =~= seq![current@] + history);
        let detections: Vec<Detection> = Vec::new();
        assert(detections_view(detections@) =~= Seq::empty());
        Ok(TickReport { detections, queries })
    }


    fn on_angles(&mut self, query: &AngleQuery, deltas: &Vec<i64>) -> (found: Result<
        Vec<Detection>,
        AlgorithmError,
    >) {
        let found: Vec<Detection> = Vec::new();
        assert(detections_view(found@) =~= Seq::empty());
        if query.pairs.len() != 2 || deltas.len() != 2 {
            return Ok(found);
        }
        let first_second_delta: i64 = deltas[0];
        let first_third_delta: i64 = deltas[1];
        if first_second_delta < self.min_first_second_angle_delta {
            return Ok(found);
        }
        let (exceeds, ratio) = judge_ratio(
            first_second_delta,
            first_third_delta,
            self.min_angle_diff_ratio,
        );
        if first_third_delta <= self.max_first_third_angle_delta && exceeds && self.jg.fired(
            &query.player,
            query.tick,
        ) >= FIRE_QUIET_TICKS {
            let ghost earlier = detections_view(self.detections@);
            let data = DetectionData::AngleRepeat {
                angle_1: query.pairs[0].0,
                angle_2: query.pairs[0].1,
                angle_3: query.pairs[1].1,
                delta_1_3: first_third_delta,
                delta_1_2: first_second_delta,
                ratio,
            };
            let ghost flagged = DetectionView {
                tick: query.tick,
                algorithm: AngleRepeat::name(),
                player: query.player,
                data: data@,
            };
            let name = self.algorithm_name().to_owned();
            self.detections.push(
                Detection { tick: query.tick, algorithm: name, player: query.player, data },
            );
            assert(detections_view(self.detections@) =~= earlier.push(flagged));
        }
        Ok(found)
    }


    fn finish(&mut self) -> (found: Result<Vec<Detection>, AlgorithmError>) {
        Ok(copy_detections(&self.detections))
    }

    fn set_param(&mut self, name: &str, value: Parameter) {
        if let Parameter::Float(f) = value {
            if same_text(name, "min_angle_diff_ratio") {
                self.min_angle_diff_ratio = f;
            } else if same_text(name, "min_first_second_angle_delta") {
                self.min_first_second_angle_delta = f;
            } else if same_text(name, "max_first_third_angle_delta") {
                self.max_first_third_angle_delta = f;
            }
        }
    }

    fn params(&self) -> (params: Parameters) {
        let mut params: Parameters = Vec::new();
        params.push(
            ("min_angle_diff_ratio".to_owned(), Parameter::Float(self.min_angle_diff_ratio)),
        );
        params.push(
            (
                "min_first_second_angle_delta".to_owned(),
                Parameter::Float(self.min_first_second_angle_delta),
            ),
        );
        params.push(
            (
                "max_first_third_angle_delta".to_owned(),
                Parameter::Float(self.max_first_third_angle_delta),
            ),
        );
        assert(params_view(params@) =~= Self::params_model(self@));
        params
    }
}

} // verus!
