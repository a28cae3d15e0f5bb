//! The detector of single large turns among small ones.

use vstd::prelude::*;
use std::collections::HashMap;
use crate::algorithm::{
    copy_detections, copy_values, declaration_covers, detections_view, queries_view, AlgorithmError, AngleQuery,
    AngleQueryView, CheatAlgorithm, Detection, DetectionData, DetectionDataView, DetectionView,
    Interest, Outcome, TickReport, TickReportView,
};
use crate::base::identity::{detector_view, is_visible, tracked_identity, visible_players};
use crate::base::records::{Message, MessageType};
use crate::base::state::{CheatAnalyserState, PlayerView, StateView};
use crate::parameters::{params_view, Parameter, Parameters};
use crate::util::helpers::ViewAngles;
use crate::algorithm::retracted_by;
use crate::util::jankguard::{
    after_message, after_tick, is_quiet, last_of, lemma_settled, lemma_teleport_quiets, settled,
    ticks_since, JankGuard, JankGuardView, QUIET_TICKS,
};
use crate::util::text::same_text;

verus! {

/// How many consecutive samples of a player's orientation are judged
/// together.
pub const SNAP_WINDOW: usize = 5;

/// For how many ticks after a shot a player is left alone.
pub const FIRE_QUIET_TICKS: u32 = 5;

/// The least angular distance that counts as natural noise, by default.
pub const DEFAULT_NOISE_MIN: i64 = 28_000;

/// The angular distance below which a move counts as natural noise, by
/// default.
pub const DEFAULT_NOISE_MAX: i64 = 990_000;

/// The angular distance above which a move counts as a snap, by default.
pub const DEFAULT_SNAP_THRESHOLD: i64 = 10_000_000;

/// Flags a single large turn between small, natural ones.
///
/// The detector keeps the orientation of each followed player at the last
/// five tick boundaries and asks for the angular distances between the
/// consecutive samples. Findings are buffered, so that a spawn or teleport
/// that shows up later can still withdraw them, and handed out at the end.
pub struct AimSnap {
    ticks: Vec<HashMap<u64, ViewAngles>>,
    jg: JankGuard,
    noise_min: i64,
    noise_max: i64,
    snap_threshold: i64,
    detections: Vec<Detection>,
}

/// The mathematical content of an `AimSnap`: the samples of the last tick
/// boundaries, newest first, the guard, the three thresholds and the
/// buffered findings.
pub struct AimSnapView {
    pub ticks: Seq<Map<u64, ViewAngles>>,
    pub guard: JankGuardView,
    pub noise_min: i64,
    pub noise_max: i64,
    pub snap_threshold: i64,
    pub detections: Seq<DetectionView>,
}

/// The views of a list of sample maps.
pub open spec fn samples_view(ticks: Seq<HashMap<u64, ViewAngles>>) -> Seq<Map<u64, ViewAngles>> {
    Seq::new(ticks.len(), |i: int| ticks[i]@)
}

impl View for AimSnap {
    type V = AimSnapView;

    closed spec fn view(&self) -> AimSnapView {
        AimSnapView {
            ticks: samples_view(self.ticks@),
            guard: self.jg@,
            noise_min: self.noise_min,
            noise_max: self.noise_max,
            snap_threshold: self.snap_threshold,
            detections: detections_view(self.detections@),
        }
    }
}

/// The orientation of a player.
pub open spec fn angles_of(p: PlayerView) -> ViewAngles {
    ViewAngles { yaw: p.view_angle, pitch: p.pitch_angle }
}

/// Whether a distance lies in the range of natural noise: at least
/// `noise_min` and below `noise_max`.
pub open spec fn in_noise(d: i64, noise_min: i64, noise_max: i64) -> bool {
    noise_min <= d < noise_max
}

/// How many of the first `n` distances lie in the range of natural noise.
pub open spec fn count_noise(deltas: Seq<i64>, noise_min: i64, noise_max: i64, n: int) -> int
    decreases n,
{
    if n <= 0 {
        0
    } else {
        count_noise(deltas, noise_min, noise_max, n - 1) + if in_noise(
            deltas[n - 1],
            noise_min,
            noise_max,
        ) {
            1int
        } else {
            0int
        }
    }
}

/// How many of the first `n` distances exceed the threshold.
pub open spec fn count_above(deltas: Seq<i64>, threshold: i64, n: int) -> int
    decreases n,
{
    if n <= 0 {
        0
    } else {
        count_above(deltas, threshold, n - 1) + if deltas[n - 1] > threshold {
            1int
        } else {
            0int
        }
    }
}

/// Whether a row of distances shows one snap among noise: the first and the
/// last are noise, all but one are noise, and exactly one exceeds the snap
/// threshold.
pub open spec fn snap_pattern(
    deltas: Seq<i64>,
    noise_min: i64,
    noise_max: i64,
    snap_threshold: i64,
) -> bool {
    &&& deltas.len() > 0
    &&& in_noise(deltas.first(), noise_min, noise_max)
    &&& in_noise(deltas.last(), noise_min, noise_max)
    &&& count_noise(deltas, noise_min, noise_max, deltas.len() as int) == deltas.len() - 1
    &&& count_above(deltas, snap_threshold, deltas.len() as int) == 1
}

/// Tells whether a row of distances shows one snap among noise.
pub fn is_snap(deltas: &Vec<i64>, noise_min: i64, noise_max: i64, snap_threshold: i64) -> (snap:
    bool)
    ensures
        snap == snap_pattern(deltas@, noise_min, noise_max, snap_threshold),
{
    let n: usize = deltas.len();
    if n == 0 {
        return false;
    }
    let mut noise: usize = 0;
    let mut above: usize = 0;
    let mut i: usize = 0;
    while i < n
        invariant
            i <= n,
            n == deltas@.len(),
            noise <= i,
            above <= i,
            noise == count_noise(deltas@, noise_min, noise_max, i as int),
            above == count_above(deltas@, snap_threshold, i as int),
        decreases n - i,
    {
        let d: i64 = deltas[i];
        if noise_min <= d && d < noise_max {
            noise += 1;
        }
        if d > snap_threshold {
            above += 1;
        }
        i += 1;
    }
    let first: i64 = deltas[0];
    let last: i64 = deltas[n - 1];
    noise_min <= first && first < noise_max && noise_min <= last && last < noise_max && noise == n
        - 1 && above == 1
}

/// The samples of one player over a full window, oldest first: those of the
/// four boundaries before this one and the one of now. `None` if fewer than
/// four earlier boundaries are remembered or the player lacks a sample at one
/// of them.
pub open spec fn window_of(history: Seq<Map<u64, ViewAngles>>, id: u64, now: ViewAngles)
    -> Option<Seq<ViewAngles>> {
    if history.len() >= 4 && history[0].contains_key(id) && history[1].contains_key(id)
        && history[2].contains_key(id) && history[3].contains_key(id) {
        Some(seq![history[3][id], history[2][id], history[1][id], history[0][id], now])
    } else {
        None
    }
}

/// The pairs of neighbours in a row of samples.
pub open spec fn consecutive_pairs(w: Seq<ViewAngles>) -> Seq<(ViewAngles, ViewAngles)> {
    Seq::new((w.len() - 1) as nat, |i: int| (w[i], w[i + 1]))
}

/// What a pass over the players at a tick boundary has gathered: the samples
/// of this boundary, the buffered findings, and the distances to measure.
pub struct SnapScan {
    pub current: Map<u64, ViewAngles>,
    pub detections: Seq<DetectionView>,
    pub queries: Seq<AngleQueryView>,
}

/// The scan after one player. A followed player that spawned or teleported
/// too recently gets no sample; any other followed player gets one, and a
/// request for its distances if its window is full.
pub open spec fn snap_step(
    scan: SnapScan,
    history: Seq<Map<u64, ViewAngles>>,
    g: JankGuardView,
    p: PlayerView,
    tick: u32,
) -> SnapScan {
    match tracked_identity(p) {
        Some(id) => {
            let detections = settled(scan.detections, g, id, tick);
            if is_quiet(g, id, tick) {
                SnapScan { detections, ..scan }
            } else {
                SnapScan {
                    current: scan.current.insert(id, angles_of(p)),
                    detections,
                    queries: match window_of(history, id, angles_of(p)) {
                        Some(w) => scan.queries.push(
                            AngleQueryView { player: id, tick, pairs: consecutive_pairs(w) },
                        ),
                        None => scan.queries,
                    },
                }
            }
        },
        None => scan,
    }
}

/// The scan after the first `n` players.
pub open spec fn snap_scanned(
    detections: Seq<DetectionView>,
    history: Seq<Map<u64, ViewAngles>>,
    g: JankGuardView,
    players: Seq<PlayerView>,
    tick: u32,
    n: int,
) -> SnapScan
    decreases n,
{
    if n <= 0 {
        SnapScan { current: Map::empty(), detections, queries: Seq::empty() }
    } else {
        snap_step(
            snap_scanned(detections, history, g, players, tick, n - 1),
            history,
            g,
            players[n - 1],
            tick,
        )
    }
}

/// Once a pass has met a player that spawned or teleported at this very
/// tick, no finding about that player of the last `QUIET_TICKS` ticks is
/// left in the buffer, however many players the pass goes on to meet.
pub proof fn lemma_scan_withdraws(
    detections: Seq<DetectionView>,
    history: Seq<Map<u64, ViewAngles>>,
    g: JankGuardView,
    players: Seq<PlayerView>,
    tick: u32,
    n: int,
    i: int,
    player: u64,
)
    requires
        0 <= i < n <= players.len(),
        tracked_identity(players[i]) == Some(player),
        crate::util::jankguard::quiet_for(g, player, tick) == 0,
    ensures
        forall|d: DetectionView| #[trigger]
            snap_scanned(detections, history, g, players, tick, n).detections.contains(d)
                ==> !retracted_by(d, player, tick, QUIET_TICKS),
    decreases n,
{
    let before = snap_scanned(detections, history, g, players, tick, n - 1);
    let after = snap_scanned(detections, history, g, players, tick, n);
    match tracked_identity(players[n - 1]) {
        Some(id) => {
            lemma_settled(before.detections, g, id, tick);
            assert(after.detections == settled(before.detections, g, id, tick));
        },
        None => {
            assert(after.detections == before.detections);
        },
    }
    if i < n - 1 {
        lemma_scan_withdraws(detections, history, g, players, tick, n - 1, i, player);
    }
}

/// The newest `n` sample maps of a history, or all of it if it has fewer.
pub open spec fn newest(ticks: Seq<Map<u64, ViewAngles>>, n: int) -> Seq<Map<u64, ViewAngles>> {
    if ticks.len() > n {
        ticks.take(n)
    } else {
        ticks
    }
}

/// The tick that a finding of a full window is dated to: the middle of the
/// window, two ticks back.
pub open spec fn snap_tick(tick: u32) -> u32 {
    if tick >= 2 {
        (tick - 2) as u32
    } else {
        0
    }
}

/// Looks up the samples of a full window and pairs the neighbours.
fn window_pairs(history: &Vec<HashMap<u64, ViewAngles>>, id: u64, now: ViewAngles) -> (pairs:
    Option<Vec<(ViewAngles, ViewAngles)>>)
    ensures
        match pairs {
            Some(list) => window_of(samples_view(history@), id, now) matches Some(w) && list@
                == consecutive_pairs(w),
            None => window_of(samples_view(history@), id, now) is None,
        },
{
    if history.len() < 4 {
        return None;
    }
    let s0 = match history[0].get(&id) {
        Some(a) => *a,
        None => {
            return None;
        },
    };
    let s1 = match history[1].get(&id) {
        Some(a) => *a,
        None => {
            return None;
        },
    };
    let s2 = match history[2].get(&id) {
        Some(a) => *a,
        None => {
            return None;
        },
    };
    let s3 = match history[3].get(&id) {
        Some(a) => *a,
        None => {
            return None;
        },
    };
    let mut list: Vec<(ViewAngles, ViewAngles)> = Vec::new();
    list.push((s3, s2));
    list.push((s2, s1));
    list.push((s1, s0));
    list.push((s0, now));
    assert(list@ =~= consecutive_pairs(seq![s3, s2, s1, s0, now]));
    Some(list)
}

proof fn lemma_scan_nobody_followed(
    detections: Seq<DetectionView>,
    history: Seq<Map<u64, ViewAngles>>,
    g: JankGuardView,
    players: Seq<PlayerView>,
    tick: u32,
    n: int,
)
    requires
        0 <= n <= players.len(),
        forall|i: int| 0 <= i < players.len() ==> tracked_identity(#[trigger] players[i]) is None,
    ensures
        snap_scanned(detections, history, g, players, tick, n) == (SnapScan {
            current: Map::empty(),
            detections,
            queries: Seq::empty(),
        }),
    decreases n,
{
    if n > 0 {
        lemma_scan_nobody_followed(detections, history, g, players, tick, n - 1);
    }
}

proof fn lemma_snap_scanned_prefix(
    detections: Seq<DetectionView>,
    history: Seq<Map<u64, ViewAngles>>,
    g: JankGuardView,
    players: Seq<PlayerView>,
    tick: u32,
    extra: PlayerView,
    n: int,
)
    requires
        0 <= n <= players.len(),
    ensures
        snap_scanned(detections, history, g, players.push(extra), tick, n) == snap_scanned(detections, history, g, players, tick, n),
    decreases n,
{
    if n > 0 {
        lemma_snap_scanned_prefix(detections, history, g, players, tick, extra, n - 1);
        assert(players.push(extra)[n - 1] == players[n - 1]);
    }
}

/// A pass over the visible ones among the first `n` players gathers what a
/// pass over all of the first `n` gathers: players that are not visible are
/// not followed, and a pass takes note of followed players only.
pub proof fn lemma_snap_scanned_of_visible(
    detections: Seq<DetectionView>,
    history: Seq<Map<u64, ViewAngles>>,
    g: JankGuardView,
    players: Seq<PlayerView>,
    tick: u32,
    n: int,
)
    requires
        0 <= n <= players.len(),
    ensures
        snap_scanned(
            detections, history, g, visible_players(players, n), tick,
            visible_players(players, n).len() as int,
        ) == snap_scanned(detections, history, g, players, tick, n),
    decreases n,
{
    if n > 0 {
        lemma_snap_scanned_of_visible(detections, history, g, players, tick, n - 1);
        let fewer = visible_players(players, n - 1);
        let p = players[n - 1];
        if is_visible(p) {
            lemma_snap_scanned_prefix(detections, history, g, fewer, tick, p, fewer.len() as int);
            assert(fewer.push(p)[fewer.len() as int] == p);
        }
    }
}

impl AimSnap {
    /// A tick boundary means the same to the detector whether it is shown
    /// the whole state or the state limited to the visible players.
    pub proof fn lemma_after_tick_of_view(v: AimSnapView, s: StateView)
        ensures
            AimSnap::after_tick(v, detector_view(s)) == AimSnap::after_tick(v, s),
    {
        crate::util::jankguard::lemma_after_tick_of_view(v.guard, s);
        lemma_snap_scanned_of_visible(
            v.detections,
            newest(v.ticks, SNAP_WINDOW - 1),
            after_tick(v.guard, s),
            s.players,
            s.tick,
            s.players.len() as int,
        );
    }

    /// Where no player is followed, a tick boundary asks for nothing and
    /// leaves the buffered findings as they are.
    pub proof fn lemma_nobody_followed(v: AimSnapView, s: StateView)
        requires
            forall|i: int|
                0 <= i < s.players.len() ==> tracked_identity(#[trigger] s.players[i]) is None,
        ensures
            AimSnap::after_tick(v, s).1 == Seq::<AngleQueryView>::empty(),
            AimSnap::after_tick(v, s).0.detections == v.detections,
    {
        lemma_scan_nobody_followed(
            v.detections,
            newest(v.ticks, SNAP_WINDOW - 1),
            after_tick(v.guard, s),
            s.players,
            s.tick,
            s.players.len() as int,
        );
    }

    /// The name under which the detector is selected and under which it
    /// reports.
    pub open spec fn name() -> Seq<char> {
        "nocrex/aimsnap"@
    }

    /// The state of a detector with the default thresholds that has seen
    /// nothing yet.
    pub open spec fn fresh() -> AimSnapView {
        AimSnapView {
            ticks: Seq::empty(),
            guard: JankGuardView::fresh(),
            noise_min: DEFAULT_NOISE_MIN,
            noise_max: DEFAULT_NOISE_MAX,
            snap_threshold: DEFAULT_SNAP_THRESHOLD,
            detections: Seq::empty(),
        }
    }

    /// A detector with the default thresholds that has seen nothing yet.
    pub fn new() -> (detector: AimSnap)
        ensures
            detector@ == AimSnap::fresh(),
    {
        let detector = AimSnap {
            ticks: Vec::new(),
            jg: JankGuard::new(),
            noise_min: DEFAULT_NOISE_MIN,
            noise_max: DEFAULT_NOISE_MAX,
            snap_threshold: DEFAULT_SNAP_THRESHOLD,
            detections: Vec::new(),
        };
        assert(detector@.ticks =~= Seq::empty());
        assert(detector@.detections =~= Seq::empty());
        detector
    }

    /// The state after a tick boundary, and the distances that are to be
    /// measured for it, one request for each player with a full window, in
    /// the order of the players.
    pub open spec fn after_tick(v: AimSnapView, s: StateView) -> (AimSnapView, Seq<
        AngleQueryView,
    >) {
        let guard = after_tick(v.guard, s);
        let history = newest(v.ticks, SNAP_WINDOW - 1);
        let scan = snap_scanned(
            v.detections,
            history,
            guard,
            s.players,
            s.tick,
            s.players.len() as int,
        );
        (
            AimSnapView {
                ticks: seq![scan.current] + history,
                guard,
                detections: scan.detections,
                ..v
            },
            scan.queries,
        )
    }

    /// A buffered finding is withdrawn when a teleport of its player comes
    /// on record within `QUIET_TICKS` ticks of it: if the detector follows
    /// the player at the tick boundary for which the teleport is on record,
    /// and that boundary is less than `QUIET_TICKS` ticks after the
    /// finding's tick, the finding is gone after the boundary.
    pub proof fn lemma_teleport_retracts(v: AimSnapView, s: StateView, i: int, d: DetectionView)
        requires
            0 <= i < s.players.len(),
            tracked_identity(s.players[i]) == Some(d.player),
            after_tick(v.guard, s).last_teleport.contains_key(d.player),
            after_tick(v.guard, s).last_teleport[d.player] == s.tick,
            d.tick <= s.tick < d.tick + QUIET_TICKS,
        ensures
            !AimSnap::after_tick(v, s).0.detections.contains(d),
    {
        let guard = after_tick(v.guard, s);
        lemma_teleport_quiets(guard, d.player, s.tick);
        lemma_scan_withdraws(
            v.detections,
            newest(v.ticks, SNAP_WINDOW - 1),
            guard,
            s.players,
            s.tick,
            s.players.len() as int,
            i,
            d.player,
        );
    }

    /// A finding is withdrawn when the game reports a teleport of its player
    /// within `QUIET_TICKS` ticks of it: if a teleport event for the
    /// player's user id arrives for a tick less than `QUIET_TICKS` after the
    /// finding's tick, and the detector follows the player at the boundary
    /// of that tick, the finding is gone after the boundary.
    pub proof fn lemma_reported_teleport_retracts(
        v: AimSnapView,
        seen: StateView,
        user_id: u16,
        s: StateView,
        i: int,
        d: DetectionView,
    )
        requires
            crate::base::identity::identity_of_user(seen.players, user_id) == Some(d.player),
            0 <= i < s.players.len(),
            tracked_identity(s.players[i]) == Some(d.player),
            d.tick <= s.tick < d.tick + QUIET_TICKS,
        ensures
            !AimSnap::after_tick(
                AimSnap::message_model(
                    v,
                    Message::GameEvent(crate::base::records::GameEvent::PlayerTeleported { user_id }),
                    seen,
                    s.tick,
                ).model,
                s,
            ).0.detections.contains(d),
    {
        let told = AimSnap::message_model(
            v,
            Message::GameEvent(crate::base::records::GameEvent::PlayerTeleported { user_id }),
            seen,
            s.tick,
        ).model;
        crate::util::jankguard::lemma_teleport_stays_recorded(told.guard, s, d.player);
        AimSnap::lemma_teleport_retracts(told, s, i, d);
    }

    /// The state after the distances of a player's window were measured at
    /// `tick`. One snap among noise gives a finding, dated to the middle of
    /// the window, unless the player fired within the last
    /// `FIRE_QUIET_TICKS` ticks.
    pub open spec fn after_angles(v: AimSnapView, player: u64, tick: u32, deltas: Seq<i64>)
        -> AimSnapView {
        if snap_pattern(deltas, v.noise_min, v.noise_max, v.snap_threshold) && ticks_since(
            last_of(v.guard.last_fire, player),
            tick,
        ) >= FIRE_QUIET_TICKS {
            AimSnapView {
                detections: v.detections.push(
                    DetectionView {
                        tick: snap_tick(tick),
                        algorithm: AimSnap::name(),
                        player,
                        data: DetectionDataView::Deltas(deltas),
                    },
                ),
                ..v
            }
        } else {
            v
        }
    }

    /// The parameters after an attempt to set the one named `name`: each
    /// threshold takes a float, and any other name or kind of value changes
    /// nothing.
    pub open spec fn with_param(v: AimSnapView, name: Seq<char>, value: Parameter) -> AimSnapView {
        match value {
            Parameter::Float(f) => if name == "noise_min"@ {
                AimSnapView { noise_min: f, ..v }
            } else if name == "noise_max"@ {
                AimSnapView { noise_max: f, ..v }
            } else if name == "snap_threshold"@ {
                AimSnapView { snap_threshold: f, ..v }
            } else {
                v
            },
            _ => v,
        }
    }
}

impl CheatAlgorithm for AimSnap {
    type Model = AimSnapView;

    open spec fn model(&self) -> AimSnapView {
        self@
    }

    open spec fn default_model(m: AimSnapView) -> bool {
        true
    }

    open spec fn name_model(m: AimSnapView) -> Seq<char> {
        AimSnap::name()
    }

    open spec fn interest_model(m: AimSnapView) -> Interest {
        Interest::Only(seq![MessageType::GameEvent, MessageType::TempEntities])
    }

    open spec fn init_model(m: AimSnapView) -> Outcome<AimSnapView, ()> {
        Outcome { model: m, result: Some(()) }
    }

    /// The guard records the spawns, teleports and shots that the message
    /// announces; no finding comes of a message.
    open spec fn message_model(m: AimSnapView, message: Message, s: StateView, tick: u32)
        -> Outcome<AimSnapView, Seq<DetectionView>> {
        Outcome {
            model: AimSnapView { guard: after_message(m.guard, message, s, tick), ..m },
            result: Some(Seq::empty()),
        }
    }

    /// No finding is final at a tick boundary: the detector asks for
    /// distances.
    open spec fn tick_model(m: AimSnapView, s: StateView) -> Outcome<AimSnapView, TickReportView> {
        Outcome {
            model: AimSnap::after_tick(m, s).0,
            result: Some(
                TickReportView {
                    detections: Seq::empty(),
                    queries: AimSnap::after_tick(m, s).1,
                },
            ),
        }
    }

    /// Findings are buffered, not handed out.
    open spec fn angles_model(m: AimSnapView, query: AngleQueryView, deltas: Seq<i64>) -> Outcome<
        AimSnapView,
        Seq<DetectionView>,
    > {
        Outcome {
            model: AimSnap::after_angles(m, query.player, query.tick, deltas),
            result: Some(Seq::empty()),
        }
    }

    /// The buffered findings are handed out.
    open spec fn finish_model(m: AimSnapView) -> Outcome<AimSnapView, Seq<DetectionView>> {
        Outcome { model: m, result: Some(m.detections) }
    }

    open spec fn param_model(m: AimSnapView, name: Seq<char>, value: Parameter) -> AimSnapView {
        AimSnap::with_param(m, name, value)
    }

    open spec fn params_model(m: AimSnapView) -> Seq<(Seq<char>, Parameter)> {
        seq![
            ("noise_min"@, Parameter::Float(m.noise_min)),
            ("noise_max"@, Parameter::Float(m.noise_max)),
            ("snap_threshold"@, Parameter::Float(m.snap_threshold)),
        ]
    }

    fn default(&self) -> (enabled: bool) {
        true
    }

    fn algorithm_name(&self) -> (name: &str) {
        "nocrex/aimsnap"
    }

    fn handled_messages(&self) -> (kinds: Result<Vec<MessageType>, bool>) {
        self.jg.handled_messages()
    }

    fn does_handle(&self, message_type: MessageType) -> (wanted: bool) {
        let kinds = self.handled_messages();
        declaration_covers(&kinds, message_type)
    }

    fn init(&mut self) -> (done: Result<(), AlgorithmError>) {
        Ok(())
    }

    fn on_message(&mut self, message: &Message, state: &CheatAnalyserState, tick: u32) -> (found:
        Result<Vec<Detection>, AlgorithmError>) {
        self.jg.on_message(message, state, tick);
        let found: Vec<Detection> = Vec::new();
        assert(detections_view(found@) =~= Seq::empty());
        Ok(found)
    }

    fn on_tick(&mut self, state: &CheatAnalyserState) -> (report: Result<
        TickReport,
        AlgorithmError,
    >) {
        self.jg.on_tick(state);
        let ticknum: u32 = state.tick;
        self.ticks.truncate(SNAP_WINDOW - 1);
        let ghost history = samples_view(self.ticks@);
        assert(history =~= newest(old(self)@.ticks, SNAP_WINDOW - 1));
        let mut current: HashMap<u64, ViewAngles> = HashMap::new();
        let mut queries: Vec<AngleQuery> = Vec::new();
        assert(queries_view(queries@) =~= Seq::empty());
        let mut i: usize = 0;
        while i < state.players.len()
            invariant
                i <= state.players.len(),
                ticknum == state.tick,
                self.jg@ == after_tick(old(self)@.guard, state@),
                samples_view(self.ticks@) == history,
                self.noise_min == old(self).noise_min,
                self.noise_max == old(self).noise_max,
                self.snap_threshold == old(self).snap_threshold,
                (SnapScan {
                    current: current@,
                    detections: detections_view(self.detections@),
                    queries: queries_view(queries@),
                }) == snap_scanned(
                    old(self)@.detections,
                    history,
                    self.jg@,
                    state@.players,
                    ticknum,
                    i as int,
                ),
            decreases state.players.len() - i,
        {
            let player = &state.players[i];
            if let Some(steam_id) = player.tracked_identity() {
                let quiet = self.jg.settle(&mut self.detections, &steam_id, ticknum);
                if !quiet {
                    let now = ViewAngles { yaw: player.view_angle, pitch: player.pitch_angle };
                    current.insert(steam_id, now);
                    if let Some(pairs) = window_pairs(&self.ticks, steam_id, now) {
                        let ghost earlier = queries_view(queries@);
                        let ghost asked = AngleQueryView {
                            player: steam_id,
                            tick: ticknum,
                            pairs: pairs@,
                        };
                        queries.push(AngleQuery { player: steam_id, tick: ticknum, pairs });
                        assert(queries_view(queries@) =~= earlier.push(asked));
                    }
                }
            }
            i += 1;
        }
        self.ticks.insert(0, current);
        assert(samples_view(self.ticks@) =~= seq![current@] + history);
        let detections: Vec<Detection> = Vec::new();
        assert(detections_view(detections@) =~= Seq::empty());
        Ok(TickReport { detections, queries })
    }

    fn on_angles(&mut self, query: &AngleQuery, deltas: &Vec<i64>) -> (found: Result<
        Vec<Detection>,
        AlgorithmError,
    >) {
        let player: u64 = query.player;
        let tick: u32 = query.tick;
        if is_snap(deltas, self.noise_min, self.noise_max, self.snap_threshold) && self.jg.fired(
            &player,
            tick,
        ) >= FIRE_QUIET_TICKS {
            let ghost earlier = detections_view(self.detections@);
            let ghost flagged = DetectionView {
                tick: snap_tick(tick),
                algorithm: AimSnap::name(),
                player,
                data: DetectionDataView::Deltas(deltas@),
            };
            let dated: u32 = if tick >= 2 {
                tick - 2
            } else {
                0
            };
            let name = self.algorithm_name().to_owned();
            self.detections.push(
                Detection {
                    tick: dated,
                    algorithm: name,
                    player,
                    data: DetectionData::Deltas(copy_values(deltas)),
                },
            );
            assert(detections_view(self.detections@) =~= earlier.push(flagged));
        }
        let found: Vec<Detection> = Vec::new();
        assert(detections_view(found@) =~= Seq::empty());
        Ok(found)
    }

    fn finish(&mut self) -> (found: Result<Vec<Detection>, AlgorithmError>) {
        Ok(copy_detections(&self.detections))
    }

    fn set_param(&mut self, name: &str, value: Parameter) {
        if let Parameter::Float(f) = value {
            if same_text(name, "noise_min") {
                self.noise_min = f;
            } else if same_text(name, "noise_max") {
                self.noise_max = f;
            } else if same_text(name, "snap_threshold") {
                self.snap_threshold = f;
            }
        }
    }

    fn params(&self) -> (params: Parameters) {
        let mut params: Parameters = Vec::new();
        params.push(("noise_min".to_owned(), Parameter::Float(self.noise_min)));
        params.push(("noise_max".to_owned(), Parameter::Float(self.noise_max)));
        params.push(("snap_threshold".to_owned(), Parameter::Float(self.snap_threshold)));
        assert(params_view(params@) =~= Self::params_model(self@));
        params
    }
}

} // verus!
