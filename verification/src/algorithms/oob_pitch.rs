//! The detector of pitch that is out of bounds.

use vstd::prelude::*;
use std::collections::HashSet;
use crate::algorithm::{
    declaration_covers, detections_view, queries_view, AlgorithmError, AngleQuery, AngleQueryView,
    CheatAlgorithm, Detection, DetectionData, DetectionDataView, DetectionView, Interest, Outcome,
    TickReport, TickReportView,
};
use crate::base::records::{Message, MessageType};
use crate::base::identity::{detector_view, is_visible, tracked_identity, visible_players};
use crate::base::state::{CheatAnalyserState, PlayerView, StateView};
use crate::parameters::{params_view, Parameter, Parameters};
use crate::util::text::same_text;

verus! {

/// Flags a player whose pitch leaves the range that the game allows.
///
/// A run of consecutive tick boundaries at which the pitch is out of range
/// gives one finding, at its first boundary.
pub struct OOBPitch {
    last_detections: HashSet<u64>,
    min_pitch: i64,
    max_pitch: i64,
}

/// The mathematical content of an `OOBPitch`: the identities that were out of
/// range at the previous tick boundary, and the bounds.
pub struct OOBPitchView {
    pub last_detections: Set<u64>,
    pub min_pitch: i64,
    pub max_pitch: i64,
}

impl View for OOBPitch {
    type V = OOBPitchView;

    closed spec fn view(&self) -> OOBPitchView {
        OOBPitchView {
            last_detections: self.last_detections@,
            min_pitch: self.min_pitch,
            max_pitch: self.max_pitch,
        }
    }
}

/// The lowest pitch that is in range by default: a little above straight
/// down.
pub const DEFAULT_MIN_PITCH: i64 = -89_999_000;

/// The highest pitch that is in range by default: a little below straight up.
pub const DEFAULT_MAX_PITCH: i64 = 89_999_000;

/// What a pass over the players has gathered: who is out of range now, and
/// the findings for those who were not before.
pub struct PitchScan {
    pub flagged: Set<u64>,
    pub found: Seq<DetectionView>,
}

/// The finding for a player whose pitch went out of range.
pub open spec fn pitch_finding(player: u64, tick: u32, pitch: i64) -> DetectionView {
    DetectionView {
        tick,
        algorithm: OOBPitch::name(),
        player,
        data: DetectionDataView::Pitch(pitch),
    }
}

/// The scan after one player.
pub open spec fn pitch_step(scan: PitchScan, v: OOBPitchView, p: PlayerView, tick: u32)
    -> PitchScan {
    match tracked_identity(p) {
        Some(id) => if p.pitch_angle < v.min_pitch || p.pitch_angle > v.max_pitch {
            PitchScan {
                flagged: scan.flagged.insert(id),
                found: if v.last_detections.contains(id) {
                    scan.found
                } else {
                    scan.found.push(pitch_finding(id, tick, p.pitch_angle))
                },
            }
        } else {
            scan
        },
        None => scan,
    }
}

/// The scan after the first `n` players.
pub open spec fn pitch_scanned(v: OOBPitchView, players: Seq<PlayerView>, tick: u32, n: int)
    -> PitchScan
    decreases n,
{
    if n <= 0 {
        PitchScan { flagged: Set::empty(), found: Seq::empty() }
    } else {
        pitch_step(pitch_scanned(v, players, tick, n - 1), v, players[n - 1], tick)
    }
}

/// Every finding of a pass is about a player that is out of range now and
/// was in range at the previous boundary, and is dated to the tick of the
/// pass.
pub proof fn lemma_pitch_findings_open_a_run(
    v: OOBPitchView,
    players: Seq<PlayerView>,
    tick: u32,
    n: int,
)
    requires
        0 <= n <= players.len(),
    ensures
        forall|d: DetectionView| #[trigger]
            pitch_scanned(v, players, tick, n).found.contains(d) ==> {
                &&& !v.last_detections.contains(d.player)
                &&& pitch_scanned(v, players, tick, n).flagged.contains(d.player)
                &&& d.tick == tick
                &&& d.algorithm == OOBPitch::name()
            },
    decreases n,
{
    if n > 0 {
        lemma_pitch_findings_open_a_run(v, players, tick, n - 1);
        let before = pitch_scanned(v, players, tick, n - 1);
        let after = pitch_scanned(v, players, tick, n);
        assert forall|d: DetectionView| #[trigger] after.found.contains(d) implies {
            &&& !v.last_detections.contains(d.player)
            &&& after.flagged.contains(d.player)
            &&& d.tick == tick
            &&& d.algorithm == OOBPitch::name()
        } by {
            let k = choose|k: int| 0 <= k < after.found.len() && after.found[k] == d;
            if k < before.found.len() {
                assert(before.found[k] == d);
                assert(before.found.contains(d));
            }
        }
    }
}

/// A pass over players of whom none is followed finds nothing and flags
/// nobody.
pub proof fn lemma_pitch_nobody_followed(
    v: OOBPitchView,
    players: Seq<PlayerView>,
    tick: u32,
    n: int,
)
    requires
        0 <= n <= players.len(),
        forall|i: int| 0 <= i < players.len() ==> tracked_identity(#[trigger] players[i]) is None,
    ensures
        pitch_scanned(v, players, tick, n) == (PitchScan {
            flagged: Set::empty(),
            found: Seq::empty(),
        }),
    decreases n,
{
    if n > 0 {
        lemma_pitch_nobody_followed(v, players, tick, n - 1);
    }
}

proof fn lemma_pitch_scanned_prefix(
    v: OOBPitchView,
    players: Seq<PlayerView>,
    tick: u32,
    extra: PlayerView,
    n: int,
)
    requires
        0 <= n <= players.len(),
    ensures
        pitch_scanned(v, players.push(extra), tick, n) == pitch_scanned(v, players, tick, n),
    decreases n,
{
    if n > 0 {
        lemma_pitch_scanned_prefix(v, players, tick, extra, n - 1);
        assert(players.push(extra)[n - 1] == players[n - 1]);
    }
}

/// A pass over the visible ones among the first `n` players gathers what a
/// pass over all of the first `n` gathers: players that are not visible are
/// not followed, and a pass takes note of followed players only.
pub proof fn lemma_pitch_scanned_of_visible(
    v: OOBPitchView,
    players: Seq<PlayerView>,
    tick: u32,
    n: int,
)
    requires
        0 <= n <= players.len(),
    ensures
        pitch_scanned(
            v, visible_players(players, n), tick,
            visible_players(players, n).len() as int,
        ) == pitch_scanned(v, players, tick, n),
    decreases n,
{
    if n > 0 {
        lemma_pitch_scanned_of_visible(v, players, tick, n - 1);
        let fewer = visible_players(players, n - 1);
        let p = players[n - 1];
        if is_visible(p) {
            lemma_pitch_scanned_prefix(v, fewer, tick, p, fewer.len() as int);
            assert(fewer.push(p)[fewer.len() as int] == p);
        }
    }
}

impl OOBPitch {
    /// A tick boundary means the same to the detector whether it is shown
    /// the whole state or the state limited to the visible players.
    pub proof fn lemma_after_tick_of_view(v: OOBPitchView, s: StateView)
        ensures
            OOBPitch::after_tick(v, detector_view(s)) == OOBPitch::after_tick(v, s),
    {
        lemma_pitch_scanned_of_visible(v, s.players, s.tick, s.players.len() as int);
    }

    /// A run of boundaries at which a player is out of range gives a finding
    /// at its first boundary only: whoever is flagged at a boundary was in
    /// range at the boundary before.
    pub proof fn lemma_flagged_once_per_run(v: OOBPitchView, s: StateView, d: DetectionView)
        requires
            OOBPitch::after_tick(v, s).1.contains(d),
        ensures
            !v.last_detections.contains(d.player),
            OOBPitch::after_tick(v, s).0.last_detections.contains(d.player),
            d.tick == s.tick,
    {
        lemma_pitch_findings_open_a_run(v, s.players, s.tick, s.players.len() as int);
    }

    /// Where no player is followed, a tick boundary gives no finding.
    pub proof fn lemma_nobody_followed(v: OOBPitchView, s: StateView)
        requires
            forall|i: int|
                0 <= i < s.players.len() ==> tracked_identity(#[trigger] s.players[i]) is None,
        ensures
            OOBPitch::after_tick(v, s).1 == Seq::<DetectionView>::empty(),
    {
        lemma_pitch_nobody_followed(v, s.players, s.tick, s.players.len() as int);
    }

    /// The name under which the detector is selected and under which it
    /// reports.
    pub open spec fn name() -> Seq<char> {
        "nocrex/oob_pitch"@
    }

    /// The state of a detector with the default bounds that has seen nothing
    /// yet.
    pub open spec fn fresh() -> OOBPitchView {
        OOBPitchView {
            last_detections: Set::empty(),
            min_pitch: DEFAULT_MIN_PITCH,
            max_pitch: DEFAULT_MAX_PITCH,
        }
    }

    /// A detector with the default bounds that has seen nothing yet.
    pub fn new() -> (detector: OOBPitch)
        ensures
            detector@ == OOBPitch::fresh(),
    {
        OOBPitch {
            last_detections: HashSet::new(),
            min_pitch: DEFAULT_MIN_PITCH,
            max_pitch: DEFAULT_MAX_PITCH,
        }
    }

    /// The state after a tick boundary, and the findings that it gives: one
    /// for each followed player whose pitch is out of range now and was not at
    /// the previous boundary, in the order of the players.
    pub open spec fn after_tick(v: OOBPitchView, s: StateView) -> (OOBPitchView, Seq<
        DetectionView,
    >) {
        let scan = pitch_scanned(v, s.players, s.tick, s.players.len() as int);
        (OOBPitchView { last_detections: scan.flagged, ..v }, scan.found)
    }

    /// The parameters after an attempt to set the one named `name`: a bound
    /// takes a float, and any other name or kind of value changes nothing.
    pub open spec fn with_param(v: OOBPitchView, name: Seq<char>, value: Parameter)
        -> OOBPitchView {
        match value {
            Parameter::Float(f) => if name == "min_pitch"@ {
                OOBPitchView { min_pitch: f, ..v }
            } else if name == "max_pitch"@ {
                OOBPitchView { max_pitch: f, ..v }
            } else {
                v
            },
            _ => v,
        }
    }

}

impl CheatAlgorithm for OOBPitch {
    type Model = OOBPitchView;

    open spec fn model(&self) -> OOBPitchView {
        self@
    }

    open spec fn default_model(m: OOBPitchView) -> bool {
        true
    }

    open spec fn name_model(m: OOBPitchView) -> Seq<char> {
        OOBPitch::name()
    }

    open spec fn interest_model(m: OOBPitchView) -> Interest {
        Interest::Nothing
    }

    open spec fn init_model(m: OOBPitchView) -> Outcome<OOBPitchView, ()> {
        Outcome { model: m, result: Some(()) }
    }

    open spec fn message_model(m: OOBPitchView, message: Message, s: StateView, tick: u32)
        -> Outcome<OOBPitchView, Seq<DetectionView>> {
        Outcome { model: m, result: Some(Seq::empty()) }
    }

    /// The findings of a tick boundary are final at once; nothing is to be
    /// measured.
    open spec fn tick_model(m: OOBPitchView, s: StateView) -> Outcome<OOBPitchView, TickReportView> {
        Outcome {
            model: OOBPitch::after_tick(m, s).0,
            result: Some(
                TickReportView {
                    detections: OOBPitch::after_tick(m, s).1,
                    queries: Seq::empty(),
                },
            ),
        }
    }

    open spec fn angles_model(m: OOBPitchView, query: AngleQueryView, deltas: Seq<i64>) -> Outcome<
        OOBPitchView,
        Seq<DetectionView>,
    > {
        Outcome { model: m, result: Some(Seq::empty()) }
    }

    open spec fn finish_model(m: OOBPitchView) -> Outcome<OOBPitchView, Seq<DetectionView>> {
        Outcome { model: m, result: Some(Seq::empty()) }
    }

    open spec fn param_model(m: OOBPitchView, name: Seq<char>, value: Parameter) -> OOBPitchView {
        OOBPitch::with_param(m, name, value)
    }

    open spec fn params_model(m: OOBPitchView) -> Seq<(Seq<char>, Parameter)> {
        seq![
            ("min_pitch"@, Parameter::Float(m.min_pitch)),
            ("max_pitch"@, Parameter::Float(m.max_pitch)),
        ]
    }

    fn default(&self) -> (enabled: bool) {
        true
    }

    fn algorithm_name(&self) -> (name: &str) {
        "nocrex/oob_pitch"
    }

    fn handled_messages(&self) -> (kinds: Result<Vec<MessageType>, bool>) {
        Err(false)
    }

    fn does_handle(&self, message_type: MessageType) -> (wanted: bool) {
        let kinds = self.handled_messages();
        declaration_covers(&kinds, message_type)
    }

    fn init(&mut self) -> (done: Result<(), AlgorithmError>) {
        Ok(())
    }

    fn on_message(&mut self, message: &Message, state: &CheatAnalyserState, tick: u32) -> (found:
        Result<Vec<Detection>, AlgorithmError>) {
        let found: Vec<Detection> = Vec::new();
        assert(detections_view(found@) =~= Seq::empty());
        Ok(found)
    }

    fn on_tick(&mut self, state: &CheatAnalyserState) -> (report: Result<
        TickReport,
        AlgorithmError,
    >) {
        let ticknum: u32 = state.tick;
        let mut submitted_detections: Vec<Detection> = Vec::new();
        let mut detections: HashSet<u64> = HashSet::new();
        assert(detections_view(submitted_detections@) =~= Seq::empty());
        let mut i: usize = 0;
        while i < state.players.len()
            invariant
                i <= state.players.len(),
                ticknum == state.tick,
                *self == *old(self),
                (PitchScan {
                    flagged: detections@,
                    found: detections_view(submitted_detections@),
                }) == pitch_scanned(old(self)@, state@.players, ticknum, i as int),
            decreases state.players.len() - i,
        {
            let player = &state.players[i];
            if let Some(steam_id) = player.tracked_identity() {
                if player.pitch_angle < self.min_pitch || player.pitch_angle > self.max_pitch {
                    detections.insert(steam_id);
                    if !self.last_detections.contains(&steam_id) {
                        let ghost earlier = detections_view(submitted_detections@);
                        let name = self.algorithm_name().to_owned();
                        submitted_detections.push(
                            Detection {
                                tick: ticknum,
                                algorithm: name,
                                player: steam_id,
                                data: DetectionData::Pitch(player.pitch_angle),
                            },
                        );
                        assert(detections_view(submitted_detections@) =~= earlier.push(
                            pitch_finding(steam_id, ticknum, player.pitch_angle),
                        ));
                    }
                }
            }
            i += 1;
        }
        self.last_detections = detections;
        let queries: Vec<AngleQuery> = Vec::new();
        assert(queries_view(queries@) =~= Seq::empty());
        Ok(TickReport { detections: submitted_detections, queries })
    }


    fn on_angles(&mut self, query: &AngleQuery, deltas: &Vec<i64>) -> (found: Result<
        Vec<Detection>,
        AlgorithmError,
    >) {
        let found: Vec<Detection> = Vec::new();
        assert(detections_view(found@) =~= Seq::empty());
        Ok(found)
    }

    fn finish(&mut self) -> (found: Result<Vec<Detection>, AlgorithmError>) {
        let found: Vec<Detection> = Vec::new();
        assert(detections_view(found@) =~= Seq::empty());
        Ok(found)
    }

    fn set_param(&mut self, name: &str, value: Parameter) {
        if let Parameter::Float(f) = value {
            if same_text(name, "min_pitch") {
                self.min_pitch = f;
            } else if same_text(name, "max_pitch") {
                self.max_pitch = f;
            }
        }
    }

    fn params(&self) -> (params: Parameters) {
        let mut params: Parameters = Vec::new();
        params.push(("min_pitch".to_owned(), Parameter::Float(self.min_pitch)));
        params.push(("max_pitch".to_owned(), Parameter::Float(self.max_pitch)));
        assert(params_view(params@) =~= Self::params_model(self@));
        params
    }
}

} // verus!
