//! The recorder of view angles, for a table of comma-separated values.

use vstd::prelude::*;
use crate::algorithm::{
    declaration_covers, detections_view, queries_view, AlgorithmError, AngleQuery, AngleQueryView,
    CheatAlgorithm, Detection, DetectionView, Interest, Outcome, TickReport, TickReportView,
};
use crate::algorithms::aim_snap::angles_of;
use crate::algorithms::viewangles_180degrees::{ticks_between, turn_rates};
use crate::base::identity::{detector_view, is_visible, visible_players};
use crate::base::records::{Message, MessageType};
use crate::base::state::{CheatAnalyserState, PlayerView, StateView};
use crate::parameters::{params_view, Parameter, Parameters};
use crate::util::csv::{escape_csv_string, quoted_field};
use crate::util::helpers::{viewangle_delta, Vector, ViewAngles};
use crate::util::text::same_text;

verus! {

/// One row of the table: where a player stood and looked at a tick boundary,
/// and how fast its view turned since the boundary before.
#[derive(Debug, Clone, PartialEq, Eq)]
pub struct Record {
    pub tick: u32,
    /// The player's name as a quoted field.
    pub name: String,
    pub steam_id: String,
    pub origin: Vector,
    pub viewangle: i64,
    pub pitchangle: i64,
    /// The yaw and pitch rates per tick, if the player was seen at the
    /// boundary before.
    pub deltas: Option<(i64, i64)>,
}

/// The mathematical content of a `Record`.
pub struct RecordView {
    pub tick: u32,
    pub name: Seq<char>,
    pub steam_id: Seq<char>,
    pub origin: Vector,
    pub viewangle: i64,
    pub pitchangle: i64,
    pub deltas: Option<(i64, i64)>,
}

impl View for Record {
    type V = RecordView;

    open spec fn view(&self) -> RecordView {
        RecordView {
            tick: self.tick,
            name: self.name@,
            steam_id: self.steam_id@,
            origin: self.origin,
            viewangle: self.viewangle,
            pitchangle: self.pitchangle,
            deltas: self.deltas,
        }
    }
}

/// The views of a list of rows.
pub open spec fn records_view(records: Seq<Record>) -> Seq<RecordView> {
    Seq::new(records.len(), |i: int| records[i]@)
}

/// The views of a list of samples, each the identity text of a player and
/// where it looked.
pub open spec fn named_samples_view(samples: Seq<(String, ViewAngles)>) -> Seq<
    (Seq<char>, ViewAngles),
> {
    Seq::new(samples.len(), |i: int| (samples[i].0@, samples[i].1))
}

/// Gathers the rows of a table of view angles: one for each visible player
/// at each tick boundary. The rows are handed out at the end of the run, for
/// the caller to write.
pub struct ViewAnglesToCSV {
    previous: Option<(u32, Vec<(String, ViewAngles)>)>,
    history: Vec<Record>,
}

/// The mathematical content of a `ViewAnglesToCSV`: the tick of the previous
/// boundary with the samples taken at it, and the rows so far.
pub struct ViewAnglesToCSVView {
    pub previous: Option<(u32, Seq<(Seq<char>, ViewAngles)>)>,
    pub history: Seq<RecordView>,
}

impl View for ViewAnglesToCSV {
    type V = ViewAnglesToCSVView;

    closed spec fn view(&self) -> ViewAnglesToCSVView {
        ViewAnglesToCSVView {
            previous: match self.previous {
                Some((tick, samples)) => Some((tick, named_samples_view(samples@))),
                None => None,
            },
            history: records_view(self.history@),
        }
    }
}

/// The first of the first `n` samples that carries the given identity text.
pub open spec fn sample_named(samples: Seq<(Seq<char>, ViewAngles)>, id: Seq<char>, n: int)
    -> Option<ViewAngles>
    decreases n,
{
    if n <= 0 {
        None
    } else {
        match sample_named(samples, id, n - 1) {
            Some(a) => Some(a),
            None => if samples[n - 1].0 == id {
                Some(samples[n - 1].1)
            } else {
                None
            },
        }
    }
}

/// The rates at which a player's view turned since the previous boundary, if
/// it was seen there.
pub open spec fn rates_since(
    previous: Option<(u32, Seq<(Seq<char>, ViewAngles)>)>,
    id: Seq<char>,
    now: ViewAngles,
    tick: u32,
) -> Option<(i64, i64)> {
    match previous {
        Some((previous_tick, samples)) => match sample_named(samples, id, samples.len() as int) {
            Some(before) => {
                let rates = turn_rates(before, now, ticks_between(previous_tick, tick));
                Some((rates.0 as i64, rates.1 as i64))
            },
            None => None,
        },
        None => None,
    }
}

/// What a pass over the players has gathered: the rows so far, and the
/// samples of this boundary.
pub struct RecordScan {
    pub history: Seq<RecordView>,
    pub samples: Seq<(Seq<char>, ViewAngles)>,
}

/// The scan after one player: a visible player gives a row and a sample.
pub open spec fn record_step(
    scan: RecordScan,
    previous: Option<(u32, Seq<(Seq<char>, ViewAngles)>)>,
    p: PlayerView,
    tick: u32,
) -> RecordScan {
    if is_visible(p) {
        let info = p.info.unwrap();
        RecordScan {
            history: scan.history.push(
                RecordView {
                    tick,
                    name: quoted_field(info.name),
                    steam_id: info.steam_id,
                    origin: p.position,
                    viewangle: p.view_angle,
                    pitchangle: p.pitch_angle,
                    deltas: rates_since(previous, info.steam_id, angles_of(p), tick),
                },
            ),
            samples: scan.samples.push((info.steam_id, angles_of(p))),
        }
    } else {
        scan
    }
}

/// The scan after the first `n` players.
pub open spec fn record_scanned(
    history: Seq<RecordView>,
    previous: Option<(u32, Seq<(Seq<char>, ViewAngles)>)>,
    players: Seq<PlayerView>,
    tick: u32,
    n: int,
) -> RecordScan
    decreases n,
{
    if n <= 0 {
        RecordScan { history, samples: Seq::empty() }
    } else {
        record_step(
            record_scanned(history, previous, players, tick, n - 1),
            previous,
            players[n - 1],
            tick,
        )
    }
}

proof fn lemma_sample_named_stays(
    samples: Seq<(Seq<char>, ViewAngles)>,
    id: Seq<char>,
    n: int,
    m: int,
)
    requires
        0 <= n <= m,
        sample_named(samples, id, n) is Some,
    ensures
        sample_named(samples, id, m) == sample_named(samples, id, n),
    decreases m - n,
{
    if n < m {
        lemma_sample_named_stays(samples, id, n, m - 1);
    }
}

/// Finds the first sample that carries the given identity text.
fn find_named(samples: &Vec<(String, ViewAngles)>, id: &str) -> (found: Option<ViewAngles>)
    ensures
        found == sample_named(named_samples_view(samples@), id@, samples@.len() as int),
{
    let mut i: usize = 0;
    while i < samples.len()
        invariant
            i <= samples.len(),
            sample_named(named_samples_view(samples@), id@, i as int) is None,
        decreases samples.len() - i,
    {
        if same_text(samples[i].0.as_str(), id) {
            proof {
                lemma_sample_named_stays(
                    named_samples_view(samples@),
                    id@,
                    i as int + 1,
                    samples@.len() as int,
                );
            }
            return Some(samples[i].1);
        }
        i += 1;
    }
    None
}

proof fn lemma_record_scanned_prefix(
    history: Seq<RecordView>,
    previous: Option<(u32, Seq<(Seq<char>, ViewAngles)>)>,
    players: Seq<PlayerView>,
    tick: u32,
    extra: PlayerView,
    n: int,
)
    requires
        0 <= n <= players.len(),
    ensures
        record_scanned(history, previous, players.push(extra), tick, n) == record_scanned(
            history,
            previous,
            players,
            tick,
            n,
        ),
    decreases n,
{
    if n > 0 {
        lemma_record_scanned_prefix(history, previous, players, tick, extra, n - 1);
        assert(players.push(extra)[n - 1] == players[n - 1]);
    }
}

/// A pass over the visible ones among the first `n` players gathers what a
/// pass over all of the first `n` gathers.
pub proof fn lemma_record_scanned_of_visible(
    history: Seq<RecordView>,
    previous: Option<(u32, Seq<(Seq<char>, ViewAngles)>)>,
    players: Seq<PlayerView>,
    tick: u32,
    n: int,
)
    requires
        0 <= n <= players.len(),
    ensures
        record_scanned(
            history,
            previous,
            visible_players(players, n),
            tick,
            visible_players(players, n).len() as int,
        ) == record_scanned(history, previous, players, tick, n),
    decreases n,
{
    if n > 0 {
        lemma_record_scanned_of_visible(history, previous, players, tick, n - 1);
        let fewer = visible_players(players, n - 1);
        let p = players[n - 1];
        if is_visible(p) {
            lemma_record_scanned_prefix(history, previous, fewer, tick, p, fewer.len() as int);
            assert(fewer.push(p)[fewer.len() as int] == p);
        }
    }
}

impl ViewAnglesToCSV {
    /// The name under which the recorder is selected.
    pub open spec fn name() -> Seq<char> {
        "viewangles_to_csv"@
    }

    /// The state of a recorder that has seen nothing yet.
    pub open spec fn fresh() -> ViewAnglesToCSVView {
        ViewAnglesToCSVView { previous: None, history: Seq::empty() }
    }

    /// A recorder that has seen nothing yet.
    pub fn new() -> (recorder: ViewAnglesToCSV)
        ensures
            recorder@ == ViewAnglesToCSV::fresh(),
    {
        let recorder = ViewAnglesToCSV { previous: None, history: Vec::new() };
        assert(recorder@.history =~= Seq::empty());
        recorder
    }

    /// The state after a tick boundary: each visible player has added a row,
    /// in the order of the players.
    pub open spec fn after_tick(v: ViewAnglesToCSVView, s: StateView) -> ViewAnglesToCSVView {
        let scan = record_scanned(v.history, v.previous, s.players, s.tick, s.players.len() as int);
        ViewAnglesToCSVView { previous: Some((s.tick, scan.samples)), history: scan.history }
    }

    /// A tick boundary means the same to the recorder whether it is shown
    /// the whole state or the state limited to the visible players.
    pub proof fn lemma_after_tick_of_view(v: ViewAnglesToCSVView, s: StateView)
        ensures
            ViewAnglesToCSV::after_tick(v, detector_view(s)) == ViewAnglesToCSV::after_tick(v, s),
    {
        lemma_record_scanned_of_visible(
            v.history,
            v.previous,
            s.players,
            s.tick,
            s.players.len() as int,
        );
    }

    /// The rows that were gathered so far.
    pub fn records(&self) -> (records: &Vec<Record>)
        ensures
            records_view(records@) == self@.history,
    {
        &self.history
    }

    /// Hands out the rows that were gathered so far and forgets them.
    pub fn take_records(&mut self) -> (records: Vec<Record>)
        ensures
            records_view(records@) == old(self)@.history,
            final(self)@ == (ViewAnglesToCSVView { history: Seq::empty(), ..old(self)@ }),
    {
        let mut records: Vec<Record> = Vec::new();
        std::mem::swap(&mut self.history, &mut records);
        assert(records_view(self.history@) =~= Seq::empty());
        records
    }
}

impl CheatAlgorithm for ViewAnglesToCSV {
    type Model = ViewAnglesToCSVView;

    open spec fn model(&self) -> ViewAnglesToCSVView {
        self@
    }

    /// The recorder runs only when it is asked for.
    open spec fn default_model(m: ViewAnglesToCSVView) -> bool {
        false
    }

    open spec fn name_model(m: ViewAnglesToCSVView) -> Seq<char> {
        ViewAnglesToCSV::name()
    }

    open spec fn interest_model(m: ViewAnglesToCSVView) -> Interest {
        Interest::Nothing
    }

    open spec fn init_model(m: ViewAnglesToCSVView) -> Outcome<ViewAnglesToCSVView, ()> {
        Outcome { model: m, result: Some(()) }
    }

    open spec fn message_model(m: ViewAnglesToCSVView, message: Message, s: StateView, tick: u32)
        -> Outcome<ViewAnglesToCSVView, Seq<DetectionView>> {
        Outcome { model: m, result: Some(Seq::empty()) }
    }

    /// The recorder gathers rows and finds nothing.
    open spec fn tick_model(m: ViewAnglesToCSVView, s: StateView) -> Outcome<
        ViewAnglesToCSVView,
        TickReportView,
    > {
        Outcome {
            model: ViewAnglesToCSV::after_tick(m, s),
            result: Some(TickReportView { detections: Seq::empty(), queries: Seq::empty() }),
        }
    }

    open spec fn angles_model(m: ViewAnglesToCSVView, query: AngleQueryView, deltas: Seq<i64>)
        -> Outcome<ViewAnglesToCSVView, Seq<DetectionView>> {
        Outcome { model: m, result: Some(Seq::empty()) }
    }

    /// The rows stay with the recorder, for the caller to take.
    open spec fn finish_model(m: ViewAnglesToCSVView) -> Outcome<
        ViewAnglesToCSVView,
        Seq<DetectionView>,
    > {
        Outcome { model: m, result: Some(Seq::empty()) }
    }

    /// The recorder has no parameters.
    open spec fn param_model(m: ViewAnglesToCSVView, name: Seq<char>, value: Parameter)
        -> ViewAnglesToCSVView {
        m
    }

    open spec fn params_model(m: ViewAnglesToCSVView) -> Seq<(Seq<char>, Parameter)> {
        Seq::empty()
    }

    fn default(&self) -> (enabled: bool) {
        false
    }

    fn algorithm_name(&self) -> (name: &str) {
        "viewangles_to_csv"
    }

    fn handled_messages(&self) -> (kinds: Result<Vec<MessageType>, bool>) {
        Err(false)
    }

    fn does_handle(&self, message_type: MessageType) -> (wanted: bool) {
        let kinds = self.handled_messages();
        declaration_covers(&kinds, message_type)
    }

    fn init(&mut self) -> (done: Result<(), AlgorithmError>) {
        Ok(())
    }

    fn on_message(&mut self, message: &Message, state: &CheatAnalyserState, tick: u32) -> (found:
        Result<Vec<Detection>, AlgorithmError>) {
        let found: Vec<Detection> = Vec::new();
        assert(detections_view(found@) =~= Seq::empty());
        Ok(found)
    }

    fn on_tick(&mut self, state: &CheatAnalyserState) -> (report: Result<
        TickReport,
        AlgorithmError,
    >) {
        let ticknum: u32 = state.tick;
        let mut samples: Vec<(String, ViewAngles)> = Vec::new();
        assert(named_samples_view(samples@) =~= Seq::empty());
        let mut i: usize = 0;
        while i < state.players.len()
            invariant
                i <= state.players.len(),
                ticknum == state.tick,
                self.previous == old(self).previous,
                (RecordScan {
                    history: records_view(self.history@),
                    samples: named_samples_view(samples@),
                }) == record_scanned(
                    old(self)@.history,
                    old(self)@.previous,
                    state@.players,
                    ticknum,
                    i as int,
                ),
            decreases state.players.len() - i,
        {
            let player = &state.players[i];
            if player.is_visible() {
                if let Some(info) = &player.info {
                    let now = ViewAngles { yaw: player.view_angle, pitch: player.pitch_angle };
                    let deltas = match &self.previous {
                        Some((previous_tick, previous_samples)) => match find_named(
                            previous_samples,
                            info.steam_id.as_str(),
                        ) {
                            Some(before) => {
                                let tick_delta: u32 = if ticknum == 0 || ticknum
                                    < *previous_tick {
                                    0
                                } else {
                                    ticknum - *previous_tick
                                };
                                Some(
                                    viewangle_delta(
                                        now.yaw,
                                        now.pitch,
                                        before.yaw,
                                        before.pitch,
                                        tick_delta,
                                    ),
                                )
                            },
                            None => None,
                        },
                        None => None,
                    };
                    let ghost rows = records_view(self.history@);
                    let ghost taken = named_samples_view(samples@);
                    let record = Record {
                        tick: ticknum,
                        name: escape_csv_string(info.name.as_str()),
                        steam_id: info.steam_id.clone(),
                        origin: player.position,
                        viewangle: player.view_angle,
                        pitchangle: player.pitch_angle,
                        deltas,
                    };
                    let ghost row = record@;
                    self.history.push(record);
                    samples.push((info.steam_id.clone(), now));
                    assert(records_view(self.history@) =~= rows.push(row));
                    assert(named_samples_view(samples@) =~= taken.push((info.steam_id@, now)));
                }
            }
            i += 1;
        }
        self.previous = Some((ticknum, samples));
        let detections: Vec<Detection> = Vec::new();
        let queries: Vec<AngleQuery> = Vec::new();
        assert(detections_view(detections@) =~= Seq::empty());
        assert(queries_view(queries@) =~= Seq::empty());
        Ok(TickReport { detections, queries })
    }

    fn on_angles(&mut self, query: &AngleQuery, deltas: &Vec<i64>) -> (found: Result<
        Vec<Detection>,
        AlgorithmError,
    >) {
        let found: Vec<Detection> = Vec::new();
        assert(detections_view(found@) =~= Seq::empty());
        Ok(found)
    }

    fn finish(&mut self) -> (found: Result<Vec<Detection>, AlgorithmError>) {
        let found: Vec<Detection> = Vec::new();
        assert(detections_view(found@) =~= Seq::empty());
        Ok(found)
    }

    fn set_param(&mut self, name: &str, value: Parameter) {
    }

    fn params(&self) -> (params: Parameters) {
        let params: Parameters = Vec::new();
        assert(params_view(params@) =~= Seq::empty());
        params
    }
}

} // verus!
