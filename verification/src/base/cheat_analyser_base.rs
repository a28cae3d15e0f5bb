//! The analyser: it keeps the world state and drives the detectors through
//! a run.

use vstd::prelude::*;
use crate::algorithm::{
    copy_detections, detections_view, queries_view, AngleQuery, AngleQueryView, CheatAlgorithm,
    Detection, DetectionView, TickReport,
};
use crate::base::builder::{classify, class_of_name, entities_applied, EntityClass};
use crate::base::identity::{detector_view, is_visible, visible_players};
use crate::base::props::PropTables;
use crate::base::records::{EntityUpdate, GameEvent, Message, MessageType};
use crate::base::report::{
    tallied, tallies_view, tally, unknown_text, Analysis, AnalysisView, Tally,
};
use crate::base::state::{
    players_view, BuildingClass, CheatAnalyserState, Player, PlayerState, PlayerView, StateView,
};
use crate::base::userinfo::{data_view, string_entry_applied, text_view};
use crate::util::text::same_text;

verus! {

/// The entities that are kept between ticks: none.
pub struct CachedEntities {}

/// What the recording says of itself at its start.
#[derive(Debug, Clone, PartialEq, Eq)]
pub struct Header {
    pub server: String,
    pub nick: String,
    pub map: String,
    /// The length of the recording in fixed-point seconds.
    pub duration: i64,
    pub ticks: u32,
}

/// The mathematical content of a `Header`.
pub struct HeaderView {
    pub server: Seq<char>,
    pub nick: Seq<char>,
    pub map: Seq<char>,
    pub duration: i64,
    pub ticks: u32,
}

impl View for Header {
    type V = HeaderView;

    open spec fn view(&self) -> HeaderView {
        HeaderView {
            server: self.server@,
            nick: self.nick@,
            map: self.map@,
            duration: self.duration,
            ticks: self.ticks,
        }
    }
}

/// The view of an optional header.
pub open spec fn header_view(header: Option<Header>) -> Option<HeaderView> {
    match header {
        Some(h) => Some(h@),
        None => None,
    }
}

/// Where a run stands in the life of its detectors.
#[derive(Debug, Clone, Copy, PartialEq, Eq, Structural)]
pub enum Stage {
    /// No detector has been called yet.
    Uninitialized,
    /// Every detector has had its `init`; no message has been delivered.
    Initialized,
    /// Messages are being delivered.
    Running,
    /// Every detector has had its `finish`.
    Finished,
}

/// A request of one detector to have distances measured.
#[derive(Debug, Clone, PartialEq, Eq)]
pub struct Pending {
    /// The position of the detector in the list of detectors.
    pub algorithm: usize,
    pub query: AngleQuery,
}

/// The mathematical content of a `Pending`.
pub struct PendingView {
    pub algorithm: usize,
    pub query: AngleQueryView,
}

impl View for Pending {
    type V = PendingView;

    open spec fn view(&self) -> PendingView {
        PendingView { algorithm: self.algorithm, query: self.query@ }
    }
}

/// The views of a list of requests.
pub open spec fn pending_view(pending: Seq<Pending>) -> Seq<PendingView> {
    Seq::new(pending.len(), |i: int| pending[i]@)
}

/// The requests of one detector, each marked with the detector's position.
pub open spec fn marked(queries: Seq<AngleQueryView>, algorithm: usize) -> Seq<PendingView> {
    Seq::new(queries.len(), |i: int| PendingView { algorithm, query: queries[i] })
}

/// Builds the world state from the recording and drives the detectors over
/// it.
///
/// A run goes through `init`, then messages, then `finish`. A detector whose
/// `init` fails is left out of the rest of the run. A detector whose callback
/// fails later yields no findings for that call and stays in the run.
pub struct CheatAnalyser<A: CheatAlgorithm> {
    pub state: CheatAnalyserState,
    pub algorithms: Vec<A>,
    pub detections: Vec<Detection>,
    pub header: Option<Header>,
    pub tick: u32,
    pub(crate) stage: Stage,
    pub(crate) skipped: Vec<usize>,
    pub(crate) class_kinds: Vec<EntityClass>,
    pub(crate) tables: PropTables,
}

/// The mathematical content of a `CheatAnalyser`: the world state, the
/// detectors' states, the positions of the detectors that are left out, the
/// findings so far, the recording's header, the current tick, the stage of
/// the run and the kind of each server class.
pub struct AnalyserView<M> {
    pub state: StateView,
    pub header: Option<HeaderView>,
    pub models: Seq<M>,
    pub skipped: Seq<usize>,
    pub detections: Seq<DetectionView>,
    pub tick: u32,
    pub stage: Stage,
    pub kinds: Seq<EntityClass>,
}

/// The states of a list of detectors.
pub open spec fn models_of<A: CheatAlgorithm>(algorithms: Seq<A>) -> Seq<A::Model> {
    Seq::new(algorithms.len(), |i: int| algorithms[i].model())
}

impl<A: CheatAlgorithm> View for CheatAnalyser<A> {
    type V = AnalyserView<A::Model>;

    closed spec fn view(&self) -> AnalyserView<A::Model> {
        AnalyserView {
            state: self.state@,
            header: header_view(self.header),
            models: models_of(self.algorithms@),
            skipped: self.skipped@,
            detections: detections_view(self.detections@),
            tick: self.tick,
            stage: self.stage,
            kinds: self.class_kinds@,
        }
    }
}

/// The state after a message: entity updates are applied in order, the start
/// of a round clears the buildings, and a destroyed object is removed from
/// them. Other messages leave the state as it is.
pub open spec fn message_applied(s: StateView, kinds: Seq<EntityClass>, message: Message)
    -> StateView {
    match message {
        Message::PacketEntities(entities) => entities_applied(
            s,
            kinds,
            entities@,
            entities@.len() as int,
        ),
        Message::GameEvent(GameEvent::RoundStart) => StateView { buildings: Map::empty(), ..s },
        Message::GameEvent(GameEvent::TeamPlayRoundStart) => StateView {
            buildings: Map::empty(),
            ..s
        },
        Message::GameEvent(GameEvent::ObjectDestroyed { index }) => StateView {
            buildings: s.buildings.remove(index as u32),
            ..s
        },
        _ => s,
    }
}

/// The start of a round leaves no building, whatever buildings there were.
pub proof fn lemma_round_start_clears_buildings(
    s: StateView,
    kinds: Seq<EntityClass>,
    message: Message,
)
    requires
        message == Message::GameEvent(GameEvent::RoundStart) || message == Message::GameEvent(
            GameEvent::TeamPlayRoundStart,
        ),
    ensures
        message_applied(s, kinds, message).buildings == Map::<
            u32,
            crate::base::state::BuildingView,
        >::empty(),
        message_applied(s, kinds, message).players == s.players,
        message_applied(s, kinds, message).world == s.world,
        message_applied(s, kinds, message).tick == s.tick,
{
}

/// The destruction of an object that is no known building changes nothing.
pub proof fn lemma_destroying_unknown_object(s: StateView, kinds: Seq<EntityClass>, index: u16)
    requires
        !s.buildings.contains_key(index as u32),
    ensures
        message_applied(s, kinds, Message::GameEvent(GameEvent::ObjectDestroyed { index })) == s,
{
    assert(s.buildings.remove(index as u32) =~= s.buildings);
}

/// The detectors' states and the findings while callbacks are made in turn.
pub struct Delivery<M> {
    pub models: Seq<M>,
    pub detections: Seq<DetectionView>,
}

/// The detectors' states, the findings and the requests while the tick
/// callbacks are made in turn.
pub struct Round<M> {
    pub models: Seq<M>,
    pub detections: Seq<DetectionView>,
    pub pending: Seq<PendingView>,
}

/// The detectors' states and the positions of those that are left out while
/// the `init` callbacks are made in turn.
pub struct Start<M> {
    pub models: Seq<M>,
    pub skipped: Seq<usize>,
}

/// The findings with those of one callback added: all of them if the
/// callback succeeded, none if it failed.
pub open spec fn with_findings(detections: Seq<DetectionView>, found: Option<Seq<DetectionView>>)
    -> Seq<DetectionView> {
    match found {
        Some(f) => detections + f,
        None => detections,
    }
}

/// Tells whether a position is among those left out.
fn is_left_out(skipped: &Vec<usize>, algorithm: usize) -> (found: bool)
    ensures
        found == skipped@.contains(algorithm),
{
    let mut i: usize = 0;
    while i < skipped.len()
        invariant
            i <= skipped.len(),
            forall|j: int| 0 <= j < i ==> skipped@[j] != algorithm,
        decreases skipped.len() - i,
    {
        if skipped[i] == algorithm {
            assert(skipped@[i as int] == algorithm);
            return true;
        }
        i += 1;
    }
    false
}

/// Adds the findings of one callback to the findings so far.
fn collect(detections: &mut Vec<Detection>, found: Vec<Detection>)
    ensures
        detections_view(final(detections)@) == detections_view(old(detections)@) + detections_view(
            found@,
        ),
{
    let ghost added = detections_view(found@);
    let mut found = found;
    detections.append(&mut found);
    assert(detections_view(detections@) =~= detections_view(old(detections)@) + added);
}

/// Adds the requests of one detector, each marked with the detector's
/// position, to the requests so far.
fn collect_queries(pending: &mut Vec<Pending>, queries: Vec<AngleQuery>, algorithm: usize)
    ensures
        pending_view(final(pending)@) == pending_view(old(pending)@) + marked(
            queries_view(queries@),
            algorithm,
        ),
{
    let ghost base = pending_view(pending@);
    let ghost all = marked(queries_view(queries@), algorithm);
    assert(pending_view(pending@) =~= base + all.take(0));
    for query in it: queries
        invariant
            all == marked(queries_view(it.seq()), algorithm),
            pending_view(pending@) == base + all.take(it.index() as int),
    {
        let ghost earlier = pending_view(pending@);
        pending.push(Pending { algorithm, query });
        assert(pending_view(pending@) =~= earlier.push(all[it.index() as int]));
        assert(pending_view(pending@) =~= base + all.take(it.index() as int + 1));
    }
    assert(all.take(all.len() as int) =~= all);
}

/// Offers a message to every detector in turn.
fn deliver<A: CheatAlgorithm>(
    algorithms: &mut Vec<A>,
    skipped: &Vec<usize>,
    detections: &mut Vec<Detection>,
    message: &Message,
    state: &CheatAnalyserState,
    tick: u32,
)
    ensures
        final(algorithms)@.len() == old(algorithms)@.len(),
        (Delivery {
            models: models_of(final(algorithms)@),
            detections: detections_view(final(detections)@),
        }) == CheatAnalyser::<A>::delivered(
            Delivery {
                models: models_of(old(algorithms)@),
                detections: detections_view(old(detections)@),
            },
            skipped@,
            *message,
            state@,
            tick,
            old(algorithms)@.len() as int,
        ),
{
    let kind = message.get_message_type();
    let n: usize = algorithms.len();
    let mut i: usize = 0;
    while i < n
        invariant
            i <= n,
            n == algorithms@.len(),
            n == old(algorithms)@.len(),
            kind == message.message_type(),
            (Delivery {
                models: models_of(algorithms@),
                detections: detections_view(detections@),
            }) == CheatAnalyser::<A>::delivered(
                Delivery {
                    models: models_of(old(algorithms)@),
                    detections: detections_view(old(detections)@),
                },
                skipped@,
                *message,
                state@,
                tick,
                i as int,
            ),
        decreases n - i,
    {
        if !is_left_out(skipped, i) && algorithms[i].does_handle(kind) {
            let ghost before = models_of(algorithms@);
            let found = algorithms[i].on_message(message, state, tick);
            assert(models_of(algorithms@) =~= before.update(
                i as int,
                A::message_model(before[i as int], *message, state@, tick).model,
            ));
            match found {
                Ok(found) => {
                    collect(detections, found);
                },
                Err(_) => {},
            }
        }
        i += 1;
    }
}

/// Gives every detector in turn its tick callback.
fn run_tick<A: CheatAlgorithm>(
    algorithms: &mut Vec<A>,
    skipped: &Vec<usize>,
    detections: &mut Vec<Detection>,
    seen: &CheatAnalyserState,
) -> (pending: Vec<Pending>)
    ensures
        final(algorithms)@.len() == old(algorithms)@.len(),
        (Round {
            models: models_of(final(algorithms)@),
            detections: detections_view(final(detections)@),
            pending: pending_view(pending@),
        }) == CheatAnalyser::<A>::ticked(
            Round {
                models: models_of(old(algorithms)@),
                detections: detections_view(old(detections)@),
                pending: Seq::empty(),
            },
            skipped@,
            seen@,
            old(algorithms)@.len() as int,
        ),
{
    let mut pending: Vec<Pending> = Vec::new();
    assert(pending_view(pending@) =~= Seq::empty());
    let n: usize = algorithms.len();
    let mut i: usize = 0;
    while i < n
        invariant
            i <= n,
            n == algorithms@.len(),
            n == old(algorithms)@.len(),
            (Round {
                models: models_of(algorithms@),
                detections: detections_view(detections@),
                pending: pending_view(pending@),
            }) == CheatAnalyser::<A>::ticked(
                Round {
                    models: models_of(old(algorithms)@),
                    detections: detections_view(old(detections)@),
                    pending: Seq::empty(),
                },
                skipped@,
                seen@,
                i as int,
            ),
        decreases n - i,
    {
        if !is_left_out(skipped, i) {
            let ghost before = models_of(algorithms@);
            let report = algorithms[i].on_tick(seen);
            assert(models_of(algorithms@) =~= before.update(
                i as int,
                A::tick_model(before[i as int], seen@).model,
            ));
            match report {
                Ok(report) => {
                    let TickReport { detections: found, queries } = report;
                    collect(detections, found);
                    collect_queries(&mut pending, queries, i);
                },
                Err(_) => {},
            }
        }
        i += 1;
    }
    pending
}

/// Gives every detector in turn its `finish`.
fn run_finish<A: CheatAlgorithm>(
    algorithms: &mut Vec<A>,
    skipped: &Vec<usize>,
    detections: &mut Vec<Detection>,
)
    ensures
        final(algorithms)@.len() == old(algorithms)@.len(),
        (Delivery {
            models: models_of(final(algorithms)@),
            detections: detections_view(final(detections)@),
        }) == CheatAnalyser::<A>::finished(
            Delivery {
                models: models_of(old(algorithms)@),
                detections: detections_view(old(detections)@),
            },
            skipped@,
            old(algorithms)@.len() as int,
        ),
{
    let n: usize = algorithms.len();
    let mut i: usize = 0;
    while i < n
        invariant
            i <= n,
            n == algorithms@.len(),
            n == old(algorithms)@.len(),
            (Delivery {
                models: models_of(algorithms@),
                detections: detections_view(detections@),
            }) == CheatAnalyser::<A>::finished(
                Delivery {
                    models: models_of(old(algorithms)@),
                    detections: detections_view(old(detections)@),
                },
                skipped@,
                i as int,
            ),
        decreases n - i,
    {
        if !is_left_out(skipped, i) {
            let ghost before = models_of(algorithms@);
            let found = algorithms[i].finish();
            assert(models_of(algorithms@) =~= before.update(
                i as int,
                A::finish_model(before[i as int]).model,
            ));
            match found {
                Ok(found) => {
                    collect(detections, found);
                },
                Err(_) => {},
            }
        }
        i += 1;
    }
}

impl Player {
    /// Whether the detectors get to see this player.
    pub fn is_visible(&self) -> (visible: bool)
        ensures
            visible == is_visible(self@),
    {
        let alive = match self.state {
            PlayerState::Alive => true,
            _ => false,
        };
        let named = match &self.info {
            Some(info) => !same_text(info.steam_id.as_str(), "BOT"),
            None => false,
        };
        self.in_pvs && alive && named
    }
}

impl CheatAnalyserState {
    /// Applies a message to the state.
    pub fn apply_message(&mut self, tables: &PropTables, kinds: &Vec<EntityClass>, message: &Message)
        ensures
            final(self)@ == message_applied(old(self)@, kinds@, *message),
    {
        match message {
            Message::PacketEntities(entities) => {
                let mut i: usize = 0;
                while i < entities.len()
                    invariant
                        i <= entities.len(),
                        self@ == entities_applied(old(self)@, kinds@, entities@, i as int),
                    decreases entities.len() - i,
                {
                    self.apply_entity(tables, kinds, &entities[i]);
                    i += 1;
                }
            },
            Message::GameEvent(GameEvent::RoundStart) => {
                self.clear_buildings();
            },
            Message::GameEvent(GameEvent::TeamPlayRoundStart) => {
                self.clear_buildings();
            },
            Message::GameEvent(GameEvent::ObjectDestroyed { index }) => {
                self.remove_building(*index as u32);
            },
            _ => {},
        }
    }

    /// The state as the detectors get to see it at a tick boundary: a copy
    /// with the players limited to the visible ones.
    pub fn detector_view(&self) -> (seen: CheatAnalyserState)
        ensures
            seen@ == detector_view(self@),
    {
        let mut players: Vec<Player> = Vec::new();
        assert(players_view(players@) =~= Seq::empty());
        let mut i: usize = 0;
        while i < self.players.len()
            invariant
                i <= self.players.len(),
                players_view(players@) == visible_players(self@.players, i as int),
            decreases self.players.len() - i,
        {
            let player = &self.players[i];
            if player.is_visible() {
                let ghost earlier = players_view(players@);
                players.push(player.duplicate());
                assert(players_view(players@) =~= earlier.push(self@.players[i as int]));
            }
            i += 1;
        }
        let seen = CheatAnalyserState {
            players,
            buildings: self.buildings.clone(),
            world: self.world,
            tick: self.tick,
        };
        assert(seen@.buildings =~= self@.buildings);
        seen
    }
}

impl<A: CheatAlgorithm> CheatAnalyser<A> {
    /// The detectors after the first `n` of them had their `init`, in order.
    /// One whose `init` fails is noted as left out.
    pub open spec fn started(models: Seq<A::Model>, n: int) -> Start<A::Model>
        decreases n,
    {
        if n <= 0 {
            Start { models, skipped: Seq::empty() }
        } else {
            let before = Self::started(models, n - 1);
            let outcome = A::init_model(before.models[n - 1]);
            Start {
                models: before.models.update(n - 1, outcome.model),
                skipped: if outcome.result is None {
                    before.skipped.push((n - 1) as usize)
                } else {
                    before.skipped
                },
            }
        }
    }

    /// The detectors and findings after the first `n` detectors were offered
    /// a message, in order. A detector gets it if it is in the run and has
    /// declared an interest in the kind of the message.
    pub open spec fn delivered(
        d: Delivery<A::Model>,
        skipped: Seq<usize>,
        message: Message,
        s: StateView,
        tick: u32,
        n: int,
    ) -> Delivery<A::Model>
        decreases n,
    {
        if n <= 0 {
            d
        } else {
            let before = Self::delivered(d, skipped, message, s, tick, n - 1);
            if !skipped.contains((n - 1) as usize) && A::interest_model(
                before.models[n - 1],
            ).covers(message.message_type()) {
                let outcome = A::message_model(before.models[n - 1], message, s, tick);
                Delivery {
                    models: before.models.update(n - 1, outcome.model),
                    detections: with_findings(before.detections, outcome.result),
                }
            } else {
                before
            }
        }
    }

    /// The detectors, findings and requests after the first `n` detectors
    /// had their tick callback, in order, each that is in the run.
    pub open spec fn ticked(r: Round<A::Model>, skipped: Seq<usize>, seen: StateView, n: int)
        -> Round<A::Model>
        decreases n,
    {
        if n <= 0 {
            r
        } else {
            let before = Self::ticked(r, skipped, seen, n - 1);
            if !skipped.contains((n - 1) as usize) {
                let outcome = A::tick_model(before.models[n - 1], seen);
                Round {
                    models: before.models.update(n - 1, outcome.model),
                    detections: match outcome.result {
                        Some(report) => before.detections + report.detections,
                        None => before.detections,
                    },
                    pending: match outcome.result {
                        Some(report) => before.pending + marked(
                            report.queries,
                            (n - 1) as usize,
                        ),
                        None => before.pending,
                    },
                }
            } else {
                before
            }
        }
    }

    /// The detectors and findings after the first `n` detectors had their
    /// `finish`, in order, each that is in the run.
    pub open spec fn finished(d: Delivery<A::Model>, skipped: Seq<usize>, n: int) -> Delivery<
        A::Model,
    >
        decreases n,
    {
        if n <= 0 {
            d
        } else {
            let before = Self::finished(d, skipped, n - 1);
            if !skipped.contains((n - 1) as usize) {
                let outcome = A::finish_model(before.models[n - 1]);
                Delivery {
                    models: before.models.update(n - 1, outcome.model),
                    detections: with_findings(before.detections, outcome.result),
                }
            } else {
                before
            }
        }
    }

    /// Whether detectors are being called at this stage of a run.
    pub open spec fn is_live(stage: Stage) -> bool {
        stage == Stage::Initialized || stage == Stage::Running
    }

    /// The analyser after `init`. In a run that has not begun, every
    /// detector gets its `init`, in order, and the run is ready for
    /// messages; at any later stage nothing happens.
    pub open spec fn after_init(v: AnalyserView<A::Model>) -> AnalyserView<A::Model> {
        if v.stage == Stage::Uninitialized {
            let start = Self::started(v.models, v.models.len() as int);
            AnalyserView {
                models: start.models,
                skipped: start.skipped,
                stage: Stage::Initialized,
                ..v
            }
        } else {
            v
        }
    }

    /// The analyser after a message, and the requests that the detectors
    /// make. The message is applied to the world state first. While
    /// detectors are being called, the message is then offered to each of
    /// them, and if it marks a tick boundary, each gets its tick callback
    /// after that, on the state limited to the visible players.
    pub open spec fn after_message(v: AnalyserView<A::Model>, message: Message, tick: u32) -> (
        AnalyserView<A::Model>,
        Seq<PendingView>,
    ) {
        let state = message_applied(v.state, v.kinds, message);
        if Self::is_live(v.stage) {
            let d = Self::delivered(
                Delivery { models: v.models, detections: v.detections },
                v.skipped,
                message,
                state,
                tick,
                v.models.len() as int,
            );
            if message is NetTick {
                let r = Self::ticked(
                    Round { models: d.models, detections: d.detections, pending: Seq::empty() },
                    v.skipped,
                    detector_view(state),
                    v.models.len() as int,
                );
                (
                    AnalyserView {
                        state,
                        models: r.models,
                        detections: r.detections,
                        stage: Stage::Running,
                        ..v
                    },
                    r.pending,
                )
            } else {
                (
                    AnalyserView {
                        state,
                        models: d.models,
                        detections: d.detections,
                        stage: Stage::Running,
                        ..v
                    },
                    Seq::empty(),
                )
            }
        } else {
            (AnalyserView { state, ..v }, Seq::empty())
        }
    }

    /// The analyser after the distances of a request were measured. While
    /// detectors are being called, the detector that made the request, if it
    /// is in the run, gets to judge them, and its findings are added.
    pub open spec fn after_angles(
        v: AnalyserView<A::Model>,
        pending: PendingView,
        deltas: Seq<i64>,
    ) -> AnalyserView<A::Model> {
        if Self::is_live(v.stage) && pending.algorithm < v.models.len() && !v.skipped.contains(
            pending.algorithm,
        ) {
            let outcome = A::angles_model(
                v.models[pending.algorithm as int],
                pending.query,
                deltas,
            );
            AnalyserView {
                models: v.models.update(pending.algorithm as int, outcome.model),
                detections: with_findings(v.detections, outcome.result),
                ..v
            }
        } else {
            v
        }
    }

    /// The analyser after `finish`. While detectors are being called, each
    /// detector in the run gets its `finish`, in order, its findings are
    /// added, and the run is over; at any other stage nothing happens.
    pub open spec fn after_finish(v: AnalyserView<A::Model>) -> AnalyserView<A::Model> {
        if Self::is_live(v.stage) {
            let d = Self::finished(
                Delivery { models: v.models, detections: v.detections },
                v.skipped,
                v.models.len() as int,
            );
            AnalyserView {
                models: d.models,
                detections: d.detections,
                stage: Stage::Finished,
                ..v
            }
        } else {
            v
        }
    }

    /// Whatever the detectors do with it, the start of a round leaves the
    /// analyser without buildings.
    pub proof fn lemma_round_start_clears(v: AnalyserView<A::Model>, message: Message, tick: u32)
        requires
            message == Message::GameEvent(GameEvent::RoundStart) || message
                == Message::GameEvent(GameEvent::TeamPlayRoundStart),
        ensures
            Self::after_message(v, message, tick).0.state.buildings == Map::<
                u32,
                crate::base::state::BuildingView,
            >::empty(),
    {
    }

    /// No callback of a detector touches the world state: after a message
    /// it is the state with the message applied, at every stage of the run.
    pub proof fn lemma_state_follows_messages(
        v: AnalyserView<A::Model>,
        message: Message,
        tick: u32,
    )
        ensures
            Self::after_message(v, message, tick).0.state == message_applied(
                v.state,
                v.kinds,
                message,
            ),
    {
    }

    /// An analyser that drives the given detectors over an empty world.
    pub fn new(algorithms: Vec<A>) -> (analyser: Self)
        ensures
            analyser@ == (AnalyserView {
                state: StateView {
                    players: Seq::empty(),
                    buildings: Map::empty(),
                    world: None,
                    tick: 0,
                },
                header: None,
                models: models_of(algorithms@),
                skipped: Seq::empty(),
                detections: Seq::empty(),
                tick: 0,
                stage: Stage::Uninitialized,
                kinds: Seq::empty(),
            }),
    {
        let analyser = CheatAnalyser {
            state: CheatAnalyserState::new(),
            algorithms,
            detections: Vec::new(),
            header: None,
            tick: 0,
            stage: Stage::Uninitialized,
            skipped: Vec::new(),
            class_kinds: Vec::new(),
            tables: PropTables::new(),
        };
        assert(analyser@.detections =~= Seq::empty());
        analyser
    }

    /// Where the run stands.
    pub fn stage(&self) -> (stage: Stage)
        ensures
            stage == self@.stage,
    {
        self.stage
    }

    /// Whether the detector at the given position is left out of the run.
    pub fn is_skipped(&self, algorithm: usize) -> (skipped: bool)
        ensures
            skipped == self@.skipped.contains(algorithm),
    {
        let mut i: usize = 0;
        while i < self.skipped.len()
            invariant
                i <= self.skipped.len(),
                forall|j: int| 0 <= j < i ==> self.skipped@[j] != algorithm,
            decreases self.skipped.len() - i,
        {
            if self.skipped[i] == algorithm {
                assert(self.skipped@[i as int] == algorithm);
                return true;
            }
            i += 1;
        }
        false
    }

    /// Begins the run: calls `init` of every detector, in order.
    pub fn init(&mut self)
        ensures
            final(self)@ == Self::after_init(old(self)@),
    {
        if let Stage::Uninitialized = self.stage {
        } else {
            return ;
        }
        let n: usize = self.algorithms.len();
        let mut skipped: Vec<usize> = Vec::new();
        let mut i: usize = 0;
        while i < n
            invariant
                i <= n,
                n == self.algorithms@.len(),
                n == old(self).algorithms@.len(),
                (Start { models: models_of(self.algorithms@), skipped: skipped@ })
                    == Self::started(models_of(old(self).algorithms@), i as int),
                self.state == old(self).state,
                self.detections == old(self).detections,
                self.header == old(self).header,
                self.tick == old(self).tick,
                self.class_kinds == old(self).class_kinds,
            decreases n - i,
        {
            let ghost before = models_of(self.algorithms@);
            let done = self.algorithms[i].init();
            assert(models_of(self.algorithms@) =~= before.update(
                i as int,
                A::init_model(before[i as int]).model,
            ));
            if done.is_err() {
                skipped.push(i);
            }
            i += 1;
        }
        self.skipped = skipped;
        self.stage = Stage::Initialized;
    }

    /// Whether the analyser itself needs messages of the given kind: entity
    /// updates, game events and tick markers.
    pub fn does_handle(message_type: MessageType) -> (needed: bool)
        ensures
            needed == (message_type == MessageType::PacketEntities || message_type
                == MessageType::GameEvent || message_type == MessageType::NetTick),
    {
        match message_type {
            MessageType::PacketEntities => true,
            MessageType::GameEvent => true,
            MessageType::NetTick => true,
            _ => false,
        }
    }

    /// Takes note of the recording's header.
    pub fn handle_header(&mut self, header: Header)
        ensures
            final(self)@ == (AnalyserView { header: Some(header@), ..old(self)@ }),
    {
        self.header = Some(header);
    }

    /// Takes note of the server classes, listed by class number: each is
    /// told apart by its name.
    pub fn handle_data_tables(&mut self, class_names: &Vec<String>)
        ensures
            final(self)@ == (AnalyserView {
                kinds: Seq::new(class_names@.len(), |i: int| class_of_name(class_names@[i]@)),
                ..old(self)@
            }),
    {
        let mut kinds: Vec<EntityClass> = Vec::new();
        let mut i: usize = 0;
        while i < class_names.len()
            invariant
                i <= class_names.len(),
                kinds@.len() == i,
                forall|j: int| 0 <= j < i ==> kinds@[j] == class_of_name(class_names@[j]@),
            decreases class_names.len() - i,
        {
            kinds.push(classify(class_names[i].as_str()));
            i += 1;
        }
        assert(kinds@ =~= Seq::new(class_names@.len(), |i: int| class_of_name(class_names@[i]@)));
        self.class_kinds = kinds;
    }

    /// Takes note of the tick that the coming messages belong to.
    pub fn handle_packet_meta(&mut self, tick: u32)
        ensures
            final(self)@ == (AnalyserView {
                state: StateView { tick, ..old(self)@.state },
                tick,
                ..old(self)@
            }),
    {
        self.state.tick = tick;
        self.tick = tick;
        assert(self.state@.players =~= old(self).state@.players);
        assert(self.state@.buildings =~= old(self).state@.buildings);
    }

    /// Applies an entry of a string table to the world state.
    pub fn handle_string_entry(
        &mut self,
        table: &str,
        index: usize,
        text: Option<&str>,
        data: Option<&Vec<u8>>,
    )
        ensures
            final(self)@ == (AnalyserView {
                state: string_entry_applied(
                    old(self)@.state,
                    table@,
                    index,
                    text_view(text),
                    data_view(data),
                ),
                ..old(self)@
            }),
    {
        self.state.apply_string_entry(table, index, text, data);
    }

    /// Applies an entity update to the world state, by the kind of the
    /// entity's class.
    pub fn handle_entity(&mut self, entity: &EntityUpdate)
        ensures
            final(self)@ == (AnalyserView {
                state: crate::base::builder::entity_applied(
                    old(self)@.state,
                    old(self)@.kinds,
                    *entity,
                ),
                ..old(self)@
            }),
    {
        self.state.apply_entity(&self.tables, &self.class_kinds, entity);
    }

    /// Applies an update of the player resource table to the world state.
    pub fn handle_player_resource(&mut self, entity: &EntityUpdate)
        ensures
            final(self)@ == (AnalyserView {
                state: crate::base::builder::player_resource_applied(old(self)@.state, *entity),
                ..old(self)@
            }),
    {
        self.state.apply_player_resource(entity);
    }

    /// Applies an update of a player entity to the world state.
    pub fn handle_player_entity(&mut self, entity: &EntityUpdate)
        ensures
            final(self)@ == (AnalyserView {
                state: crate::base::builder::player_entity_applied(old(self)@.state, *entity),
                ..old(self)@
            }),
    {
        self.state.apply_player_entity(&self.tables, entity);
    }

    /// Applies an update of the world entity to the world state.
    pub fn handle_world_entity(&mut self, entity: &EntityUpdate)
        ensures
            final(self)@ == (AnalyserView {
                state: crate::base::builder::world_entity_applied(old(self)@.state, *entity),
                ..old(self)@
            }),
    {
        self.state.apply_world_entity(&self.tables, entity);
    }

    /// Applies an update of a sentry gun to the world state.
    pub fn handle_sentry_entity(&mut self, entity: &EntityUpdate)
        ensures
            final(self)@ == (AnalyserView {
                state: crate::base::builder::building_entity_applied(
                    old(self)@.state,
                    BuildingClass::Sentry,
                    *entity,
                ),
                ..old(self)@
            }),
    {
        self.state.apply_building_entity(&self.tables, BuildingClass::Sentry, entity);
    }

    /// Applies an update of a teleporter to the world state.
    pub fn handle_teleporter_entity(&mut self, entity: &EntityUpdate)
        ensures
            final(self)@ == (AnalyserView {
                state: crate::base::builder::building_entity_applied(
                    old(self)@.state,
                    BuildingClass::Teleporter,
                    *entity,
                ),
                ..old(self)@
            }),
    {
        self.state.apply_building_entity(&self.tables, BuildingClass::Teleporter, entity);
    }

    /// Applies an update of a dispenser to the world state.
    pub fn handle_dispenser_entity(&mut self, entity: &EntityUpdate)
        ensures
            final(self)@ == (AnalyserView {
                state: crate::base::builder::building_entity_applied(
                    old(self)@.state,
                    BuildingClass::Dispenser,
                    *entity,
                ),
                ..old(self)@
            }),
    {
        self.state.apply_building_entity(&self.tables, BuildingClass::Dispenser, entity);
    }

    /// Takes a message: applies it to the world state, offers it to the
    /// detectors, and at a tick boundary gives each detector its tick
    /// callback. Hands back the distances that the detectors want measured.
    pub fn handle_message(&mut self, message: &Message, tick: u32) -> (pending: Vec<Pending>)
        ensures
            (final(self)@, pending_view(pending@)) == Self::after_message(
                old(self)@,
                *message,
                tick,
            ),
    {
        self.state.apply_message(&self.tables, &self.class_kinds, message);
        let live = match self.stage {
            Stage::Initialized => true,
            Stage::Running => true,
            _ => false,
        };
        if !live {
            let pending: Vec<Pending> = Vec::new();
            assert(pending_view(pending@) =~= Seq::empty());
            return pending;
        }
        self.stage = Stage::Running;
        deliver(
            &mut self.algorithms,
            &self.skipped,
            &mut self.detections,
            message,
            &self.state,
            tick,
        );
        if let Message::NetTick = message {
            let seen = self.state.detector_view();
            run_tick(&mut self.algorithms, &self.skipped, &mut self.detections, &seen)
        } else {
            let pending: Vec<Pending> = Vec::new();
            assert(pending_view(pending@) =~= Seq::empty());
            pending
        }
    }

    /// Takes the distances that were measured for a request and lets the
    /// detector that made the request judge them.
    pub fn on_angles(&mut self, pending: &Pending, deltas: &Vec<i64>)
        ensures
            final(self)@ == Self::after_angles(old(self)@, pending@, deltas@),
    {
        let live = match self.stage {
            Stage::Initialized => true,
            Stage::Running => true,
            _ => false,
        };
        let index: usize = pending.algorithm;
        if !live || index >= self.algorithms.len() || is_left_out(&self.skipped, index) {
            return ;
        }
        let ghost before = models_of(self.algorithms@);
        let found = self.algorithms[index].on_angles(&pending.query, deltas);
        assert(models_of(self.algorithms@) =~= before.update(
            index as int,
            A::angles_model(before[index as int], pending.query@, deltas@).model,
        ));
        match found {
            Ok(found) => {
                collect(&mut self.detections, found);
            },
            Err(_) => {},
        }
    }

    /// Ends the run: calls `finish` of every detector, in order, and adds
    /// what they hand out to the findings.
    pub fn finish(&mut self)
        ensures
            final(self)@ == Self::after_finish(old(self)@),
    {
        let live = match self.stage {
            Stage::Initialized => true,
            Stage::Running => true,
            _ => false,
        };
        if !live {
            return ;
        }
        run_finish(&mut self.algorithms, &self.skipped, &mut self.detections);
        self.stage = Stage::Finished;
    }

    /// The number of ticks of the recording: what its header announces, or
    /// the current tick if that is later or there is no header.
    pub fn get_tick_count_u32(&self) -> (ticks: u32)
        ensures
            ticks == (match self@.header {
                Some(header) => if self@.tick > header.ticks {
                    self@.tick
                } else {
                    header.ticks
                },
                None => self@.tick,
            }),
    {
        match &self.header {
            Some(header) => if self.tick > header.ticks {
                self.tick
            } else {
                header.ticks
            },
            None => self.tick,
        }
    }
}

impl<A: CheatAlgorithm> CheatAnalyser<A> {
    /// What an analyser has to say of its run: the server, author and map of
    /// the recording, each `unknown` where there is no header, the current
    /// tick, and the findings in the order in which they came.
    pub open spec fn analysis_of(v: AnalyserView<A::Model>) -> AnalysisView {
        AnalysisView {
            server_ip: match v.header {
                Some(h) => h.server,
                None => unknown_text(),
            },
            duration: v.tick,
            author: match v.header {
                Some(h) => h.nick,
                None => unknown_text(),
            },
            map: match v.header {
                Some(h) => h.map,
                None => unknown_text(),
            },
            detections: v.detections,
        }
    }

    /// Sums the run up.
    pub fn analysis(&self) -> (report: Analysis)
        ensures
            report@ == Self::analysis_of(self@),
    {
        let (server_ip, author, map) = match &self.header {
            Some(h) => (h.server.clone(), h.nick.clone(), h.map.clone()),
            None => ("unknown".to_owned(), "unknown".to_owned(), "unknown".to_owned()),
        };
        Analysis {
            server_ip,
            duration: self.tick,
            author,
            map,
            detections: copy_detections(&self.detections),
        }
    }

    /// Counts the findings so far by detector and player.
    pub fn detection_summary(&self) -> (tallies: Vec<Tally>)
        ensures
            tallies_view(tallies@) == tallied(self@.detections, self@.detections.len() as int),
    {
        tally(&self.detections)
    }
}


} // verus!
