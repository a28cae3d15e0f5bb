//! Runs as a whole: what holds of every recording of a kind.

use vstd::prelude::*;
use crate::algorithm::{AngleQueryView, CheatAlgorithm, DetectionView, TickReportView};
use crate::algorithms::{Algorithm, AlgorithmModel};
use crate::base::builder::EntityClass;
use crate::base::cheat_analyser_base::{
    message_applied, AnalyserView, CheatAnalyser, Delivery, HeaderView, PendingView, Round, Stage,
};
use crate::base::identity::{detector_view, tracked_identity};
use crate::base::records::Message;
use crate::base::state::StateView;
use crate::base::userinfo::string_entry_applied;

verus! {

/// What a recording hands to the analyser, one piece at a time.
pub enum Input {
    /// The recording's header.
    Header(HeaderView),
    /// The kinds of the server classes, by class number.
    DataTables(Seq<EntityClass>),
    /// The tick that the coming messages belong to.
    PacketMeta(u32),
    /// An entry of a string table: the table's name, the entry's position,
    /// its key and its payload.
    StringEntry(Seq<char>, usize, Option<Seq<char>>, Option<Seq<u8>>),
    /// A message and the tick that it belongs to.
    Message(Message, u32),
}

/// The analyser after one piece of a recording.
pub open spec fn after_input<A: CheatAlgorithm>(v: AnalyserView<A::Model>, input: Input)
    -> AnalyserView<A::Model> {
    match input {
        Input::Header(header) => AnalyserView { header: Some(header), ..v },
        Input::DataTables(kinds) => AnalyserView { kinds, ..v },
        Input::PacketMeta(tick) => AnalyserView {
            state: StateView { tick, ..v.state },
            tick,
            ..v
        },
        Input::StringEntry(table, index, text, data) => AnalyserView {
            state: string_entry_applied(v.state, table, index, text, data),
            ..v
        },
        Input::Message(message, tick) => CheatAnalyser::<A>::after_message(v, message, tick).0,
    }
}

/// The analyser after the first `n` pieces of a recording.
pub open spec fn played<A: CheatAlgorithm>(v: AnalyserView<A::Model>, inputs: Seq<Input>, n: int)
    -> AnalyserView<A::Model>
    decreases n,
{
    if n <= 0 {
        v
    } else {
        after_input::<A>(played::<A>(v, inputs, n - 1), inputs[n - 1])
    }
}

/// Whether no player of a state is followed by the detectors.
pub open spec fn nobody_followed(s: StateView) -> bool {
    forall|i: int| 0 <= i < s.players.len() ==> tracked_identity(#[trigger] s.players[i]) is None
}

/// The findings that a detector of the library holds back until the end of
/// the run.
pub open spec fn buffered(m: AlgorithmModel) -> Seq<DetectionView> {
    match m {
        AlgorithmModel::AimSnap(d) => d.detections,
        AlgorithmModel::AngleRepeat(d) => d.detections,
        AlgorithmModel::OOBPitch(_) => Seq::empty(),
        AlgorithmModel::ViewAngles180Degrees(_) => Seq::empty(),
        AlgorithmModel::ViewAnglesToCSV(_) => Seq::empty(),
    }
}

/// Whether no detector of a list holds a finding back.
pub open spec fn nothing_buffered(models: Seq<AlgorithmModel>) -> bool {
    forall|j: int| 0 <= j < models.len() ==> buffered(#[trigger] models[j]) == Seq::<
        DetectionView,
    >::empty()
}

proof fn lemma_delivered_quietly(
    d: Delivery<AlgorithmModel>,
    skipped: Seq<usize>,
    message: Message,
    s: StateView,
    tick: u32,
    n: int,
)
    requires
        0 <= n <= d.models.len(),
        nothing_buffered(d.models),
    ensures
        CheatAnalyser::<Algorithm>::delivered(d, skipped, message, s, tick, n).detections
            == d.detections,
        CheatAnalyser::<Algorithm>::delivered(d, skipped, message, s, tick, n).models.len()
            == d.models.len(),
        nothing_buffered(
            CheatAnalyser::<Algorithm>::delivered(d, skipped, message, s, tick, n).models,
        ),
    decreases n,
{
    if n > 0 {
        lemma_delivered_quietly(d, skipped, message, s, tick, n - 1);
        let before = CheatAnalyser::<Algorithm>::delivered(d, skipped, message, s, tick, n - 1);
        let after = CheatAnalyser::<Algorithm>::delivered(d, skipped, message, s, tick, n);
        assert(buffered(before.models[n - 1]) == Seq::<DetectionView>::empty());
        let outcome = Algorithm::message_model(before.models[n - 1], message, s, tick);
        assert(outcome.result == Some(Seq::<DetectionView>::empty()));
        assert(buffered(outcome.model) == buffered(before.models[n - 1]));
        assert(before.detections + Seq::<DetectionView>::empty() =~= before.detections);
        assert forall|j: int| 0 <= j < after.models.len() implies buffered(
            #[trigger] after.models[j],
        ) == Seq::<DetectionView>::empty() by {
            if j != n - 1 {
                assert(after.models[j] == before.models[j]);
            }
        }
    }
}

proof fn lemma_ticked_quietly(r: Round<AlgorithmModel>, skipped: Seq<usize>, s: StateView, n: int)
    requires
        0 <= n <= r.models.len(),
        nothing_buffered(r.models),
        nobody_followed(s),
    ensures
        CheatAnalyser::<Algorithm>::ticked(r, skipped, detector_view(s), n).detections
            == r.detections,
        CheatAnalyser::<Algorithm>::ticked(r, skipped, detector_view(s), n).pending == r.pending,
        CheatAnalyser::<Algorithm>::ticked(r, skipped, detector_view(s), n).models.len()
            == r.models.len(),
        nothing_buffered(CheatAnalyser::<Algorithm>::ticked(r, skipped, detector_view(s), n).models),
    decreases n,
{
    if n > 0 {
        lemma_ticked_quietly(r, skipped, s, n - 1);
        let seen = detector_view(s);
        let before = CheatAnalyser::<Algorithm>::ticked(r, skipped, seen, n - 1);
        let after = CheatAnalyser::<Algorithm>::ticked(r, skipped, seen, n);
        let m = before.models[n - 1];
        assert(buffered(m) == Seq::<DetectionView>::empty());
        Algorithm::lemma_tick_of_view(m, s);
        Algorithm::lemma_nobody_followed(m, s);
        lemma_tick_keeps_buffer(m, s);
        let outcome = Algorithm::tick_model(m, seen);
        assert(outcome.result == Some(
            TickReportView { detections: Seq::empty(), queries: Seq::empty() },
        ));
        assert(before.detections + Seq::<DetectionView>::empty() =~= before.detections);
        assert(before.pending + crate::base::cheat_analyser_base::marked(
            Seq::<AngleQueryView>::empty(),
            (n - 1) as usize,
        ) =~= before.pending);
        assert forall|j: int| 0 <= j < after.models.len() implies buffered(
            #[trigger] after.models[j],
        ) == Seq::<DetectionView>::empty() by {
            if j != n - 1 {
                assert(after.models[j] == before.models[j]);
            }
        }
    }
}

proof fn lemma_tick_keeps_buffer(m: AlgorithmModel, s: StateView)
    requires
        nobody_followed(s),
    ensures
        buffered(Algorithm::tick_model(m, s).model) == buffered(m),
{
    match m {
        AlgorithmModel::AimSnap(d) => {
            crate::algorithms::aim_snap::AimSnap::lemma_nobody_followed(d, s);
        },
        AlgorithmModel::AngleRepeat(d) => {
            crate::algorithms::angle_repeat::AngleRepeat::lemma_nobody_followed(d, s);
        },
        AlgorithmModel::OOBPitch(_) => {},
        AlgorithmModel::ViewAngles180Degrees(_) => {},
        AlgorithmModel::ViewAnglesToCSV(_) => {},
    }
}

proof fn lemma_finished_quietly(d: Delivery<AlgorithmModel>, skipped: Seq<usize>, n: int)
    requires
        0 <= n <= d.models.len(),
        nothing_buffered(d.models),
    ensures
        CheatAnalyser::<Algorithm>::finished(d, skipped, n).detections == d.detections,
        CheatAnalyser::<Algorithm>::finished(d, skipped, n).models == d.models,
    decreases n,
{
    if n > 0 {
        lemma_finished_quietly(d, skipped, n - 1);
        let before = CheatAnalyser::<Algorithm>::finished(d, skipped, n - 1);
        let m = before.models[n - 1];
        assert(buffered(m) == Seq::<DetectionView>::empty());
        let outcome = Algorithm::finish_model(m);
        assert(outcome.model == m);
        assert(outcome.result == Some(Seq::<DetectionView>::empty()));
        assert(before.detections + Seq::<DetectionView>::empty() =~= before.detections);
        assert(before.models.update(n - 1, m) =~= before.models);
    }
}

/// A message that leaves no player followed brings no finding and no request
/// with the detectors of the library, and leaves their buffers empty.
pub proof fn lemma_quiet_message(v: AnalyserView<AlgorithmModel>, message: Message, tick: u32)
    requires
        nothing_buffered(v.models),
        nobody_followed(message_applied(v.state, v.kinds, message)),
    ensures
        CheatAnalyser::<Algorithm>::after_message(v, message, tick).0.detections == v.detections,
        CheatAnalyser::<Algorithm>::after_message(v, message, tick).1 == Seq::<
            PendingView,
        >::empty(),
        nothing_buffered(CheatAnalyser::<Algorithm>::after_message(v, message, tick).0.models),
{
    let state = message_applied(v.state, v.kinds, message);
    let start = Delivery { models: v.models, detections: v.detections };
    lemma_delivered_quietly(start, v.skipped, message, state, tick, v.models.len() as int);
    let d = CheatAnalyser::<Algorithm>::delivered(
        start,
        v.skipped,
        message,
        state,
        tick,
        v.models.len() as int,
    );
    lemma_ticked_quietly(
        Round { models: d.models, detections: d.detections, pending: Seq::empty() },
        v.skipped,
        state,
        v.models.len() as int,
    );
}

/// A recording in which no player is ever followed gives no finding: if the
/// detectors of the library start with empty buffers and no followed player
/// is in the state after any piece of the recording, then the findings at the
/// end of the run, `finish` included, are those from before the recording.
pub proof fn lemma_run_without_followed_players(
    v: AnalyserView<AlgorithmModel>,
    inputs: Seq<Input>,
    n: int,
)
    requires
        0 <= n <= inputs.len(),
        nothing_buffered(v.models),
        forall|k: int| 1 <= k <= n ==> nobody_followed(#[trigger] played::<Algorithm>(v, inputs, k).state),
    ensures
        played::<Algorithm>(v, inputs, n).detections == v.detections,
        nothing_buffered(played::<Algorithm>(v, inputs, n).models),
        CheatAnalyser::<Algorithm>::after_finish(played::<Algorithm>(v, inputs, n)).detections
            == v.detections,
    decreases n,
{
    if n > 0 {
        lemma_run_without_followed_players(v, inputs, n - 1);
        let before = played::<Algorithm>(v, inputs, n - 1);
        let after = played::<Algorithm>(v, inputs, n);
        match inputs[n - 1] {
            Input::Message(message, tick) => {
                CheatAnalyser::<Algorithm>::lemma_state_follows_messages(before, message, tick);
                assert(nobody_followed(after.state));
                lemma_quiet_message(before, message, tick);
            },
            _ => {},
        }
    }
    let end = played::<Algorithm>(v, inputs, n);
    lemma_finished_quietly(
        Delivery { models: end.models, detections: end.detections },
        end.skipped,
        end.models.len() as int,
    );
}

} // verus!
