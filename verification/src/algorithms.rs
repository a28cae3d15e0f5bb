//! The detectors, and the list of those that the library offers.

pub mod aim_snap;
pub mod angle_repeat;
pub mod oob_pitch;
pub mod viewangles_180degrees;
pub mod viewangles_to_csv;

use vstd::prelude::*;
use crate::algorithm::{
    AlgorithmError, AngleQuery, AngleQueryView, CheatAlgorithm, Detection, DetectionView, Interest,
    Outcome, TickReport, TickReportView,
};
use crate::algorithms::aim_snap::{AimSnap, AimSnapView};
use crate::algorithms::angle_repeat::{AngleRepeat, AngleRepeatView};
use crate::algorithms::oob_pitch::{OOBPitch, OOBPitchView};
use crate::algorithms::viewangles_180degrees::{ViewAngles180Degrees, ViewAngles180DegreesView};
use crate::algorithms::viewangles_to_csv::{ViewAnglesToCSV, ViewAnglesToCSVView};
use crate::base::identity::{detector_view, tracked_identity};
use crate::base::records::{Message, MessageType};
use crate::base::state::{CheatAnalyserState, StateView};
use crate::parameters::{Parameter, Parameters};

verus! {

/// One of the detectors that the library offers.
pub enum Algorithm {
    ViewAngles180Degrees(ViewAngles180Degrees),
    ViewAnglesToCSV(ViewAnglesToCSV),
    AimSnap(AimSnap),
    AngleRepeat(AngleRepeat),
    OOBPitch(OOBPitch),
}

/// The mathematical content of an `Algorithm`.
pub enum AlgorithmModel {
    ViewAngles180Degrees(ViewAngles180DegreesView),
    ViewAnglesToCSV(ViewAnglesToCSVView),
    AimSnap(AimSnapView),
    AngleRepeat(AngleRepeatView),
    OOBPitch(OOBPitchView),
}

impl CheatAlgorithm for Algorithm {
    type Model = AlgorithmModel;

    open spec fn model(&self) -> AlgorithmModel {
        match *self {
            Algorithm::ViewAngles180Degrees(d) => AlgorithmModel::ViewAngles180Degrees(d@),
            Algorithm::ViewAnglesToCSV(d) => AlgorithmModel::ViewAnglesToCSV(d@),
            Algorithm::AimSnap(d) => AlgorithmModel::AimSnap(d@),
            Algorithm::AngleRepeat(d) => AlgorithmModel::AngleRepeat(d@),
            Algorithm::OOBPitch(d) => AlgorithmModel::OOBPitch(d@),
        }
    }

    open spec fn default_model(m: AlgorithmModel) -> bool {
        match m {
            AlgorithmModel::ViewAngles180Degrees(d) => ViewAngles180Degrees::default_model(d),
            AlgorithmModel::ViewAnglesToCSV(d) => ViewAnglesToCSV::default_model(d),
            AlgorithmModel::AimSnap(d) => AimSnap::default_model(d),
            AlgorithmModel::AngleRepeat(d) => AngleRepeat::default_model(d),
            AlgorithmModel::OOBPitch(d) => OOBPitch::default_model(d),
        }
    }

    open spec fn name_model(m: AlgorithmModel) -> Seq<char> {
        match m {
            AlgorithmModel::ViewAngles180Degrees(d) => ViewAngles180Degrees::name_model(d),
            AlgorithmModel::ViewAnglesToCSV(d) => ViewAnglesToCSV::name_model(d),
            AlgorithmModel::AimSnap(d) => AimSnap::name_model(d),
            AlgorithmModel::AngleRepeat(d) => AngleRepeat::name_model(d),
            AlgorithmModel::OOBPitch(d) => OOBPitch::name_model(d),
        }
    }

    open spec fn interest_model(m: AlgorithmModel) -> Interest {
        match m {
            AlgorithmModel::ViewAngles180Degrees(d) => ViewAngles180Degrees::interest_model(d),
            AlgorithmModel::ViewAnglesToCSV(d) => ViewAnglesToCSV::interest_model(d),
            AlgorithmModel::AimSnap(d) => AimSnap::interest_model(d),
            AlgorithmModel::AngleRepeat(d) => AngleRepeat::interest_model(d),
            AlgorithmModel::OOBPitch(d) => OOBPitch::interest_model(d),
        }
    }

    open spec fn init_model(m: AlgorithmModel) -> Outcome<AlgorithmModel, ()> {
        match m {
            AlgorithmModel::ViewAngles180Degrees(d) => {
                let outcome = ViewAngles180Degrees::init_model(d);
                Outcome { model: AlgorithmModel::ViewAngles180Degrees(outcome.model), result: outcome.result }
            },
            AlgorithmModel::ViewAnglesToCSV(d) => {
                let outcome = ViewAnglesToCSV::init_model(d);
                Outcome { model: AlgorithmModel::ViewAnglesToCSV(outcome.model), result: outcome.result }
            },
            AlgorithmModel::AimSnap(d) => {
                let outcome = AimSnap::init_model(d);
                Outcome { model: AlgorithmModel::AimSnap(outcome.model), result: outcome.result }
            },
            AlgorithmModel::AngleRepeat(d) => {
                let outcome = AngleRepeat::init_model(d);
                Outcome { model: AlgorithmModel::AngleRepeat(outcome.model), result: outcome.result }
            },
            AlgorithmModel::OOBPitch(d) => {
                let outcome = OOBPitch::init_model(d);
                Outcome { model: AlgorithmModel::OOBPitch(outcome.model), result: outcome.result }
            },
        }
    }

    open spec fn message_model(m: AlgorithmModel, message: Message, s: StateView, tick: u32) -> Outcome<
        AlgorithmModel,
        Seq<DetectionView>,
    > {
        match m {
            AlgorithmModel::ViewAngles180Degrees(d) => {
                let outcome = ViewAngles180Degrees::message_model(d, message, s, tick);
                Outcome { model: AlgorithmModel::ViewAngles180Degrees(outcome.model), result: outcome.result }
            },
            AlgorithmModel::ViewAnglesToCSV(d) => {
                let outcome = ViewAnglesToCSV::message_model(d, message, s, tick);
                Outcome { model: AlgorithmModel::ViewAnglesToCSV(outcome.model), result: outcome.result }
            },
            AlgorithmModel::AimSnap(d) => {
                let outcome = AimSnap::message_model(d, message, s, tick);
                Outcome { model: AlgorithmModel::AimSnap(outcome.model), result: outcome.result }
            },
            AlgorithmModel::AngleRepeat(d) => {
                let outcome = AngleRepeat::message_model(d, message, s, tick);
                Outcome { model: AlgorithmModel::AngleRepeat(outcome.model), result: outcome.result }
            },
            AlgorithmModel::OOBPitch(d) => {
                let outcome = OOBPitch::message_model(d, message, s, tick);
                Outcome { model: AlgorithmModel::OOBPitch(outcome.model), result: outcome.result }
            },
        }
    }

    open spec fn tick_model(m: AlgorithmModel, s: StateView) -> Outcome<AlgorithmModel, TickReportView> {
        match m {
            AlgorithmModel::ViewAngles180Degrees(d) => {
                let outcome = ViewAngles180Degrees::tick_model(d, s);
                Outcome { model: AlgorithmModel::ViewAngles180Degrees(outcome.model), result: outcome.result }
            },
            AlgorithmModel::ViewAnglesToCSV(d) => {
                let outcome = ViewAnglesToCSV::tick_model(d, s);
                Outcome { model: AlgorithmModel::ViewAnglesToCSV(outcome.model), result: outcome.result }
            },
            AlgorithmModel::AimSnap(d) => {
                let outcome = AimSnap::tick_model(d, s);
                Outcome { model: AlgorithmModel::AimSnap(outcome.model), result: outcome.result }
            },
            AlgorithmModel::AngleRepeat(d) => {
                let outcome = AngleRepeat::tick_model(d, s);
                Outcome { model: AlgorithmModel::AngleRepeat(outcome.model), result: outcome.result }
            },
            AlgorithmModel::OOBPitch(d) => {
                let outcome = OOBPitch::tick_model(d, s);
                Outcome { model: AlgorithmModel::OOBPitch(outcome.model), result: outcome.result }
            },
        }
    }

    open spec fn angles_model(m: AlgorithmModel, query: AngleQueryView, deltas: Seq<i64>) -> Outcome<
        AlgorithmModel,
        Seq<DetectionView>,
    > {
        match m {
            AlgorithmModel::ViewAngles180Degrees(d) => {
                let outcome = ViewAngles180Degrees::angles_model(d, query, deltas);
                Outcome { model: AlgorithmModel::ViewAngles180Degrees(outcome.model), result: outcome.result }
            },
            AlgorithmModel::ViewAnglesToCSV(d) => {
                let outcome = ViewAnglesToCSV::angles_model(d, query, deltas);
                Outcome { model: AlgorithmModel::ViewAnglesToCSV(outcome.model), result: outcome.result }
            },
            AlgorithmModel::AimSnap(d) => {
                let outcome = AimSnap::angles_model(d, query, deltas);
                Outcome { model: AlgorithmModel::AimSnap(outcome.model), result: outcome.result }
            },
            AlgorithmModel::AngleRepeat(d) => {
                let outcome = AngleRepeat::angles_model(d, query, deltas);
                Outcome { model: AlgorithmModel::AngleRepeat(outcome.model), result: outcome.result }
            },
            AlgorithmModel::OOBPitch(d) => {
                let outcome = OOBPitch::angles_model(d, query, deltas);
                Outcome { model: AlgorithmModel::OOBPitch(outcome.model), result: outcome.result }
            },
        }
    }

    open spec fn finish_model(m: AlgorithmModel) -> Outcome<AlgorithmModel, Seq<DetectionView>> {
        match m {
            AlgorithmModel::ViewAngles180Degrees(d) => {
                let outcome = ViewAngles180Degrees::finish_model(d);
                Outcome { model: AlgorithmModel::ViewAngles180Degrees(outcome.model), result: outcome.result }
            },
            AlgorithmModel::ViewAnglesToCSV(d) => {
                let outcome = ViewAnglesToCSV::finish_model(d);
                Outcome { model: AlgorithmModel::ViewAnglesToCSV(outcome.model), result: outcome.result }
            },
            AlgorithmModel::AimSnap(d) => {
                let outcome = AimSnap::finish_model(d);
                Outcome { model: AlgorithmModel::AimSnap(outcome.model), result: outcome.result }
            },
            AlgorithmModel::AngleRepeat(d) => {
                let outcome = AngleRepeat::finish_model(d);
                Outcome { model: AlgorithmModel::AngleRepeat(outcome.model), result: outcome.result }
            },
            AlgorithmModel::OOBPitch(d) => {
                let outcome = OOBPitch::finish_model(d);
                Outcome { model: AlgorithmModel::OOBPitch(outcome.model), result: outcome.result }
            },
        }
    }

    open spec fn param_model(m: AlgorithmModel, name: Seq<char>, value: Parameter) -> AlgorithmModel {
        match m {
            AlgorithmModel::ViewAngles180Degrees(d) => AlgorithmModel::ViewAngles180Degrees(ViewAngles180Degrees::param_model(d, name, value)),
            AlgorithmModel::ViewAnglesToCSV(d) => AlgorithmModel::ViewAnglesToCSV(ViewAnglesToCSV::param_model(d, name, value)),
            AlgorithmModel::AimSnap(d) => AlgorithmModel::AimSnap(AimSnap::param_model(d, name, value)),
            AlgorithmModel::AngleRepeat(d) => AlgorithmModel::AngleRepeat(AngleRepeat::param_model(d, name, value)),
            AlgorithmModel::OOBPitch(d) => AlgorithmModel::OOBPitch(OOBPitch::param_model(d, name, value)),
        }
    }

    open spec fn params_model(m: AlgorithmModel) -> Seq<(Seq<char>, Parameter)> {
        match m {
            AlgorithmModel::ViewAngles180Degrees(d) => ViewAngles180Degrees::params_model(d),
            AlgorithmModel::ViewAnglesToCSV(d) => ViewAnglesToCSV::params_model(d),
            AlgorithmModel::AimSnap(d) => AimSnap::params_model(d),
            AlgorithmModel::AngleRepeat(d) => AngleRepeat::params_model(d),
            AlgorithmModel::OOBPitch(d) => OOBPitch::params_model(d),
        }
    }

    fn default(&self) -> (enabled: bool) {
        match self {
            Algorithm::ViewAngles180Degrees(d) => d.default(),
            Algorithm::ViewAnglesToCSV(d) => d.default(),
            Algorithm::AimSnap(d) => d.default(),
            Algorithm::AngleRepeat(d) => d.default(),
            Algorithm::OOBPitch(d) => d.default(),
        }
    }

    fn algorithm_name(&self) -> (name: &str) {
        match self {
            Algorithm::ViewAngles180Degrees(d) => d.algorithm_name(),
            Algorithm::ViewAnglesToCSV(d) => d.algorithm_name(),
            Algorithm::AimSnap(d) => d.algorithm_name(),
            Algorithm::AngleRepeat(d) => d.algorithm_name(),
            Algorithm::OOBPitch(d) => d.algorithm_name(),
        }
    }

    fn handled_messages(&self) -> (kinds: Result<Vec<MessageType>, bool>) {
        match self {
            Algorithm::ViewAngles180Degrees(d) => d.handled_messages(),
            Algorithm::ViewAnglesToCSV(d) => d.handled_messages(),
            Algorithm::AimSnap(d) => d.handled_messages(),
            Algorithm::AngleRepeat(d) => d.handled_messages(),
            Algorithm::OOBPitch(d) => d.handled_messages(),
        }
    }

    fn does_handle(&self, message_type: MessageType) -> (wanted: bool) {
        match self {
            Algorithm::ViewAngles180Degrees(d) => d.does_handle(message_type),
            Algorithm::ViewAnglesToCSV(d) => d.does_handle(message_type),
            Algorithm::AimSnap(d) => d.does_handle(message_type),
            Algorithm::AngleRepeat(d) => d.does_handle(message_type),
            Algorithm::OOBPitch(d) => d.does_handle(message_type),
        }
    }

    fn init(&mut self) -> (done: Result<(), AlgorithmError>) {
        match self {
            Algorithm::ViewAngles180Degrees(d) => d.init(),
            Algorithm::ViewAnglesToCSV(d) => d.init(),
            Algorithm::AimSnap(d) => d.init(),
            Algorithm::AngleRepeat(d) => d.init(),
            Algorithm::OOBPitch(d) => d.init(),
        }
    }

    fn on_message(&mut self, message: &Message, state: &CheatAnalyserState, tick: u32) -> (found:
        Result<Vec<Detection>, AlgorithmError>) {
        match self {
            Algorithm::ViewAngles180Degrees(d) => d.on_message(message, state, tick),
            Algorithm::ViewAnglesToCSV(d) => d.on_message(message, state, tick),
            Algorithm::AimSnap(d) => d.on_message(message, state, tick),
            Algorithm::AngleRepeat(d) => d.on_message(message, state, tick),
            Algorithm::OOBPitch(d) => d.on_message(message, state, tick),
        }
    }

    fn on_tick(&mut self, state: &CheatAnalyserState) -> (report: Result<
        TickReport,
        AlgorithmError,
    >) {
        match self {
            Algorithm::ViewAngles180Degrees(d) => d.on_tick(state),
            Algorithm::ViewAnglesToCSV(d) => d.on_tick(state),
            Algorithm::AimSnap(d) => d.on_tick(state),
            Algorithm::AngleRepeat(d) => d.on_tick(state),
            Algorithm::OOBPitch(d) => d.on_tick(state),
        }
    }

    fn on_angles(&mut self, query: &AngleQuery, deltas: &Vec<i64>) -> (found: Result<
        Vec<Detection>,
        AlgorithmError,
    >) {
        match self {
            Algorithm::ViewAngles180Degrees(d) => d.on_angles(query, deltas),
            Algorithm::ViewAnglesToCSV(d) => d.on_angles(query, deltas),
            Algorithm::AimSnap(d) => d.on_angles(query, deltas),
            Algorithm::AngleRepeat(d) => d.on_angles(query, deltas),
            Algorithm::OOBPitch(d) => d.on_angles(query, deltas),
        }
    }

    fn finish(&mut self) -> (found: Result<Vec<Detection>, AlgorithmError>) {
        match self {
            Algorithm::ViewAngles180Degrees(d) => d.finish(),
            Algorithm::ViewAnglesToCSV(d) => d.finish(),
            Algorithm::AimSnap(d) => d.finish(),
            Algorithm::AngleRepeat(d) => d.finish(),
            Algorithm::OOBPitch(d) => d.finish(),
        }
    }

    fn set_param(&mut self, name: &str, value: Parameter) {
        match self {
            Algorithm::ViewAngles180Degrees(d) => d.set_param(name, value),
            Algorithm::ViewAnglesToCSV(d) => d.set_param(name, value),
            Algorithm::AimSnap(d) => d.set_param(name, value),
            Algorithm::AngleRepeat(d) => d.set_param(name, value),
            Algorithm::OOBPitch(d) => d.set_param(name, value),
        }
    }

    fn params(&self) -> (params: Parameters) {
        match self {
            Algorithm::ViewAngles180Degrees(d) => d.params(),
            Algorithm::ViewAnglesToCSV(d) => d.params(),
            Algorithm::AimSnap(d) => d.params(),
            Algorithm::AngleRepeat(d) => d.params(),
            Algorithm::OOBPitch(d) => d.params(),
        }
    }
}

impl Algorithm {
    /// A tick boundary means the same to each detector of the library
    /// whether it is shown the whole state or the state limited to the visible
    /// players: none of them takes note of a player that is not visible.
    pub proof fn lemma_tick_of_view(m: AlgorithmModel, s: StateView)
        ensures
            Algorithm::tick_model(m, detector_view(s)) == Algorithm::tick_model(m, s),
    {
        match m {
            AlgorithmModel::ViewAngles180Degrees(d) => {
                ViewAngles180Degrees::lemma_after_tick_of_view(d, s)
            },
            AlgorithmModel::ViewAnglesToCSV(d) => ViewAnglesToCSV::lemma_after_tick_of_view(d, s),
            AlgorithmModel::AimSnap(d) => AimSnap::lemma_after_tick_of_view(d, s),
            AlgorithmModel::AngleRepeat(d) => AngleRepeat::lemma_after_tick_of_view(d, s),
            AlgorithmModel::OOBPitch(d) => OOBPitch::lemma_after_tick_of_view(d, s),
        }
    }

    /// Where no player is followed, a tick boundary gives no finding and no
    /// request with any detector of the library, and none of them fails.
    pub proof fn lemma_nobody_followed(m: AlgorithmModel, s: StateView)
        requires
            forall|i: int|
                0 <= i < s.players.len() ==> tracked_identity(#[trigger] s.players[i]) is None,
        ensures
            Algorithm::tick_model(m, s).result == Some(
                TickReportView { detections: Seq::empty(), queries: Seq::empty() },
            ),
    {
        match m {
            AlgorithmModel::ViewAngles180Degrees(d) => {
                ViewAngles180Degrees::lemma_nobody_followed(d, s)
            },
            AlgorithmModel::ViewAnglesToCSV(_) => {},
            AlgorithmModel::AimSnap(d) => AimSnap::lemma_nobody_followed(d, s),
            AlgorithmModel::AngleRepeat(d) => AngleRepeat::lemma_nobody_followed(d, s),
            AlgorithmModel::OOBPitch(d) => OOBPitch::lemma_nobody_followed(d, s),
        }
    }
}

/// The detectors that the library offers, each as `new` makes it, in the
/// order in which they run.
pub fn algorithms() -> (list: Vec<Algorithm>)
    ensures
        list@.len() == 5,
        list@[0].model() == AlgorithmModel::ViewAngles180Degrees(ViewAngles180Degrees::fresh()),
        list@[1].model() == AlgorithmModel::ViewAnglesToCSV(ViewAnglesToCSV::fresh()),
        list@[2].model() == AlgorithmModel::AimSnap(AimSnap::fresh()),
        list@[3].model() == AlgorithmModel::AngleRepeat(AngleRepeat::fresh()),
        list@[4].model() == AlgorithmModel::OOBPitch(OOBPitch::fresh()),
{
    let mut list: Vec<Algorithm> = Vec::new();
    list.push(Algorithm::ViewAngles180Degrees(ViewAngles180Degrees::new()));
    list.push(Algorithm::ViewAnglesToCSV(ViewAnglesToCSV::new()));
    list.push(Algorithm::AimSnap(AimSnap::new()));
    list.push(Algorithm::AngleRepeat(AngleRepeat::new()));
    list.push(Algorithm::OOBPitch(OOBPitch::new()));
    list
}

} // verus!
