//! What a detector reports, and what it asks of its caller.

use vstd::prelude::*;
use crate::base::records::{Message, MessageType};
use crate::base::state::{CheatAnalyserState, StateView};
use crate::parameters::{params_view, Parameter, Parameters};
use crate::util::helpers::ViewAngles;

verus! {

/// The evidence that a detector attaches to a finding.
#[derive(Debug, Clone, PartialEq, Eq)]
pub enum DetectionData {
    /// The angular distances between the consecutive samples of a window.
    Deltas(Vec<i64>),
    /// The pitch that lay out of bounds.
    Pitch(i64),
    /// Three consecutive orientations, the distances from the first to the
    /// second and to the third, and the ratio that was judged.
    AngleRepeat {
        angle_1: ViewAngles,
        angle_2: ViewAngles,
        angle_3: ViewAngles,
        delta_1_3: i64,
        delta_1_2: i64,
        ratio: i64,
    },
    /// The yaw and pitch rates per tick.
    ViewAngleDelta { va_delta: i64, pa_delta: i64 },
}

/// The mathematical content of a `DetectionData`.
pub enum DetectionDataView {
    Deltas(Seq<i64>),
    Pitch(i64),
    AngleRepeat {
        angle_1: ViewAngles,
        angle_2: ViewAngles,
        angle_3: ViewAngles,
        delta_1_3: i64,
        delta_1_2: i64,
        ratio: i64,
    },
    ViewAngleDelta { va_delta: i64, pa_delta: i64 },
}

impl View for DetectionData {
    type V = DetectionDataView;

    open spec fn view(&self) -> DetectionDataView {
        match *self {
            DetectionData::Deltas(d) => DetectionDataView::Deltas(d@),
            DetectionData::Pitch(p) => DetectionDataView::Pitch(p),
            DetectionData::AngleRepeat {
                angle_1,
                angle_2,
                angle_3,
                delta_1_3,
                delta_1_2,
                ratio,
            } => DetectionDataView::AngleRepeat {
                angle_1,
                angle_2,
                angle_3,
                delta_1_3,
                delta_1_2,
                ratio,
            },
            DetectionData::ViewAngleDelta { va_delta, pa_delta } => {
                DetectionDataView::ViewAngleDelta { va_delta, pa_delta }
            },
        }
    }
}

/// One finding: which detector flagged which player at which tick, and on
/// what evidence.
#[derive(Debug, Clone, PartialEq, Eq)]
pub struct Detection {
    pub tick: u32,
    pub algorithm: String,
    pub player: u64,
    pub data: DetectionData,
}

/// The mathematical content of a `Detection`.
pub struct DetectionView {
    pub tick: u32,
    pub algorithm: Seq<char>,
    pub player: u64,
    pub data: DetectionDataView,
}

impl View for Detection {
    type V = DetectionView;

    open spec fn view(&self) -> DetectionView {
        DetectionView {
            tick: self.tick,
            algorithm: self.algorithm@,
            player: self.player,
            data: self.data@,
        }
    }
}

/// Copies a list of fixed-point values.
pub fn copy_values(values: &Vec<i64>) -> (copy: Vec<i64>)
    ensures
        copy@ == values@,
{
    let mut copy: Vec<i64> = Vec::new();
    let mut i: usize = 0;
    while i < values.len()
        invariant
            i <= values.len(),
            copy@ == values@.take(i as int),
        decreases values.len() - i,
    {
        copy.push(values[i]);
        assert(copy@ =~= values@.take(i as int + 1));
        i += 1;
    }
    assert(values@.take(values@.len() as int) =~= values@);
    copy
}

impl DetectionData {
    /// A copy of the evidence.
    pub fn duplicate(&self) -> (copy: DetectionData)
        ensures
            copy@ == self@,
    {
        match self {
            DetectionData::Deltas(d) => DetectionData::Deltas(copy_values(d)),
            DetectionData::Pitch(p) => DetectionData::Pitch(*p),
            DetectionData::AngleRepeat {
                angle_1,
                angle_2,
                angle_3,
                delta_1_3,
                delta_1_2,
                ratio,
            } => DetectionData::AngleRepeat {
                angle_1: *angle_1,
                angle_2: *angle_2,
                angle_3: *angle_3,
                delta_1_3: *delta_1_3,
                delta_1_2: *delta_1_2,
                ratio: *ratio,
            },
            DetectionData::ViewAngleDelta { va_delta, pa_delta } => DetectionData::ViewAngleDelta {
                va_delta: *va_delta,
                pa_delta: *pa_delta,
            },
        }
    }
}

impl Detection {
    /// A copy of the finding.
    pub fn duplicate(&self) -> (copy: Detection)
        ensures
            copy@ == self@,
    {
        Detection {
            tick: self.tick,
            algorithm: self.algorithm.clone(),
            player: self.player,
            data: self.data.duplicate(),
        }
    }
}

/// Copies a list of findings.
pub fn copy_detections(detections: &Vec<Detection>) -> (copy: Vec<Detection>)
    ensures
        detections_view(copy@) == detections_view(detections@),
{
    let mut copy: Vec<Detection> = Vec::new();
    let mut i: usize = 0;
    while i < detections.len()
        invariant
            i <= detections.len(),
            copy@.len() == i,
            forall|j: int| 0 <= j < i ==> copy@[j]@ == detections@[j]@,
        decreases detections.len() - i,
    {
        copy.push(detections[i].duplicate());
        i += 1;
    }
    assert(detections_view(copy@) =~= detections_view(detections@));
    copy
}

/// The views of a list of findings.
pub open spec fn detections_view(detections: Seq<Detection>) -> Seq<DetectionView> {
    Seq::new(detections.len(), |i: int| detections[i]@)
}

/// A request to measure angular distances: for each pair of orientations, in
/// order, the great-circle distance between the two.
///
/// Detectors that judge such distances hand these out at a tick boundary and
/// take the measured distances back for the same player and tick.
#[derive(Debug, Clone, PartialEq, Eq)]
pub struct AngleQuery {
    pub player: u64,
    pub tick: u32,
    pub pairs: Vec<(ViewAngles, ViewAngles)>,
}

/// The mathematical content of an `AngleQuery`.
pub struct AngleQueryView {
    pub player: u64,
    pub tick: u32,
    pub pairs: Seq<(ViewAngles, ViewAngles)>,
}

impl View for AngleQuery {
    type V = AngleQueryView;

    open spec fn view(&self) -> AngleQueryView {
        AngleQueryView { player: self.player, tick: self.tick, pairs: self.pairs@ }
    }
}

/// The views of a list of requests.
pub open spec fn queries_view(queries: Seq<AngleQuery>) -> Seq<AngleQueryView> {
    Seq::new(queries.len(), |i: int| queries[i]@)
}

/// What a detector hands back at a tick boundary: the findings that are
/// final, and the distances that it wants measured before it judges further.
#[derive(Debug, Clone, PartialEq, Eq)]
pub struct TickReport {
    pub detections: Vec<Detection>,
    pub queries: Vec<AngleQuery>,
}

/// The mathematical content of a `TickReport`.
pub struct TickReportView {
    pub detections: Seq<DetectionView>,
    pub queries: Seq<AngleQueryView>,
}

impl View for TickReport {
    type V = TickReportView;

    open spec fn view(&self) -> TickReportView {
        TickReportView {
            detections: detections_view(self.detections@),
            queries: queries_view(self.queries@),
        }
    }
}

/// Why a detector's callback failed.
#[derive(Debug, Clone, PartialEq, Eq)]
pub struct AlgorithmError {
    pub message: String,
}

/// Which kinds of message a detector wants to see.
pub enum Interest {
    All,
    Nothing,
    Only(Seq<MessageType>),
}

impl Interest {
    /// Whether a message of the given kind is wanted.
    pub open spec fn covers(self, kind: MessageType) -> bool {
        match self {
            Interest::All => true,
            Interest::Nothing => false,
            Interest::Only(kinds) => kinds.contains(kind),
        }
    }
}

/// The interest that a declaration states: a list of kinds, or `Err(true)`
/// for every kind and `Err(false)` for none.
pub open spec fn declared_interest(declaration: Result<Vec<MessageType>, bool>) -> Interest {
    match declaration {
        Ok(kinds) => Interest::Only(kinds@),
        Err(all) => if all {
            Interest::All
        } else {
            Interest::Nothing
        },
    }
}

/// What a callback of a detector leads to: the detector's state afterwards,
/// and what the callback returns, `None` standing for a failure.
pub struct Outcome<M, R> {
    pub model: M,
    pub result: Option<R>,
}

/// The view of what a callback returned that yields findings.
pub open spec fn findings_returned(returned: Result<Vec<Detection>, AlgorithmError>) -> Option<
    Seq<DetectionView>,
> {
    match returned {
        Ok(found) => Some(detections_view(found@)),
        Err(_) => None,
    }
}

/// The view of what a tick callback returned.
pub open spec fn report_returned(returned: Result<TickReport, AlgorithmError>) -> Option<
    TickReportView,
> {
    match returned {
        Ok(report) => Some(report@),
        Err(_) => None,
    }
}

/// The view of what a callback without findings returned.
pub open spec fn unit_returned(returned: Result<(), AlgorithmError>) -> Option<()> {
    match returned {
        Ok(_) => Some(()),
        Err(_) => None,
    }
}

/// A detector: a state machine that the orchestrator drives through
/// `init`, then messages and tick boundaries, then `finish`.
///
/// Each callback has a model, a spec function that says what the callback
/// does to the detector's state and what it returns; the callback's contract
/// is that it follows its model. An implementation states its behaviour by
/// defining the models. Of a model that an implementation leaves undefined
/// nothing is known.
pub trait CheatAlgorithm: Sized {
    /// The mathematical content of the detector's state.
    type Model;

    /// The content of this detector's state.
    open spec fn model(&self) -> Self::Model {
        arbitrary()
    }

    /// Whether the detector runs when no selection is made.
    open spec fn default_model(m: Self::Model) -> bool {
        arbitrary()
    }

    /// The name under which the detector is selected and under which it
    /// reports.
    open spec fn name_model(m: Self::Model) -> Seq<char> {
        arbitrary()
    }

    /// The kinds of message that the detector wants to see.
    open spec fn interest_model(m: Self::Model) -> Interest {
        arbitrary()
    }

    /// What `init` does.
    open spec fn init_model(m: Self::Model) -> Outcome<Self::Model, ()> {
        arbitrary()
    }

    /// What `on_message` does.
    open spec fn message_model(m: Self::Model, message: Message, s: StateView, tick: u32) -> Outcome<
        Self::Model,
        Seq<DetectionView>,
    > {
        arbitrary()
    }

    /// What `on_tick` does.
    open spec fn tick_model(m: Self::Model, s: StateView) -> Outcome<Self::Model, TickReportView> {
        arbitrary()
    }

    /// What `on_angles` does.
    open spec fn angles_model(m: Self::Model, query: AngleQueryView, deltas: Seq<i64>) -> Outcome<
        Self::Model,
        Seq<DetectionView>,
    > {
        arbitrary()
    }

    /// What `finish` does.
    open spec fn finish_model(m: Self::Model) -> Outcome<Self::Model, Seq<DetectionView>> {
        arbitrary()
    }

    /// What `set_param` does.
    open spec fn param_model(m: Self::Model, name: Seq<char>, value: Parameter) -> Self::Model {
        arbitrary()
    }

    /// The detector's parameters, by name, with their current values.
    open spec fn params_model(m: Self::Model) -> Seq<(Seq<char>, Parameter)> {
        arbitrary()
    }

    /// Whether the detector runs when no selection is made.
    fn default(&self) -> (enabled: bool)
        ensures
            enabled == Self::default_model(self.model()),
    ;

    /// The detector's name.
    fn algorithm_name(&self) -> (name: &str)
        ensures
            name@ == Self::name_model(self.model()),
    ;

    /// Declares which kinds of message the detector wants to see: a list of
    /// kinds, or `Err(true)` for every kind and `Err(false)` for none.
    fn handled_messages(&self) -> (kinds: Result<Vec<MessageType>, bool>)
        ensures
            declared_interest(kinds) == Self::interest_model(self.model()),
    ;

    /// Whether the detector wants to see messages of the given kind.
    fn does_handle(&self, message_type: MessageType) -> (wanted: bool)
        ensures
            wanted == Self::interest_model(self.model()).covers(message_type),
    ;

    /// Called once, before any message.
    fn init(&mut self) -> (done: Result<(), AlgorithmError>)
        ensures
            (Outcome { model: final(self).model(), result: unit_returned(done) })
                == Self::init_model(old(self).model()),
    ;

    /// Called for each message of a kind that the detector wants to see, with
    /// the state as the message left it.
    fn on_message(&mut self, message: &Message, state: &CheatAnalyserState, tick: u32) -> (found:
        Result<Vec<Detection>, AlgorithmError>)
        ensures
            (Outcome { model: final(self).model(), result: findings_returned(found) })
                == Self::message_model(old(self).model(), *message, state@, tick),
    ;

    /// Called at each tick boundary, with the players that are followed.
    fn on_tick(&mut self, state: &CheatAnalyserState) -> (report: Result<
        TickReport,
        AlgorithmError,
    >)
        ensures
            (Outcome { model: final(self).model(), result: report_returned(report) })
                == Self::tick_model(old(self).model(), state@),
    ;

    /// Called with the distances that were measured for a request of this
    /// detector, one for each pair of the request.
    fn on_angles(&mut self, query: &AngleQuery, deltas: &Vec<i64>) -> (found: Result<
        Vec<Detection>,
        AlgorithmError,
    >)
        ensures
            (Outcome { model: final(self).model(), result: findings_returned(found) })
                == Self::angles_model(old(self).model(), query@, deltas@),
    ;

    /// Called once, after the last message.
    fn finish(&mut self) -> (found: Result<Vec<Detection>, AlgorithmError>)
        ensures
            (Outcome { model: final(self).model(), result: findings_returned(found) })
                == Self::finish_model(old(self).model()),
    ;

    /// Sets a parameter by name. A name that the detector does not know, and
    /// a value of a kind that the parameter does not take, change nothing.
    fn set_param(&mut self, name: &str, value: Parameter)
        ensures
            final(self).model() == Self::param_model(old(self).model(), name@, value),
    ;

    /// The detector's parameters with their current values.
    fn params(&self) -> (params: Parameters)
        ensures
            params_view(params@) == Self::params_model(self.model()),
    ;
}

/// Tells whether a list of kinds holds the given kind.
pub fn kinds_contain(kinds: &Vec<MessageType>, kind: MessageType) -> (found: bool)
    ensures
        found == kinds@.contains(kind),
{
    let mut i: usize = 0;
    while i < kinds.len()
        invariant
            i <= kinds.len(),
            forall|j: int| 0 <= j < i ==> kinds@[j] != kind,
        decreases kinds.len() - i,
    {
        if kinds[i] == kind {
            assert(kinds@[i as int] == kind);
            return true;
        }
        i += 1;
    }
    false
}

/// Tells whether a kind of message is covered by a declaration of interest.
pub fn declaration_covers(declaration: &Result<Vec<MessageType>, bool>, kind: MessageType) -> (
    covered: bool)
    ensures
        covered == declared_interest(*declaration).covers(kind),
{
    match declaration {
        Ok(kinds) => kinds_contain(kinds, kind),
        Err(all) => *all,
    }
}

/// Whether a finding about `player` has to go when an event is recorded for
/// that player at `tick`: it does if it is not more than `window` ticks old.
pub open spec fn retracted_by(d: DetectionView, player: u64, tick: u32, window: u32) -> bool {
    d.player == player && tick - d.tick <= window
}

/// The findings among the first `n` that stay when an event is recorded for
/// `player` at `tick`, in their order.
pub open spec fn kept_findings(
    detections: Seq<DetectionView>,
    player: u64,
    tick: u32,
    window: u32,
    n: int,
) -> Seq<DetectionView>
    decreases n,
{
    if n <= 0 {
        Seq::empty()
    } else {
        let rest = kept_findings(detections, player, tick, window, n - 1);
        if retracted_by(detections[n - 1], player, tick, window) {
            rest
        } else {
            rest.push(detections[n - 1])
        }
    }
}

/// Every finding about `player` that is not more than `window` ticks old is
/// gone from the findings that stay, and nothing is among them that was not
/// there before.
pub proof fn lemma_kept_findings(
    detections: Seq<DetectionView>,
    player: u64,
    tick: u32,
    window: u32,
    n: int,
)
    requires
        0 <= n <= detections.len(),
    ensures
        forall|d: DetectionView| #[trigger]
            kept_findings(detections, player, tick, window, n).contains(d) ==> !retracted_by(
                d,
                player,
                tick,
                window,
            ) && detections.contains(d),
        forall|i: int|
            0 <= i < n && !retracted_by(#[trigger] detections[i], player, tick, window)
                ==> kept_findings(detections, player, tick, window, n).contains(detections[i]),
    decreases n,
{
    if n > 0 {
        lemma_kept_findings(detections, player, tick, window, n - 1);
        let rest = kept_findings(detections, player, tick, window, n - 1);
        let all = kept_findings(detections, player, tick, window, n);
        let last = detections[n - 1];
        if retracted_by(last, player, tick, window) {
        } else {
            assert(all == rest.push(last));
            assert forall|d: DetectionView| #[trigger] all.contains(d) implies !retracted_by(
                d,
                player,
                tick,
                window,
            ) && detections.contains(d) by {
                let k = choose|k: int| 0 <= k < all.len() && all[k] == d;
                if k < rest.len() {
                    assert(rest[k] == d);
                    assert(rest.contains(d));
                } else {
                    assert(d == last);
                }
            }
            assert forall|i: int|
                0 <= i < n && !retracted_by(
                    #[trigger] detections[i],
                    player,
                    tick,
                    window,
                ) implies all.contains(detections[i]) by {
                if i < n - 1 {
                    let k = choose|k: int| 0 <= k < rest.len() && rest[k] == detections[i];
                    assert(all[k] == detections[i]);
                } else {
                    assert(all[rest.len() as int] == last);
                }
            }
        }
    }
}

/// Drops the findings about `player` that are not more than `window` ticks
/// old at `tick`, and keeps the others in their order.
pub fn retract(detections: &mut Vec<Detection>, player: u64, tick: u32, window: u32)
    ensures
        detections_view(final(detections)@) == kept_findings(
            detections_view(old(detections)@),
            player,
            tick,
            window,
            old(detections)@.len() as int,
        ),
{
    let mut kept: Vec<Detection> = Vec::new();
    let mut all: Vec<Detection> = Vec::new();
    std::mem::swap(detections, &mut all);
    let ghost before = detections_view(all@);
    assert(detections_view(kept@) =~= Seq::empty());
    for d in it: all
        invariant
            before == detections_view(it.seq()),
            detections_view(kept@) == kept_findings(before, player, tick, window, it.index() as int),
    {
        assert(d@ == before[it.index() as int]);
        let ghost earlier = detections_view(kept@);
        let goes = d.player == player && (d.tick > tick || tick - d.tick <= window);
        if !goes {
            kept.push(d);
            assert(detections_view(kept@) =~= earlier.push(before[it.index() as int]));
        }
    }
    *detections = kept;
}

} // verus!
