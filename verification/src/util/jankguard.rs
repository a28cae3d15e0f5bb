//! The guard that keeps detectors quiet around spawns, teleports and shots.

use vstd::prelude::*;
use std::collections::HashMap;
use crate::algorithm::{
    detections_view, kept_findings, lemma_kept_findings, retract, retracted_by, Detection,
    DetectionView,
};
use crate::base::identity::{
    detector_view, identity_of_entity, identity_of_user, is_visible, tracked_identity,
    visible_players,
};
use crate::base::props::{send_prop_known_names, send_prop_names};
use crate::base::records::{GameEvent, Message, MessageType, Prop, PropValue, TempEntity};
use crate::base::state::{CheatAnalyserState, PlayerView, StateView};
use crate::util::helpers::{handle_to_entid, Vector};
use crate::util::text::same_text;

verus! {

/// The distance, in fixed point, beyond which a move within one tick counts
/// as a teleport: 256 map units.
pub const TELEPORT_DIST: i64 = 256_000_000;

/// For how many ticks after a spawn or a teleport a player is left alone, and
/// how far back findings are withdrawn when one is recorded.
pub const QUIET_TICKS: u32 = 60;

/// The class of the transient effect that draws a bullet tracer.
pub const FIRE_BULLETS_CLASS: u16 = 152;

/// The class of the transient effect that cues a player animation.
pub const PLAYER_ANIM_CLASS: u16 = 165;

/// Tracks, per identity, when a player last spawned, teleported and fired, so
/// that detectors can stay silent around these breaks in a player's motion.
pub struct JankGuard {
    last_spawns: HashMap<u64, u32>,
    last_teleport: HashMap<u64, u32>,
    last_fire: HashMap<u64, u32>,
    last_tick: HashMap<u64, Vector>,
}

/// The mathematical content of a `JankGuard`: the tick of the last spawn,
/// teleport and shot of each identity that had one, and where each identity
/// stood at the previous tick boundary at which it was followed.
pub struct JankGuardView {
    pub last_spawn: Map<u64, u32>,
    pub last_teleport: Map<u64, u32>,
    pub last_fire: Map<u64, u32>,
    pub last_position: Map<u64, Vector>,
}

impl JankGuardView {
    /// The state of a guard that has recorded nothing.
    pub open spec fn fresh() -> JankGuardView {
        JankGuardView {
            last_spawn: Map::empty(),
            last_teleport: Map::empty(),
            last_fire: Map::empty(),
            last_position: Map::empty(),
        }
    }
}

impl View for JankGuard {
    type V = JankGuardView;

    closed spec fn view(&self) -> JankGuardView {
        JankGuardView {
            last_spawn: self.last_spawns@,
            last_teleport: self.last_teleport@,
            last_fire: self.last_fire@,
            last_position: self.last_tick@,
        }
    }
}

/// The tick recorded for a player, zero if none was.
pub open spec fn last_of(ticks: Map<u64, u32>, player: u64) -> u32 {
    if ticks.contains_key(player) {
        ticks[player]
    } else {
        0
    }
}

/// The ticks that passed from `last` to `tick`; none if `tick` lies before
/// `last`.
pub open spec fn ticks_since(last: u32, tick: u32) -> u32 {
    if tick >= last {
        (tick - last) as u32
    } else {
        0
    }
}

/// The ticks since the player last spawned or teleported, whichever came
/// later.
pub open spec fn quiet_for(g: JankGuardView, player: u64, tick: u32) -> u32 {
    let teleported = ticks_since(last_of(g.last_teleport, player), tick);
    let spawned = ticks_since(last_of(g.last_spawn, player), tick);
    if teleported < spawned {
        teleported
    } else {
        spawned
    }
}

/// Whether a player is left alone at `tick` because it spawned or teleported
/// too recently.
pub open spec fn is_quiet(g: JankGuardView, player: u64, tick: u32) -> bool {
    quiet_for(g, player, tick) < QUIET_TICKS
}

/// A detector's buffered findings after it has met `player` at the boundary
/// of `tick`. If the player spawned or teleported at this very tick, the
/// findings about it of the last `QUIET_TICKS` ticks are withdrawn: the break
/// may have caused them.
pub open spec fn settled(
    detections: Seq<DetectionView>,
    g: JankGuardView,
    player: u64,
    tick: u32,
) -> Seq<DetectionView> {
    if quiet_for(g, player, tick) == 0 {
        kept_findings(detections, player, tick, QUIET_TICKS, detections.len() as int)
    } else {
        detections
    }
}

/// The square of the distance between two points.
pub open spec fn squared_distance(a: Vector, b: Vector) -> int {
    (a.x - b.x) * (a.x - b.x) + (a.y - b.y) * (a.y - b.y) + (a.z - b.z) * (a.z - b.z)
}

/// Whether the way from `a` to `b` is longer than a player can move in one
/// tick.
pub open spec fn moved_too_far(a: Vector, b: Vector) -> bool {
    squared_distance(a, b) > TELEPORT_DIST * TELEPORT_DIST
}

/// The entity that a property of a transient effect names as the one who
/// fired. A bullet tracer names it by entity handle in `m_iPlayer`; an
/// animation cue names it by a handle with a serial number in `m_hPlayer`,
/// where a handle that does not fit 32 bits reads as zero. Both are integers;
/// any other property names nobody.
pub open spec fn shooter_entity(class_id: u16, prop: Prop) -> Option<u32> {
    match (send_prop_known_names(prop.identifier), prop.value) {
        (Some((table, name)), PropValue::Integer(x)) => {
            if class_id == FIRE_BULLETS_CLASS && table == "DT_TEFireBullets"@ && name
                == "m_iPlayer"@ {
                Some(x as u32)
            } else if class_id == PLAYER_ANIM_CLASS && table == "DT_TEPlayerAnimEvent"@ && name
                == "m_hPlayer"@ {
                if 0 <= x <= u32::MAX {
                    Some(((x as u32) & 0x7FF) as u32)
                } else {
                    Some(0)
                }
            } else {
                None
            }
        },
        _ => None,
    }
}

/// The last shots after one property of a transient effect.
pub open spec fn fire_prop_step(
    fire: Map<u64, u32>,
    players: Seq<PlayerView>,
    class_id: u16,
    prop: Prop,
    tick: u32,
) -> Map<u64, u32> {
    match shooter_entity(class_id, prop) {
        Some(entity) => match identity_of_entity(players, entity) {
            Some(id) => fire.insert(id, tick),
            None => fire,
        },
        None => fire,
    }
}

/// The last shots after the first `n` properties of a transient effect.
pub open spec fn fire_props_applied(
    fire: Map<u64, u32>,
    players: Seq<PlayerView>,
    class_id: u16,
    props: Seq<Prop>,
    tick: u32,
    n: int,
) -> Map<u64, u32>
    decreases n,
{
    if n <= 0 {
        fire
    } else {
        fire_prop_step(
            fire_props_applied(fire, players, class_id, props, tick, n - 1),
            players,
            class_id,
            props[n - 1],
            tick,
        )
    }
}

/// The last shots after the first `n` transient effects of a message.
pub open spec fn fire_events_applied(
    fire: Map<u64, u32>,
    players: Seq<PlayerView>,
    events: Seq<TempEntity>,
    tick: u32,
    n: int,
) -> Map<u64, u32>
    decreases n,
{
    if n <= 0 {
        fire
    } else {
        fire_props_applied(
            fire_events_applied(fire, players, events, tick, n - 1),
            players,
            events[n - 1].class_id,
            events[n - 1].props@,
            tick,
            events[n - 1].props@.len() as int,
        )
    }
}

/// A map of ticks after `tick` is recorded for the user with the given id,
/// if a player carries that id.
pub open spec fn recorded_for_user(
    ticks: Map<u64, u32>,
    players: Seq<PlayerView>,
    user_id: u16,
    tick: u32,
) -> Map<u64, u32> {
    match identity_of_user(players, user_id) {
        Some(id) => ticks.insert(id, tick),
        None => ticks,
    }
}

/// The guard after a message that arrived at `tick`. A spawn, and the
/// handing out of a player's equipment, record a spawn; a teleport event
/// records a teleport; bullet tracers and animation cues record a shot.
pub open spec fn after_message(g: JankGuardView, message: Message, s: StateView, tick: u32)
    -> JankGuardView {
    match message {
        Message::GameEvent(GameEvent::PlayerSpawn { user_id }) => JankGuardView {
            last_spawn: recorded_for_user(g.last_spawn, s.players, user_id, tick),
            ..g
        },
        Message::GameEvent(GameEvent::PostInventoryApplication { user_id }) => JankGuardView {
            last_spawn: recorded_for_user(g.last_spawn, s.players, user_id, tick),
            ..g
        },
        Message::GameEvent(GameEvent::PlayerTeleported { user_id }) => JankGuardView {
            last_teleport: recorded_for_user(g.last_teleport, s.players, user_id, tick),
            ..g
        },
        Message::TempEntities(events) => JankGuardView {
            last_fire: fire_events_applied(
                g.last_fire,
                s.players,
                events@,
                tick,
                events@.len() as int,
            ),
            ..g
        },
        _ => g,
    }
}

/// What a pass over the players at a tick boundary has gathered: the last
/// teleports, and where each followed identity stands now.
pub struct TickScan {
    pub teleport: Map<u64, u32>,
    pub positions: Map<u64, Vector>,
}

/// The scan after one player. A followed player that moved too far since the
/// previous boundary has teleported at this tick.
pub open spec fn scan_step(scan: TickScan, before: Map<u64, Vector>, p: PlayerView, tick: u32)
    -> TickScan {
    match tracked_identity(p) {
        Some(id) => TickScan {
            teleport: if before.contains_key(id) && moved_too_far(before[id], p.position) {
                scan.teleport.insert(id, tick)
            } else {
                scan.teleport
            },
            positions: scan.positions.insert(id, p.position),
        },
        None => scan,
    }
}

/// The scan after the first `n` players.
pub open spec fn scanned(
    scan: TickScan,
    before: Map<u64, Vector>,
    players: Seq<PlayerView>,
    tick: u32,
    n: int,
) -> TickScan
    decreases n,
{
    if n <= 0 {
        scan
    } else {
        scan_step(scanned(scan, before, players, tick, n - 1), before, players[n - 1], tick)
    }
}

/// The guard after a tick boundary: teleports by distance are recorded, and
/// the positions of the players followed at this boundary replace those of
/// the previous one.
pub open spec fn after_tick(g: JankGuardView, s: StateView) -> JankGuardView {
    let scan = scanned(
        TickScan { teleport: g.last_teleport, positions: Map::empty() },
        g.last_position,
        s.players,
        s.tick,
        s.players.len() as int,
    );
    JankGuardView { last_teleport: scan.teleport, last_position: scan.positions, ..g }
}

/// A teleport that is on record for the tick of a boundary is still on
/// record for that tick after the boundary.
pub proof fn lemma_teleport_stays_recorded(g: JankGuardView, s: StateView, player: u64)
    requires
        g.last_teleport.contains_key(player),
        g.last_teleport[player] == s.tick,
    ensures
        after_tick(g, s).last_teleport.contains_key(player),
        after_tick(g, s).last_teleport[player] == s.tick,
{
    lemma_scan_keeps_teleport(
        TickScan { teleport: g.last_teleport, positions: Map::empty() },
        g.last_position,
        s.players,
        s.tick,
        s.players.len() as int,
        player,
    );
}

proof fn lemma_scan_keeps_teleport(
    scan: TickScan,
    before: Map<u64, Vector>,
    players: Seq<PlayerView>,
    tick: u32,
    n: int,
    player: u64,
)
    requires
        scan.teleport.contains_key(player),
        scan.teleport[player] == tick,
    ensures
        scanned(scan, before, players, tick, n).teleport.contains_key(player),
        scanned(scan, before, players, tick, n).teleport[player] == tick,
    decreases n,
{
    if n > 0 {
        lemma_scan_keeps_teleport(scan, before, players, tick, n - 1, player);
    }
}

/// A player for whom a teleport is on record for `tick` is left alone at
/// `tick`, and has been so for zero ticks.
pub proof fn lemma_teleport_quiets(g: JankGuardView, player: u64, tick: u32)
    requires
        g.last_teleport.contains_key(player),
        g.last_teleport[player] == tick,
    ensures
        quiet_for(g, player, tick) == 0,
        is_quiet(g, player, tick),
{
}

/// When a player spawned or teleported at `tick`, no finding about it that
/// is at most `QUIET_TICKS` ticks old is left among the settled findings.
/// Settling adds nothing.
pub proof fn lemma_settled(detections: Seq<DetectionView>, g: JankGuardView, player: u64, tick: u32)
    ensures
        forall|d: DetectionView| #[trigger]
            settled(detections, g, player, tick).contains(d) ==> detections.contains(d),
        quiet_for(g, player, tick) == 0 ==> forall|d: DetectionView| #[trigger]
            settled(detections, g, player, tick).contains(d) ==> !retracted_by(
                d,
                player,
                tick,
                QUIET_TICKS,
            ),
{
    lemma_kept_findings(detections, player, tick, QUIET_TICKS, detections.len() as int);
}

proof fn lemma_scanned_prefix(
    scan: TickScan,
    before: Map<u64, Vector>,
    players: Seq<PlayerView>,
    tick: u32,
    extra: PlayerView,
    n: int,
)
    requires
        0 <= n <= players.len(),
    ensures
        scanned(scan, before, players.push(extra), tick, n) == scanned(scan, before, players, tick, n),
    decreases n,
{
    if n > 0 {
        lemma_scanned_prefix(scan, before, players, tick, extra, n - 1);
        assert(players.push(extra)[n - 1] == players[n - 1]);
    }
}

/// A pass over the visible ones among the first `n` players gathers what a
/// pass over all of the first `n` gathers: players that are not visible are
/// not followed, and a pass takes note of followed players only.
pub proof fn lemma_scanned_of_visible(
    scan: TickScan,
    before: Map<u64, Vector>,
    players: Seq<PlayerView>,
    tick: u32,
    n: int,
)
    requires
        0 <= n <= players.len(),
    ensures
        scanned(
            scan, before, visible_players(players, n), tick,
            visible_players(players, n).len() as int,
        ) == scanned(scan, before, players, tick, n),
    decreases n,
{
    if n > 0 {
        lemma_scanned_of_visible(scan, before, players, tick, n - 1);
        let fewer = visible_players(players, n - 1);
        let p = players[n - 1];
        if is_visible(p) {
            lemma_scanned_prefix(scan, before, fewer, tick, p, fewer.len() as int);
            assert(fewer.push(p)[fewer.len() as int] == p);
        }
    }
}

/// A tick boundary means the same to the guard whether it is shown the whole
/// state or the state limited to the visible players.
pub proof fn lemma_after_tick_of_view(g: JankGuardView, s: StateView)
    ensures
        after_tick(g, detector_view(s)) == after_tick(g, s),
{
    lemma_scanned_of_visible(
        TickScan { teleport: g.last_teleport, positions: Map::empty() },
        g.last_position,
        s.players,
        s.tick,
        s.players.len() as int,
    );
}

proof fn lemma_square_bound(d: int, limit: int)
    requires
        limit >= 0,
    ensures
        d * d >= 0,
        (d > limit || d < -limit) ==> d * d > limit * limit,
        (-limit <= d <= limit) ==> d * d <= limit * limit,
{
    assert(d * d >= 0) by (nonlinear_arith);
    assert((d > limit || d < -limit) ==> d * d > limit * limit) by (nonlinear_arith)
        requires
            limit >= 0,
    ;
    assert((-limit <= d <= limit) ==> d * d <= limit * limit) by (nonlinear_arith)
        requires
            limit >= 0,
    ;
}

/// Whether the way from `a` to `b` is longer than a player can move in one
/// tick.
pub fn jumped(a: &Vector, b: &Vector) -> (far: bool)
    ensures
        far == moved_too_far(*a, *b),
{
    let limit: i128 = 256_000_000;
    let dx: i128 = a.x as i128 - b.x as i128;
    let dy: i128 = a.y as i128 - b.y as i128;
    let dz: i128 = a.z as i128 - b.z as i128;
    proof {
        lemma_square_bound(dx as int, limit as int);
        lemma_square_bound(dy as int, limit as int);
        lemma_square_bound(dz as int, limit as int);
        assert(limit * limit == 65_536_000_000_000_000) by (nonlinear_arith)
            requires
                limit == 256_000_000,
        ;
    }
    if dx > limit || dx < -limit || dy > limit || dy < -limit || dz > limit || dz < -limit {
        return true;
    }
    dx * dx + dy * dy + dz * dz > limit * limit
}

/// The tick recorded for a player in a map of ticks, zero if none is.
fn lookup(ticks: &HashMap<u64, u32>, player: &u64) -> (last: u32)
    ensures
        last == last_of(ticks@, *player),
{
    match ticks.get(player) {
        Some(t) => *t,
        None => 0,
    }
}

fn elapsed(last: u32, tick: u32) -> (passed: u32)
    ensures
        passed == ticks_since(last, tick),
{
    if tick >= last {
        tick - last
    } else {
        0
    }
}

/// Reads from a property of a transient effect who fired.
fn read_shooter(class_id: u16, prop: &Prop) -> (entity: Option<u32>)
    ensures
        entity == shooter_entity(class_id, *prop),
{
    let x: i64 = match &prop.value {
        PropValue::Integer(x) => *x,
        _ => {
            return None;
        },
    };
    if class_id != FIRE_BULLETS_CLASS && class_id != PLAYER_ANIM_CLASS {
        return None;
    }
    match send_prop_names(prop.identifier) {
        Some((table, name)) => {
            if class_id == FIRE_BULLETS_CLASS && same_text(table.as_str(), "DT_TEFireBullets")
                && same_text(name.as_str(), "m_iPlayer") {
                Some(x as u32)
            } else if class_id == PLAYER_ANIM_CLASS && same_text(
                table.as_str(),
                "DT_TEPlayerAnimEvent",
            ) && same_text(name.as_str(), "m_hPlayer") {
                if 0 <= x && x <= 0xFFFF_FFFFi64 {
                    Some(handle_to_entid(x as u32))
                } else {
                    Some(0)
                }
            } else {
                None
            }
        },
        None => None,
    }
}

impl JankGuard {
    /// A guard that has recorded nothing.
    pub fn new() -> (guard: JankGuard)
        ensures
            guard@ == JankGuardView::fresh(),
    {
        JankGuard {
            last_spawns: HashMap::new(),
            last_teleport: HashMap::new(),
            last_fire: HashMap::new(),
            last_tick: HashMap::new(),
        }
    }

    /// The ticks since the player last teleported. A player that never did
    /// counts from tick zero.
    pub fn teleported(&self, player: &u64, tick: u32) -> (passed: u32)
        ensures
            passed == ticks_since(last_of(self@.last_teleport, *player), tick),
    {
        elapsed(lookup(&self.last_teleport, player), tick)
    }

    /// The ticks since the player last spawned. A player that never did
    /// counts from tick zero.
    pub fn spawned(&self, player: &u64, tick: u32) -> (passed: u32)
        ensures
            passed == ticks_since(last_of(self@.last_spawn, *player), tick),
    {
        elapsed(lookup(&self.last_spawns, player), tick)
    }

    /// The ticks since the player last fired. A player that never did counts
    /// from tick zero.
    pub fn fired(&self, player: &u64, tick: u32) -> (passed: u32)
        ensures
            passed == ticks_since(last_of(self@.last_fire, *player), tick),
    {
        elapsed(lookup(&self.last_fire, player), tick)
    }

    /// Tells whether the player is left alone at `tick`, and withdraws the
    /// buffered findings that a break at this very tick puts in doubt.
    pub fn settle(&self, detections: &mut Vec<Detection>, player: &u64, tick: u32) -> (quiet:
        bool)
        ensures
            quiet == is_quiet(self@, *player, tick),
            detections_view(final(detections)@) == settled(
                detections_view(old(detections)@),
                self@,
                *player,
                tick,
            ),
    {
        let teleported: u32 = self.teleported(player, tick);
        let spawned: u32 = self.spawned(player, tick);
        let ticks_since_event: u32 = if teleported < spawned {
            teleported
        } else {
            spawned
        };
        if ticks_since_event == 0 {
            retract(detections, *player, tick, QUIET_TICKS);
        }
        ticks_since_event < QUIET_TICKS
    }

    /// The kinds of message that the guard reads: game events and transient
    /// effects.
    pub fn handled_messages(&self) -> (kinds: Result<Vec<MessageType>, bool>)
        ensures
            kinds matches Ok(list) && list@ == seq![
                MessageType::GameEvent,
                MessageType::TempEntities,
            ],
    {
        let mut list: Vec<MessageType> = Vec::new();
        list.push(MessageType::GameEvent);
        list.push(MessageType::TempEntities);
        Ok(list)
    }

    fn record_shots(&mut self, event: &TempEntity, state: &CheatAnalyserState, tick: u32)
        ensures
            final(self)@ == (JankGuardView {
                last_fire: fire_props_applied(
                    old(self)@.last_fire,
                    state@.players,
                    event.class_id,
                    event.props@,
                    tick,
                    event.props@.len() as int,
                ),
                ..old(self)@
            }),
    {
        let mut i: usize = 0;
        while i < event.props.len()
            invariant
                i <= event.props.len(),
                self@ == (JankGuardView {
                    last_fire: fire_props_applied(
                        old(self)@.last_fire,
                        state@.players,
                        event.class_id,
                        event.props@,
                        tick,
                        i as int,
                    ),
                    ..old(self)@
                }),
            decreases event.props.len() - i,
        {
            if let Some(entity) = read_shooter(event.class_id, &event.props[i]) {
                if let Some(id) = state.get_id64_from_entity(entity) {
                    self.last_fire.insert(id, tick);
                }
            }
            i += 1;
        }
    }

    /// Takes note of a message that arrived at `tick`.
    pub fn on_message(&mut self, message: &Message, state: &CheatAnalyserState, tick: u32)
        ensures
            final(self)@ == after_message(old(self)@, *message, state@, tick),
    {
        match message {
            Message::GameEvent(GameEvent::PlayerSpawn { user_id }) => {
                if let Some(id) = state.get_id64_from_userid(*user_id) {
                    self.last_spawns.insert(id, tick);
                }
            },
            Message::GameEvent(GameEvent::PostInventoryApplication { user_id }) => {
                if let Some(id) = state.get_id64_from_userid(*user_id) {
                    self.last_spawns.insert(id, tick);
                }
            },
            Message::GameEvent(GameEvent::PlayerTeleported { user_id }) => {
                if let Some(id) = state.get_id64_from_userid(*user_id) {
                    self.last_teleport.insert(id, tick);
                }
            },
            Message::TempEntities(events) => {
                let mut i: usize = 0;
                while i < events.len()
                    invariant
                        i <= events.len(),
                        self@ == (JankGuardView {
                            last_fire: fire_events_applied(
                                old(self)@.last_fire,
                                state@.players,
                                events@,
                                tick,
                                i as int,
                            ),
                            ..old(self)@
                        }),
                    decreases events.len() - i,
                {
                    self.record_shots(&events[i], state, tick);
                    i += 1;
                }
            },
            _ => {},
        }
    }

    /// Takes note of a tick boundary: compares where each followed player
    /// stands with where it stood at the previous boundary.
    pub fn on_tick(&mut self, state: &CheatAnalyserState)
        ensures
            final(self)@ == after_tick(old(self)@, state@),
    {
        let mut states: HashMap<u64, Vector> = HashMap::new();
        let mut i: usize = 0;
        while i < state.players.len()
            invariant
                i <= state.players.len(),
                self.last_tick@ == old(self).last_tick@,
                self.last_spawns@ == old(self).last_spawns@,
                self.last_fire@ == old(self).last_fire@,
                (TickScan { teleport: self.last_teleport@, positions: states@ }) == scanned(
                    TickScan { teleport: old(self).last_teleport@, positions: Map::empty() },
                    old(self).last_tick@,
                    state@.players,
                    state.tick,
                    i as int,
                ),
            decreases state.players.len() - i,
        {
            let player = &state.players[i];
            if let Some(steam_id) = player.tracked_identity() {
                let moved = match self.last_tick.get(&steam_id) {
                    Some(previous) => jumped(previous, &player.position),
                    None => false,
                };
                if moved {
                    self.last_teleport.insert(steam_id, state.tick);
                }
                states.insert(steam_id, player.position);
            }
            i += 1;
        }
        self.last_tick = states;
    }
}

} // verus!
