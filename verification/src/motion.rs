//! Values that move to where they belong instead of jumping there.
//!
//! How far a value gets in one pass is a spring's doing, on the caller's side.
//! Which values move, from where and where to, is decided here. Values are
//! kept as the bit patterns of their single-precision numbers.

use vstd::prelude::*;

use crate::fade::{FULL, SILENT};
use crate::memory::{load, same_slot, store, Memo};

verus! {

/// Where an animated value stands and how fast it moves.
#[derive(Clone, Copy, Debug, PartialEq, Eq)]
pub struct State {
    pub value: u32,
    pub velocity: u32,
}

impl State {
    /// The state of a value at rest.
    pub open spec fn resting(value: u32) -> State {
        State { value, velocity: SILENT }
    }

    /// A value at rest.
    pub fn at(value: u32) -> (state: Self)
        ensures
            state == Self::resting(value),
    {
        Self { value, velocity: SILENT }
    }
}

/// How a value eases between two points in time.
#[derive(Clone, Copy, Debug, PartialEq, Eq)]
pub enum Curve {
    Linear,
    EaseIn,
    EaseOut,
    EaseInOut,
    Standard,
}

/// The two control points of a curve, in hundredths.
#[derive(Clone, Copy, Debug, PartialEq, Eq)]
pub struct ControlPoints {
    pub x1: u8,
    pub y1: u8,
    pub x2: u8,
    pub y2: u8,
}

impl Curve {
    /// The control points of the curve, in hundredths.
    pub open spec fn points(self) -> ControlPoints {
        match self {
            Curve::Linear => ControlPoints { x1: 0, y1: 0, x2: 100, y2: 100 },
            Curve::EaseIn => ControlPoints { x1: 42, y1: 0, x2: 100, y2: 100 },
            Curve::EaseOut => ControlPoints { x1: 0, y1: 0, x2: 58, y2: 100 },
            Curve::EaseInOut => ControlPoints { x1: 42, y1: 0, x2: 58, y2: 100 },
            Curve::Standard => ControlPoints { x1: 25, y1: 10, x2: 25, y2: 100 },
        }
    }

    /// The control points of the curve, in hundredths.
    pub fn control_points(self) -> (points: ControlPoints)
        ensures
            points == self.points(),
    {
        match self {
            Curve::Linear => ControlPoints { x1: 0, y1: 0, x2: 100, y2: 100 },
            Curve::EaseIn => ControlPoints { x1: 42, y1: 0, x2: 100, y2: 100 },
            Curve::EaseOut => ControlPoints { x1: 0, y1: 0, x2: 58, y2: 100 },
            Curve::EaseInOut => ControlPoints { x1: 42, y1: 0, x2: 58, y2: 100 },
            Curve::Standard => ControlPoints { x1: 25, y1: 10, x2: 25, y2: 100 },
        }
    }
}

/// Where a pass finds a value.
#[derive(Clone, Copy, Debug, PartialEq, Eq)]
pub enum Stepping {
    /// There already, for someone who asked for less movement.
    Arrived(u32),
    /// On its way from here.
    Moving(State),
}

/// The value of a switch.
pub open spec fn switched(on: bool) -> u32 {
    if on {
        FULL
    } else {
        SILENT
    }
}

/// The value of a switch.
pub fn switch_target(on: bool) -> (target: u32)
    ensures
        target == switched(on),
{
    if on {
        FULL
    } else {
        SILENT
    }
}

/// Where a pass finds a value that was left at `kept`.
pub open spec fn stepping_from(
    kept: Option<State>,
    target: u32,
    start: u32,
    reduced: bool,
) -> Stepping {
    if reduced {
        Stepping::Arrived(target)
    } else {
        Stepping::Moving(
            match kept {
                Some(state) => state,
                None => State::resting(start),
            },
        )
    }
}

/// Where a pass finds a value that is there already when it is not known.
pub open spec fn value_from(kept: Option<State>, target: u32, reduced: bool) -> Stepping {
    stepping_from(kept, target, target, reduced)
}

/// Where a pass finds a switch, which is off when it is not known.
pub open spec fn toggle_from(kept: Option<State>, on: bool, reduced: bool) -> Stepping {
    stepping_from(kept, switched(on), SILENT, reduced)
}

/// The state that is kept for `id`.
pub open spec fn state_of(
    memos: vstd::map::Map<egui::Id, crate::memory::MemoView>,
    id: egui::Id,
) -> Option<State> {
    crate::memory::kept_for(memos, id).state
}

/// `memos` with `state` for `id`.
pub open spec fn with_state(
    memos: vstd::map::Map<egui::Id, crate::memory::MemoView>,
    id: egui::Id,
    state: State,
) -> vstd::map::Map<egui::Id, crate::memory::MemoView> {
    crate::memory::keeping(
        memos,
        id,
        crate::memory::MemoView { state: Some(state), ..crate::memory::kept_for(memos, id) },
    )
}

/// `memos` once a pass toward `target` has begun: where less movement is asked
/// for, the value is kept at its target.
pub open spec fn begun_toward(
    memos: vstd::map::Map<egui::Id, crate::memory::MemoView>,
    id: egui::Id,
    target: u32,
    reduced: bool,
) -> vstd::map::Map<egui::Id, crate::memory::MemoView> {
    if reduced {
        with_state(memos, id, State::resting(target))
    } else {
        memos
    }
}

/// Begins to move the value kept for `id` toward `target`. A value not seen
/// before starts from `start`. Where less movement is asked for, the value is
/// at its target at once.
pub fn step(
    data: &mut egui::util::IdTypeMap,
    id: egui::Id,
    target: u32,
    start: u32,
    reduced: bool,
) -> (stepping: Stepping)
    ensures
        stepping == stepping_from(
            state_of(crate::memory::memos(*old(data)), id),
            target,
            start,
            reduced,
        ),
        crate::memory::memos(*final(data)) == begun_toward(
            crate::memory::memos(*old(data)),
            id,
            target,
            reduced,
        ),
        ({
            let memos = crate::memory::memos(*old(data));
            let memo = crate::memory::kept_for(memos, id);
            if reduced {
                &&& stepping == Stepping::Arrived(target)
                &&& crate::memory::memos(*final(data)) == crate::memory::keeping(
                    memos,
                    id,
                    crate::memory::MemoView { state: Some(State::resting(target)), ..memo },
                )
            } else {
                &&& stepping == Stepping::Moving(
                    match memo.state {
                        Some(state) => state,
                        None => State::resting(start),
                    },
                )
                &&& crate::memory::memos(*final(data)) == memos
            }
        }),
{
    let mut memo: Memo = load(data, id);
    if reduced {
        memo.state = Some(State::at(target));
        store(data, id, memo);
        return Stepping::Arrived(target);
    }
    match memo.state {
        Some(state) => Stepping::Moving(state),
        None => Stepping::Moving(State::at(start)),
    }
}

/// Begins to move the value kept for `id` toward `target`. A value not seen
/// before is there already.
pub fn value(data: &mut egui::util::IdTypeMap, id: egui::Id, target: u32, reduced: bool) -> (stepping:
    Stepping)
    ensures
        stepping == value_from(state_of(crate::memory::memos(*old(data)), id), target, reduced),
        crate::memory::memos(*final(data)) == begun_toward(
            crate::memory::memos(*old(data)),
            id,
            target,
            reduced,
        ),
        ({
            let memos = crate::memory::memos(*old(data));
            let memo = crate::memory::kept_for(memos, id);
            if reduced {
                &&& stepping == Stepping::Arrived(target)
                &&& crate::memory::memos(*final(data)) == crate::memory::keeping(
                    memos,
                    id,
                    crate::memory::MemoView { state: Some(State::resting(target)), ..memo },
                )
            } else {
                &&& stepping == Stepping::Moving(
                    match memo.state {
                        Some(state) => state,
                        None => State::resting(target),
                    },
                )
                &&& crate::memory::memos(*final(data)) == memos
            }
        }),
{
    step(data, id, target, target, reduced)
}

/// Begins to move the switch kept for `id` toward on or off. A switch not seen
/// before starts from off.
pub fn toggle(data: &mut egui::util::IdTypeMap, id: egui::Id, on: bool, reduced: bool) -> (stepping:
    Stepping)
    ensures
        stepping == toggle_from(state_of(crate::memory::memos(*old(data)), id), on, reduced),
        crate::memory::memos(*final(data)) == begun_toward(
            crate::memory::memos(*old(data)),
            id,
            switched(on),
            reduced,
        ),
        ({
            let memos = crate::memory::memos(*old(data));
            let memo = crate::memory::kept_for(memos, id);
            if reduced {
                &&& stepping == Stepping::Arrived(switched(on))
                &&& crate::memory::memos(*final(data)) == crate::memory::keeping(
                    memos,
                    id,
                    crate::memory::MemoView { state: Some(State::resting(switched(on))), ..memo },
                )
            } else {
                &&& stepping == Stepping::Moving(
                    match memo.state {
                        Some(state) => state,
                        None => State::resting(SILENT),
                    },
                )
                &&& crate::memory::memos(*final(data)) == memos
            }
        }),
{
    step(data, id, switch_target(on), SILENT, reduced)
}

/// Ends the pass of a value that has moved to `state`: keeps it, and tells its
/// value. Whether another pass is to follow, which it is until the value has
/// settled.
pub fn stepped(data: &mut egui::util::IdTypeMap, id: egui::Id, state: State, settled: bool) -> (moved: (
    u32,
    bool,
))
    ensures
        moved == (state.value, !settled),
        crate::memory::memos(*final(data)) == with_state(
            crate::memory::memos(*old(data)),
            id,
            state,
        ),
        crate::memory::memos(*final(data)) == crate::memory::keeping(
            crate::memory::memos(*old(data)),
            id,
            crate::memory::MemoView {
                state: Some(state),
                ..crate::memory::kept_for(crate::memory::memos(*old(data)), id)
            },
        ),
{
    let mut memo: Memo = load(data, id);
    memo.state = Some(state);
    store(data, id, memo);
    (state.value, !settled)
}

/// Where a fade that does not move stands: at its end, for someone who asked
/// for less movement. `None` where it does move.
pub fn fade(on: bool, reduced: bool) -> (still: Option<u32>)
    ensures
        still == if reduced {
            Some(switched(on))
        } else {
            None
        },
{
    if reduced {
        Some(switch_target(on))
    } else {
        None
    }
}

/// What the desktop last said about movement, and when; `desktop` is the id that
/// is kept by.
pub open spec fn stillness_of(
    memos: vstd::map::Map<egui::Id, crate::memory::MemoView>,
    desktop: egui::Id,
) -> Option<(u64, bool)> {
    crate::memory::kept_for(memos, desktop).stillness
}

/// `memos` once the desktop has answered at `now`.
pub open spec fn with_stillness(
    memos: vstd::map::Map<egui::Id, crate::memory::MemoView>,
    desktop: egui::Id,
    now: u64,
    reduces: bool,
) -> vstd::map::Map<egui::Id, crate::memory::MemoView> {
    crate::memory::keeping(
        memos,
        desktop,
        crate::memory::MemoView {
            stillness: Some((now, reduces)),
            ..crate::memory::kept_for(memos, desktop)
        },
    )
}

/// Whether less movement is asked for, as far as `said` is still fresh.
pub open spec fn still_known(said: Option<(u64, bool)>, fresh: bool) -> Option<bool> {
    match said {
        Some((_, reduces)) => if fresh {
            Some(reduces)
        } else {
            None
        },
        None => None,
    }
}

/// When the desktop last said whether it asks for less movement, where it did:
/// the bit pattern of a time in seconds.
pub fn answered_at(data: &egui::util::IdTypeMap, desktop: egui::Id) -> (at: Option<u64>)
    ensures
        at == match stillness_of(crate::memory::memos(*data), desktop) {
            Some((at, _)) => Some(at),
            None => None,
        },
{
    match load(data, desktop).stillness {
        Some((at, _)) => Some(at),
        None => None,
    }
}

/// Whether less movement is asked for, as far as that is still known: an answer
/// counts while it is `fresh`. `None` asks the desktop for a new one.
pub fn reduced(data: &egui::util::IdTypeMap, desktop: egui::Id, fresh: bool) -> (reduced: Option<
    bool,
>)
    ensures
        reduced == still_known(stillness_of(crate::memory::memos(*data), desktop), fresh),
{
    match load(data, desktop).stillness {
        Some((_, reduces)) => {
            if fresh {
                Some(reduces)
            } else {
                None
            }
        }
        None => None,
    }
}

/// Takes the desktop's answer, given at `now`, and hands it out.
pub fn answered(data: &mut egui::util::IdTypeMap, desktop: egui::Id, now: u64, reduces: bool) -> (reduced:
    bool)
    ensures
        reduced == reduces,
        crate::memory::memos(*final(data)) == with_stillness(
            crate::memory::memos(*old(data)),
            desktop,
            now,
            reduces,
        ),
{
    let mut memo: Memo = load(data, desktop);
    memo.stillness = Some((now, reduces));
    store(data, desktop, memo);
    reduces
}

/// Which rows of a list are lit: two slots, one fading in and one fading out,
/// for a list with more rows than can each hold their own state.
#[derive(Clone, Copy, Debug)]
pub struct Trail {
    /// The pass that moved the trail last.
    pub pass: u64,
    /// The row that the pointer has been reported over since.
    pub marked: Option<egui::Id>,
    pub current: Option<egui::Id>,
    pub current_state: State,
    pub leaving: Option<egui::Id>,
    pub leaving_state: State,
}

/// A slot that a spring has moved.
#[derive(Clone, Copy, Debug, PartialEq, Eq)]
pub struct Moved {
    pub state: State,
    pub settled: bool,
}

impl Trail {
    /// A trail that lights nothing.
    pub open spec fn unlit() -> Trail {
        Trail {
            pass: 0,
            marked: None,
            current: None,
            current_state: State::resting(SILENT),
            leaving: None,
            leaving_state: State::resting(SILENT),
        }
    }

    /// How brightly the trail lights a row.
    pub open spec fn light(self, id: egui::Id) -> u32 {
        if self.current == Some(id) {
            self.current_state.value
        } else if self.leaving == Some(id) {
            self.leaving_state.value
        } else {
            SILENT
        }
    }

    /// The trail with the pointer over `id`.
    pub open spec fn with_mark(self, id: egui::Id) -> Trail {
        Trail { marked: Some(id), ..self }
    }

    /// The trail as a new pass takes it up: the marked row comes into the
    /// first slot, and the row that was there goes into the second.
    pub open spec fn turned(self, pass: u64) -> Trail {
        let active = self.marked;
        let taken = Trail { pass, marked: None, ..self };
        if self.current == active {
            taken
        } else if self.leaving == active {
            Trail {
                current: self.leaving,
                current_state: self.leaving_state,
                leaving: self.current,
                leaving_state: self.current_state,
                ..taken
            }
        } else {
            Trail {
                current: active,
                current_state: State::resting(SILENT),
                leaving: self.current,
                leaving_state: self.current_state,
                ..taken
            }
        }
    }

    /// The trail where nothing is to move: the marked row is lit, and no other.
    pub open spec fn at_once(self) -> Trail {
        Trail {
            current_state: State::resting(switched(self.current is Some)),
            leaving: None,
            leaving_state: State::resting(SILENT),
            ..self
        }
    }

    /// The trail once its slots have moved. A row that has faded out leaves.
    pub open spec fn moved(self, current: Moved, leaving: Moved) -> Trail {
        Trail {
            current_state: if self.current is Some { current.state } else { self.current_state },
            leaving: if leaving.settled { None } else { self.leaving },
            leaving_state: if self.leaving is Some { leaving.state } else { self.leaving_state },
            ..self
        }
    }

    /// Whether a slot still moves.
    pub open spec fn busy(self, current: Moved, leaving: Moved) -> bool {
        (self.current is Some && !current.settled) || (self.leaving is Some && !leaving.settled)
    }

    /// How brightly the trail lights a row.
    pub fn amount(&self, id: egui::Id) -> (amount: u32)
        ensures
            amount == self.light(id),
    {
        if same_slot(self.current, Some(id)) {
            self.current_state.value
        } else if same_slot(self.leaving, Some(id)) {
            self.leaving_state.value
        } else {
            SILENT
        }
    }

    fn turn(self, pass: u64) -> (trail: Trail)
        ensures
            trail == self.turned(pass),
    {
        let active: Option<egui::Id> = self.marked;
        let taken: Trail = Trail { pass, marked: None, ..self };
        if same_slot(self.current, active) {
            taken
        } else if same_slot(self.leaving, active) {
            Trail {
                current: self.leaving,
                current_state: self.leaving_state,
                leaving: self.current,
                leaving_state: self.current_state,
                ..taken
            }
        } else {
            Trail {
                current: active,
                current_state: State::at(SILENT),
                leaving: self.current,
                leaving_state: self.current_state,
                ..taken
            }
        }
    }
}

impl Default for Trail {
    fn default() -> (trail: Self)
        ensures
            trail == Trail::unlit(),
    {
        Trail {
            pass: 0,
            marked: None,
            current: None,
            current_state: State::at(SILENT),
            leaving: None,
            leaving_state: State::at(SILENT),
        }
    }
}

/// The trail of the list `scope`.
pub open spec fn trail_of(
    memos: vstd::map::Map<egui::Id, crate::memory::MemoView>,
    scope: egui::Id,
) -> Trail {
    match crate::memory::kept_for(memos, scope).trail {
        Some(trail) => trail,
        None => Trail::unlit(),
    }
}

/// `memos` with `trail` for the list `scope`.
pub open spec fn with_trail(
    memos: vstd::map::Map<egui::Id, crate::memory::MemoView>,
    scope: egui::Id,
    trail: Trail,
) -> vstd::map::Map<egui::Id, crate::memory::MemoView> {
    crate::memory::keeping(
        memos,
        scope,
        crate::memory::MemoView {
            trail: Some(trail),
            ..crate::memory::kept_for(memos, scope)
        },
    )
}

fn put_trail(data: &mut egui::util::IdTypeMap, scope: egui::Id, trail: Trail)
    ensures
        crate::memory::memos(*final(data)) == with_trail(
            crate::memory::memos(*old(data)),
            scope,
            trail,
        ),
{
    let mut memo: Memo = load(data, scope);
    memo.trail = Some(trail);
    store(data, scope, memo);
}

/// The trail of the list `scope`, as it is kept.
pub fn kept_trail(data: &egui::util::IdTypeMap, scope: egui::Id) -> (trail: Trail)
    ensures
        trail == trail_of(crate::memory::memos(*data), scope),
{
    match load(data, scope).trail {
        Some(trail) => trail,
        None => Trail::default(),
    }
}

/// Names the row the pointer is over. A list draws its rows in order and only
/// one of them is under the pointer, so the row itself reports it and the trail
/// picks it up on the next pass. Whether that is news, and a pass is to follow.
pub fn mark(data: &mut egui::util::IdTypeMap, scope: egui::Id, id: egui::Id) -> (wake: bool)
    ensures
        ({
            let memos = crate::memory::memos(*old(data));
            let trail = trail_of(memos, scope);
            &&& wake == (trail.marked != Some(id))
            &&& crate::memory::memos(*final(data)) == with_trail(memos, scope, trail.with_mark(id))
        }),
{
    let mut trail: Trail = kept_trail(data, scope);
    let wake: bool = !same_slot(trail.marked, Some(id));
    trail.marked = Some(id);
    put_trail(data, scope, trail);
    wake
}

/// What a pass makes of the trail `kept`, and whether its slots are to be moved.
pub open spec fn trail_turn(kept: Trail, pass: u64, reduced: bool) -> (Trail, bool) {
    if kept.pass == pass {
        (kept, false)
    } else if reduced {
        (kept.turned(pass).at_once(), false)
    } else {
        (kept.turned(pass), true)
    }
}

/// The trail of the list `scope` in the pass `pass`, and whether its slots are
/// to be moved. It moves once per pass, however often it is asked for. Where
/// less movement is asked for, it is there at once.
pub fn trail(data: &mut egui::util::IdTypeMap, scope: egui::Id, pass: u64, reduced: bool) -> (turn: (
    Trail,
    bool,
))
    ensures
        turn == trail_turn(trail_of(crate::memory::memos(*old(data)), scope), pass, reduced),
        ({
            let memos = crate::memory::memos(*old(data));
            let kept = trail_of(memos, scope);
            let after = crate::memory::memos(*final(data));
            if kept.pass == pass {
                turn == (kept, false) && after == memos
            } else if reduced {
                &&& turn == (kept.turned(pass).at_once(), false)
                &&& after == with_trail(memos, scope, kept.turned(pass).at_once())
            } else {
                turn == (kept.turned(pass), true) && after == memos
            }
        }),
{
    let kept: Trail = kept_trail(data, scope);
    if kept.pass == pass {
        return (kept, false);
    }
    let mut trail: Trail = kept.turn(pass);
    if reduced {
        trail.current_state = State::at(switch_target(trail.current.is_some()));
        trail.leaving = None;
        trail.leaving_state = State::at(SILENT);
        put_trail(data, scope, trail);
        return (trail, false);
    }
    (trail, true)
}

/// Ends the pass of a trail whose slots have moved: the first toward full
/// light, the second toward none. What an empty slot has moved to is nothing.
/// Returns the trail as it is kept, and whether another pass is to follow.
pub fn trail_moved(
    data: &mut egui::util::IdTypeMap,
    scope: egui::Id,
    turned: Trail,
    current: Moved,
    leaving: Moved,
) -> (moved: (Trail, bool))
    ensures
        moved == (turned.moved(current, leaving), turned.busy(current, leaving)),
        crate::memory::memos(*final(data)) == with_trail(
            crate::memory::memos(*old(data)),
            scope,
            turned.moved(current, leaving),
        ),
{
    let mut trail: Trail = turned;
    let mut busy: bool = false;
    if trail.current.is_some() {
        trail.current_state = current.state;
        busy = !current.settled;
    }
    if trail.leaving.is_some() {
        trail.leaving_state = leaving.state;
        if leaving.settled {
            trail.leaving = None;
        } else {
            busy = true;
        }
    }
    put_trail(data, scope, trail);
    (trail, busy)
}

/// An answer of the desktop is read back as long as it is fresh, and asked for
/// again after that. Keeping it leaves what other controls keep alone.
pub proof fn law_answer_counts_while_fresh(
    memos: vstd::map::Map<egui::Id, crate::memory::MemoView>,
    desktop: egui::Id,
    now: u64,
    reduces: bool,
    other: egui::Id,
)
    ensures
        ({
            let after = with_stillness(memos, desktop, now, reduces);
            let said = stillness_of(after, desktop);
            &&& said == Some((now, reduces))
            &&& still_known(said, true) == Some(reduces)
            &&& still_known(said, false) is None
            &&& still_known(None, true) is None
            &&& other != desktop ==> crate::memory::kept_for(after, other)
                == crate::memory::kept_for(memos, other)
        }),
{
    crate::memory::law_reads_back_what_was_kept(
        memos,
        desktop,
        crate::memory::MemoView {
            stillness: Some((now, reduces)),
            ..crate::memory::kept_for(memos, desktop)
        },
        other,
    );
}

/// The row that was marked last is the one in the first slot.
pub proof fn law_marked_row_comes_first(trail: Trail, id: egui::Id, pass: u64)
    ensures
        trail.with_mark(id).turned(pass).current == Some(id),
        trail.turned(pass).current == trail.marked,
        trail.turned(pass).marked is None,
{
}

/// No row blinks: neither the row that was lit nor the row now marked changes
/// its light when the trail turns from one to the other.
pub proof fn law_turning_keeps_the_light(trail: Trail, pass: u64, row: egui::Id)
    requires
        trail.current == Some(row) || trail.marked == Some(row),
    ensures
        trail.turned(pass).light(row) == trail.light(row),
{
}

/// A trail moves once per pass: once it has, the pass finds it as it is kept.
pub proof fn law_moves_once_per_pass(
    memos: vstd::map::Map<egui::Id, crate::memory::MemoView>,
    scope: egui::Id,
    pass: u64,
    current: Moved,
    leaving: Moved,
)
    ensures
        ({
            let turned = trail_of(memos, scope).turned(pass);
            let moved = turned.moved(current, leaving);
            &&& trail_of(with_trail(memos, scope, moved), scope) == moved
            &&& moved.pass == pass
            &&& turned.at_once().pass == pass
        }),
{
}

/// Where less movement is asked for, the marked row is fully lit and no other
/// row is lit at all.
pub proof fn law_still_trail_lights_one_row(trail: Trail, pass: u64, row: egui::Id)
    ensures
        trail.turned(pass).at_once().light(row) == switched(trail.marked == Some(row)),
{
}

/// A trail whose slots have both settled, on light and on none, lights the row
/// in its first slot and no other, and needs no further pass.
pub proof fn law_settled_trail_lights_one_row(trail: Trail, row: egui::Id)
    ensures
        ({
            let current = Moved { state: State::resting(FULL), settled: true };
            let leaving = Moved { state: State::resting(SILENT), settled: true };
            &&& trail.moved(current, leaving).light(row) == switched(trail.current == Some(row))
            &&& !trail.busy(current, leaving)
        }),
{
}

/// A value that is kept is where the last pass left it, whatever is kept for
/// other controls.
pub proof fn law_value_is_kept(
    memos: vstd::map::Map<egui::Id, crate::memory::MemoView>,
    id: egui::Id,
    state: State,
    other: egui::Id,
)
    ensures
        ({
            let memo = crate::memory::MemoView {
                state: Some(state),
                ..crate::memory::kept_for(memos, id)
            };
            let after = crate::memory::keeping(memos, id, memo);
            &&& crate::memory::kept_for(after, id).state == Some(state)
            &&& crate::memory::kept_for(after, id).trail == crate::memory::kept_for(memos, id).trail
            &&& other != id ==> crate::memory::kept_for(after, other) == crate::memory::kept_for(
                memos,
                other,
            )
        }),
{
}

/// A row in the second slot stays there, at the light its spring moved it to,
/// until that spring has settled, whether or not another row is lit. Then it
/// leaves, and is dark.
pub proof fn law_leaving_row_fades_out(trail: Trail, current: Moved, leaving: Moved, row: egui::Id)
    requires
        trail.leaving == Some(row),
        trail.current != Some(row),
    ensures
        ({
            let moved = trail.moved(current, leaving);
            &&& !leaving.settled ==> moved.light(row) == leaving.state.value
            &&& !leaving.settled ==> moved.leaving == Some(row) && moved.leaving_state
                == leaving.state
            &&& leaving.settled ==> moved.leaving is None && moved.light(row) == 0
        }),
{
}

/// A row in the first slot stays there and has the light its spring moved it to,
/// settled or not.
pub proof fn law_current_row_follows_its_spring(
    trail: Trail,
    current: Moved,
    leaving: Moved,
    row: egui::Id,
)
    requires
        trail.current == Some(row),
    ensures
        ({
            let moved = trail.moved(current, leaving);
            &&& moved.current == Some(row)
            &&& moved.current_state == current.state
            &&& moved.light(row) == current.state.value
        }),
{
}

/// Moving the slots changes neither which row is in the first, nor the mark, nor
/// the pass. Another pass follows just as long as a row in a slot has not
/// settled; an empty slot asks for none.
pub proof fn law_moving_keeps_rows_and_mark(trail: Trail, current: Moved, leaving: Moved)
    ensures
        ({
            let moved = trail.moved(current, leaving);
            &&& moved.pass == trail.pass
            &&& moved.marked == trail.marked
            &&& moved.current == trail.current
            &&& trail.leaving is None ==> moved.leaving is None
            &&& trail.current is None && trail.leaving is None ==> !trail.busy(current, leaving)
            &&& trail.current is Some && !current.settled ==> trail.busy(current, leaving)
            &&& trail.leaving is Some && !leaving.settled ==> trail.busy(current, leaving)
            &&& (trail.current is None || current.settled) && (trail.leaving is None
                || leaving.settled) ==> !trail.busy(current, leaving)
        }),
{
}

/// A row has the light of the slot it is in, the first before the second, and a
/// row in neither is dark.
pub proof fn law_light_is_that_of_the_slot(trail: Trail, row: egui::Id)
    ensures
        trail.current == Some(row) ==> trail.light(row) == trail.current_state.value,
        trail.current != Some(row) && trail.leaving == Some(row) ==> trail.light(row)
            == trail.leaving_state.value,
        trail.current != Some(row) && trail.leaving != Some(row) ==> trail.light(row) == 0,
        Trail::unlit().light(row) == 0,
{
}

/// Turning carries the whole state of a row along, its speed too: the row that
/// was first goes to the second slot as it is, a row that was leaving comes back
/// as it is, and a row in neither starts dark and at rest. Where the first row
/// is marked again, nothing moves at all.
pub proof fn law_turning_carries_the_state(trail: Trail, pass: u64, row: egui::Id)
    ensures
        ({
            let turned = trail.turned(pass);
            &&& turned.pass == pass
            &&& trail.marked == trail.current ==> {
                &&& turned.current == trail.current
                &&& turned.current_state == trail.current_state
                &&& turned.leaving == trail.leaving
                &&& turned.leaving_state == trail.leaving_state
            }
            &&& trail.current == Some(row) && trail.marked != Some(row) ==> {
                &&& turned.leaving == Some(row)
                &&& turned.leaving_state == trail.current_state
            }
            &&& trail.leaving == Some(row) && trail.marked == Some(row) && trail.current != Some(
                row,
            ) ==> turned.current == Some(row) && turned.current_state == trail.leaving_state
            &&& trail.marked == Some(row) && trail.current != Some(row) && trail.leaving != Some(
                row,
            ) ==> turned.current_state.value == 0 && turned.current_state.velocity == 0
        }),
{
}

/// Marking a row changes the mark alone, and the trail of a list is the one kept
/// for it last, whatever other lists keep.
pub proof fn law_mark_changes_the_mark_alone(
    memos: vstd::map::Map<egui::Id, crate::memory::MemoView>,
    scope: egui::Id,
    trail: Trail,
    row: egui::Id,
    other: egui::Id,
)
    ensures
        trail.with_mark(row).marked == Some(row),
        trail.with_mark(row).pass == trail.pass,
        trail.with_mark(row).current == trail.current,
        trail.with_mark(row).current_state == trail.current_state,
        trail.with_mark(row).leaving == trail.leaving,
        trail.with_mark(row).leaving_state == trail.leaving_state,
        trail_of(with_trail(memos, scope, trail), scope) == trail,
        other != scope ==> trail_of(with_trail(memos, scope, trail), other) == trail_of(
            memos,
            other,
        ),
        !memos.contains_key(scope) ==> trail_of(memos, scope) == Trail::unlit(),
{
}

/// A value at rest stands where it is told and does not move; a switch that is
/// on is at one, and one that is off at zero.
pub proof fn law_rest_and_switch(value: u32)
    ensures
        State::resting(value).value == value,
        State::resting(value).velocity == 0,
        switched(true) == 0x3f80_0000,
        switched(false) == 0,
{
}

/// Where less movement is asked for, the trail keeps its marked row and its pass,
/// and nothing is leaving.
pub proof fn law_still_trail_leaves_nothing(trail: Trail)
    ensures
        trail.at_once().current == trail.current,
        trail.at_once().pass == trail.pass,
        trail.at_once().marked == trail.marked,
        trail.at_once().leaving is None,
        trail.at_once().current_state.velocity == 0,
        trail.at_once().current_state.value == if trail.current is Some {
            0x3f80_0000u32
        } else {
            0
        },
{
}

/// A value goes on from where and how fast it was, whatever it is after now. One
/// not seen before is at its target, so that nothing slides in at the start; a
/// switch not seen before starts from off. Less movement is there at once.
pub proof fn law_values_go_on_from_where_they_were(
    kept: State,
    target: u32,
    on: bool,
    known: Option<State>,
)
    ensures
        value_from(Some(kept), target, false) == Stepping::Moving(kept),
        toggle_from(Some(kept), on, false) == Stepping::Moving(kept),
        value_from(None, target, false) == Stepping::Moving(
            State { value: target, velocity: 0 },
        ),
        toggle_from(None, on, false) == Stepping::Moving(State { value: 0, velocity: 0 }),
        value_from(known, target, true) == Stepping::Arrived(target),
        toggle_from(known, on, true) == Stepping::Arrived(
            if on {
                0x3f80_0000u32
            } else {
                0
            },
        ),
{
}

/// A pass starts where the last one left the value: what it was kept at, where it
/// moves, and its target, where it does not. Other values are left alone.
pub proof fn law_pass_starts_where_the_last_ended(
    memos: vstd::map::Map<egui::Id, crate::memory::MemoView>,
    id: egui::Id,
    state: State,
    target: u32,
    other: egui::Id,
)
    ensures
        value_from(state_of(with_state(memos, id, state), id), target, false) == Stepping::Moving(
            state,
        ),
        state_of(begun_toward(memos, id, target, true), id) == Some(
            State { value: target, velocity: 0 },
        ),
        begun_toward(memos, id, target, false) == memos,
        other != id ==> crate::memory::kept_for(with_state(memos, id, state), other)
            == crate::memory::kept_for(memos, other),
        !memos.contains_key(id) ==> state_of(memos, id) is None,
{
}

/// The slots are moved on the first call of a pass and on no other, and not at
/// all where less movement is asked for. The row lit then is the marked one.
pub proof fn law_trail_turns_once(kept: Trail, pass: u64, reduced: bool)
    ensures
        kept.pass == pass ==> trail_turn(kept, pass, reduced) == (kept, false),
        kept.pass != pass ==> {
            let (trail, moves) = trail_turn(kept, pass, reduced);
            &&& moves == !reduced
            &&& trail.pass == pass
            &&& trail.current == kept.marked
            &&& trail.marked is None
            &&& reduced ==> trail.leaving is None
        },
{
}

} // verus!
