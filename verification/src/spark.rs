//! The burst that rewards an action.
//!
//! How old a burst is takes a clock and a quotient, on the caller's side; it
//! hands in, for each burst in flight, whether it is finished.

use vstd::prelude::*;

use crate::memory::{load, same_id, store, Memo};

verus! {

/// How many particles a burst throws.
pub const PARTICLES: usize = 8;

/// The most that can be in the air at once. Bursts are keyed by the control
/// that fired them and dropped when they finish, so this is a ceiling on a
/// number that is normally one, not a budget anything runs up against.
pub const AT_ONCE: usize = 4;

/// A burst in flight.
#[derive(Clone, Copy, Debug)]
pub struct Burst {
    /// The control that set it off.
    pub owner: egui::Id,
    pub center: egui::Pos2,
    pub color: egui::Color32,
    /// When it was set off: the bit pattern of a time in seconds.
    pub started: u64,
}

/// The bursts that are kept for `slot`.
pub open spec fn bursts_of(
    memos: vstd::map::Map<egui::Id, crate::memory::MemoView>,
    slot: egui::Id,
) -> Seq<Burst> {
    crate::memory::kept_for(memos, slot).bursts
}

/// `memos` with `bursts` for `slot`.
pub open spec fn with_bursts(
    memos: vstd::map::Map<egui::Id, crate::memory::MemoView>,
    slot: egui::Id,
    bursts: Seq<Burst>,
) -> vstd::map::Map<egui::Id, crate::memory::MemoView> {
    crate::memory::keeping(
        memos,
        slot,
        crate::memory::MemoView { bursts, ..crate::memory::kept_for(memos, slot) },
    )
}

/// The bursts that are not finished, in their order.
pub open spec fn unfinished(bursts: Seq<Burst>, finished: Seq<bool>) -> Seq<Burst>
    decreases bursts.len(),
{
    if bursts.len() == 0 {
        bursts
    } else {
        let before = unfinished(bursts.drop_last(), finished.drop_last());
        if finished.last() {
            before
        } else {
            before.push(bursts.last())
        }
    }
}

/// The bursts that others than `owner` set off, in their order.
pub open spec fn of_others(bursts: Seq<Burst>, owner: egui::Id) -> Seq<Burst> {
    bursts.filter(|burst: Burst| burst.owner != owner)
}

/// The bursts in flight once `burst` is set off: the finished ones are gone,
/// one by the same control is replaced, and where the air is full the oldest
/// makes room.
pub open spec fn fired(bursts: Seq<Burst>, finished: Seq<bool>, burst: Burst) -> Seq<Burst> {
    let others = of_others(unfinished(bursts, finished), burst.owner);
    if others.len() >= AT_ONCE {
        others.drop_first().push(burst)
    } else {
        others.push(burst)
    }
}

/// Whether no control owns two of the bursts.
pub open spec fn one_each(bursts: Seq<Burst>) -> bool {
    forall|i: int, j: int|
        0 <= i < j < bursts.len() ==> (#[trigger] bursts[i]).owner != (#[trigger] bursts[j]).owner
}

/// The burst that `owner` set off, where it has one that is not over: the first
/// of its own counts.
pub open spec fn seen(bursts: Seq<Burst>, finished: Seq<bool>, owner: egui::Id) -> Option<Burst>
    decreases bursts.len(),
{
    if bursts.len() == 0 {
        None
    } else if bursts.first().owner == owner {
        if finished.first() {
            None
        } else {
            Some(bursts.first())
        }
    } else {
        seen(bursts.drop_first(), finished.drop_first(), owner)
    }
}

/// The bursts that are kept for `slot`.
pub fn live(data: &egui::util::IdTypeMap, slot: egui::Id) -> (bursts: Vec<Burst>)
    ensures
        bursts@ == bursts_of(crate::memory::memos(*data), slot),
{
    load(data, slot).bursts
}

fn put_bursts(data: &mut egui::util::IdTypeMap, slot: egui::Id, bursts: Vec<Burst>)
    ensures
        crate::memory::memos(*final(data)) == with_bursts(
            crate::memory::memos(*old(data)),
            slot,
            bursts@,
        ),
{
    let mut memo: Memo = load(data, slot);
    memo.bursts = bursts;
    store(data, slot, memo);
}

fn drop_finished(bursts: &Vec<Burst>, finished: &Vec<bool>) -> (alive: Vec<Burst>)
    requires
        finished@.len() == bursts@.len(),
    ensures
        alive@ == unfinished(bursts@, finished@),
        alive@.len() <= bursts@.len(),
{
    let mut alive: Vec<Burst> = Vec::new();
    let mut i: usize = 0;
    while i < bursts.len()
        invariant
            i <= bursts@.len(),
            finished@.len() == bursts@.len(),
            alive@ == unfinished(bursts@.take(i as int), finished@.take(i as int)),
            alive@.len() <= i,
        decreases bursts@.len() - i,
    {
        assert(bursts@.take(i + 1).drop_last() =~= bursts@.take(i as int));
        assert(finished@.take(i + 1).drop_last() =~= finished@.take(i as int));
        if !finished[i] {
            alive.push(bursts[i]);
        }
        i = i + 1;
    }
    assert(bursts@.take(i as int) =~= bursts@);
    assert(finished@.take(i as int) =~= finished@);
    alive
}

fn drop_owned(bursts: &Vec<Burst>, owner: egui::Id) -> (others: Vec<Burst>)
    ensures
        others@ == of_others(bursts@, owner),
{
    let ghost keeps = |burst: Burst| burst.owner != owner;
    let mut others: Vec<Burst> = Vec::new();
    let mut i: usize = 0;
    assert(bursts@.take(0).filter(keeps) =~= Seq::<Burst>::empty()) by {
        reveal(Seq::filter);
    }
    while i < bursts.len()
        invariant
            i <= bursts@.len(),
            keeps == (|burst: Burst| burst.owner != owner),
            others@ == bursts@.take(i as int).filter(keeps),
        decreases bursts@.len() - i,
    {
        assert(bursts@.take(i + 1).drop_last() =~= bursts@.take(i as int));
        assert(bursts@.take(i + 1).filter(keeps) == if keeps(bursts@[i as int]) {
            bursts@.take(i as int).filter(keeps).push(bursts@[i as int])
        } else {
            bursts@.take(i as int).filter(keeps)
        }) by {
            reveal(Seq::filter);
        }
        if !same_id(bursts[i].owner, owner) {
            others.push(bursts[i]);
        }
        i = i + 1;
    }
    assert(bursts@.take(i as int) =~= bursts@);
    others
}

/// Sets one off. Silent where the desktop asked for less movement, which
/// leaves the control's own state change to say what happened. `finished` says
/// of each burst in flight whether it is over. Whether a pass is to follow.
pub fn burst(
    data: &mut egui::util::IdTypeMap,
    slot: egui::Id,
    finished: &Vec<bool>,
    reduced: bool,
    set_off: Burst,
) -> (repaint: bool)
    requires
        finished@.len() == bursts_of(crate::memory::memos(*old(data)), slot).len(),
    ensures
        repaint == !reduced,
        crate::memory::memos(*final(data)) == {
            let memos = crate::memory::memos(*old(data));
            if reduced {
                memos
            } else {
                with_bursts(memos, slot, fired(bursts_of(memos, slot), finished@, set_off))
            }
        },
{
    if reduced {
        return false;
    }
    let alive: Vec<Burst> = drop_finished(&live(data, slot), finished);
    let mut bursts: Vec<Burst> = drop_owned(&alive, set_off.owner);
    if bursts.len() >= AT_ONCE {
        let ghost others = bursts@;
        bursts.remove(0);
        assert(bursts@ =~= others.drop_first());
    }
    bursts.push(set_off);
    put_bursts(data, slot, bursts);
    true
}

/// The burst that `owner` set off, or nothing if it has none or it is over.
/// The control reads this to pop and fill in step with its own particles.
pub fn phase(
    data: &egui::util::IdTypeMap,
    slot: egui::Id,
    finished: &Vec<bool>,
    owner: egui::Id,
) -> (burst: Option<Burst>)
    requires
        finished@.len() == bursts_of(crate::memory::memos(*data), slot).len(),
    ensures
        burst == seen(bursts_of(crate::memory::memos(*data), slot), finished@, owner),
        ({
            let bursts = bursts_of(crate::memory::memos(*data), slot);
            match burst {
                Some(burst) => exists|i: int|
                    {
                        &&& 0 <= i < bursts.len()
                        &&& #[trigger] bursts[i] == burst
                        &&& burst.owner == owner
                        &&& !finished@[i]
                        &&& forall|j: int| 0 <= j < i ==> (#[trigger] bursts[j]).owner != owner
                    },
                None => forall|i: int|
                    0 <= i < bursts.len() && (#[trigger] bursts[i]).owner == owner ==> {
                        ||| finished@[i]
                        ||| exists|j: int| 0 <= j < i && (#[trigger] bursts[j]).owner == owner
                    },
            }
        }),
{
    let bursts: Vec<Burst> = live(data, slot);
    let mut i: usize = 0;
    assert(bursts@.skip(0) =~= bursts@);
    assert(finished@.skip(0) =~= finished@);
    while i < bursts.len()
        invariant
            i <= bursts@.len(),
            bursts@ == bursts_of(crate::memory::memos(*data), slot),
            finished@.len() == bursts@.len(),
            forall|j: int| 0 <= j < i ==> (#[trigger] bursts@[j]).owner != owner,
            seen(bursts@, finished@, owner) == seen(
                bursts@.skip(i as int),
                finished@.skip(i as int),
                owner,
            ),
        decreases bursts@.len() - i,
    {
        assert(bursts@.skip(i as int).first() == bursts@[i as int]);
        assert(finished@.skip(i as int).first() == finished@[i as int]);
        assert(bursts@.skip(i as int).drop_first() =~= bursts@.skip(i + 1));
        assert(finished@.skip(i as int).drop_first() =~= finished@.skip(i + 1));
        if same_id(bursts[i].owner, owner) {
            if finished[i] {
                assert(bursts@[i as int].owner == owner);
                return None;
            }
            let found: Burst = bursts[i];
            assert(bursts@[i as int] == found);
            return Some(found);
        }
        i = i + 1;
    }
    None
}

/// The bursts to draw, above everything else. The finished ones are dropped,
/// and where none is left nothing stays behind. While any is, another pass is
/// to follow.
pub fn draw(data: &mut egui::util::IdTypeMap, slot: egui::Id, finished: &Vec<bool>) -> (alive: Vec<
    Burst,
>)
    requires
        finished@.len() == bursts_of(crate::memory::memos(*old(data)), slot).len(),
    ensures
        alive@ == unfinished(bursts_of(crate::memory::memos(*old(data)), slot), finished@),
        crate::memory::memos(*final(data)) == {
            let memos = crate::memory::memos(*old(data));
            if bursts_of(memos, slot).len() == 0 {
                memos
            } else {
                with_bursts(memos, slot, alive@)
            }
        },
{
    let bursts: Vec<Burst> = live(data, slot);
    if bursts.len() == 0 {
        return bursts;
    }
    put_bursts(data, slot, drop_finished(&bursts, finished));
    live(data, slot)
}

/// The radius of a particle, in tenths of a point. Alternating sizes, so the
/// burst has some texture up close.
pub fn particle_radius(index: usize) -> (tenths: u32)
    ensures
        tenths == if index % 2 == 0 {
            20u32
        } else {
            14
        },
{
    if index % 2 == 0 {
        20
    } else {
        14
    }
}

/// How far a particle reaches beyond the shortest, in quarters of the spread.
/// The reach varies a little between particles so the ring of them does not
/// read as a drawn circle.
pub fn particle_reach(index: usize) -> (quarters: usize)
    requires
        index * 3 <= usize::MAX,
    ensures
        quarters == (index * 3) % 5,
        quarters <= 4,
{
    (index * 3) % 5
}

/// How far a particle runs ahead of the slowest, in halves of the lead. Some
/// run slightly ahead of the others, so they do not travel as one rigid ring.
pub fn particle_lead(index: usize) -> (halves: usize)
    requires
        index * 5 <= usize::MAX,
    ensures
        halves == (index * 5) % 3,
        halves <= 2,
{
    (index * 5) % 3
}

/// Where the bursts of `part` stand in `whole`: each at a place of its own, in
/// the same order.
spec fn taken_from(part: Seq<Burst>, whole: Seq<Burst>) -> bool {
    exists|at: Seq<int>| #[trigger] picks(part, whole, at)
}

spec fn picks(part: Seq<Burst>, whole: Seq<Burst>, at: Seq<int>) -> bool {
    &&& at.len() == part.len()
    &&& forall|i: int| 0 <= i < at.len() ==> 0 <= #[trigger] at[i] < whole.len()
    &&& forall|i: int| 0 <= i < at.len() ==> whole[#[trigger] at[i]] == part[i]
    &&& forall|i: int, j: int| 0 <= i < j < at.len() ==> #[trigger] at[i] < #[trigger] at[j]
}

proof fn lemma_taken_from_keeps_one_each(part: Seq<Burst>, whole: Seq<Burst>)
    requires
        taken_from(part, whole),
        one_each(whole),
    ensures
        one_each(part),
{
    let at = choose|at: Seq<int>| #[trigger] picks(part, whole, at);
    assert forall|i: int, j: int| 0 <= i < j < part.len() implies (#[trigger] part[i]).owner != (
    #[trigger] part[j]).owner by {
        assert(at[i] < at[j]);
        assert(whole[at[i]] == part[i] && whole[at[j]] == part[j]);
    }
}

proof fn lemma_unfinished(bursts: Seq<Burst>, finished: Seq<bool>)
    requires
        finished.len() == bursts.len(),
    ensures
        unfinished(bursts, finished).len() <= bursts.len(),
        taken_from(unfinished(bursts, finished), bursts),
        (forall|i: int| 0 <= i < finished.len() ==> #[trigger] finished[i]) ==> unfinished(
            bursts,
            finished,
        ).len() == 0,
    decreases bursts.len(),
{
    let part = unfinished(bursts, finished);
    if bursts.len() == 0 {
        assert(picks(part, bursts, Seq::<int>::empty()));
    } else {
        let before = bursts.drop_last();
        let ended = finished.drop_last();
        lemma_unfinished(before, ended);
        let earlier = unfinished(before, ended);
        let at = choose|at: Seq<int>| #[trigger] picks(earlier, before, at);
        assert forall|i: int| 0 <= i < at.len() implies bursts[#[trigger] at[i]] == earlier[i] by {
            assert(before[at[i]] == earlier[i]);
        }
        if finished.last() {
            assert(picks(part, bursts, at));
        } else {
            assert(picks(part, bursts, at.push(bursts.len() - 1)));
        }
        if forall|i: int| 0 <= i < finished.len() ==> #[trigger] finished[i] {
            assert forall|i: int| 0 <= i < ended.len() implies #[trigger] ended[i] by {
                assert(finished[i]);
            }
            assert(finished[finished.len() - 1]);
        }
    }
}

proof fn lemma_of_others(bursts: Seq<Burst>, owner: egui::Id)
    ensures
        of_others(bursts, owner).len() <= bursts.len(),
        taken_from(of_others(bursts, owner), bursts),
        forall|i: int|
            0 <= i < of_others(bursts, owner).len() ==> (#[trigger] of_others(
                bursts,
                owner,
            )[i]).owner != owner,
    decreases bursts.len(),
{
    reveal(Seq::filter);
    let part = of_others(bursts, owner);
    if bursts.len() == 0 {
        assert(picks(part, bursts, Seq::<int>::empty()));
    } else {
        let before = bursts.drop_last();
        lemma_of_others(before, owner);
        let earlier = of_others(before, owner);
        let at = choose|at: Seq<int>| #[trigger] picks(earlier, before, at);
        assert forall|i: int| 0 <= i < at.len() implies bursts[#[trigger] at[i]] == earlier[i] by {
            assert(before[at[i]] == earlier[i]);
        }
        if bursts.last().owner == owner {
            assert(part == earlier);
            assert(picks(part, bursts, at));
        } else {
            assert(part == earlier.push(bursts.last()));
            assert(picks(part, bursts, at.push(bursts.len() - 1)));
        }
    }
}

/// Bursts do not pile up: no more than the ceiling are ever in the air.
pub proof fn law_bursts_do_not_pile_up(bursts: Seq<Burst>, finished: Seq<bool>, burst: Burst)
    requires
        bursts.len() <= AT_ONCE,
        finished.len() == bursts.len(),
    ensures
        fired(bursts, finished, burst).len() <= AT_ONCE,
        unfinished(bursts, finished).len() <= AT_ONCE,
{
    lemma_unfinished(bursts, finished);
    lemma_of_others(unfinished(bursts, finished), burst.owner);
}

/// Setting one off again restarts a control's burst rather than adding one:
/// the new burst comes last, and no other has its owner.
pub proof fn law_burst_restarts(bursts: Seq<Burst>, finished: Seq<bool>, burst: Burst)
    requires
        finished.len() == bursts.len(),
    ensures
        ({
            let after = fired(bursts, finished, burst);
            &&& after.len() > 0
            &&& after.last() == burst
            &&& forall|i: int|
                0 <= i < after.len() - 1 ==> (#[trigger] after[i]).owner != burst.owner
        }),
{
    let alive = unfinished(bursts, finished);
    let others = of_others(alive, burst.owner);
    lemma_of_others(alive, burst.owner);
    let after = fired(bursts, finished, burst);
    assert forall|i: int| 0 <= i < after.len() - 1 implies (#[trigger] after[i]).owner
        != burst.owner by {
        if others.len() >= AT_ONCE {
            assert(after[i] == others[i + 1]);
        } else {
            assert(after[i] == others[i]);
        }
    }
}

/// No control ever owns two bursts, whether one is set off or all are drawn.
pub proof fn law_one_burst_per_control(bursts: Seq<Burst>, finished: Seq<bool>, burst: Burst)
    requires
        finished.len() == bursts.len(),
        one_each(bursts),
    ensures
        one_each(fired(bursts, finished, burst)),
        one_each(unfinished(bursts, finished)),
{
    let alive = unfinished(bursts, finished);
    let others = of_others(alive, burst.owner);
    lemma_unfinished(bursts, finished);
    lemma_taken_from_keeps_one_each(alive, bursts);
    lemma_of_others(alive, burst.owner);
    lemma_taken_from_keeps_one_each(others, alive);
    law_burst_restarts(bursts, finished, burst);
    let after = fired(bursts, finished, burst);
    assert forall|i: int, j: int| 0 <= i < j < after.len() implies (#[trigger] after[i]).owner != (
    #[trigger] after[j]).owner by {
        if j < after.len() - 1 {
            if others.len() >= AT_ONCE {
                assert(after[i] == others[i + 1] && after[j] == others[j + 1]);
            } else {
                assert(after[i] == others[i] && after[j] == others[j]);
            }
        }
    }
}

/// Bursts leave nothing behind: once all are finished and have been drawn, a
/// slot that keeps nothing else keeps nothing.
pub proof fn law_bursts_leave_nothing_behind(
    memos: vstd::map::Map<egui::Id, crate::memory::MemoView>,
    slot: egui::Id,
    finished: Seq<bool>,
)
    requires
        finished.len() == bursts_of(memos, slot).len(),
        forall|i: int| 0 <= i < finished.len() ==> #[trigger] finished[i],
        crate::memory::kept_for(memos, slot).state is None,
        crate::memory::kept_for(memos, slot).trail is None,
        !crate::memory::kept_for(memos, slot).open,
        crate::memory::kept_for(memos, slot).asked is None,
        crate::memory::kept_for(memos, slot).stillness is None,
    ensures
        !with_bursts(
            memos,
            slot,
            unfinished(bursts_of(memos, slot), finished),
        ).contains_key(slot),
{
    lemma_unfinished(bursts_of(memos, slot), finished);
    assert(unfinished(bursts_of(memos, slot), finished) =~= Seq::<Burst>::empty());
}

/// A burst that has just been set off is among those kept.
pub proof fn law_burst_is_kept(
    memos: vstd::map::Map<egui::Id, crate::memory::MemoView>,
    slot: egui::Id,
    finished: Seq<bool>,
    burst: Burst,
)
    requires
        finished.len() == bursts_of(memos, slot).len(),
    ensures
        bursts_of(
            with_bursts(memos, slot, fired(bursts_of(memos, slot), finished, burst)),
            slot,
        ) == fired(bursts_of(memos, slot), finished, burst),
        fired(bursts_of(memos, slot), finished, burst).contains(burst),
{
    law_burst_restarts(bursts_of(memos, slot), finished, burst);
    let after = fired(bursts_of(memos, slot), finished, burst);
    assert(after[after.len() - 1] == burst);
}

/// Whether `at` lists, in order, just the places below `len` that `keep` picks.
pub open spec fn lists_exactly(at: Seq<int>, len: int, keep: spec_fn(int) -> bool) -> bool {
    &&& forall|k: int| 0 <= k < at.len() ==> 0 <= #[trigger] at[k] < len && keep(at[k])
    &&& forall|i: int| 0 <= i < len && #[trigger] keep(i) ==> at.contains(i)
    &&& forall|j: int, k: int| 0 <= j < k < at.len() ==> #[trigger] at[j] < #[trigger] at[k]
}

/// The places of the bursts that are not finished.
pub open spec fn in_the_air(finished: Seq<bool>) -> spec_fn(int) -> bool {
    |i: int| !finished[i]
}

/// The places of the bursts that are not finished and that others than `owner`
/// set off.
pub open spec fn in_the_air_of_others(
    bursts: Seq<Burst>,
    finished: Seq<bool>,
    owner: egui::Id,
) -> spec_fn(int) -> bool {
    |i: int| !finished[i] && bursts[i].owner != owner
}

/// The bursts at the places that `at` lists.
pub open spec fn found_at(bursts: Seq<Burst>, at: Seq<int>) -> Seq<Burst> {
    Seq::new(at.len(), |k: int| bursts[at[k]])
}

proof fn lemma_lists_more(at: Seq<int>, len: int, keep: spec_fn(int) -> bool)
    requires
        len >= 0,
        lists_exactly(at, len, keep),
    ensures
        keep(len) ==> lists_exactly(at.push(len), len + 1, keep),
        !keep(len) ==> lists_exactly(at, len + 1, keep),
{
    if keep(len) {
        let more = at.push(len);
        assert forall|i: int| 0 <= i < len + 1 && #[trigger] keep(i) implies more.contains(i) by {
            if i == len {
                assert(more[at.len() as int] == i);
            } else {
                let k = at.index_of(i);
                assert(at.contains(i));
                assert(more[k] == i);
            }
        }
    }
}

proof fn lemma_lists_alike(
    at: Seq<int>,
    len: int,
    one: spec_fn(int) -> bool,
    other: spec_fn(int) -> bool,
)
    requires
        lists_exactly(at, len, one),
        forall|i: int| #![trigger one(i)] #![trigger other(i)] 0 <= i < len ==> one(i) == other(i),
    ensures
        lists_exactly(at, len, other),
{
    assert forall|k: int| 0 <= k < at.len() implies 0 <= #[trigger] at[k] < len && other(
        at[k],
    ) by {
        assert(one(at[k]));
    }
}

proof fn lemma_unfinished_at(bursts: Seq<Burst>, finished: Seq<bool>, owner: egui::Id)
    requires
        finished.len() == bursts.len(),
    ensures
        exists|at: Seq<int>|
            {
                &&& #[trigger] lists_exactly(at, bursts.len() as int, in_the_air(finished))
                &&& unfinished(bursts, finished) == found_at(bursts, at)
            },
        exists|at: Seq<int>|
            {
                &&& #[trigger] lists_exactly(
                    at,
                    bursts.len() as int,
                    in_the_air_of_others(bursts, finished, owner),
                )
                &&& of_others(unfinished(bursts, finished), owner) == found_at(bursts, at)
            },
    decreases bursts.len(),
{
    reveal(Seq::filter);
    let len = bursts.len() as int;
    let alive = in_the_air(finished);
    let apart = in_the_air_of_others(bursts, finished, owner);
    if len == 0 {
        assert(lists_exactly(Seq::<int>::empty(), len, alive));
        assert(lists_exactly(Seq::<int>::empty(), len, apart));
        assert(unfinished(bursts, finished) =~= found_at(bursts, Seq::<int>::empty()));
        assert(of_others(unfinished(bursts, finished), owner) =~= found_at(
            bursts,
            Seq::<int>::empty(),
        ));
    } else {
        let before = bursts.drop_last();
        let ended = finished.drop_last();
        lemma_unfinished_at(before, ended, owner);
        let alive_before = in_the_air(ended);
        let apart_before = in_the_air_of_others(before, ended, owner);
        let first = choose|at: Seq<int>|
            {
                &&& #[trigger] lists_exactly(at, len - 1, alive_before)
                &&& unfinished(before, ended) == found_at(before, at)
            };
        let second = choose|at: Seq<int>|
            {
                &&& #[trigger] lists_exactly(at, len - 1, apart_before)
                &&& of_others(unfinished(before, ended), owner) == found_at(before, at)
            };
        assert forall|i: int| 0 <= i < len - 1 implies #[trigger] before[i] == bursts[i] by {}
        assert forall|i: int| 0 <= i < len - 1 implies #[trigger] ended[i] == finished[i] by {}
        lemma_lists_alike(first, len - 1, alive_before, alive);
        lemma_lists_alike(second, len - 1, apart_before, apart);
        lemma_lists_more(first, len - 1, alive);
        lemma_lists_more(second, len - 1, apart);
        let earlier = unfinished(before, ended);
        let now = unfinished(bursts, finished);
        assert(found_at(before, first) =~= found_at(bursts, first));
        assert(found_at(before, second) =~= found_at(bursts, second));
        if finished.last() {
            assert(now == earlier);
            assert(lists_exactly(first, len, alive) && lists_exactly(second, len, apart));
        } else {
            assert(now == earlier.push(bursts.last()));
            assert(now.drop_last() =~= earlier);
            assert(lists_exactly(first.push(len - 1), len, alive));
            assert(now =~= found_at(bursts, first.push(len - 1)));
            if bursts.last().owner == owner {
                assert(of_others(now, owner) == of_others(earlier, owner));
                assert(lists_exactly(second, len, apart));
            } else {
                assert(of_others(now, owner) == of_others(earlier, owner).push(bursts.last()));
                assert(lists_exactly(second.push(len - 1), len, apart));
                assert(of_others(now, owner) =~= found_at(bursts, second.push(len - 1)));
            }
        }
    }
}

/// What is drawn are all the bursts that are not finished, each once and in
/// their order, and no others.
pub proof fn law_unfinished_bursts_are_drawn(bursts: Seq<Burst>, finished: Seq<bool>)
    requires
        finished.len() == bursts.len(),
    ensures
        exists|at: Seq<int>|
            {
                &&& #[trigger] lists_exactly(at, bursts.len() as int, in_the_air(finished))
                &&& unfinished(bursts, finished) == found_at(bursts, at)
            },
{
    if bursts.len() > 0 {
        lemma_unfinished_at(bursts, finished, bursts[0].owner);
    } else {
        let at = Seq::<int>::empty();
        assert(lists_exactly(at, 0, in_the_air(finished)));
        assert(unfinished(bursts, finished) =~= found_at(bursts, at));
    }
}

/// Setting a burst off leaves every burst of another control in the air that is
/// not finished, in order, and puts the new one last. Only where there are four
/// of them already does one give way, and that is the oldest.
pub proof fn law_setting_off_spares_the_others(
    bursts: Seq<Burst>,
    finished: Seq<bool>,
    burst: Burst,
)
    requires
        finished.len() == bursts.len(),
    ensures
        exists|at: Seq<int>|
            {
                &&& #[trigger] lists_exactly(
                    at,
                    bursts.len() as int,
                    in_the_air_of_others(bursts, finished, burst.owner),
                )
                &&& at.len() < 4 ==> fired(bursts, finished, burst) == found_at(bursts, at).push(
                    burst,
                )
                &&& at.len() >= 4 ==> fired(bursts, finished, burst) == found_at(
                    bursts,
                    at.skip(1),
                ).push(burst)
            },
{
    lemma_unfinished_at(bursts, finished, burst.owner);
    let others = of_others(unfinished(bursts, finished), burst.owner);
    let at = choose|at: Seq<int>|
        {
            &&& #[trigger] lists_exactly(
                at,
                bursts.len() as int,
                in_the_air_of_others(bursts, finished, burst.owner),
            )
            &&& others == found_at(bursts, at)
        };
    if at.len() >= 4 {
        assert(others.drop_first() =~= found_at(bursts, at.skip(1)));
    }
}

/// The bursts of a slot are those kept for it last, and keeping them leaves every
/// other slot alone.
pub proof fn law_bursts_are_read_back(
    memos: vstd::map::Map<egui::Id, crate::memory::MemoView>,
    slot: egui::Id,
    bursts: Seq<Burst>,
    other: egui::Id,
)
    ensures
        bursts_of(with_bursts(memos, slot, bursts), slot) == bursts,
        other != slot ==> crate::memory::kept_for(with_bursts(memos, slot, bursts), other)
            == crate::memory::kept_for(memos, other),
        !memos.contains_key(slot) ==> bursts_of(memos, slot).len() == 0,
{
}

/// A control sees its own burst as long as that is not over, and nothing after;
/// one that set none off sees none.
pub proof fn law_control_sees_its_own_burst(
    bursts: Seq<Burst>,
    finished: Seq<bool>,
    owner: egui::Id,
    at: int,
)
    requires
        finished.len() == bursts.len(),
        one_each(bursts),
    ensures
        0 <= at < bursts.len() && bursts[at].owner == owner ==> seen(bursts, finished, owner)
            == if finished[at] {
            None
        } else {
            Some(bursts[at])
        },
        (forall|i: int| 0 <= i < bursts.len() ==> (#[trigger] bursts[i]).owner != owner) ==> seen(
            bursts,
            finished,
            owner,
        ) is None,
    decreases bursts.len(),
{
    if bursts.len() > 0 {
        let rest = bursts.drop_first();
        let ended = finished.drop_first();
        assert forall|i: int, j: int| 0 <= i < j < rest.len() implies (#[trigger] rest[i]).owner
            != (#[trigger] rest[j]).owner by {
            assert(rest[i] == bursts[i + 1] && rest[j] == bursts[j + 1]);
        }
        law_control_sees_its_own_burst(rest, ended, owner, at - 1);
        if 0 < at < bursts.len() {
            assert(rest[at - 1] == bursts[at] && ended[at - 1] == finished[at]);
            assert(bursts[0].owner != bursts[at].owner);
        }
        if forall|i: int| 0 <= i < bursts.len() ==> (#[trigger] bursts[i]).owner != owner {
            assert forall|i: int| 0 <= i < rest.len() implies (#[trigger] rest[i]).owner
                != owner by {
                assert(rest[i] == bursts[i + 1]);
            }
            assert(bursts[0].owner != owner);
        }
    }
}

/// A control sees the burst that it has just set off.
pub proof fn law_fresh_burst_is_seen(
    bursts: Seq<Burst>,
    finished: Seq<bool>,
    burst: Burst,
    over: Seq<bool>,
)
    requires
        finished.len() == bursts.len(),
        one_each(bursts),
        over.len() == fired(bursts, finished, burst).len(),
        !over.last(),
    ensures
        seen(fired(bursts, finished, burst), over, burst.owner) == Some(burst),
{
    law_burst_restarts(bursts, finished, burst);
    law_one_burst_per_control(bursts, finished, burst);
    let after = fired(bursts, finished, burst);
    law_control_sees_its_own_burst(after, over, burst.owner, after.len() - 1);
}

} // verus!
