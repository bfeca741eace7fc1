//! What the interface remembers from one pass to the next.
//!
//! The toolkit keeps values by the id of the control they belong to. All that
//! is kept for one control is one [`Memo`] there, and a control that nothing
//! is kept for has none.

use vstd::prelude::*;

use crate::motion::{State, Trail};
use crate::spark::Burst;

verus! {

/// The toolkit's name for a control.
#[verifier::external_type_specification]
#[verifier::external_body]
pub struct ExId(egui::Id);

/// The toolkit's store of values by id and type.
#[verifier::external_type_specification]
#[verifier::external_body]
pub struct ExIdTypeMap(egui::util::IdTypeMap);

/// A place on the screen.
#[verifier::external_type_specification]
#[verifier::external_body]
pub struct ExPos2(egui::Pos2);

/// A colour.
#[verifier::external_type_specification]
#[verifier::external_body]
pub struct ExColor32(egui::Color32);

/// All that is kept for one control.
pub struct Memo {
    /// Where an animated value stands.
    pub state: Option<State>,
    /// Which rows of a list are lit.
    pub trail: Option<Trail>,
    /// The bursts in flight.
    pub bursts: Vec<Burst>,
    /// Whether a sheet is open.
    pub open: bool,
    /// When a window was last asked for its size: the bit pattern of a time in
    /// seconds.
    pub asked: Option<u64>,
    /// Whether the desktop asks for less movement, and when it last said so: the
    /// bit pattern of a time in seconds.
    pub stillness: Option<(u64, bool)>,
}

/// What a [`Memo`] holds.
#[verifier::ext_equal]
pub struct MemoView {
    pub state: Option<State>,
    pub trail: Option<Trail>,
    pub bursts: Seq<Burst>,
    pub open: bool,
    pub asked: Option<u64>,
    pub stillness: Option<(u64, bool)>,
}

impl View for Memo {
    type V = MemoView;

    open spec fn view(&self) -> MemoView {
        MemoView {
            state: self.state,
            trail: self.trail,
            bursts: self.bursts@,
            open: self.open,
            asked: self.asked,
            stillness: self.stillness,
        }
    }
}

impl Clone for Memo {
    fn clone(&self) -> (memo: Self)
        ensures
            memo@ == self@,
    {
        let mut bursts: Vec<Burst> = Vec::new();
        let mut i: usize = 0;
        while i < self.bursts.len()
            invariant
                i <= self.bursts@.len(),
                bursts@ == self.bursts@.take(i as int),
            decreases self.bursts@.len() - i,
        {
            bursts.push(self.bursts[i]);
            i = i + 1;
        }
        assert(bursts@ =~= self.bursts@);
        Self {
            state: self.state,
            trail: self.trail,
            bursts,
            open: self.open,
            asked: self.asked,
            stillness: self.stillness,
        }
    }
}

/// A memo of nothing.
pub open spec fn nothing() -> MemoView {
    MemoView {
        state: None,
        trail: None,
        bursts: Seq::empty(),
        open: false,
        asked: None,
        stillness: None,
    }
}

/// The memos that `data` holds, by the ids of their controls.
pub uninterp spec fn memos(data: egui::util::IdTypeMap) -> Map<egui::Id, MemoView>;

/// What `memos` has for `id`: nothing, where there is no memo.
pub open spec fn kept_for(memos: Map<egui::Id, MemoView>, id: egui::Id) -> MemoView {
    if memos.contains_key(id) {
        memos[id]
    } else {
        nothing()
    }
}

/// `memos` with `memo` for `id`, and with none for it where there is nothing
/// to keep.
pub open spec fn keeping(
    memos: Map<egui::Id, MemoView>,
    id: egui::Id,
    memo: MemoView,
) -> Map<egui::Id, MemoView> {
    if memo == nothing() {
        memos.remove(id)
    } else {
        memos.insert(id, memo)
    }
}

/// `egui::util::IdTypeMap::get_temp`: a clone of the memo stored for `id`, and
/// nothing where none is.
#[verifier::external_body]
fn get_temp(data: &egui::util::IdTypeMap, id: egui::Id) -> (memo: Option<Memo>)
    ensures
        memo is Some == memos(*data).contains_key(id),
        memo matches Some(memo) ==> memo@ == memos(*data)[id],
{
    data.get_temp::<Memo>(id)
}

/// `egui::util::IdTypeMap::insert_temp`: stores the memo for `id`, in place of
/// the one there was; the memos of other ids stay as they are.
#[verifier::external_body]
fn insert_temp(data: &mut egui::util::IdTypeMap, id: egui::Id, memo: Memo)
    ensures
        memos(*final(data)) == memos(*old(data)).insert(id, memo@),
{
    data.insert_temp(id, memo);
}

/// `egui::util::IdTypeMap::remove`: drops the memo stored for `id`; the memos
/// of other ids stay as they are.
#[verifier::external_body]
fn remove(data: &mut egui::util::IdTypeMap, id: egui::Id)
    ensures
        memos(*final(data)) == memos(*old(data)).remove(id),
{
    data.remove::<Memo>(id);
}

/// The `==` that `egui::Id` derives: it holds between an id and itself, and
/// between no two different ids.
#[verifier::external_body]
pub(crate) fn same_id(one: egui::Id, other: egui::Id) -> (same: bool)
    ensures
        same == (one == other),
{
    one == other
}

/// Whether two slots hold the same id, or none both.
pub(crate) fn same_slot(one: Option<egui::Id>, other: Option<egui::Id>) -> (same: bool)
    ensures
        same == (one == other),
{
    match (one, other) {
        (Some(one), Some(other)) => same_id(one, other),
        (None, None) => true,
        _ => false,
    }
}

impl Memo {
    /// A memo of nothing.
    pub fn new() -> (memo: Self)
        ensures
            memo@ == nothing(),
    {
        Self {
            state: None,
            trail: None,
            bursts: Vec::new(),
            open: false,
            asked: None,
            stillness: None,
        }
    }

    /// Whether there is nothing to keep.
    pub fn is_empty(&self) -> (empty: bool)
        ensures
            empty == (self@ == nothing()),
    {
        let empty: bool = self.state.is_none() && self.trail.is_none() && self.bursts.len() == 0
            && !self.open && self.asked.is_none() && self.stillness.is_none();
        proof {
            if empty {
                assert(self@ =~= nothing());
            }
        }
        empty
    }
}

/// What is kept for `id`.
pub fn load(data: &egui::util::IdTypeMap, id: egui::Id) -> (memo: Memo)
    ensures
        memo@ == kept_for(memos(*data), id),
{
    match get_temp(data, id) {
        Some(memo) => memo,
        None => Memo::new(),
    }
}

/// Keeps `memo` for `id`. A memo of nothing is not kept at all.
pub fn store(data: &mut egui::util::IdTypeMap, id: egui::Id, memo: Memo)
    ensures
        memos(*final(data)) == keeping(memos(*old(data)), id, memo@),
{
    if memo.is_empty() {
        remove(data, id);
    } else {
        insert_temp(data, id, memo);
    }
}

/// What is kept for a control is what was kept for it last, and keeping it
/// leaves every other control alone.
pub proof fn law_reads_back_what_was_kept(
    memos: Map<egui::Id, MemoView>,
    id: egui::Id,
    memo: MemoView,
    other: egui::Id,
)
    ensures
        kept_for(keeping(memos, id, memo), id) == memo,
        other != id ==> kept_for(keeping(memos, id, memo), other) == kept_for(memos, other),
{
}

/// A control that nothing is kept for takes no room.
pub proof fn law_nothing_takes_no_room(memos: Map<egui::Id, MemoView>, id: egui::Id)
    ensures
        !keeping(memos, id, nothing()).contains_key(id),
{
}

} // verus!
