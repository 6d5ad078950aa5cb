//! The state record: slots, the active slot, and the history of patches.
//!
//! [`UpdaterState`] is the single aggregate that outlives the process. Its
//! meaning is its view, a [`StateView`]; every operation is specified as a
//! function on views, and the rules that keep the history sound are proved
//! once, on views, for every sequence of operations.

use crate::error::UpdateError;
use vstd::prelude::*;

verus! {

/// The payload found in a slot, as handed to callers and to the functions that
/// record how a launch went. A projection of a slot, not independently owned.
#[derive(PartialEq, Eq, Debug)]
pub struct PatchInfo {
    /// Where the payload lives on durable storage.
    pub path: String,
    /// The version of the payload.
    pub version: String,
}

/// What a [`PatchInfo`] stands for.
pub struct PatchInfoView {
    pub path: Seq<char>,
    pub version: Seq<char>,
}

impl View for PatchInfo {
    type V = PatchInfoView;

    open spec fn view(&self) -> PatchInfoView {
        PatchInfoView { path: self.path@, version: self.version@ }
    }
}

impl DeepView for PatchInfo {
    type V = PatchInfoView;

    open spec fn deep_view(&self) -> PatchInfoView {
        self@
    }
}

/// A storage location for one patch payload.
#[derive(PartialEq, Eq, Debug)]
pub struct Slot {
    /// Where the payload of this slot lives on durable storage.
    pub path: String,
    /// The version of the patch stored in this slot.
    pub patch_version: String,
}

/// What a [`Slot`] stands for.
pub struct SlotView {
    pub path: Seq<char>,
    pub patch_version: Seq<char>,
}

impl SlotView {
    /// The slot that holds nothing: a placeholder.
    pub open spec fn empty() -> SlotView {
        SlotView { path: Seq::empty(), patch_version: Seq::empty() }
    }

    /// The payload that this slot describes.
    pub open spec fn patch(self) -> PatchInfoView {
        PatchInfoView { path: self.path, version: self.patch_version }
    }
}

impl View for Slot {
    type V = SlotView;

    open spec fn view(&self) -> SlotView {
        SlotView { path: self.path@, patch_version: self.patch_version@ }
    }
}

impl DeepView for Slot {
    type V = SlotView;

    open spec fn deep_view(&self) -> SlotView {
        self@
    }
}

impl Clone for Slot {
    fn clone(&self) -> (slot: Slot)
        ensures
            slot@ == self@,
    {
        Slot { path: self.path.clone(), patch_version: self.patch_version.clone() }
    }
}

impl Default for Slot {
    fn default() -> (slot: Slot)
        ensures
            slot@ == SlotView::empty(),
    {
        Slot { path: String::new(), patch_version: String::new() }
    }
}

/// How a report about a launch was received.
#[derive(Clone, Copy, PartialEq, Eq, Debug, Structural)]
pub enum MarkOutcome {
    /// The version was not known before and has now been recorded.
    Recorded,
    /// The version was already recorded with the same verdict; nothing changed.
    AlreadyRecorded,
    /// The version is recorded with the opposite verdict. The report is a
    /// mistake of the caller: nothing changed, and a warning is due.
    Refused,
}

/// What an [`UpdaterState`] stands for.
pub struct StateView {
    /// Versions that failed to boot. They are never attempted again.
    pub failed_patches: Seq<Seq<char>>,
    /// Versions that booted. The device never rolls back past one of these.
    pub successful_patches: Seq<Seq<char>>,
    /// The slot that the next launch uses. It may name no slot at all.
    pub current_slot_index: nat,
    /// The slots, each identified by its position.
    pub slots: Seq<SlotView>,
}

impl StateView {
    /// The record of a device that has never run: no slot, no verdict, and
    /// an active index that names the second of the two rotating slots. The
    /// first install goes into the first slot, so it is not active until it
    /// is chosen.
    pub open spec fn fresh() -> StateView {
        StateView {
            failed_patches: Seq::empty(),
            successful_patches: Seq::empty(),
            current_slot_index: 1,
            slots: Seq::empty(),
        }
    }

    /// `version` has been confirmed to boot.
    pub open spec fn is_known_good(self, version: Seq<char>) -> bool {
        self.successful_patches.contains(version)
    }

    /// `version` has been confirmed to fail.
    pub open spec fn is_known_bad(self, version: Seq<char>) -> bool {
        self.failed_patches.contains(version)
    }

    /// No version is recorded both as good and as bad.
    pub open spec fn disjoint(self) -> bool {
        forall|version: Seq<char>|
            !(self.successful_patches.contains(version)
                && #[trigger] self.failed_patches.contains(version))
    }

    /// No version is recorded twice with the same verdict.
    pub open spec fn without_repeats(self) -> bool {
        self.successful_patches.no_duplicates() && self.failed_patches.no_duplicates()
    }

    /// How a report of a successful launch of `version` is received.
    pub open spec fn mark_good_outcome(self, version: Seq<char>) -> MarkOutcome {
        if self.is_known_bad(version) {
            MarkOutcome::Refused
        } else if self.is_known_good(version) {
            MarkOutcome::AlreadyRecorded
        } else {
            MarkOutcome::Recorded
        }
    }

    /// The record after a report of a successful launch of `version`.
    pub open spec fn mark_good(self, version: Seq<char>) -> StateView {
        if self.mark_good_outcome(version) == MarkOutcome::Recorded {
            StateView { successful_patches: self.successful_patches.push(version), ..self }
        } else {
            self
        }
    }

    /// How a report of a failed launch of `version` is received.
    pub open spec fn mark_bad_outcome(self, version: Seq<char>) -> MarkOutcome {
        if self.is_known_good(version) {
            MarkOutcome::Refused
        } else if self.is_known_bad(version) {
            MarkOutcome::AlreadyRecorded
        } else {
            MarkOutcome::Recorded
        }
    }

    /// The record after a report of a failed launch of `version`.
    pub open spec fn mark_bad(self, version: Seq<char>) -> StateView {
        if self.mark_bad_outcome(version) == MarkOutcome::Recorded {
            StateView { failed_patches: self.failed_patches.push(version), ..self }
        } else {
            self
        }
    }

    /// The payload in the active slot, if the active index names a slot.
    pub open spec fn current_patch(self) -> Option<PatchInfoView> {
        if self.current_slot_index < self.slots.len() {
            Some(self.slots[self.current_slot_index as int].patch())
        } else {
            None
        }
    }

    /// The record with `index` as the active slot.
    pub open spec fn set_current_slot(self, index: nat) -> StateView {
        StateView { current_slot_index: index, ..self }
    }

    /// The slot to install into next: the other one of two rotating slots, or
    /// the first while there is none.
    pub open spec fn unused_slot(self) -> nat {
        if self.slots.len() == 0 {
            0
        } else if self.current_slot_index == 0 {
            1
        } else {
            0
        }
    }

    /// `index` names an existing slot or the one right after the last.
    pub open spec fn can_set_slot(self, index: nat) -> bool {
        index <= self.slots.len()
    }

    /// The record with `slot` at position `index`.
    pub open spec fn set_slot(self, index: nat, slot: SlotView) -> StateView
        recommends
            self.can_set_slot(index),
    {
        if index < self.slots.len() {
            StateView { slots: self.slots.update(index as int, slot), ..self }
        } else {
            StateView { slots: self.slots.push(slot), ..self }
        }
    }
}

/// The persisted aggregate. Callers hold a handle to it; what is inside
/// changes only through the functions below.
pub struct UpdaterState {
    /// Patches that failed to boot. They are never attempted again.
    failed_patches: Vec<String>,
    /// Patches that booted. The device never rolls back past one of these.
    successful_patches: Vec<String>,
    /// The currently selected slot.
    current_slot_index: usize,
    /// The slots.
    slots: Vec<Slot>,
}

impl View for UpdaterState {
    type V = StateView;

    closed spec fn view(&self) -> StateView {
        StateView {
            failed_patches: self.failed_patches.deep_view(),
            successful_patches: self.successful_patches.deep_view(),
            current_slot_index: self.current_slot_index as nat,
            slots: self.slots.deep_view(),
        }
    }
}

impl Default for UpdaterState {
    fn default() -> (state: UpdaterState)
        ensures
            state@ == StateView::fresh(),
            state@.disjoint(),
            state@.without_repeats(),
            state@.current_patch() is None,
            state@.unused_slot() == 0,
            state@.unused_slot() != state@.current_slot_index,
    {
        let state = UpdaterState {
            current_slot_index: 1,
            failed_patches: Vec::new(),
            successful_patches: Vec::new(),
            slots: Vec::new(),
        };
        assert(state.failed_patches.deep_view() =~= Seq::empty());
        assert(state.successful_patches.deep_view() =~= Seq::empty());
        assert(state.slots.deep_view() =~= Seq::empty());
        state
    }
}

/// The record in the form in which it is written to the state file: the four
/// fields, open to the code that serializes them.
#[derive(PartialEq, Eq, Debug)]
pub struct StateRecord {
    pub failed_patches: Vec<String>,
    pub successful_patches: Vec<String>,
    pub current_slot_index: usize,
    pub slots: Vec<Slot>,
}

impl View for StateRecord {
    type V = StateView;

    open spec fn view(&self) -> StateView {
        StateView {
            failed_patches: self.failed_patches.deep_view(),
            successful_patches: self.successful_patches.deep_view(),
            current_slot_index: self.current_slot_index as nat,
            slots: self.slots.deep_view(),
        }
    }
}

/// What came of reading the state file.
#[derive(PartialEq, Eq, Debug)]
pub enum StateFile {
    /// There is no state file.
    Missing,
    /// The file is there, but it could not be opened or read.
    Unreadable,
    /// The file was read, but what it holds is not a state record.
    Malformed,
    /// The file holds this record.
    Holds(StateRecord),
}

/// What a [`StateFile`] stands for.
pub enum StateFileView {
    Missing,
    Unreadable,
    Malformed,
    Holds(StateView),
}

impl View for StateFile {
    type V = StateFileView;

    open spec fn view(&self) -> StateFileView {
        match *self {
            StateFile::Missing => StateFileView::Missing,
            StateFile::Unreadable => StateFileView::Unreadable,
            StateFile::Malformed => StateFileView::Malformed,
            StateFile::Holds(record) => StateFileView::Holds(record@),
        }
    }
}

impl StateFileView {
    /// What loading makes of the file: the record it holds, or the reason why
    /// there is none.
    pub open spec fn load(self) -> Result<StateView, UpdateError> {
        match self {
            StateFileView::Missing => Err(UpdateError::NotFound),
            StateFileView::Unreadable => Err(UpdateError::IOError),
            StateFileView::Malformed => Err(UpdateError::DeserializeError),
            StateFileView::Holds(record) => Ok(record),
        }
    }
}

/// Tells whether `version` occurs in `list`.
fn holds_version(list: &Vec<String>, version: &String) -> (found: bool)
    ensures
        found == list.deep_view().contains(version@),
{
    let mut i: usize = 0;
    while i < list.len()
        invariant
            i <= list.len(),
            forall|j: int| 0 <= j < i ==> list.deep_view()[j] != version@,
        decreases list.len() - i,
    {
        if list[i] == *version {
            assert(list.deep_view()[i as int] == version@);
            return true;
        }
        i += 1;
    }
    false
}

impl UpdaterState {
    /// Tells whether the version of `patch` has been confirmed to boot.
    pub fn is_known_good_patch(&self, patch: &PatchInfo) -> (known: bool)
        ensures
            known == self@.is_known_good(patch.version@),
    {
        holds_version(&self.successful_patches, &patch.version)
    }

    /// Tells whether the version of `patch` has been confirmed to fail.
    pub fn is_known_bad_patch(&self, patch: &PatchInfo) -> (known: bool)
        ensures
            known == self@.is_known_bad(patch.version@),
    {
        holds_version(&self.failed_patches, &patch.version)
    }

    /// Records that `patch` failed to boot.
    ///
    /// A version already known to boot is left alone and the report is
    /// refused; a version already known to fail is not recorded twice.
    /// Nothing but the list of failed patches ever changes.
    pub fn mark_patch_as_bad(&mut self, patch: &PatchInfo) -> (outcome: MarkOutcome)
        ensures
            final(self)@ == old(self)@.mark_bad(patch.version@),
            outcome == old(self)@.mark_bad_outcome(patch.version@),
            forall|version: Seq<char>| #[trigger]
                final(self)@.is_known_bad(version) <==> old(self)@.is_known_bad(version) || (
                outcome == MarkOutcome::Recorded && version == patch.version@),
            old(self)@.disjoint() ==> final(self)@.disjoint(),
            old(self)@.without_repeats() ==> final(self)@.without_repeats(),
    {
        if self.is_known_good_patch(patch) {
            return MarkOutcome::Refused;
        }
        if self.is_known_bad_patch(patch) {
            return MarkOutcome::AlreadyRecorded;
        }
        self.failed_patches.push(patch.version.clone());
        proof {
            assert(self.failed_patches.deep_view() =~= old(self).failed_patches.deep_view().push(
                patch.version@,
            ));
            lemma_mark_bad_keeps_invariants(old(self)@, patch.version@);
            lemma_push_contains(old(self)@.failed_patches, patch.version@);
        }
        MarkOutcome::Recorded
    }

    /// Records that `patch` booted.
    ///
    /// A version already known to fail is left alone and the report is
    /// refused; a version already known to boot is not recorded twice.
    /// Nothing but the list of successful patches ever changes.
    pub fn mark_patch_as_good(&mut self, patch: &PatchInfo) -> (outcome: MarkOutcome)
        ensures
            final(self)@ == old(self)@.mark_good(patch.version@),
            outcome == old(self)@.mark_good_outcome(patch.version@),
            forall|version: Seq<char>| #[trigger]
                final(self)@.is_known_good(version) <==> old(self)@.is_known_good(version) || (
                outcome == MarkOutcome::Recorded && version == patch.version@),
            old(self)@.disjoint() ==> final(self)@.disjoint(),
            old(self)@.without_repeats() ==> final(self)@.without_repeats(),
    {
        if self.is_known_bad_patch(patch) {
            return MarkOutcome::Refused;
        }
        if self.is_known_good_patch(patch) {
            return MarkOutcome::AlreadyRecorded;
        }
        self.successful_patches.push(patch.version.clone());
        proof {
            assert(self.successful_patches.deep_view()
                =~= old(self).successful_patches.deep_view().push(patch.version@));
            lemma_mark_good_keeps_invariants(old(self)@, patch.version@);
            lemma_push_contains(old(self)@.successful_patches, patch.version@);
        }
        MarkOutcome::Recorded
    }

    /// The payload in the active slot, or nothing where the active index names
    /// no slot. Total: no state makes it fail.
    pub fn current_patch(&self) -> (patch: Option<PatchInfo>)
        ensures
            patch.deep_view() == self@.current_patch(),
            self@.slots.len() == 0 || self@.current_slot_index >= self@.slots.len()
                ==> patch is None,
    {
        if self.slots.is_empty() || self.current_slot_index >= self.slots.len() {
            return None;
        }
        let slot = &self.slots[self.current_slot_index];
        Some(PatchInfo { path: slot.path.clone(), version: slot.patch_version.clone() })
    }

    /// The slot to install into next. Two slots rotate: the result is the one
    /// that is not active, or the first while there is no slot at all. It is
    /// the active index itself in one case only: there is no slot, and the
    /// active index has been set to 0.
    pub fn unused_slot(&self) -> (index: usize)
        ensures
            index == self@.unused_slot(),
            index <= 1,
            self@.can_set_slot(index as nat),
            index == self@.current_slot_index <==> self@.slots.len() == 0
                && self@.current_slot_index == 0,
    {
        if self.slots.is_empty() {
            return 0;
        }
        if self.current_slot_index == 0 {
            return 1;
        }
        0
    }

    /// Tells whether [`UpdaterState::set_slot`] accepts `index`: it must name
    /// an existing slot or the one right after the last.
    pub fn can_set_slot(&self, index: usize) -> (accepted: bool)
        ensures
            accepted == self@.can_set_slot(index as nat),
    {
        index <= self.slots.len()
    }

    /// Puts `slot` at position `index`, adding one slot at the end where
    /// `index` is the first unused position.
    pub fn set_slot(&mut self, index: usize, slot: Slot)
        requires
            old(self)@.can_set_slot(index as nat),
        ensures
            final(self)@ == old(self)@.set_slot(index as nat, slot@),
    {
        if index < self.slots.len() {
            self.slots.set(index, slot);
            assert(self.slots.deep_view() =~= old(self).slots.deep_view().update(
                index as int,
                slot@,
            ));
        } else {
            self.slots.push(slot);
            assert(self.slots.deep_view() =~= old(self).slots.deep_view().push(slot@));
        }
    }

    /// Makes `index` the active slot. Nothing is persisted: the caller decides
    /// when to save.
    pub fn set_current_slot(&mut self, index: usize)
        ensures
            final(self)@ == old(self)@.set_current_slot(index as nat),
    {
        self.current_slot_index = index;
    }
    /// Turns what came of reading the state file into the state, or into the
    /// reason why there is none.
    ///
    /// What the file holds is taken as it is: a history that names a version
    /// both as good and as bad is not repaired.
    pub fn load(file: StateFile) -> (loaded: Result<UpdaterState, UpdateError>)
        ensures
            match loaded {
                Ok(state) => file@.load() == Ok::<StateView, UpdateError>(state@),
                Err(error) => file@.load() == Err::<StateView, UpdateError>(error),
            },
    {
        match file {
            StateFile::Missing => Err(UpdateError::NotFound),
            StateFile::Unreadable => Err(UpdateError::IOError),
            StateFile::Malformed => Err(UpdateError::DeserializeError),
            StateFile::Holds(record) => Ok(
                UpdaterState {
                    failed_patches: record.failed_patches,
                    successful_patches: record.successful_patches,
                    current_slot_index: record.current_slot_index,
                    slots: record.slots,
                },
            ),
        }
    }

    /// The record to write to the state file: a copy of all four fields.
    pub fn save(&self) -> (record: StateRecord)
        ensures
            record@ == self@,
    {
        let record = StateRecord {
            failed_patches: self.failed_patches.clone(),
            successful_patches: self.successful_patches.clone(),
            current_slot_index: self.current_slot_index,
            slots: self.slots.clone(),
        };
        assert(record.failed_patches.deep_view() =~= self.failed_patches.deep_view());
        assert(record.successful_patches.deep_view() =~= self.successful_patches.deep_view());
        assert(record.slots.deep_view() =~= self.slots.deep_view());
        record
    }
}

/// Recording a failed launch keeps the history sound.
pub proof fn lemma_mark_bad_keeps_invariants(state: StateView, version: Seq<char>)
    ensures
        state.disjoint() ==> state.mark_bad(version).disjoint(),
        state.without_repeats() ==> state.mark_bad(version).without_repeats(),
{
    if state.mark_bad_outcome(version) == MarkOutcome::Recorded {
        lemma_push_contains(state.failed_patches, version);
    }
}

/// Recording a successful launch keeps the history sound.
pub proof fn lemma_mark_good_keeps_invariants(state: StateView, version: Seq<char>)
    ensures
        state.disjoint() ==> state.mark_good(version).disjoint(),
        state.without_repeats() ==> state.mark_good(version).without_repeats(),
{
    if state.mark_good_outcome(version) == MarkOutcome::Recorded {
        lemma_push_contains(state.successful_patches, version);
    }
}

/// One call of a function that changes the record.
pub enum StoreOp {
    /// A report that a version booted.
    MarkGood(Seq<char>),
    /// A report that a version failed to boot.
    MarkBad(Seq<char>),
    /// The choice of another active slot.
    SetCurrentSlot(nat),
    /// The assignment of a slot.
    SetSlot(nat, SlotView),
}

impl StateView {
    /// The record after the call `op`.
    pub open spec fn apply(self, op: StoreOp) -> StateView {
        match op {
            StoreOp::MarkGood(version) => self.mark_good(version),
            StoreOp::MarkBad(version) => self.mark_bad(version),
            StoreOp::SetCurrentSlot(index) => self.set_current_slot(index),
            StoreOp::SetSlot(index, slot) => self.set_slot(index, slot),
        }
    }

    /// The record after the calls `ops`, made from first to last.
    pub open spec fn apply_all(self, ops: Seq<StoreOp>) -> StateView
        decreases ops.len(),
    {
        if ops.len() == 0 {
            self
        } else {
            self.apply_all(ops.drop_last()).apply(ops.last())
        }
    }
}

/// Reporting the same successful launch twice is the same as reporting it
/// once: the second report changes nothing and records nothing.
pub proof fn lemma_mark_good_idempotent(state: StateView, version: Seq<char>)
    ensures
        state.mark_good(version).mark_good(version) == state.mark_good(version),
        state.mark_good(version).mark_good_outcome(version) != MarkOutcome::Recorded,
{
    lemma_push_contains(state.successful_patches, version);
}

/// Reporting the same failed launch twice is the same as reporting it once:
/// the second report changes nothing and records nothing.
pub proof fn lemma_mark_bad_idempotent(state: StateView, version: Seq<char>)
    ensures
        state.mark_bad(version).mark_bad(version) == state.mark_bad(version),
        state.mark_bad(version).mark_bad_outcome(version) != MarkOutcome::Recorded,
{
    lemma_push_contains(state.failed_patches, version);
}

/// After a report that a version failed, a report that the same version
/// booted changes nothing: the list of successful patches, like the rest of
/// the record, stays as it was.
pub proof fn lemma_good_after_bad_changes_nothing(state: StateView, version: Seq<char>)
    ensures
        state.mark_bad(version).mark_good(version) == state.mark_bad(version),
        state.mark_bad(version).mark_good(version).successful_patches
            == state.successful_patches,
{
    lemma_push_contains(state.failed_patches, version);
}

/// After a report that a version booted, a report that the same version
/// failed changes nothing: the list of failed patches, like the rest of the
/// record, stays as it was.
pub proof fn lemma_bad_after_good_changes_nothing(state: StateView, version: Seq<char>)
    ensures
        state.mark_good(version).mark_bad(version) == state.mark_good(version),
        state.mark_good(version).mark_bad(version).failed_patches == state.failed_patches,
{
    lemma_push_contains(state.successful_patches, version);
}

/// After a report that a version failed, a report that the same version
/// booted is refused, so a warning is due. This holds unless the version was
/// known to boot, and not known to fail, before the first report: that report
/// was then itself refused, and the second one finds the version already
/// recorded.
pub proof fn lemma_good_after_bad_is_refused(state: StateView, version: Seq<char>)
    requires
        !state.is_known_good(version) || state.is_known_bad(version),
    ensures
        state.mark_bad(version).mark_good_outcome(version) == MarkOutcome::Refused,
{
    lemma_push_contains(state.failed_patches, version);
}

/// After a report that a version booted, a report that the same version
/// failed is refused, so a warning is due. This holds unless the version was
/// known to fail, and not known to boot, before the first report: that report
/// was then itself refused, and the second one finds the version already
/// recorded.
pub proof fn lemma_bad_after_good_is_refused(state: StateView, version: Seq<char>)
    requires
        !state.is_known_bad(version) || state.is_known_good(version),
    ensures
        state.mark_good(version).mark_bad_outcome(version) == MarkOutcome::Refused,
{
    lemma_push_contains(state.successful_patches, version);
}

/// No call takes a verdict back: a version known to boot stays known to
/// boot, and a version known to fail stays known to fail.
pub proof fn lemma_verdicts_are_permanent(state: StateView, op: StoreOp, version: Seq<char>)
    ensures
        state.is_known_good(version) ==> state.apply(op).is_known_good(version),
        state.is_known_bad(version) ==> state.apply(op).is_known_bad(version),
{
    match op {
        StoreOp::MarkGood(reported) => lemma_push_contains(state.successful_patches, reported),
        StoreOp::MarkBad(reported) => lemma_push_contains(state.failed_patches, reported),
        StoreOp::SetCurrentSlot(_) => {},
        StoreOp::SetSlot(_, _) => {},
    }
}

/// Whatever calls are made, and in whatever order, a history that was sound
/// stays sound: no version ends up both known to boot and known to fail, and
/// none is recorded twice. Verdicts given before the calls are all still
/// there after them.
pub proof fn lemma_history_stays_sound(state: StateView, ops: Seq<StoreOp>)
    ensures
        state.disjoint() ==> state.apply_all(ops).disjoint(),
        state.without_repeats() ==> state.apply_all(ops).without_repeats(),
        forall|version: Seq<char>|
            state.is_known_good(version) ==> #[trigger] state.apply_all(ops).is_known_good(
                version,
            ),
        forall|version: Seq<char>|
            state.is_known_bad(version) ==> #[trigger] state.apply_all(ops).is_known_bad(
                version,
            ),
    decreases ops.len(),
{
    if ops.len() > 0 {
        let before = state.apply_all(ops.drop_last());
        lemma_history_stays_sound(state, ops.drop_last());
        match ops.last() {
            StoreOp::MarkGood(version) => lemma_mark_good_keeps_invariants(before, version),
            StoreOp::MarkBad(version) => lemma_mark_bad_keeps_invariants(before, version),
            StoreOp::SetCurrentSlot(_) => {},
            StoreOp::SetSlot(_, _) => {},
        }
        assert forall|version: Seq<char>| state.is_known_good(version) implies #[trigger]
            state.apply_all(ops).is_known_good(version) by {
            assert(before.is_known_good(version));
            lemma_verdicts_are_permanent(before, ops.last(), version);
        }
        assert forall|version: Seq<char>| state.is_known_bad(version) implies #[trigger]
            state.apply_all(ops).is_known_bad(version) by {
            assert(before.is_known_bad(version));
            lemma_verdicts_are_permanent(before, ops.last(), version);
        }
    }
}

/// Loading a file that holds what was saved gives back the state that was
/// saved, equal in all four fields.
pub proof fn lemma_load_after_save(state: StateView)
    ensures
        StateFileView::Holds(state).load() == Ok::<StateView, UpdateError>(state),
{
}

/// The slot to install into next is never the active one, and it can always
/// be set. The first half holds unless there is no slot and the active index
/// has been set to 0: the slot to install into is then 0 as well.
pub proof fn lemma_unused_slot_is_not_current(state: StateView)
    requires
        state.slots.len() > 0 || state.current_slot_index != 0,
    ensures
        state.unused_slot() != state.current_slot_index,
        state.can_set_slot(state.unused_slot()),
{
}

/// On a device that has never run there is no current patch, and the slot to
/// install into is the first, which is not the active one.
pub proof fn lemma_fresh_has_no_current_patch()
    ensures
        StateView::fresh().current_patch() is None,
        StateView::fresh().unused_slot() == 0,
        StateView::fresh().unused_slot() != StateView::fresh().current_slot_index,
        StateView::fresh().disjoint(),
        StateView::fresh().without_repeats(),
{
}

/// A list with one more version at its end holds that version and what it
/// held before, nothing else.
proof fn lemma_push_contains(list: Seq<Seq<char>>, version: Seq<char>)
    ensures
        forall|v: Seq<char>| #[trigger]
            list.push(version).contains(v) <==> list.contains(v) || v == version,
{
    let longer = list.push(version);
    assert forall|v: Seq<char>| #[trigger] longer.contains(v) implies list.contains(v) || v
        == version by {
        let i = choose|i: int| 0 <= i < longer.len() && longer[i] == v;
        if i < list.len() {
            assert(list[i] == v);
        }
    }
    assert forall|v: Seq<char>| list.contains(v) || v == version implies #[trigger]
        longer.contains(v) by {
        if list.contains(v) {
            let i = choose|i: int| 0 <= i < list.len() && list[i] == v;
            assert(longer[i] == v);
        } else {
            assert(longer[list.len() as int] == v);
        }
    }
}

} // verus!
