//! Installing a patch into a slot that is not active.
//!
//! An install needs two things done that this crate cannot do: the payload
//! must be fetched to its place on disk, and afterwards the state record must
//! be written out. An [`Install`] says which of the two is due. The caller
//! carries it out and reports how it went with [`Install::advance`], until the
//! install is committed or aborted:
//!
//! 1. [`download_into_unused_slot`] picks the slot and answers with an
//!    install that waits for the download, or with an aborted one where the
//!    server offered no patch.
//! 2. Once the payload is in place, the slot is recorded in the state, and
//!    the install waits for the state to be saved.
//! 3. Once the state is saved, the install is committed.
//!
//! A failed download leaves the state untouched, so the record never speaks
//! of a payload that was not written.

use crate::cache::{Slot, SlotView, StateView, UpdaterState};
use crate::error::UpdateError;
use crate::layout::{slot_payload_file, slot_payload_path};
use crate::network::{PatchCheckResponse, PatchView};
use vstd::prelude::*;

verus! {

/// An install, and what it waits for.
#[derive(PartialEq, Eq, Debug)]
pub enum Install {
    /// The caller is to fetch `download_url` and write the bytes to `path`,
    /// creating the directories above it as needed.
    AwaitingDownload { slot_index: usize, download_url: String, path: String, version: String },
    /// The slot has been recorded. The caller is to save the state.
    AwaitingSave { slot_index: usize },
    /// The payload is in place and the state that names it is saved.
    Committed { slot_index: usize },
    /// The install was given up.
    Aborted { error: UpdateError },
}

/// What an [`Install`] stands for.
pub enum InstallView {
    AwaitingDownload {
        slot_index: nat,
        download_url: Seq<char>,
        path: Seq<char>,
        version: Seq<char>,
    },
    AwaitingSave { slot_index: nat },
    Committed { slot_index: nat },
    Aborted { error: UpdateError },
}

impl View for Install {
    type V = InstallView;

    open spec fn view(&self) -> InstallView {
        match *self {
            Install::AwaitingDownload { slot_index, download_url, path, version } => {
                InstallView::AwaitingDownload {
                    slot_index: slot_index as nat,
                    download_url: download_url@,
                    path: path@,
                    version: version@,
                }
            },
            Install::AwaitingSave { slot_index } => InstallView::AwaitingSave {
                slot_index: slot_index as nat,
            },
            Install::Committed { slot_index } => InstallView::Committed {
                slot_index: slot_index as nat,
            },
            Install::Aborted { error } => InstallView::Aborted { error },
        }
    }
}

/// How the action that an install was waiting for went.
#[derive(Clone, Copy, PartialEq, Eq, Debug, Structural)]
pub enum InstallEvent {
    /// The action was carried out.
    Succeeded,
    /// The action failed.
    Failed,
}

/// The install of `patch` into slot `slot_index` under `cache_dir`, before
/// anything has been done.
pub open spec fn begin(cache_dir: Seq<char>, patch: Option<PatchView>, slot_index: nat)
    -> InstallView {
    match patch {
        Some(patch) => InstallView::AwaitingDownload {
            slot_index,
            download_url: patch.download_url,
            path: slot_payload_path(cache_dir, slot_index),
            version: patch.version,
        },
        None => InstallView::Aborted { error: UpdateError::MalformedResponse },
    }
}

impl InstallView {
    /// The install is over, one way or the other.
    pub open spec fn is_over(self) -> bool {
        self is Committed || self is Aborted
    }

    /// What the install came to: the slot it committed, or why it was given
    /// up. Nothing while it is still waiting.
    pub open spec fn result(self) -> Option<Result<nat, UpdateError>> {
        match self {
            InstallView::Committed { slot_index } => Some(Ok(slot_index)),
            InstallView::Aborted { error } => Some(Err(error)),
            _ => None,
        }
    }

    /// The slot that a finished download will be recorded as.
    pub open spec fn slot(self) -> SlotView
        recommends
            self is AwaitingDownload,
    {
        SlotView { path: self->path, patch_version: self->version }
    }

    /// The state accepts what `event` will make this install do to it.
    pub open spec fn fits(self, event: InstallEvent, state: StateView) -> bool {
        self is AwaitingDownload && event == InstallEvent::Succeeded ==> state.can_set_slot(
            self->AwaitingDownload_slot_index,
        )
    }

    /// The install and the state after `event`.
    pub open spec fn advance(self, event: InstallEvent, state: StateView) -> (
        InstallView,
        StateView,
    ) {
        match self {
            InstallView::AwaitingDownload { slot_index, .. } => match event {
                InstallEvent::Succeeded => (
                    InstallView::AwaitingSave { slot_index },
                    state.set_slot(slot_index, self.slot()),
                ),
                InstallEvent::Failed => (
                    InstallView::Aborted { error: UpdateError::DownloadError },
                    state,
                ),
            },
            InstallView::AwaitingSave { slot_index } => match event {
                InstallEvent::Succeeded => (InstallView::Committed { slot_index }, state),
                InstallEvent::Failed => (
                    InstallView::Aborted { error: UpdateError::IOError },
                    state,
                ),
            },
            _ => (self, state),
        }
    }
}

/// Where the server offers no patch, the install is aborted before anything
/// is asked of the caller: nothing is fetched and nothing is saved.
pub proof fn lemma_no_patch_aborts(cache_dir: Seq<char>, slot_index: nat)
    ensures
        begin(cache_dir, None, slot_index).result() == Some(
            Err::<nat, UpdateError>(UpdateError::MalformedResponse),
        ),
        begin(cache_dir, None, slot_index).is_over(),
{
}

/// An install that is over stays as it is, and leaves the state alone,
/// whatever is reported to it.
pub proof fn lemma_over_stays_over(install: InstallView, event: InstallEvent, state: StateView)
    requires
        install.is_over(),
    ensures
        install.advance(event, state) == (install, state),
{
}

/// The state changes at one point only: when a download has succeeded. So a
/// failed download, a failed save and a missing patch all leave the record
/// without the slot, and the record never names a payload that was not
/// written.
pub proof fn lemma_state_changes_only_after_download(
    install: InstallView,
    event: InstallEvent,
    state: StateView,
)
    ensures
        install.advance(event, state).1 != state ==> install is AwaitingDownload && event
            == InstallEvent::Succeeded,
        install.advance(event, state).1.current_slot_index == state.current_slot_index,
        install.advance(event, state).1.successful_patches == state.successful_patches,
        install.advance(event, state).1.failed_patches == state.failed_patches,
{
}

/// An install into the unused slot, with the download and the save both
/// succeeding, commits that slot: the record then holds the payload's path
/// and version there, the active index is the one it was, and once the slot
/// is made active the current patch is the one installed.
pub proof fn lemma_install_commits(cache_dir: Seq<char>, patch: PatchView, state: StateView)
    ensures
        ({
            let slot_index = state.unused_slot();
            let start = begin(cache_dir, Some(patch), slot_index);
            let (saving, recorded) = start.advance(InstallEvent::Succeeded, state);
            let (done, saved) = saving.advance(InstallEvent::Succeeded, recorded);
            let installed = SlotView {
                path: slot_payload_path(cache_dir, slot_index),
                patch_version: patch.version,
            };
            &&& start.fits(InstallEvent::Succeeded, state)
            &&& done.result() == Some(Ok::<nat, UpdateError>(slot_index))
            &&& saved == state.set_slot(slot_index, installed)
            &&& saved.current_slot_index == state.current_slot_index
            &&& saved.set_current_slot(slot_index).current_patch() == Some(installed.patch())
        }),
{
}

/// An install into the unused slot does not touch the patch that is active,
/// so it stays available to fall back to. This holds unless there is no slot
/// and the active index has been set to 0: the install then fills the very
/// slot that the active index names.
pub proof fn lemma_install_keeps_current_patch(
    cache_dir: Seq<char>,
    patch: PatchView,
    state: StateView,
)
    requires
        state.slots.len() > 0 || state.current_slot_index != 0,
    ensures
        begin(cache_dir, Some(patch), state.unused_slot()).advance(
            InstallEvent::Succeeded,
            state,
        ).1.current_patch() == state.current_patch(),
{
}

/// The first install on a device that has never run goes into slot 0 and is
/// not active: there is no current patch when the download has been recorded,
/// nor when the state has been saved. Once slot 0 is made active, the current
/// patch is the one installed.
pub proof fn lemma_first_install_waits_to_be_chosen(cache_dir: Seq<char>, patch: PatchView)
    ensures
        ({
            let fresh = StateView::fresh();
            let start = begin(cache_dir, Some(patch), fresh.unused_slot());
            let (saving, recorded) = start.advance(InstallEvent::Succeeded, fresh);
            let (done, saved) = saving.advance(InstallEvent::Succeeded, recorded);
            let installed = SlotView {
                path: slot_payload_path(cache_dir, 0),
                patch_version: patch.version,
            };
            &&& start.fits(InstallEvent::Succeeded, fresh)
            &&& done.result() == Some(Ok::<nat, UpdateError>(0))
            &&& recorded.current_patch() is None
            &&& saved.current_patch() is None
            &&& saved.current_slot_index == fresh.current_slot_index
            &&& saved.set_current_slot(0).current_patch() == Some(installed.patch())
        }),
{
}

/// Starts the install of the patch that `patch_check_response` offers into the
/// slot that `state` does not use.
///
/// The answer waits for the download, unless the response offers no patch:
/// then it is aborted with [`UpdateError::MalformedResponse`], and nothing is
/// to be done. The state itself is only read.
pub fn download_into_unused_slot(
    cache_dir: &str,
    patch_check_response: &PatchCheckResponse,
    state: &UpdaterState,
) -> (install: Install)
    ensures
        install@ == begin(cache_dir@, patch_check_response@.patch, state@.unused_slot()),
        install@.fits(InstallEvent::Succeeded, state@),
{
    let slot_index = state.unused_slot();
    download_into_slot(cache_dir, patch_check_response, slot_index)
}

/// Starts the install of the patch that `patch_check_response` offers into
/// slot `slot_index`.
pub fn download_into_slot(
    cache_dir: &str,
    patch_check_response: &PatchCheckResponse,
    slot_index: usize,
) -> (install: Install)
    ensures
        install@ == begin(cache_dir@, patch_check_response@.patch, slot_index as nat),
{
    let path = slot_payload_file(cache_dir, slot_index);
    match &patch_check_response.patch {
        Some(patch) => Install::AwaitingDownload {
            slot_index,
            download_url: patch.download_url.clone(),
            path,
            version: patch.version.clone(),
        },
        None => Install::Aborted { error: UpdateError::MalformedResponse },
    }
}

impl Install {
    /// Takes the report `event` on the action that this install was waiting
    /// for, and answers with what it waits for next.
    ///
    /// The state changes at one point only: when the download has succeeded,
    /// the slot is recorded. An install that is over stays as it is.
    pub fn advance(self, event: InstallEvent, state: &mut UpdaterState) -> (next: Install)
        requires
            self@.fits(event, old(state)@),
        ensures
            (next@, final(state)@) == self@.advance(event, old(state)@),
    {
        match self {
            Install::AwaitingDownload { slot_index, download_url: _, path, version } => {
                match event {
                    InstallEvent::Succeeded => {
                        state.set_slot(slot_index, Slot { path, patch_version: version });
                        Install::AwaitingSave { slot_index }
                    },
                    InstallEvent::Failed => Install::Aborted {
                        error: UpdateError::DownloadError,
                    },
                }
            },
            Install::AwaitingSave { slot_index } => {
                match event {
                    InstallEvent::Succeeded => Install::Committed { slot_index },
                    InstallEvent::Failed => Install::Aborted { error: UpdateError::IOError },
                }
            },
            Install::Committed { slot_index } => Install::Committed { slot_index },
            Install::Aborted { error } => Install::Aborted { error },
        }
    }

    /// What the install came to: the slot it committed, or why it was given
    /// up. Nothing while it is still waiting.
    pub fn result(&self) -> (result: Option<Result<usize, UpdateError>>)
        ensures
            match result {
                Some(Ok(slot_index)) => self@.result() == Some(
                    Ok::<nat, UpdateError>(slot_index as nat),
                ),
                Some(Err(error)) => self@.result() == Some(Err::<nat, UpdateError>(error)),
                None => self@.result() is None,
            },
    {
        match self {
            Install::Committed { slot_index } => Some(Ok(*slot_index)),
            Install::Aborted { error } => Some(Err(*error)),
            _ => None,
        }
    }
}

} // verus!
