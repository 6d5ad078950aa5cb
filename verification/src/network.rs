//! What the server says when asked whether a patch is available.
//!
//! Asking the server and fetching a payload are the caller's business. The
//! updater only reads the answer.

use vstd::prelude::*;

verus! {

/// A patch that the server offers.
#[derive(PartialEq, Eq, Debug)]
pub struct Patch {
    /// Where the payload can be fetched from.
    pub download_url: String,
    /// The version of the payload.
    pub version: String,
}

/// What a [`Patch`] stands for.
pub struct PatchView {
    pub download_url: Seq<char>,
    pub version: Seq<char>,
}

impl View for Patch {
    type V = PatchView;

    open spec fn view(&self) -> PatchView {
        PatchView { download_url: self.download_url@, version: self.version@ }
    }
}

impl DeepView for Patch {
    type V = PatchView;

    open spec fn deep_view(&self) -> PatchView {
        self@
    }
}

/// The server's answer to a patch check. An answer without a patch is a valid
/// answer: no update is available.
#[derive(PartialEq, Eq, Debug)]
pub struct PatchCheckResponse {
    /// The patch on offer, if there is one.
    pub patch: Option<Patch>,
}

/// What a [`PatchCheckResponse`] stands for.
pub struct PatchCheckResponseView {
    pub patch: Option<PatchView>,
}

impl View for PatchCheckResponse {
    type V = PatchCheckResponseView;

    open spec fn view(&self) -> PatchCheckResponseView {
        PatchCheckResponseView { patch: self.patch.deep_view() }
    }
}

} // verus!
