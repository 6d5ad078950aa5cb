use updater::cache::{PatchInfo, Slot, UpdaterState};
use updater::error::UpdateError;
use updater::install::{download_into_slot, download_into_unused_slot, Install, InstallEvent};
use updater::network::{Patch, PatchCheckResponse};

fn offer(url: &str, version: &str) -> PatchCheckResponse {
    PatchCheckResponse {
        patch: Some(Patch { download_url: url.to_string(), version: version.to_string() }),
    }
}

fn slot(path: &str, version: &str) -> Slot {
    Slot { path: path.to_string(), patch_version: version.to_string() }
}

#[test]
fn install_into_a_fresh_state_goes_to_slot_0() {
    let mut state = UpdaterState::default();
    let response = offer("http://x/patch", "1.0.0");

    let install = download_into_unused_slot("/tmp/cache", &response, &state);
    assert_eq!(
        install,
        Install::AwaitingDownload {
            slot_index: 0,
            download_url: "http://x/patch".to_string(),
            path: "/tmp/cache/slot_0/dlc.vmcode".to_string(),
            version: "1.0.0".to_string(),
        }
    );
    assert_eq!(install.result(), None);
    assert_eq!(state.save(), UpdaterState::default().save());

    let install = install.advance(InstallEvent::Succeeded, &mut state);
    assert_eq!(install, Install::AwaitingSave { slot_index: 0 });
    assert_eq!(install.result(), None);
    assert_eq!(state.save().slots, vec![slot("/tmp/cache/slot_0/dlc.vmcode", "1.0.0")]);
    assert_eq!(state.current_patch(), None);

    let install = install.advance(InstallEvent::Succeeded, &mut state);
    assert_eq!(install, Install::Committed { slot_index: 0 });
    assert_eq!(install.result(), Some(Ok(0)));

    // The active index is untouched, and it does not name slot 0: the
    // installed patch is not current until it is chosen.
    assert_eq!(state.save().current_slot_index, UpdaterState::default().save().current_slot_index);
    assert_eq!(state.current_patch(), None);
    state.set_current_slot(0);
    let installed = PatchInfo {
        path: "/tmp/cache/slot_0/dlc.vmcode".to_string(),
        version: "1.0.0".to_string(),
    };
    assert_eq!(state.current_patch(), Some(installed));
}

#[test]
fn install_does_not_touch_the_active_patch() {
    let mut state = UpdaterState::default();
    state.set_slot(0, slot("/tmp/cache/slot_0/dlc.vmcode", "1.0.0"));
    state.set_current_slot(0);

    let install = download_into_unused_slot("/tmp/cache", &offer("http://x/next", "1.0.1"), &state);
    let install = install.advance(InstallEvent::Succeeded, &mut state);
    let install = install.advance(InstallEvent::Succeeded, &mut state);
    assert_eq!(install.result(), Some(Ok(1)));
    assert_eq!(state.save().current_slot_index, 0);
    assert_eq!(
        state.current_patch(),
        Some(PatchInfo {
            path: "/tmp/cache/slot_0/dlc.vmcode".to_string(),
            version: "1.0.0".to_string()
        })
    );
    state.set_current_slot(1);
    assert_eq!(
        state.current_patch(),
        Some(PatchInfo {
            path: "/tmp/cache/slot_1/dlc.vmcode".to_string(),
            version: "1.0.1".to_string()
        })
    );
}

#[test]
fn installs_rotate_between_two_slots() {
    let mut state = UpdaterState::default();
    let mut committed = Vec::new();
    for version in ["1.0.0", "1.0.1", "1.0.2", "1.0.3"] {
        let install = download_into_unused_slot("c", &offer("http://x/p", version), &state);
        let install = install.advance(InstallEvent::Succeeded, &mut state);
        let install = install.advance(InstallEvent::Succeeded, &mut state);
        let index = match install.result() {
            Some(Ok(index)) => index,
            other => panic!("install did not commit: {:?}", other),
        };
        state.set_current_slot(index);
        committed.push(index);
    }
    assert_eq!(committed, vec![0, 1, 0, 1]);
    assert_eq!(
        state.save().slots,
        vec![slot("c/slot_0/dlc.vmcode", "1.0.2"), slot("c/slot_1/dlc.vmcode", "1.0.3")]
    );
}

#[test]
fn response_without_a_patch_is_malformed() {
    let mut state = UpdaterState::default();
    state.set_slot(0, slot("/tmp/cache/slot_0/dlc.vmcode", "1.0.0"));
    let before = state.save();

    let install =
        download_into_unused_slot("/tmp/cache", &PatchCheckResponse { patch: None }, &state);
    assert_eq!(install, Install::Aborted { error: UpdateError::MalformedResponse });
    assert_eq!(install.result(), Some(Err(UpdateError::MalformedResponse)));
    assert_eq!(state.save(), before);

    // Nothing was asked for, so there is nothing to report; a report that
    // comes anyway changes nothing.
    let install = install.advance(InstallEvent::Succeeded, &mut state);
    assert_eq!(install.result(), Some(Err(UpdateError::MalformedResponse)));
    assert_eq!(state.save(), before);
    let install = install.advance(InstallEvent::Failed, &mut state);
    assert_eq!(install.result(), Some(Err(UpdateError::MalformedResponse)));
    assert_eq!(state.save(), before);
}

#[test]
fn failed_download_aborts_and_keeps_the_state() {
    let mut state = UpdaterState::default();
    state.set_slot(0, slot("/tmp/cache/slot_0/dlc.vmcode", "1.0.0"));
    let before = state.save();

    let install = download_into_unused_slot("/tmp/cache", &offer("http://x/next", "1.0.1"), &state);
    let install = install.advance(InstallEvent::Failed, &mut state);
    assert_eq!(install, Install::Aborted { error: UpdateError::DownloadError });
    assert_eq!(install.result(), Some(Err(UpdateError::DownloadError)));
    assert_eq!(state.save(), before);
}

#[test]
fn failed_save_aborts_with_an_io_error() {
    let mut state = UpdaterState::default();
    let install = download_into_unused_slot("/tmp/cache", &offer("http://x/p", "1.0.0"), &state);
    let install = install.advance(InstallEvent::Succeeded, &mut state);
    let install = install.advance(InstallEvent::Failed, &mut state);
    assert_eq!(install, Install::Aborted { error: UpdateError::IOError });
    assert_eq!(install.result(), Some(Err(UpdateError::IOError)));
    // The payload was written, so the slot stays recorded in memory.
    assert_eq!(state.save().slots, vec![slot("/tmp/cache/slot_0/dlc.vmcode", "1.0.0")]);
}

#[test]
fn committed_install_stays_committed() {
    let mut state = UpdaterState::default();
    let install = download_into_unused_slot("/tmp/cache", &offer("http://x/p", "1.0.0"), &state);
    let install = install.advance(InstallEvent::Succeeded, &mut state);
    let install = install.advance(InstallEvent::Succeeded, &mut state);
    let after = state.save();
    let install = install.advance(InstallEvent::Failed, &mut state);
    assert_eq!(install, Install::Committed { slot_index: 0 });
    let install = install.advance(InstallEvent::Succeeded, &mut state);
    assert_eq!(install, Install::Committed { slot_index: 0 });
    assert_eq!(state.save(), after);
}

#[test]
fn download_into_slot_names_the_given_slot() {
    let install = download_into_slot("/tmp/cache", &offer("http://x/p", "3.0.0"), 1);
    assert_eq!(
        install,
        Install::AwaitingDownload {
            slot_index: 1,
            download_url: "http://x/p".to_string(),
            path: "/tmp/cache/slot_1/dlc.vmcode".to_string(),
            version: "3.0.0".to_string(),
        }
    );
    let install = download_into_slot("/tmp/cache", &PatchCheckResponse { patch: None }, 1);
    assert_eq!(install, Install::Aborted { error: UpdateError::MalformedResponse });
}

#[test]
fn download_into_slot_replaces_what_the_slot_held() {
    let mut state = UpdaterState::default();
    state.set_slot(0, slot("old0", "1.0.0"));
    state.set_slot(1, slot("old1", "1.0.1"));
    let install = download_into_slot("/tmp/cache", &offer("http://x/p", "2.0.0"), 1);
    let install = install.advance(InstallEvent::Succeeded, &mut state);
    assert_eq!(install, Install::AwaitingSave { slot_index: 1 });
    assert_eq!(
        state.save().slots,
        vec![slot("old0", "1.0.0"), slot("/tmp/cache/slot_1/dlc.vmcode", "2.0.0")]
    );
}

#[test]
fn second_install_after_activation_goes_to_slot_1() {
    let mut state = UpdaterState::default();
    let install = download_into_unused_slot("/tmp/cache", &offer("http://x/patch", "1.0.0"), &state);
    let install = install.advance(InstallEvent::Succeeded, &mut state);
    let install = install.advance(InstallEvent::Succeeded, &mut state);
    assert_eq!(install.result(), Some(Ok(0)));
    state.set_current_slot(0);

    let install = download_into_unused_slot("/tmp/cache", &offer("http://x/next", "1.0.1"), &state);
    let install = install.advance(InstallEvent::Succeeded, &mut state);
    let install = install.advance(InstallEvent::Succeeded, &mut state);
    assert_eq!(install.result(), Some(Ok(1)));
    assert_eq!(
        state.current_patch(),
        Some(PatchInfo {
            path: "/tmp/cache/slot_0/dlc.vmcode".to_string(),
            version: "1.0.0".to_string()
        })
    );
}

#[test]
fn install_without_slots_and_active_index_0_fills_the_active_slot() {
    let mut state = UpdaterState::default();
    state.set_current_slot(0);
    let install = download_into_unused_slot("/tmp/cache", &offer("http://x/patch", "1.0.0"), &state);
    let install = install.advance(InstallEvent::Succeeded, &mut state);
    let install = install.advance(InstallEvent::Succeeded, &mut state);
    assert_eq!(install.result(), Some(Ok(0)));
    assert_eq!(
        state.current_patch(),
        Some(PatchInfo {
            path: "/tmp/cache/slot_0/dlc.vmcode".to_string(),
            version: "1.0.0".to_string()
        })
    );
}
