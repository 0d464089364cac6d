use privacy_mask::ptt::{ptt_step, PttCommand, PttPhase, PTT_EVENT, SETTINGS_EVENT};

#[test]
fn start_and_stop() {
    assert_eq!(ptt_step(false, PttCommand::Start), (true, PttPhase::Recording));
    assert_eq!(ptt_step(true, PttCommand::Start), (true, PttPhase::Recording));
    assert_eq!(ptt_step(true, PttCommand::Stop), (false, PttPhase::Processing));
    assert_eq!(ptt_step(false, PttCommand::Stop), (false, PttPhase::Processing));
}

#[test]
fn hotkey_toggles() {
    assert_eq!(ptt_step(false, PttCommand::Toggle), (true, PttPhase::Recording));
    assert_eq!(ptt_step(true, PttCommand::Toggle), (false, PttPhase::Processing));
    let (on, _) = ptt_step(false, PttCommand::Toggle);
    let (off, _) = ptt_step(on, PttCommand::Toggle);
    assert!(!off);
}

#[test]
fn announcements() {
    assert_eq!(PttPhase::Recording.label(), "recording");
    assert_eq!(PttPhase::Processing.label(), "processing");
    assert_eq!(PTT_EVENT, "ptt:stateChanged");
    assert_eq!(SETTINGS_EVENT, "settings:updated");
}
