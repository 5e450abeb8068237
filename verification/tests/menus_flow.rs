use constellation_core::menus::{
    code_step, pause_nav, select_confirm_endless, select_nav, MenuKey, PauseAction,
    ResultScreen,
};

#[test]
fn the_hidden_code_toggles_retaliate_mode() {
    let sequence = [
        MenuKey::UpKey, MenuKey::UpKey, MenuKey::LeftKey, MenuKey::DownKey, MenuKey::LeftKey,
        MenuKey::DownKey, MenuKey::UpKey, MenuKey::LeftKey, MenuKey::UpKey, MenuKey::RightKey,
        MenuKey::SelectKey, MenuKey::StartKey,
    ];
    let mut state = 0u32;
    let mut retaliate = false;
    let mut toggled = false;
    for key in sequence {
        let (s, r, t) = code_step(state, key, retaliate);
        state = s;
        retaliate = r;
        toggled = t;
    }
    assert!(toggled);
    assert!(retaliate);
    assert_eq!(state, 0);
}

#[test]
fn a_wrong_press_restarts_the_hidden_code() {
    let (s, r, t) = code_step(5, MenuKey::UpKey, true);
    assert_eq!(s, 0);
    assert!(r);
    assert!(!t);
    // A late start press also restarts without toggling.
    let (s, r, t) = code_step(7, MenuKey::StartKey, false);
    assert_eq!(s, 0);
    assert!(!r);
    assert!(!t);
}

#[test]
fn level_select_wraps_in_both_directions() {
    assert_eq!(select_nav(0, MenuKey::RightKey), 1);
    assert_eq!(select_nav(5, MenuKey::RightKey), 0);
    assert_eq!(select_nav(0, MenuKey::LeftKey), 5);
    assert_eq!(select_nav(0, MenuKey::UpKey), 3);
    assert_eq!(select_nav(4, MenuKey::DownKey), 1);
    assert!(!select_confirm_endless(0));
    assert!(select_confirm_endless(5));
}

#[test]
fn the_pause_menu_resumes_or_quits() {
    let (h, a) = pause_nav(0, MenuKey::UpKey);
    assert_eq!(h, 1);
    assert_eq!(a, PauseAction::StayPaused);
    let (_, a) = pause_nav(1, MenuKey::ConfirmKey);
    assert_eq!(a, PauseAction::QuitToMenu);
    let (_, a) = pause_nav(0, MenuKey::ConfirmKey);
    assert_eq!(a, PauseAction::Resume);
    let (_, a) = pause_nav(1, MenuKey::CancelKey);
    assert_eq!(a, PauseAction::Resume);
    let (_, a) = pause_nav(0, MenuKey::StartKey);
    assert_eq!(a, PauseAction::Resume);
}

#[test]
fn result_panels_reveal_manually_then_leave_for_the_menu() {
    let mut rs = ResultScreen::new();
    let s0 = rs.step(true, false, 16);
    assert_eq!(s0.reveal_panel, Some(0));
    let s1 = rs.step(true, false, 16);
    assert_eq!(s1.reveal_panel, Some(1));
    let s2 = rs.step(true, false, 16);
    assert_eq!(s2.reveal_panel, Some(2));
    assert!(!s2.to_menu);
    let s3 = rs.step(true, false, 16);
    assert_eq!(s3.reveal_panel, None);
    assert!(s3.to_menu);
}

#[test]
fn result_panels_reveal_automatically_every_other_second() {
    let mut rs = ResultScreen::new();
    let s1 = rs.step(false, false, 1000);
    assert_eq!(s1.reveal_panel, Some(0));
    let s2 = rs.step(false, false, 1000);
    assert_eq!(s2.reveal_panel, None);
    let s3 = rs.step(false, false, 1000);
    assert_eq!(s3.reveal_panel, Some(1));
    let s4 = rs.step(false, false, 1000);
    assert_eq!(s4.reveal_panel, None);
    let s5 = rs.step(false, false, 1000);
    assert_eq!(s5.reveal_panel, Some(2));
}

#[test]
fn the_final_text_blinks_only_when_enabled() {
    let mut rs = ResultScreen::new();
    rs.step(true, false, 16);
    rs.step(true, false, 16);
    rs.step(true, false, 16);
    // All panels are up; each elapse of the clock blinks the text.
    let s = rs.step(false, true, 1000);
    assert!(s.blink);
    let s = rs.step(false, false, 1000);
    assert!(!s.blink);
}
