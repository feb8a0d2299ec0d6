use custom_functions::classic_controller::{
    classic_aim_stick, kpad_read_ex_wrapper, next_item_select_state, swing_samples, ReadOutcome,
};
use custom_functions::hbm::is_hbm_active;
use custom_functions::history::{RstickHistory, RSTICK_HISTORY_LEN};
use custom_functions::pad::{KPADEXStatus, KPADEXStatusBL, KPADStatus};

fn status(dev_type: u8, hold: u32, rstick: [u32; 2]) -> KPADStatus {
    let mut words = [0u32; 20];
    words[0] = hold;
    words[5] = rstick[0];
    words[6] = rstick[1];
    words[9] = 0xdead;
    KPADStatus { hold: 0, trig: 0, release: 0, dev_type, ex_status: KPADEXStatus { words } }
}

fn numbered_history() -> RstickHistory {
    let mut h = RstickHistory::new();
    for i in 0..RSTICK_HISTORY_LEN {
        h.record(i, [i as u32, 1000 + i as u32]);
    }
    h
}

#[test]
fn home_menu_refreshes_stick_from_classic() {
    let mut statuses = vec![status(2, 0x0004, [7, 8]), status(2, 0, [1, 2])];
    let before = statuses.clone().iter().map(|s| s.ex_status.words).collect::<Vec<_>>();
    let mut h = numbered_history();
    let out = kpad_read_ex_wrapper(true, 2, &mut statuses, &mut h);
    assert_eq!(out, ReadOutcome::HomeMenu { refresh_lstick: true });
    assert_eq!(statuses[0].hold, 0);
    assert_eq!(statuses.iter().map(|s| s.ex_status.words).collect::<Vec<_>>(), before);
    assert_eq!(h.get(0), [0, 1000]);
}

#[test]
fn home_menu_without_classic_or_read_keeps_stick() {
    let mut statuses = vec![status(0, 0, [0, 0])];
    let mut h = RstickHistory::new();
    assert_eq!(
        kpad_read_ex_wrapper(true, 1, &mut statuses, &mut h),
        ReadOutcome::HomeMenu { refresh_lstick: false }
    );
    let mut statuses = vec![status(2, 0, [0, 0])];
    assert_eq!(
        kpad_read_ex_wrapper(true, 0, &mut statuses, &mut h),
        ReadOutcome::HomeMenu { refresh_lstick: false }
    );
    assert_eq!(
        kpad_read_ex_wrapper(true, -1, &mut statuses, &mut h),
        ReadOutcome::HomeMenu { refresh_lstick: false }
    );
}

#[test]
fn read_remaps_classic_statuses_and_fills_history() {
    let mut statuses = vec![
        status(2, 0x0004, [11, 12]),
        status(0, 0x0004, [21, 22]),
        status(2, 0x0020, [31, 32]),
        status(2, 0x0020, [41, 42]),
    ];
    let mut h = numbered_history();
    let out = kpad_read_ex_wrapper(false, 3, &mut statuses, &mut h);
    assert_eq!(out, ReadOutcome::Remapped);
    // Classic statuses read are remapped.
    assert_eq!(statuses[0].hold, 0x0800);
    assert_eq!(statuses[0].ex_status.rd().rstick, [11, 12]);
    assert_eq!(statuses[2].hold, 0x0400);
    // The non-Classic one and the one past the read are untouched.
    assert_eq!(statuses[1].hold, 0);
    assert_eq!(statuses[1].ex_status.words[5], 21);
    assert_eq!(statuses[3].hold, 0);
    assert_eq!(statuses[3].ex_status.words[5], 41);
    // History: new samples in front, the rest three places back.
    assert_eq!(h.get(0), [11, 12]);
    assert_eq!(h.get(1), [1, 1001]);
    assert_eq!(h.get(2), [31, 32]);
    assert_eq!(h.get(3), [0, 1000]);
    assert_eq!(h.get(119), [116, 1116]);
}

#[test]
fn failed_read_changes_nothing() {
    let mut statuses = vec![status(2, 0x0004, [11, 12])];
    let mut h = numbered_history();
    assert_eq!(kpad_read_ex_wrapper(false, -3, &mut statuses, &mut h), ReadOutcome::Remapped);
    assert_eq!(statuses[0].hold, 0);
    assert_eq!(h.get(0), [0, 1000]);
    assert_eq!(h.get(5), [5, 1005]);
}

#[test]
fn read_longer_than_history_drops_everything_old() {
    let mut statuses = vec![status(0, 0, [0, 0]); 125];
    statuses[0] = status(2, 0, [9, 9]);
    let mut h = numbered_history();
    kpad_read_ex_wrapper(false, 125, &mut statuses, &mut h);
    assert_eq!(h.get(0), [9, 9]);
    assert_eq!(h.get(1), [1, 1001]);
    assert_eq!(h.get(119), [119, 1119]);
}

#[test]
fn history_shift_and_compose() {
    let mut a = numbered_history();
    a.shift_back(2);
    a.shift_back(3);
    let mut b = numbered_history();
    b.shift_back(5);
    for i in 5..RSTICK_HISTORY_LEN {
        assert_eq!(a.get(i), b.get(i));
        assert_eq!(a.get(i), [(i - 5) as u32, 1000 + (i - 5) as u32]);
    }
    let mut c = numbered_history();
    c.shift_back(0);
    assert_eq!(c.get(42), [42, 1042]);
    assert_eq!(RstickHistory::new().get(77), [0, 0]);
}

#[test]
fn aim_stick_selection() {
    assert_eq!(classic_aim_stick(None), [0, 0]);
    let mut s = status(0, 0, [0, 0]);
    s.ex_status.words[7] = 5;
    s.ex_status.words[8] = 6;
    assert_eq!(classic_aim_stick(Some(&s)), [0, 0]);
    s.dev_type = 2;
    assert_eq!(classic_aim_stick(Some(&s)), [5, 6]);
}

#[test]
fn swing_sample_selection() {
    let h = numbered_history();
    assert_eq!(swing_samples(None, &h), ([0, 0], [0, 0]));
    let s = status(1, 0, [0, 0]);
    assert_eq!(swing_samples(Some(&s), &h), ([0, 0], [0, 0]));
    let s = status(2, 0, [0, 0]);
    assert_eq!(swing_samples(Some(&s), &h), ([0, 1000], [6, 1006]));
}

#[test]
fn item_select_hysteresis() {
    // selected, length below 0.10
    assert!(!next_item_select_state(true, true, false));
    // selected, length between thresholds
    assert!(next_item_select_state(true, false, false));
    // selected, length at or above 0.25
    assert!(next_item_select_state(true, false, true));
    // not selected, length below 0.10
    assert!(!next_item_select_state(false, true, false));
    // not selected, length between thresholds
    assert!(!next_item_select_state(false, false, false));
    // not selected, length at or above 0.25
    assert!(next_item_select_state(false, false, true));
}

#[test]
fn hbm_state() {
    assert!(!is_hbm_active(None));
    assert!(is_hbm_active(Some(2)));
    assert!(!is_hbm_active(Some(0)));
    assert!(!is_hbm_active(Some(3)));
}

#[test]
fn balance_board_bytes_round_trip() {
    let mut bytes = [0u8; 80];
    bytes[0x4f] = 0xab;
    bytes[3] = 7;
    let bl = KPADEXStatusBL::new(bytes);
    assert_eq!(bl.bytes(), bytes);
}

#[test]
fn classic_view_fields() {
    let mut ex = KPADEXStatus { words: [0; 20] };
    for (i, w) in ex.words.iter_mut().enumerate() {
        *w = i as u32;
    }
    let cl = ex.cl();
    assert_eq!((cl.hold, cl.trig, cl.release), (0, 1, 2));
    assert_eq!(cl.lstick, [3, 4]);
    assert_eq!(cl.rstick, [5, 6]);
    assert_eq!((cl.ltrigger, cl.rtrigger), (7, 8));
    let fs = ex.fs();
    assert_eq!(fs.stick, [0, 1]);
    assert_eq!(fs.acc, [2, 3, 4]);
    assert_eq!((fs.acc_value, fs.acc_speed), (5, 6));
    assert_eq!(ex.rd().rstick, [7, 8]);
}

#[test]
fn remapped_status_keeps_aim_stick() {
    let mut statuses = vec![status(2, 0, [0x3f80_0000, 0xbf00_0000])];
    let mut h = RstickHistory::new();
    kpad_read_ex_wrapper(false, 1, &mut statuses, &mut h);
    assert_eq!(classic_aim_stick(Some(&statuses[0])), [0x3f80_0000, 0xbf00_0000]);
    let (now, _) = swing_samples(Some(&statuses[0]), &h);
    assert_eq!(now, [0x3f80_0000, 0xbf00_0000]);
}
