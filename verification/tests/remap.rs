use custom_functions::classic_controller::{
    classic_to_nunchuk, map_btn, remap_classic_buttons, remap_classic_status,
};
use custom_functions::pad::{KPADEXStatus, KPADStatus, WpadButton, WpadButtonCl};

fn classic_status(hold: u32, trig: u32, release: u32) -> KPADStatus {
    let mut words = [0u32; 20];
    words[0] = hold;
    words[1] = trig;
    words[2] = release;
    for (i, w) in words.iter_mut().enumerate().skip(3) {
        *w = 0x3f00_0000 + i as u32;
    }
    KPADStatus { hold: 0, trig: 0, release: 0, dev_type: 2, ex_status: KPADEXStatus { words } }
}

#[test]
fn map_btn_sets_core_bit_per_word() {
    let zr = WpadButtonCl::WPAD_BUTTON_CL_ZR.mask();
    let mut s = classic_status(zr, 0, zr);
    s.trig = 0x0010;
    map_btn(&mut s, WpadButtonCl::WPAD_BUTTON_CL_ZR, WpadButton::WPAD_BUTTON_A);
    assert_eq!(s.hold, 0x0800);
    assert_eq!(s.trig, 0x0010);
    assert_eq!(s.release, 0x0800);
    assert_eq!(s.ex_status.words[0], zr);
}

#[test]
fn map_btn_other_button_does_nothing() {
    let mut s = classic_status(0x0004, 0x0004, 0x0004);
    map_btn(&mut s, WpadButtonCl::WPAD_BUTTON_CL_Y, WpadButton::WPAD_BUTTON_B);
    assert_eq!((s.hold, s.trig, s.release), (0, 0, 0));
}

#[test]
fn remap_every_mapped_button() {
    let pairs = [
        (WpadButtonCl::WPAD_BUTTON_CL_ZR, WpadButton::WPAD_BUTTON_A),
        (WpadButtonCl::WPAD_BUTTON_CL_Y, WpadButton::WPAD_BUTTON_B),
        (WpadButtonCl::WPAD_BUTTON_CL_FULL_L, WpadButton::WPAD_BUTTON_FS_Z),
        (WpadButtonCl::WPAD_BUTTON_CL_ZL, WpadButton::WPAD_BUTTON_FS_C),
        (WpadButtonCl::WPAD_BUTTON_CL_UP, WpadButton::WPAD_BUTTON_UP),
        (WpadButtonCl::WPAD_BUTTON_CL_DOWN, WpadButton::WPAD_BUTTON_DOWN),
        (WpadButtonCl::WPAD_BUTTON_CL_LEFT, WpadButton::WPAD_BUTTON_LEFT),
        (WpadButtonCl::WPAD_BUTTON_CL_RIGHT, WpadButton::WPAD_BUTTON_RIGHT),
        (WpadButtonCl::WPAD_BUTTON_CL_HOME, WpadButton::WPAD_BUTTON_HOME),
        (WpadButtonCl::WPAD_BUTTON_CL_PLUS, WpadButton::WPAD_BUTTON_1),
        (WpadButtonCl::WPAD_BUTTON_CL_MINUS, WpadButton::WPAD_BUTTON_2),
    ];
    for (cl, core) in pairs {
        let mut s = classic_status(cl.mask(), 0, 0);
        remap_classic_buttons(&mut s);
        assert_eq!(s.hold, core.mask());
        assert_eq!(s.trig, 0);
        assert_eq!(s.release, 0);
    }
}

#[test]
fn remap_ignores_unmapped_classic_buttons() {
    let unmapped = WpadButtonCl::WPAD_BUTTON_CL_A.mask()
        | WpadButtonCl::WPAD_BUTTON_CL_B.mask()
        | WpadButtonCl::WPAD_BUTTON_CL_X.mask()
        | WpadButtonCl::WPAD_BUTTON_CL_FULL_R.mask();
    let mut s = classic_status(unmapped, unmapped, unmapped);
    remap_classic_buttons(&mut s);
    assert_eq!((s.hold, s.trig, s.release), (0, 0, 0));
}

#[test]
fn remap_keeps_existing_buttons_and_combines() {
    // ZR and Y held, plus pressed; the Wii Remote already had Plus and A held.
    let mut s = classic_status(0x0004 | 0x0020, 0x0400, 0);
    s.hold = 0x0010 | 0x0800;
    remap_classic_buttons(&mut s);
    assert_eq!(s.hold, 0x0010 | 0x0800 | 0x0400);
    assert_eq!(s.trig, 0x0200);
    assert_eq!(s.release, 0);
}

#[test]
fn remap_is_idempotent() {
    let mut s = classic_status(0xffff, 0x1234, 0x8001);
    remap_classic_buttons(&mut s);
    let once = (s.hold, s.trig, s.release);
    remap_classic_buttons(&mut s);
    assert_eq!((s.hold, s.trig, s.release), once);
    // Everything but Plus and Minus.
    assert_eq!(once.0, 0xef0f);
}

#[test]
fn classic_to_nunchuk_rewrites_the_union() {
    let mut ex = KPADEXStatus { words: [0; 20] };
    for (i, w) in ex.words.iter_mut().enumerate() {
        *w = 100 + i as u32;
    }
    classic_to_nunchuk(&mut ex);
    let mut expected = [0u32; 20];
    expected[0] = 103;
    expected[1] = 104;
    expected[7] = 105;
    expected[8] = 106;
    for (i, w) in expected.iter_mut().enumerate().skip(9) {
        *w = 100 + i as u32;
    }
    assert_eq!(ex.words, expected);
    assert_eq!(ex.rd().rstick, [105, 106]);
    assert_eq!(ex.fs().stick, [103, 104]);
    assert_eq!(ex.fs().acc, [0, 0, 0]);
}

#[test]
fn remap_classic_status_returns_right_stick() {
    let one = 1.0f32.to_bits();
    let half = (-0.5f32).to_bits();
    let mut s = classic_status(0x0004, 0x0004, 0);
    s.ex_status.words[5] = one;
    s.ex_status.words[6] = half;
    let rstick = remap_classic_status(&mut s);
    assert_eq!(rstick, [one, half]);
    assert_eq!(s.hold, 0x0800);
    assert_eq!(s.trig, 0x0800);
    assert_eq!(s.ex_status.rd().rstick, [one, half]);
    assert_eq!(s.ex_status.fs().acc_value, 0);
    assert_eq!(s.ex_status.fs().acc_speed, 0);
    assert_eq!(s.dev_type, 2);
}
