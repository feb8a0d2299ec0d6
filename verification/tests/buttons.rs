use custom_functions::pad::{WpadButton, WpadButtonCl, WpadDevType};

#[test]
fn core_button_masks() {
    assert_eq!(WpadButton::WPAD_BUTTON_LEFT.mask(), 1 << 0);
    assert_eq!(WpadButton::WPAD_BUTTON_PLUS.mask(), 1 << 4);
    assert_eq!(WpadButton::WPAD_BUTTON_2.mask(), 1 << 8);
    assert_eq!(WpadButton::WPAD_BUTTON_A.mask(), 1 << 11);
    assert_eq!(WpadButton::WPAD_BUTTON_HOME.mask(), 1 << 15);
}

#[test]
fn classic_button_masks() {
    assert_eq!(WpadButtonCl::WPAD_BUTTON_CL_UP.mask(), 1 << 0);
    assert_eq!(WpadButtonCl::WPAD_BUTTON_CL_ZR.mask(), 1 << 2);
    assert_eq!(WpadButtonCl::WPAD_BUTTON_CL_FULL_R.mask(), 1 << 9);
    assert_eq!(WpadButtonCl::WPAD_BUTTON_CL_RIGHT.mask(), 1 << 15);
}

#[test]
fn classic_dev_type_code() {
    assert_eq!(WpadDevType::WPAD_DEV_CLASSIC.code(), 2);
}
