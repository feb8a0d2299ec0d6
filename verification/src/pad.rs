//! Pad status records and button masks.
use vstd::prelude::*;

verus! {

/// Buttons of the Wii Remote (and Nunchuk) as they appear in the
/// `hold`/`trig`/`release` words of a pad status.
#[allow(non_camel_case_types)]
#[derive(Clone, Copy, PartialEq, Eq, Structural, Debug)]
pub enum WpadButton {
    WPAD_BUTTON_LEFT,
    WPAD_BUTTON_RIGHT,
    WPAD_BUTTON_DOWN,
    WPAD_BUTTON_UP,
    WPAD_BUTTON_PLUS,
    WPAD_BUTTON_2,
    WPAD_BUTTON_1,
    WPAD_BUTTON_B,
    WPAD_BUTTON_A,
    WPAD_BUTTON_MINUS,
    WPAD_BUTTON_FS_Z,
    WPAD_BUTTON_FS_C,
    WPAD_BUTTON_HOME,
}

impl WpadButton {
    /// The single bit this button occupies in a button word.
    pub open spec fn mask_spec(self) -> u32 {
        match self {
            WpadButton::WPAD_BUTTON_LEFT => 0x0001,
            WpadButton::WPAD_BUTTON_RIGHT => 0x0002,
            WpadButton::WPAD_BUTTON_DOWN => 0x0004,
            WpadButton::WPAD_BUTTON_UP => 0x0008,
            WpadButton::WPAD_BUTTON_PLUS => 0x0010,
            WpadButton::WPAD_BUTTON_2 => 0x0100,
            WpadButton::WPAD_BUTTON_1 => 0x0200,
            WpadButton::WPAD_BUTTON_B => 0x0400,
            WpadButton::WPAD_BUTTON_A => 0x0800,
            WpadButton::WPAD_BUTTON_MINUS => 0x1000,
            WpadButton::WPAD_BUTTON_FS_Z => 0x2000,
            WpadButton::WPAD_BUTTON_FS_C => 0x4000,
            WpadButton::WPAD_BUTTON_HOME => 0x8000,
        }
    }

    /// The bit of this button in a button word.
    #[verifier::when_used_as_spec(mask_spec)]
    pub fn mask(self) -> (m: u32)
        ensures
            m == self.mask_spec(),
    {
        match self {
            WpadButton::WPAD_BUTTON_LEFT => 0x0001,
            WpadButton::WPAD_BUTTON_RIGHT => 0x0002,
            WpadButton::WPAD_BUTTON_DOWN => 0x0004,
            WpadButton::WPAD_BUTTON_UP => 0x0008,
            WpadButton::WPAD_BUTTON_PLUS => 0x0010,
            WpadButton::WPAD_BUTTON_2 => 0x0100,
            WpadButton::WPAD_BUTTON_1 => 0x0200,
            WpadButton::WPAD_BUTTON_B => 0x0400,
            WpadButton::WPAD_BUTTON_A => 0x0800,
            WpadButton::WPAD_BUTTON_MINUS => 0x1000,
            WpadButton::WPAD_BUTTON_FS_Z => 0x2000,
            WpadButton::WPAD_BUTTON_FS_C => 0x4000,
            WpadButton::WPAD_BUTTON_HOME => 0x8000,
        }
    }
}

/// Buttons of the Classic Controller as they appear in the
/// `hold`/`trig`/`release` words of its extension status.
#[allow(non_camel_case_types)]
#[derive(Clone, Copy, PartialEq, Eq, Structural, Debug)]
pub enum WpadButtonCl {
    WPAD_BUTTON_CL_UP,
    WPAD_BUTTON_CL_LEFT,
    WPAD_BUTTON_CL_ZR,
    WPAD_BUTTON_CL_X,
    WPAD_BUTTON_CL_A,
    WPAD_BUTTON_CL_Y,
    WPAD_BUTTON_CL_B,
    WPAD_BUTTON_CL_ZL,
    WPAD_BUTTON_CL_FULL_R,
    WPAD_BUTTON_CL_PLUS,
    WPAD_BUTTON_CL_HOME,
    WPAD_BUTTON_CL_MINUS,
    WPAD_BUTTON_CL_FULL_L,
    WPAD_BUTTON_CL_DOWN,
    WPAD_BUTTON_CL_RIGHT,
}

impl WpadButtonCl {
    /// The single bit this button occupies in a Classic Controller button word.
    pub open spec fn mask_spec(self) -> u32 {
        match self {
            WpadButtonCl::WPAD_BUTTON_CL_UP => 0x0001,
            WpadButtonCl::WPAD_BUTTON_CL_LEFT => 0x0002,
            WpadButtonCl::WPAD_BUTTON_CL_ZR => 0x0004,
            WpadButtonCl::WPAD_BUTTON_CL_X => 0x0008,
            WpadButtonCl::WPAD_BUTTON_CL_A => 0x0010,
            WpadButtonCl::WPAD_BUTTON_CL_Y => 0x0020,
            WpadButtonCl::WPAD_BUTTON_CL_B => 0x0040,
            WpadButtonCl::WPAD_BUTTON_CL_ZL => 0x0080,
            WpadButtonCl::WPAD_BUTTON_CL_FULL_R => 0x0200,
            WpadButtonCl::WPAD_BUTTON_CL_PLUS => 0x0400,
            WpadButtonCl::WPAD_BUTTON_CL_HOME => 0x0800,
            WpadButtonCl::WPAD_BUTTON_CL_MINUS => 0x1000,
            WpadButtonCl::WPAD_BUTTON_CL_FULL_L => 0x2000,
            WpadButtonCl::WPAD_BUTTON_CL_DOWN => 0x4000,
            WpadButtonCl::WPAD_BUTTON_CL_RIGHT => 0x8000,
        }
    }

    /// The bit of this button in a Classic Controller button word.
    #[verifier::when_used_as_spec(mask_spec)]
    pub fn mask(self) -> (m: u32)
        ensures
            m == self.mask_spec(),
    {
        match self {
            WpadButtonCl::WPAD_BUTTON_CL_UP => 0x0001,
            WpadButtonCl::WPAD_BUTTON_CL_LEFT => 0x0002,
            WpadButtonCl::WPAD_BUTTON_CL_ZR => 0x0004,
            WpadButtonCl::WPAD_BUTTON_CL_X => 0x0008,
            WpadButtonCl::WPAD_BUTTON_CL_A => 0x0010,
            WpadButtonCl::WPAD_BUTTON_CL_Y => 0x0020,
            WpadButtonCl::WPAD_BUTTON_CL_B => 0x0040,
            WpadButtonCl::WPAD_BUTTON_CL_ZL => 0x0080,
            WpadButtonCl::WPAD_BUTTON_CL_FULL_R => 0x0200,
            WpadButtonCl::WPAD_BUTTON_CL_PLUS => 0x0400,
            WpadButtonCl::WPAD_BUTTON_CL_HOME => 0x0800,
            WpadButtonCl::WPAD_BUTTON_CL_MINUS => 0x1000,
            WpadButtonCl::WPAD_BUTTON_CL_FULL_L => 0x2000,
            WpadButtonCl::WPAD_BUTTON_CL_DOWN => 0x4000,
            WpadButtonCl::WPAD_BUTTON_CL_RIGHT => 0x8000,
        }
    }
}

/// Extension device types reported in a pad status's `dev_type` byte.
#[allow(non_camel_case_types)]
#[derive(Clone, Copy, PartialEq, Eq, Structural, Debug)]
pub enum WpadDevType {
    WPAD_DEV_CLASSIC,
}

impl WpadDevType {
    /// The `dev_type` byte that reports this device.
    pub open spec fn code_spec(self) -> u8 {
        match self {
            WpadDevType::WPAD_DEV_CLASSIC => 2,
        }
    }

    /// The `dev_type` byte that reports this device.
    #[verifier::when_used_as_spec(code_spec)]
    pub fn code(self) -> (c: u8)
        ensures
            c == self.code_spec(),
    {
        match self {
            WpadDevType::WPAD_DEV_CLASSIC => 2,
        }
    }
}

/// The Balance Board extension status: the raw bytes of the extension status
/// area of a pad status record.
#[derive(Clone, Copy)]
pub struct KPADEXStatusBL {
    _bl: [u8; 80],
}

impl KPADEXStatusBL {
    /// The extension status area with the given bytes.
    pub fn new(bytes: [u8; 80]) -> (s: Self)
        ensures
            s.bytes_spec() == bytes@,
    {
        KPADEXStatusBL { _bl: bytes }
    }

    /// The bytes of the extension status area.
    pub closed spec fn bytes_spec(&self) -> Seq<u8> {
        self._bl@
    }

    /// The bytes of the extension status area.
    pub fn bytes(&self) -> (b: [u8; 80])
        ensures
            b@ == self.bytes_spec(),
    {
        self._bl
    }
}

/// The Classic Controller view of the extension status.
///
/// Analog values are `f32` in the game; here they are their bit patterns.
#[derive(Clone, Copy)]
pub struct KPADEXStatusCL {
    pub hold: u32,
    pub trig: u32,
    pub release: u32,
    pub lstick: [u32; 2],
    pub rstick: [u32; 2],
    pub ltrigger: u32,
    pub rtrigger: u32,
}

/// The Nunchuk view of the extension status.
///
/// Analog values are `f32` in the game; here they are their bit patterns.
#[derive(Clone, Copy)]
pub struct KPADEXStatusFS {
    pub stick: [u32; 2],
    pub acc: [u32; 3],
    pub acc_value: u32,
    pub acc_speed: u32,
}

/// The view of the extension status in which the remapping keeps the
/// Classic Controller's right stick, behind the Nunchuk fields that the game
/// reads; it fits inside the extension status area.
#[derive(Clone, Copy)]
pub struct KPADEXStatusRando {
    pub hidden_fs: KPADEXStatusFS,
    pub rstick: [u32; 2],
}

/// Number of 32-bit words in the extension status area (0x50 bytes).
pub const EX_STATUS_WORDS: usize = 20;

/// The extension status of a pad status record: a union of the Classic
/// Controller, Nunchuk, Balance Board and remapping views over one area of
/// twenty 32-bit words. Each field of each view is one word (a `u32`, or the
/// bit pattern of an `f32`), so the union is exactly this word array:
///
/// * Classic Controller: `hold` 0, `trig` 1, `release` 2, `lstick` 3..5,
///   `rstick` 5..7, `ltrigger` 7, `rtrigger` 8;
/// * Nunchuk: `stick` 0..2, `acc` 2..5, `acc_value` 5, `acc_speed` 6;
/// * remapping: the Nunchuk fields 0..7, then `rstick` 7..9.
#[derive(Clone, Copy)]
pub struct KPADEXStatus {
    pub words: [u32; EX_STATUS_WORDS],
}

impl KPADEXStatus {
    /// Classic Controller `hold` word.
    pub open spec fn cl_hold(&self) -> u32 {
        self.words@[0]
    }

    /// Classic Controller `trig` word.
    pub open spec fn cl_trig(&self) -> u32 {
        self.words@[1]
    }

    /// Classic Controller `release` word.
    pub open spec fn cl_release(&self) -> u32 {
        self.words@[2]
    }

    /// Classic Controller left stick.
    pub open spec fn cl_lstick(&self) -> Seq<u32> {
        self.words@.subrange(3, 5)
    }

    /// Classic Controller right stick.
    pub open spec fn cl_rstick(&self) -> Seq<u32> {
        self.words@.subrange(5, 7)
    }

    /// Nunchuk stick.
    pub open spec fn fs_stick(&self) -> Seq<u32> {
        self.words@.subrange(0, 2)
    }

    /// Nunchuk accelerometer, `acc` then `acc_value` and `acc_speed`.
    pub open spec fn fs_sensors(&self) -> Seq<u32> {
        self.words@.subrange(2, 7)
    }

    /// Right stick kept by the remapping.
    pub open spec fn rd_rstick(&self) -> Seq<u32> {
        self.words@.subrange(7, 9)
    }

    /// The Classic Controller view.
    pub fn cl(&self) -> (v: KPADEXStatusCL)
        ensures
            v.hold == self.cl_hold(),
            v.trig == self.cl_trig(),
            v.release == self.cl_release(),
            v.lstick@ == self.cl_lstick(),
            v.rstick@ == self.cl_rstick(),
            v.ltrigger == self.words@[7],
            v.rtrigger == self.words@[8],
    {
        let v = KPADEXStatusCL {
            hold: self.words[0],
            trig: self.words[1],
            release: self.words[2],
            lstick: [self.words[3], self.words[4]],
            rstick: [self.words[5], self.words[6]],
            ltrigger: self.words[7],
            rtrigger: self.words[8],
        };
        assert(v.lstick@ =~= self.cl_lstick());
        assert(v.rstick@ =~= self.cl_rstick());
        v
    }

    /// The Nunchuk view.
    pub fn fs(&self) -> (v: KPADEXStatusFS)
        ensures
            v.stick@ == self.fs_stick(),
            v.acc@ == self.words@.subrange(2, 5),
            v.acc_value == self.words@[5],
            v.acc_speed == self.words@[6],
    {
        let v = KPADEXStatusFS {
            stick: [self.words[0], self.words[1]],
            acc: [self.words[2], self.words[3], self.words[4]],
            acc_value: self.words[5],
            acc_speed: self.words[6],
        };
        assert(v.stick@ =~= self.fs_stick());
        assert(v.acc@ =~= self.words@.subrange(2, 5));
        v
    }

    /// The remapping view.
    pub fn rd(&self) -> (v: KPADEXStatusRando)
        ensures
            v.hidden_fs.stick@ == self.fs_stick(),
            v.hidden_fs.acc@ == self.words@.subrange(2, 5),
            v.hidden_fs.acc_value == self.words@[5],
            v.hidden_fs.acc_speed == self.words@[6],
            v.rstick@ == self.rd_rstick(),
    {
        let v = KPADEXStatusRando { hidden_fs: self.fs(), rstick: [self.words[7], self.words[8]] };
        assert(v.rstick@ =~= self.rd_rstick());
        v
    }
}

/// The part of a pad status record that the remapping reads and writes:
/// the Wii Remote button words, the extension device type and the
/// extension status.
#[derive(Clone, Copy)]
pub struct KPADStatus {
    pub hold: u32,
    pub trig: u32,
    pub release: u32,
    pub dev_type: u8,
    pub ex_status: KPADEXStatus,
}

impl KPADStatus {
    /// The record reports a Classic Controller.
    pub open spec fn is_classic(&self) -> bool {
        self.dev_type == WpadDevType::WPAD_DEV_CLASSIC.code_spec()
    }

    /// A record reports a Classic Controller exactly when its `dev_type`
    /// byte is 2.
    pub proof fn lemma_is_classic(&self)
        ensures
            self.is_classic() <==> self.dev_type == 2,
    {
    }
}

/// The masks of the two button sets as single bits.
proof fn lemma_mask_bits()
    by (bit_vector)
    ensures
        0x0001u32 == 1u32 << 0u32,
        0x0002u32 == 1u32 << 1u32,
        0x0004u32 == 1u32 << 2u32,
        0x0008u32 == 1u32 << 3u32,
        0x0010u32 == 1u32 << 4u32,
        0x0020u32 == 1u32 << 5u32,
        0x0040u32 == 1u32 << 6u32,
        0x0080u32 == 1u32 << 7u32,
        0x0100u32 == 1u32 << 8u32,
        0x0200u32 == 1u32 << 9u32,
        0x0400u32 == 1u32 << 10u32,
        0x0800u32 == 1u32 << 11u32,
        0x1000u32 == 1u32 << 12u32,
        0x2000u32 == 1u32 << 13u32,
        0x4000u32 == 1u32 << 14u32,
        0x8000u32 == 1u32 << 15u32,
        forall|i: u32, j: u32| i < 32 && j < 32 && i != j ==> #[trigger] ((1u32 << i) & (1u32 << j)) == 0,
        forall|i: u32| i < 32 ==> #[trigger] (1u32 << i) != 0,
{
}

/// Position of the bit of `k` in a button word.
spec fn core_bit(k: WpadButton) -> u32 {
    match k {
        WpadButton::WPAD_BUTTON_LEFT => 0u32,
        WpadButton::WPAD_BUTTON_RIGHT => 1,
        WpadButton::WPAD_BUTTON_DOWN => 2,
        WpadButton::WPAD_BUTTON_UP => 3,
        WpadButton::WPAD_BUTTON_PLUS => 4,
        WpadButton::WPAD_BUTTON_2 => 8,
        WpadButton::WPAD_BUTTON_1 => 9,
        WpadButton::WPAD_BUTTON_B => 10,
        WpadButton::WPAD_BUTTON_A => 11,
        WpadButton::WPAD_BUTTON_MINUS => 12,
        WpadButton::WPAD_BUTTON_FS_Z => 13,
        WpadButton::WPAD_BUTTON_FS_C => 14,
        WpadButton::WPAD_BUTTON_HOME => 15,
    }
}

/// Each Wii Remote button is one bit of the button word, and no two buttons
/// share it.
pub proof fn lemma_core_masks_distinct_bits(a: WpadButton, b: WpadButton)
    ensures
        a.mask_spec() != 0,
        a != b ==> a.mask_spec() & b.mask_spec() == 0,
{
    lemma_mask_bits();
    assert(a.mask_spec() == 1u32 << core_bit(a));
    assert(b.mask_spec() == 1u32 << core_bit(b));
    assert((1u32 << core_bit(a)) != 0);
    if a != b {
        assert(((1u32 << core_bit(a)) & (1u32 << core_bit(b))) == 0);
    }
}

/// Position of the bit of `k` in a button word.
spec fn classic_bit(k: WpadButtonCl) -> u32 {
    match k {
        WpadButtonCl::WPAD_BUTTON_CL_UP => 0u32,
        WpadButtonCl::WPAD_BUTTON_CL_LEFT => 1,
        WpadButtonCl::WPAD_BUTTON_CL_ZR => 2,
        WpadButtonCl::WPAD_BUTTON_CL_X => 3,
        WpadButtonCl::WPAD_BUTTON_CL_A => 4,
        WpadButtonCl::WPAD_BUTTON_CL_Y => 5,
        WpadButtonCl::WPAD_BUTTON_CL_B => 6,
        WpadButtonCl::WPAD_BUTTON_CL_ZL => 7,
        WpadButtonCl::WPAD_BUTTON_CL_FULL_R => 9,
        WpadButtonCl::WPAD_BUTTON_CL_PLUS => 10,
        WpadButtonCl::WPAD_BUTTON_CL_HOME => 11,
        WpadButtonCl::WPAD_BUTTON_CL_MINUS => 12,
        WpadButtonCl::WPAD_BUTTON_CL_FULL_L => 13,
        WpadButtonCl::WPAD_BUTTON_CL_DOWN => 14,
        WpadButtonCl::WPAD_BUTTON_CL_RIGHT => 15,
    }
}

/// Each Classic Controller button is one bit of its button word, and no two
/// buttons share it.
pub proof fn lemma_classic_masks_distinct_bits(a: WpadButtonCl, b: WpadButtonCl)
    ensures
        a.mask_spec() != 0,
        a != b ==> a.mask_spec() & b.mask_spec() == 0,
{
    lemma_mask_bits();
    assert(a.mask_spec() == 1u32 << classic_bit(a));
    assert(b.mask_spec() == 1u32 << classic_bit(b));
    assert((1u32 << classic_bit(a)) != 0);
    if a != b {
        assert(((1u32 << classic_bit(a)) & (1u32 << classic_bit(b))) == 0);
    }
}

} // verus!
