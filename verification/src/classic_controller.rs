//! Remapping of a Classic Controller onto the Wii Remote + Nunchuk layout.
use vstd::prelude::*;

use crate::history::{shifted_back, RstickHistory, RSTICK_HISTORY_LEN, SWING_SAMPLES_AGO};
use crate::pad::{KPADEXStatus, KPADStatus, WpadButton, WpadButtonCl, WpadDevType};

verus! {

/// The Wii Remote button that a Classic Controller button is mapped to, if any.
pub open spec fn core_target(c: WpadButtonCl) -> Option<WpadButton> {
    match c {
        WpadButtonCl::WPAD_BUTTON_CL_ZR => Some(WpadButton::WPAD_BUTTON_A),
        WpadButtonCl::WPAD_BUTTON_CL_Y => Some(WpadButton::WPAD_BUTTON_B),
        WpadButtonCl::WPAD_BUTTON_CL_FULL_L => Some(WpadButton::WPAD_BUTTON_FS_Z),
        WpadButtonCl::WPAD_BUTTON_CL_ZL => Some(WpadButton::WPAD_BUTTON_FS_C),
        WpadButtonCl::WPAD_BUTTON_CL_UP => Some(WpadButton::WPAD_BUTTON_UP),
        WpadButtonCl::WPAD_BUTTON_CL_DOWN => Some(WpadButton::WPAD_BUTTON_DOWN),
        WpadButtonCl::WPAD_BUTTON_CL_LEFT => Some(WpadButton::WPAD_BUTTON_LEFT),
        WpadButtonCl::WPAD_BUTTON_CL_RIGHT => Some(WpadButton::WPAD_BUTTON_RIGHT),
        WpadButtonCl::WPAD_BUTTON_CL_HOME => Some(WpadButton::WPAD_BUTTON_HOME),
        WpadButtonCl::WPAD_BUTTON_CL_PLUS => Some(WpadButton::WPAD_BUTTON_1),
        WpadButtonCl::WPAD_BUTTON_CL_MINUS => Some(WpadButton::WPAD_BUTTON_2),
        WpadButtonCl::WPAD_BUTTON_CL_X => None,
        WpadButtonCl::WPAD_BUTTON_CL_A => None,
        WpadButtonCl::WPAD_BUTTON_CL_B => None,
        WpadButtonCl::WPAD_BUTTON_CL_FULL_R => None,
    }
}

/// One Wii Remote button word after one mapping: `core_mask` is added when
/// `cl_mask` is set in the Classic Controller word `cl`.
pub open spec fn map_word(core: u32, cl: u32, cl_mask: u32, core_mask: u32) -> u32 {
    if cl & cl_mask != 0 {
        core | core_mask
    } else {
        core
    }
}

/// The Wii Remote buttons that the Classic Controller word `cl` presses
/// under the mapping of `core_target`.
pub open spec fn classic_core_bits(cl: u32) -> u32 {
    (if cl & 0x0004 != 0 { 0x0800u32 } else { 0u32 })  // ZR -> A
    | (if cl & 0x0020 != 0 { 0x0400u32 } else { 0u32 })  // Y -> B
    | (if cl & 0x2000 != 0 { 0x2000u32 } else { 0u32 })  // full L -> Z
    | (if cl & 0x0080 != 0 { 0x4000u32 } else { 0u32 })  // ZL -> C
    | (if cl & 0x0001 != 0 { 0x0008u32 } else { 0u32 })  // up -> up
    | (if cl & 0x4000 != 0 { 0x0004u32 } else { 0u32 })  // down -> down
    | (if cl & 0x0002 != 0 { 0x0001u32 } else { 0u32 })  // left -> left
    | (if cl & 0x8000 != 0 { 0x0002u32 } else { 0u32 })  // right -> right
    | (if cl & 0x0800 != 0 { 0x8000u32 } else { 0u32 })  // home -> home
    | (if cl & 0x0400 != 0 { 0x0200u32 } else { 0u32 })  // plus -> 1
    | (if cl & 0x1000 != 0 { 0x0100u32 } else { 0u32 })  // minus -> 2
}

/// A Wii Remote button word after the whole remapping from the Classic
/// Controller word `cl`.
pub open spec fn remap_word(core: u32, cl: u32) -> u32 {
    core | classic_core_bits(cl)
}

/// Adds `core_button` to each of the Wii Remote's `trig`, `hold` and
/// `release` words in which the Classic Controller view of the extension
/// status has `cl_button`.
pub fn map_btn(status: &mut KPADStatus, cl_button: WpadButtonCl, core_button: WpadButton)
    ensures
        final(status).trig == map_word(
            old(status).trig,
            old(status).ex_status.cl_trig(),
            cl_button.mask_spec(),
            core_button.mask_spec(),
        ),
        final(status).hold == map_word(
            old(status).hold,
            old(status).ex_status.cl_hold(),
            cl_button.mask_spec(),
            core_button.mask_spec(),
        ),
        final(status).release == map_word(
            old(status).release,
            old(status).ex_status.cl_release(),
            cl_button.mask_spec(),
            core_button.mask_spec(),
        ),
        final(status).dev_type == old(status).dev_type,
        final(status).ex_status == old(status).ex_status,
{
    let cl_mask: u32 = cl_button.mask();
    let core_mask: u32 = core_button.mask();
    let cl = status.ex_status.cl();
    if cl.trig & cl_mask != 0 {
        status.trig = status.trig | core_mask;
    }
    if cl.hold & cl_mask != 0 {
        status.hold = status.hold | core_mask;
    }
    if cl.release & cl_mask != 0 {
        status.release = status.release | core_mask;
    }
}

/// The eleven mappings, applied one after the other, give the whole remapping.
proof fn lemma_mappings_compose(w: u32, cl: u32)
    ensures
        map_word(map_word(map_word(map_word(map_word(map_word(map_word(map_word(map_word(
            map_word(map_word(w, cl, 0x0004, 0x0800), cl, 0x0020, 0x0400),
            cl, 0x2000, 0x2000), cl, 0x0080, 0x4000), cl, 0x0001, 0x0008),
            cl, 0x4000, 0x0004), cl, 0x0002, 0x0001), cl, 0x8000, 0x0002),
            cl, 0x0800, 0x8000), cl, 0x0400, 0x0200), cl, 0x1000, 0x0100)
            == remap_word(w, cl),
{
    assert(map_word(map_word(map_word(map_word(map_word(map_word(map_word(map_word(map_word(
            map_word(map_word(w, cl, 0x0004, 0x0800), cl, 0x0020, 0x0400),
            cl, 0x2000, 0x2000), cl, 0x0080, 0x4000), cl, 0x0001, 0x0008),
            cl, 0x4000, 0x0004), cl, 0x0002, 0x0001), cl, 0x8000, 0x0002),
            cl, 0x0800, 0x8000), cl, 0x0400, 0x0200), cl, 0x1000, 0x0100)
            == remap_word(w, cl)) by (bit_vector);
}

/// Presses, holds and releases on the Wii Remote every button that the
/// attached Classic Controller presses, holds or releases, under the mapping
/// of `core_target`.
pub fn remap_classic_buttons(status: &mut KPADStatus)
    ensures
        final(status).trig == remap_word(old(status).trig, old(status).ex_status.cl_trig()),
        final(status).hold == remap_word(old(status).hold, old(status).ex_status.cl_hold()),
        final(status).release == remap_word(
            old(status).release,
            old(status).ex_status.cl_release(),
        ),
        final(status).dev_type == old(status).dev_type,
        final(status).ex_status == old(status).ex_status,
{
    map_btn(status, WpadButtonCl::WPAD_BUTTON_CL_ZR, WpadButton::WPAD_BUTTON_A);
    map_btn(status, WpadButtonCl::WPAD_BUTTON_CL_Y, WpadButton::WPAD_BUTTON_B);
    map_btn(status, WpadButtonCl::WPAD_BUTTON_CL_FULL_L, WpadButton::WPAD_BUTTON_FS_Z);
    map_btn(status, WpadButtonCl::WPAD_BUTTON_CL_ZL, WpadButton::WPAD_BUTTON_FS_C);
    map_btn(status, WpadButtonCl::WPAD_BUTTON_CL_UP, WpadButton::WPAD_BUTTON_UP);
    map_btn(status, WpadButtonCl::WPAD_BUTTON_CL_DOWN, WpadButton::WPAD_BUTTON_DOWN);
    map_btn(status, WpadButtonCl::WPAD_BUTTON_CL_LEFT, WpadButton::WPAD_BUTTON_LEFT);
    map_btn(status, WpadButtonCl::WPAD_BUTTON_CL_RIGHT, WpadButton::WPAD_BUTTON_RIGHT);
    map_btn(status, WpadButtonCl::WPAD_BUTTON_CL_HOME, WpadButton::WPAD_BUTTON_HOME);
    map_btn(status, WpadButtonCl::WPAD_BUTTON_CL_PLUS, WpadButton::WPAD_BUTTON_1);
    map_btn(status, WpadButtonCl::WPAD_BUTTON_CL_MINUS, WpadButton::WPAD_BUTTON_2);
    proof {
        let ex = old(status).ex_status;
        lemma_mappings_compose(old(status).trig, ex.cl_trig());
        lemma_mappings_compose(old(status).hold, ex.cl_hold());
        lemma_mappings_compose(old(status).release, ex.cl_release());
    }
}

/// Turns the Classic Controller view of the extension status into the
/// Nunchuk view that the game reads: the right stick is kept in the remapping
/// view, the left stick becomes the Nunchuk stick, and the Nunchuk
/// accelerometer fields, which share the area with the Classic Controller
/// fields, are cleared (every word of `0.0f32` is zero).
pub fn classic_to_nunchuk(ex: &mut KPADEXStatus)
    ensures
        final(ex).rd_rstick() == old(ex).cl_rstick(),
        final(ex).fs_stick() == old(ex).cl_lstick(),
        final(ex).fs_sensors() == seq![0u32, 0u32, 0u32, 0u32, 0u32],
        final(ex).words@.subrange(9, 20) == old(ex).words@.subrange(9, 20),
{
    // rd.rstick = cl.rstick; done first, while cl.rstick is still there.
    let cl = ex.cl();
    ex.words[7] = cl.rstick[0];
    ex.words[8] = cl.rstick[1];
    // fs.stick = cl.lstick
    ex.words[0] = cl.lstick[0];
    ex.words[1] = cl.lstick[1];
    // fs.acc = [0.0; 3]
    ex.words[2] = 0;
    ex.words[3] = 0;
    ex.words[4] = 0;
    // fs.acc_speed = 0.0; fs.acc_value = 0.0
    ex.words[6] = 0;
    ex.words[5] = 0;
    assert(ex.rd_rstick() =~= old(ex).cl_rstick());
    assert(ex.fs_stick() =~= old(ex).cl_lstick());
    assert(ex.fs_sensors() =~= seq![0u32, 0u32, 0u32, 0u32, 0u32]);
    assert(ex.words@.subrange(9, 20) =~= old(ex).words@.subrange(9, 20));
}

/// `new` is the pad status `old` of a Classic Controller after the remapping:
/// its buttons are remapped, its extension status reads as a Nunchuk with the
/// right stick kept aside.
pub open spec fn is_classic_remap_of(new: KPADStatus, old: KPADStatus) -> bool {
    &&& new.trig == remap_word(old.trig, old.ex_status.cl_trig())
    &&& new.hold == remap_word(old.hold, old.ex_status.cl_hold())
    &&& new.release == remap_word(old.release, old.ex_status.cl_release())
    &&& new.dev_type == old.dev_type
    &&& new.ex_status.rd_rstick() == old.ex_status.cl_rstick()
    &&& new.ex_status.fs_stick() == old.ex_status.cl_lstick()
    &&& new.ex_status.fs_sensors() == seq![0u32, 0u32, 0u32, 0u32, 0u32]
    &&& new.ex_status.words@.subrange(9, 20) == old.ex_status.words@.subrange(9, 20)
}

/// Remaps the pad status of a Classic Controller: its buttons onto the Wii
/// Remote's, its extension status onto the Nunchuk's. Returns the right
/// stick, which goes into the right-stick history.
pub fn remap_classic_status(status: &mut KPADStatus) -> (rstick: [u32; 2])
    ensures
        is_classic_remap_of(*final(status), *old(status)),
        rstick@ == old(status).ex_status.cl_rstick(),
{
    remap_classic_buttons(status);
    let rstick = status.ex_status.cl().rstick;
    classic_to_nunchuk(&mut status.ex_status);
    rstick
}

/// What a read of the pad statuses leads to, beyond the statuses and the
/// history themselves.
#[derive(Clone, Copy, PartialEq, Eq, Structural, Debug)]
pub enum ReadOutcome {
    /// The Home Button Menu is open: nothing was remapped, and the menu's
    /// cursor is to be moved by the remembered left stick, which is first
    /// taken anew from the first status when `refresh_lstick` holds.
    HomeMenu { refresh_lstick: bool },
    /// The statuses read were remapped.
    Remapped,
}

/// The right-stick history after a read of `n > 0` statuses: every entry
/// moves `n` places back, then each of the first `n` places whose status is
/// a Classic Controller takes that status's right stick.
pub open spec fn history_after_read(h: Seq<Seq<u32>>, statuses: Seq<KPADStatus>, n: int) -> Seq<
    Seq<u32>,
> {
    Seq::new(
        h.len(),
        |j: int|
            if j < n && statuses[j].is_classic() {
                statuses[j].ex_status.cl_rstick()
            } else {
                shifted_back(h, n)[j]
            },
    )
}

/// Takes the `read_length` pad statuses that `KPADReadEx` has just written
/// at the front of `statuses` (a negative `read_length` is an error and
/// reads none).
///
/// On the Home Button Menu nothing is remapped; the outcome says whether the
/// menu cursor's stick is to be taken anew from the first status, which
/// happens when a status was read and it is a Classic Controller's.
/// Elsewhere the history moves back by the number of statuses read, and
/// each Classic Controller status read is remapped and gives its right
/// stick to the history at its own position.
pub fn kpad_read_ex_wrapper(
    hbm_active: bool,
    read_length: i32,
    statuses: &mut Vec<KPADStatus>,
    history: &mut RstickHistory,
) -> (outcome: ReadOutcome)
    requires
        read_length <= old(statuses).len(),
        !hbm_active ==> forall|i: int|
            RSTICK_HISTORY_LEN <= i < read_length ==> !(#[trigger] old(statuses)@[i]).is_classic(),
    ensures
        hbm_active ==> outcome == (ReadOutcome::HomeMenu {
            refresh_lstick: read_length > 0 && old(statuses)@[0].is_classic(),
        }),
        !hbm_active ==> outcome == ReadOutcome::Remapped,
        final(statuses)@.len() == old(statuses)@.len(),
        forall|j: int|
            0 <= j < old(statuses)@.len() ==> if !hbm_active && j < read_length
                && (#[trigger] old(statuses)@[j]).is_classic() {
                is_classic_remap_of(final(statuses)@[j], old(statuses)@[j])
            } else {
                final(statuses)@[j] == old(statuses)@[j]
            },
        final(history)@ == if !hbm_active && read_length > 0 {
            history_after_read(old(history)@, old(statuses)@, read_length as int)
        } else {
            old(history)@
        },
        final(history)@.len() == old(history)@.len(),
        hbm_active ==> outcome == (ReadOutcome::HomeMenu {
            refresh_lstick: read_length > 0 && old(statuses)@[0].dev_type == 2,
        }),
        forall|j: int|
            !hbm_active && 0 < read_length <= j < old(history)@.len() ==> (#[trigger] final(history)@[j]) == old(history)@[j - read_length],
        forall|j: int|
            !hbm_active && 0 <= j < read_length && j < old(history)@.len() ==> (#[trigger] final(history)@[j]) == if old(statuses)@[j].dev_type == 2 {
                old(statuses)@[j].ex_status.words@.subrange(5, 7)
            } else {
                old(history)@[j]
            },
{
    proof {
        history.lemma_shape();
        if !hbm_active && read_length > 0 {
            lemma_history_after_read_ages(old(history)@, old(statuses)@, read_length as int);
        }
    }
    if hbm_active {
        let refresh_lstick = read_length > 0 && statuses[0].dev_type
            == WpadDevType::WPAD_DEV_CLASSIC.code();
        return ReadOutcome::HomeMenu { refresh_lstick };
    }
    if read_length > 0 {
        let n: usize = read_length as usize;
        let ghost st = old(statuses)@;
        let ghost h = old(history)@;
        proof {
            history.lemma_shape();
        }
        history.shift_back(n);
        let mut i: usize = 0;
        while i < n
            invariant
                n == read_length,
                n <= st.len(),
                statuses@.len() == st.len(),
                forall|j: int| RSTICK_HISTORY_LEN <= j < n ==> !(#[trigger] st[j]).is_classic(),
                0 <= i <= n,
                forall|j: int| i <= j < st.len() ==> #[trigger] statuses@[j] == st[j],
                forall|j: int|
                    0 <= j < i ==> if (#[trigger] st[j]).is_classic() {
                        is_classic_remap_of(statuses@[j], st[j])
                    } else {
                        statuses@[j] == st[j]
                    },
                history@.len() == RSTICK_HISTORY_LEN,
                forall|j: int|
                    0 <= j < RSTICK_HISTORY_LEN ==> #[trigger] history@[j] == if j < i
                        && st[j].is_classic() {
                        st[j].ex_status.cl_rstick()
                    } else {
                        shifted_back(h, n as int)[j]
                    },
            decreases n - i,
        {
            if statuses[i].dev_type == WpadDevType::WPAD_DEV_CLASSIC.code() {
                let mut status = statuses[i];
                let rstick = remap_classic_status(&mut status);
                statuses.set(i, status);
                history.record(i, rstick);
            }
            i = i + 1;
        }
        assert(history@ =~= history_after_read(h, st, read_length as int));
    }
    ReadOutcome::Remapped
}

/// The right stick that steers aiming, the item wheel, the beetle and the
/// sword: the one kept by the remapping in the first core status when that
/// status is a Classic Controller's, else zero (`0.0f32` on both axes).
/// `None` stands for a missing core controller.
pub open spec fn aim_stick(first: Option<KPADStatus>) -> Seq<u32> {
    match first {
        Some(s) => if s.is_classic() {
            s.ex_status.rd_rstick()
        } else {
            seq![0u32, 0u32]
        },
        None => seq![0u32, 0u32],
    }
}

/// The right stick that steers aiming, the item wheel, the beetle and the
/// sword (see `aim_stick`).
pub fn classic_aim_stick(first: Option<&KPADStatus>) -> (pos: [u32; 2])
    ensures
        pos@ == aim_stick(
            match first {
                Some(s) => Some(*s),
                None => None,
            },
        ),
        pos@.len() == 2,
        match first {
            Some(s) => if s.dev_type == 2 {
                pos@ == s.ex_status.words@.subrange(7, 9)
            } else {
                pos[0] == 0 && pos[1] == 0
            },
            None => pos[0] == 0 && pos[1] == 0,
        },
{
    proof {
        lemma_aim_stick_classic_only(
            match first {
                Some(s) => Some(*s),
                None => None,
            },
        );
    }
    let mut pos = [0u32, 0u32];
    if let Some(status) = first {
        if status.dev_type == WpadDevType::WPAD_DEV_CLASSIC.code() {
            pos = status.ex_status.rd().rstick;
        }
    }
    assert(pos@ =~= aim_stick(
        match first {
            Some(s) => Some(*s),
            None => None,
        },
    ));
    pos
}

/// The two right-stick samples a sword swing is read from: the newest one
/// and the one `SWING_SAMPLES_AGO` places back in the history, when the
/// first core status is a Classic Controller's; else two zero samples.
pub fn swing_samples(first: Option<&KPADStatus>, history: &RstickHistory) -> (samples: (
    [u32; 2],
    [u32; 2],
))
    ensures
        match first {
            Some(s) => s.is_classic(),
            None => false,
        } ==> samples.0@ == history@[0] && samples.1@ == history@[SWING_SAMPLES_AGO as int],
        !match first {
            Some(s) => s.is_classic(),
            None => false,
        } ==> samples.0@ == seq![0u32, 0u32] && samples.1@ == seq![0u32, 0u32],
{
    let mut pos = [0u32, 0u32];
    let mut pos_samples_ago = [0u32, 0u32];
    if let Some(status) = first {
        if status.dev_type == WpadDevType::WPAD_DEV_CLASSIC.code() {
            pos = history.get(0);
            pos_samples_ago = history.get(SWING_SAMPLES_AGO);
        }
    }
    (pos, pos_samples_ago)
}

/// The item wheel's "any item selected" flag after a new stick length: a
/// selection is dropped when the length falls below the release threshold,
/// and made when it reaches the engage threshold; otherwise the flag stays.
pub open spec fn item_select_step(
    any_selected: bool,
    below_release_threshold: bool,
    reaches_engage_threshold: bool,
) -> bool {
    if any_selected {
        !below_release_threshold
    } else {
        reaches_engage_threshold
    }
}

/// The item wheel's "any item selected" flag after a new stick length
/// (see `item_select_step`).
pub fn next_item_select_state(
    any_selected: bool,
    below_release_threshold: bool,
    reaches_engage_threshold: bool,
) -> (selected: bool)
    ensures
        selected == item_select_step(
            any_selected,
            below_release_threshold,
            reaches_engage_threshold,
        ),
{
    if any_selected && below_release_threshold {
        false
    } else if !any_selected && reaches_engage_threshold {
        true
    } else {
        any_selected
    }
}

/// The right stick survives the remapping: once a Classic Controller's
/// status is remapped, the stick that aiming, the item wheel, the beetle and
/// the sword read from it is the Classic Controller's right stick.
pub proof fn lemma_remapped_status_keeps_aim_stick(new: KPADStatus, old: KPADStatus)
    requires
        old.is_classic(),
        is_classic_remap_of(new, old),
    ensures
        aim_stick(Some(new)) == old.ex_status.cl_rstick(),
{
}

/// Only a Classic Controller steers: with no core status, or a first core
/// status of another device, the stick is zero on both axes; a Classic
/// Controller's is the right stick kept in words 7 and 8 of its extension
/// status.
pub proof fn lemma_aim_stick_classic_only(first: Option<KPADStatus>)
    ensures
        aim_stick(first).len() == 2,
        match first {
            Some(s) => if s.dev_type == 2 {
                aim_stick(first) == s.ex_status.words@.subrange(7, 9)
            } else {
                aim_stick(first)[0] == 0 && aim_stick(first)[1] == 0
            },
            None => aim_stick(first)[0] == 0 && aim_stick(first)[1] == 0,
        },
{
}

/// A read of `n > 0` statuses ages the whole history by `n` samples, whatever
/// devices were read: every sample from position `n` on is the one that
/// stood `n` places earlier. Each of the first `n` places takes the right
/// stick (words 5 and 6 of the extension status) of the status read there
/// when it is a Classic Controller's, and otherwise keeps its old sample.
pub proof fn lemma_history_after_read_ages(h: Seq<Seq<u32>>, statuses: Seq<KPADStatus>, n: int)
    requires
        n > 0,
    ensures
        history_after_read(h, statuses, n).len() == h.len(),
        forall|j: int|
            n <= j < h.len() ==> #[trigger] history_after_read(h, statuses, n)[j] == h[j - n],
        forall|j: int|
            0 <= j < n && j < h.len() ==> #[trigger] history_after_read(h, statuses, n)[j] == if statuses[j].dev_type
                == 2 {
                statuses[j].ex_status.words@.subrange(5, 7)
            } else {
                h[j]
            },
{
    crate::history::lemma_shifted_back_ages(h, n);
}

/// What a remapped Classic Controller status holds, word by word: the
/// Nunchuk stick is the old left stick (words 3 and 4), the accelerometer
/// words 2 to 6 are zero, the kept right stick (words 7 and 8) is the old
/// right stick (words 5 and 6), words 9 on are unchanged; each button word
/// gains exactly the Wii Remote buttons of the mapped Classic buttons.
pub proof fn lemma_classic_remap_words(new: KPADStatus, old: KPADStatus)
    requires
        is_classic_remap_of(new, old),
    ensures
        new.dev_type == old.dev_type,
        new.ex_status.words@[0] == old.ex_status.words@[3],
        new.ex_status.words@[1] == old.ex_status.words@[4],
        forall|i: int| 2 <= i < 7 ==> #[trigger] new.ex_status.words@[i] == 0,
        new.ex_status.words@[7] == old.ex_status.words@[5],
        new.ex_status.words@[8] == old.ex_status.words@[6],
        forall|i: int| 9 <= i < 20 ==> #[trigger] new.ex_status.words@[i] == old.ex_status.words@[i],
        new.hold & old.hold == old.hold,
        new.trig & old.trig == old.trig,
        new.release & old.release == old.release,
{
    let o = old.ex_status.words@;
    let w = new.ex_status.words@;
    assert(w.subrange(0, 2)[0] == w[0] && w.subrange(0, 2)[1] == w[1]);
    assert(o.subrange(3, 5)[0] == o[3] && o.subrange(3, 5)[1] == o[4]);
    assert(w.subrange(7, 9)[0] == w[7] && w.subrange(7, 9)[1] == w[8]);
    assert(o.subrange(5, 7)[0] == o[5] && o.subrange(5, 7)[1] == o[6]);
    assert forall|i: int| 2 <= i < 7 implies #[trigger] w[i] == 0 by {
        assert(w.subrange(2, 7)[i - 2] == w[i]);
    }
    assert forall|i: int| 9 <= i < 20 implies #[trigger] w[i] == o[i] by {
        assert(w.subrange(9, 20)[i - 9] == w[i]);
        assert(o.subrange(9, 20)[i - 9] == o[i]);
    }
    lemma_remap_keeps_buttons(old.hold, old.ex_status.cl_hold());
    lemma_remap_keeps_buttons(old.trig, old.ex_status.cl_trig());
    lemma_remap_keeps_buttons(old.release, old.ex_status.cl_release());
}

/// The item selection flag, case by case: a selection is dropped exactly
/// when the length is below the release threshold, and made exactly when it
/// reaches the engage threshold.
pub proof fn lemma_item_select_cases(any_selected: bool, below: bool, reaches: bool)
    ensures
        any_selected && below ==> !item_select_step(any_selected, below, reaches),
        any_selected && !below ==> item_select_step(any_selected, below, reaches),
        !any_selected && reaches ==> item_select_step(any_selected, below, reaches),
        !any_selected && !reaches ==> !item_select_step(any_selected, below, reaches),
{
}

/// Bit by bit, what the remapping does to a Wii Remote button word.
proof fn lemma_remap_word_bits(w: u32, cl: u32)
    by (bit_vector)
    ensures
        (remap_word(w, cl) & 0x0800 != 0) == (w & 0x0800 != 0 || cl & 0x0004 != 0),
        (remap_word(w, cl) & 0x0400 != 0) == (w & 0x0400 != 0 || cl & 0x0020 != 0),
        (remap_word(w, cl) & 0x2000 != 0) == (w & 0x2000 != 0 || cl & 0x2000 != 0),
        (remap_word(w, cl) & 0x4000 != 0) == (w & 0x4000 != 0 || cl & 0x0080 != 0),
        (remap_word(w, cl) & 0x0008 != 0) == (w & 0x0008 != 0 || cl & 0x0001 != 0),
        (remap_word(w, cl) & 0x0004 != 0) == (w & 0x0004 != 0 || cl & 0x4000 != 0),
        (remap_word(w, cl) & 0x0001 != 0) == (w & 0x0001 != 0 || cl & 0x0002 != 0),
        (remap_word(w, cl) & 0x0002 != 0) == (w & 0x0002 != 0 || cl & 0x8000 != 0),
        (remap_word(w, cl) & 0x8000 != 0) == (w & 0x8000 != 0 || cl & 0x0800 != 0),
        (remap_word(w, cl) & 0x0200 != 0) == (w & 0x0200 != 0 || cl & 0x0400 != 0),
        (remap_word(w, cl) & 0x0100 != 0) == (w & 0x0100 != 0 || cl & 0x1000 != 0),
        remap_word(w, cl) & 0x0010 == w & 0x0010,
        remap_word(w, cl) & 0x1000 == w & 0x1000,
{
}

/// A Wii Remote button is down after the remapping exactly when it was down
/// before or the Classic Controller button mapped to it is down.
pub proof fn lemma_remap_mapped_button(w: u32, cl: u32, c: WpadButtonCl, k: WpadButton)
    requires
        core_target(c) == Some(k),
    ensures
        (remap_word(w, cl) & k.mask_spec() != 0) == (w & k.mask_spec() != 0 || cl & c.mask_spec()
            != 0),
{
    lemma_remap_word_bits(w, cl);
}

/// A Wii Remote button that no Classic Controller button is mapped to
/// (Plus and Minus) is left as it was.
pub proof fn lemma_remap_unmapped_core_button(w: u32, cl: u32, k: WpadButton)
    requires
        forall|c: WpadButtonCl| core_target(c) != Some(k),
    ensures
        remap_word(w, cl) & k.mask_spec() == w & k.mask_spec(),
{
    lemma_remap_word_bits(w, cl);
    assert(core_target(WpadButtonCl::WPAD_BUTTON_CL_ZR) != Some(k));
    assert(core_target(WpadButtonCl::WPAD_BUTTON_CL_Y) != Some(k));
    assert(core_target(WpadButtonCl::WPAD_BUTTON_CL_FULL_L) != Some(k));
    assert(core_target(WpadButtonCl::WPAD_BUTTON_CL_ZL) != Some(k));
    assert(core_target(WpadButtonCl::WPAD_BUTTON_CL_UP) != Some(k));
    assert(core_target(WpadButtonCl::WPAD_BUTTON_CL_DOWN) != Some(k));
    assert(core_target(WpadButtonCl::WPAD_BUTTON_CL_LEFT) != Some(k));
    assert(core_target(WpadButtonCl::WPAD_BUTTON_CL_RIGHT) != Some(k));
    assert(core_target(WpadButtonCl::WPAD_BUTTON_CL_HOME) != Some(k));
    assert(core_target(WpadButtonCl::WPAD_BUTTON_CL_PLUS) != Some(k));
    assert(core_target(WpadButtonCl::WPAD_BUTTON_CL_MINUS) != Some(k));
}

/// The Wii Remote buttons that no Classic Controller button is mapped to
/// are exactly Plus and Minus.
pub proof fn lemma_unmapped_core_buttons(k: WpadButton)
    ensures
        (forall|c: WpadButtonCl| core_target(c) != Some(k)) <==> (k
            == WpadButton::WPAD_BUTTON_PLUS || k == WpadButton::WPAD_BUTTON_MINUS),
{
    if k != WpadButton::WPAD_BUTTON_PLUS && k != WpadButton::WPAD_BUTTON_MINUS {
        let c = match k {
            WpadButton::WPAD_BUTTON_LEFT => WpadButtonCl::WPAD_BUTTON_CL_LEFT,
            WpadButton::WPAD_BUTTON_RIGHT => WpadButtonCl::WPAD_BUTTON_CL_RIGHT,
            WpadButton::WPAD_BUTTON_DOWN => WpadButtonCl::WPAD_BUTTON_CL_DOWN,
            WpadButton::WPAD_BUTTON_UP => WpadButtonCl::WPAD_BUTTON_CL_UP,
            WpadButton::WPAD_BUTTON_2 => WpadButtonCl::WPAD_BUTTON_CL_MINUS,
            WpadButton::WPAD_BUTTON_1 => WpadButtonCl::WPAD_BUTTON_CL_PLUS,
            WpadButton::WPAD_BUTTON_B => WpadButtonCl::WPAD_BUTTON_CL_Y,
            WpadButton::WPAD_BUTTON_A => WpadButtonCl::WPAD_BUTTON_CL_ZR,
            WpadButton::WPAD_BUTTON_FS_Z => WpadButtonCl::WPAD_BUTTON_CL_FULL_L,
            WpadButton::WPAD_BUTTON_FS_C => WpadButtonCl::WPAD_BUTTON_CL_ZL,
            _ => WpadButtonCl::WPAD_BUTTON_CL_HOME,
        };
        assert(core_target(c) == Some(k));
    }
}

/// No two Classic Controller buttons are mapped to the same Wii Remote
/// button, so each remapped press, hold and release has a single source.
pub proof fn lemma_mapping_injective(a: WpadButtonCl, b: WpadButtonCl)
    requires
        core_target(a) is Some,
        core_target(a) == core_target(b),
    ensures
        a == b,
{
}

/// The remapping only adds buttons: every button down before is down after.
pub proof fn lemma_remap_keeps_buttons(w: u32, cl: u32)
    ensures
        remap_word(w, cl) & w == w,
{
    assert(remap_word(w, cl) & w == w) by (bit_vector);
}

/// Remapping twice with the same Classic Controller word is remapping once.
pub proof fn lemma_remap_idempotent(w: u32, cl: u32)
    ensures
        remap_word(remap_word(w, cl), cl) == remap_word(w, cl),
{
    assert(remap_word(remap_word(w, cl), cl) == remap_word(w, cl)) by (bit_vector);
}

/// With no Classic Controller button down, the remapping changes nothing.
pub proof fn lemma_remap_no_input(w: u32)
    ensures
        remap_word(w, 0) == w,
{
    assert(remap_word(w, 0) == w) by (bit_vector);
}

/// The buttons the remapping presses for two Classic Controller words
/// together are those it presses for each: each Classic Controller button
/// acts on its own.
pub proof fn lemma_remap_distributes(a: u32, b: u32)
    ensures
        classic_core_bits(a | b) == classic_core_bits(a) | classic_core_bits(b),
{
    assert(classic_core_bits(a | b) == classic_core_bits(a) | classic_core_bits(b))
        by (bit_vector);
}

/// Classic Controller buttons without a mapping (A, B, X and the full R
/// press) have no effect.
pub proof fn lemma_unmapped_classic_button_ignored(cl: u32, c: WpadButtonCl)
    requires
        core_target(c) is None,
    ensures
        classic_core_bits(cl | c.mask_spec()) == classic_core_bits(cl),
{
    assert(classic_core_bits(cl | 0x0008) == classic_core_bits(cl)) by (bit_vector);
    assert(classic_core_bits(cl | 0x0010) == classic_core_bits(cl)) by (bit_vector);
    assert(classic_core_bits(cl | 0x0040) == classic_core_bits(cl)) by (bit_vector);
    assert(classic_core_bits(cl | 0x0200) == classic_core_bits(cl)) by (bit_vector);
}

/// Once the flag has been updated with consistent inputs (the length
/// cannot be both below the release threshold and at the engage threshold),
/// updating it again with the same inputs changes nothing: the flag only
/// moves when the length crosses a threshold.
pub proof fn lemma_item_select_settles(any_selected: bool, below: bool, reaches: bool)
    requires
        !(below && reaches),
    ensures
        item_select_step(item_select_step(any_selected, below, reaches), below, reaches)
            == item_select_step(any_selected, below, reaches),
{
}

/// Between the two thresholds the flag keeps its value.
pub proof fn lemma_item_select_hysteresis(any_selected: bool)
    ensures
        item_select_step(any_selected, false, false) == any_selected,
{
}

} // verus!
