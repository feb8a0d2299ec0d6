# custom_functions

Classic Controller support for the game's Wii Remote input path, verified
with Verus.

* `src/pad.rs` — button masks, device types and the pad status records; the
  extension status union is modelled as its twenty 32-bit words, each `f32`
  carried as its bit pattern.
* `src/classic_controller.rs` — the button remapping, the rewrite of the
  extension status into the Nunchuk view, the processing of a read, the
  stick selection and the item wheel's selection flag, with their laws.
* `src/history.rs` — the right-stick history.
* `src/hbm.rs` — whether the Home Button Menu is shown.
* `app/` — the `#[repr(C)]` records, the game's symbols and the hooks the
  game calls; it reads and writes game memory and does the floating-point
  work around the library.
