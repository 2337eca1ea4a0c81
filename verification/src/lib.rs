//! Hardware-independent logic of the DS/DSi support library: register encodings,
//! on-disk and wire formats, the MOD music loader, touchscreen filtering, SD/MMC
//! bring-up decisions and the immediate-mode GUI core.
pub mod arm7;
pub mod autoboot;
pub mod bytes;
pub mod codec;
pub mod music;
pub mod ndma;
pub mod sdmmc;
pub mod sound;
pub mod touch;
pub mod tracker;
pub mod ui;
pub mod video;
pub mod crypto;
pub mod fs;
pub mod gui;
pub mod i2c;
pub mod interrupts;
pub mod memory;
pub mod rtc;
pub mod wifi;
pub mod mmc;
pub mod slot_init;
pub mod card_ident;
pub mod sdio;

use vstd::prelude::*;

verus! {

} // verus!
