//! Verified core of the Sovereign desktop shell: the navigation policy, the
//! scripts injected into every page, the device-bridge result model and the
//! native push pipeline (payload decryption, key handling, registration).
//! Everything that needs a window, a dialog, an OS service or the network is
//! driven from outside this crate with the plain values computed here.

pub mod push;
pub mod encoding;
pub mod navigation;
pub mod scripts;
pub mod bridge;
pub mod biometrics;
pub mod updates;
