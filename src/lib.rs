//! Client-side logic for a Warp DRE gateway and for registering signed
//! interactions with the Warp sequencer.

pub mod errors;
pub mod gateway;
pub mod interactor;
pub mod types;
pub mod warp_dre;
