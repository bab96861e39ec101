//! Verified models of the SIM audio plugin descriptors and stream-host adapters.
use vstd::prelude::*;

pub mod alsa;
pub mod asio;
pub mod bridge;
pub mod capability;
pub mod codec;
pub mod coreaudio;
pub mod cpal;
pub mod descriptor;
pub mod error;
pub mod hosted;
pub mod lanes;
pub mod lv2;
pub mod native;
pub mod stream_host;
pub mod surface;
pub mod symbol;
pub mod text;
pub mod vst3;
pub mod vst3_event;
pub mod wasm;
pub mod wasm_host;
pub mod wasm_manifest;
pub mod wire;

verus! {

} // verus!
