# sim_audio_hosting

Verified models of the SIM audio plugin formats (plugin core, LV2, VST3,
WebAssembly) and of the stream-host adapters (ALSA, ASIO, CoreAudio, cpal).

- `src/` is the library, written in Verus. Each public function states in its
  contract what it returns for every input it accepts; where a provider that
  the embedding host implements, or a standard-library call, decides the
  outcome, the contract states what is handed to it and what follows from
  each outcome it may give. The laws that span
  several functions (wire-name round trips, descriptor encoding round trips,
  capability grants, parameter maps, resource-limit ordering) are public proof
  functions.
- `tests/` runs the library on concrete values.
- `app/` is the thin unverified layer: the floating-point parameter and state
  codecs, the wasmtime-backed processor, the cpal device driver and the
  filesystem side of the plugin router. It calls into the library for every
  decision.
