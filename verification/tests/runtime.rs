use sim_audio_hosting::bridge::{
    PlanarBridgeState, PlaybackBridgeState, SamplePosition, check_block_frames, check_playback_frames, checked_channels, checked_frames,
    input_planar, planar_bridge_config, playback_bridge_config, samples_to_frames,
    widest_lanes_of,
};
use sim_audio_hosting::cpal::{
    BackendResolution, CallbackPending, advertised_sample_rates, audio_backend_resolution_rows,
    config_from_cpal, cpal_audio_backend_candidate, cpal_hardware_backend_symbol,
    cpal_hardware_card, cpal_hardware_open_check, frames_per_buffer, pending_capacity,
    saturating_mul,
};
use sim_audio_hosting::error::Error;
use sim_audio_hosting::lanes::{silence_lanes, silent_lanes_of};
use sim_audio_hosting::stream_host::{HostDirection, HostOpenRequest};
use sim_audio_hosting::surface::{
    AlsaLib, AsioLib, CoreAudioLib, CpalProviderModeled, SurfaceField, Vst3PluginLib,
    alsa_card_role, cpal_modeled_provider_symbol, lv2_plugin_pack, plugin_core_pack,
    plugin_core_symbols,
};
use sim_audio_hosting::symbol::Symbol;
use sim_audio_hosting::text::{
    ascii_lower_eq, contains_whitespace, decimal, is_blank, is_whitespace_char, strip_prefix,
    text_eq,
};

#[test]
fn every_modeled_backend_has_a_resolution() {
    for row in audio_backend_resolution_rows() {
        assert_ne!(row.crate_name, "");
        assert_ne!(row.transport, "");
        assert_ne!(row.distinct_value, "");
    }
}

#[test]
fn backend_resolution_selects_jack_as_loadable_provider() {
    let jack = audio_backend_resolution_rows()
        .into_iter()
        .find(|row| row.transport == "jack")
        .expect("JACK row exists");

    assert_eq!(jack.resolution, BackendResolution::LoadableProvider);
}

#[test]
fn config_probe_candidate_names_cpal_backend() {
    assert_eq!(cpal_audio_backend_candidate(), "cpal");
}

#[test]
fn provider_modeled_manifest_matches_entry_symbol() {
    assert_eq!(CpalProviderModeled.manifest().id, cpal_modeled_provider_symbol());
}

#[test]
fn config_from_cpal_uses_default_frames_with_bounds() {
    let config = config_from_cpal(Symbol::new("cpal/test-output".to_string()), Some((128, 256)), 96_000);

    assert_eq!(config.backend, cpal_hardware_backend_symbol());
    assert_eq!(config.device, Symbol::new("cpal/test-output".to_string()));
    assert!(config.pcm);
    assert_eq!(config.direction, HostDirection::Output);
    assert_eq!(config.buffer_capacity, 256);
    assert_eq!(config.clock, Symbol::qualified("clock", "sample"));
    assert_eq!(config.sample_rate_hz, 96_000);
    assert_eq!(config.latency.output_frames, 256);
    assert!(!config.deterministic_clock);
}

#[test]
fn frames_per_buffer_clamps_the_default_into_the_range() {
    assert_eq!(frames_per_buffer(None), 512);
    assert_eq!(frames_per_buffer(Some((1024, 4096))), 1024);
    assert_eq!(frames_per_buffer(Some((64, 2048))), 512);
    assert_eq!(frames_per_buffer(Some((128, 256))), 256);
    assert_eq!(pending_capacity(512, 2), 2048);
    assert_eq!(pending_capacity(1024, 6), 12_288);
    assert_eq!(saturating_mul(usize::MAX, 2), usize::MAX);
    assert_eq!(saturating_mul(0, usize::MAX), 0);
}

#[test]
fn advertised_rates_are_sorted_unique_and_default_to_48k() {
    assert_eq!(
        advertised_sample_rates(&[(44_100, 96_000), (48_000, 48_000)], Some(48_000)),
        vec![44_100, 48_000, 96_000]
    );
    assert_eq!(advertised_sample_rates(&[], None), vec![48_000]);
    assert_eq!(advertised_sample_rates(&[], Some(22_050)), vec![22_050]);
}

#[test]
fn cpal_hardware_cards_and_open_checks() {
    let card = cpal_hardware_card(3, None, None, &[(44_100, 48_000)], None);
    assert_eq!(card.key, Symbol::qualified("audio/site", "cpal-hardware-3"));
    assert_eq!(card.display_name, "cpal output");
    assert_eq!(card.channels_out, 2);
    assert_eq!(card.channels_in, 0);
    assert_eq!(card.sample_rates, vec![44_100, 48_000]);
    assert!(card.hardware_required);
    let named = cpal_hardware_card(0, Some("Speakers".to_string()), Some(6), &[], Some(44_100));
    assert_eq!(named.display_name, "Speakers");
    assert_eq!(named.channels_out, 6);

    let mut request = HostOpenRequest {
        backend: cpal_hardware_backend_symbol(),
        device: Symbol::new("dev".to_string()),
        pcm: true,
        direction: HostDirection::Output,
        buffer_capacity: 4,
    };
    assert!(cpal_hardware_open_check(&request).is_ok());
    request.direction = HostDirection::Input;
    assert_eq!(
        cpal_hardware_open_check(&request).unwrap_err(),
        Error::TypeMismatch {
            expected: "output stream request",
            found: "non-output stream request"
        }
    );
    request.pcm = false;
    assert_eq!(
        cpal_hardware_open_check(&request).unwrap_err(),
        Error::TypeMismatch {
            expected: "PCM stream request",
            found: "non-PCM stream request"
        }
    );
    request.backend = Symbol::qualified("stream/host", "alsa");
    assert_eq!(
        cpal_hardware_open_check(&request).unwrap_err(),
        Error::Eval("cpal hardware site cannot open stream/host/alsa requests".to_string())
    );
}

#[test]
fn callback_pending_is_a_bounded_fifo() {
    let mut pending: CallbackPending<i16> = CallbackPending::with_capacity(3);
    pending.push_samples(&[1, 2, 3, 4]);
    assert_eq!(pending.len(), 3);
    assert_eq!(pending.pop_sample(0), 1);
    pending.push_sample(5);
    assert_eq!(pending.drain_into(5, 0), vec![2, 3, 5, 0, 0]);
    assert_eq!(pending.len(), 0);
    assert_eq!(pending.pop_sample(-1), -1);
}

#[test]
fn bridge_configs_check_lanes_and_sizes() {
    let config = planar_bridge_config("ASIO", 128, 2, 2).unwrap();
    assert_eq!(config.max_block_frames, 128);
    assert_eq!(config.input_lanes, 2);
    assert_eq!(config.scratch_capacity, 256);
    let silent = planar_bridge_config("CoreAudio", 64, 0, 0).unwrap_err();
    assert_eq!(silent, Error::Eval("CoreAudio bridge needs at least one audio lane".to_string()));
    assert_eq!(planar_bridge_config("ASIO", 64, 0, 0).unwrap_err().message(),
        "ASIO bridge needs at least one audio lane");
    assert_eq!(planar_bridge_config("ASIO", 8, 0, 1).unwrap().scratch_capacity, 8);
    assert_eq!(
        planar_bridge_config("ASIO", 8, 70_000, 1).unwrap_err(),
        Error::Eval("ASIO input channel count exceeds u16".to_string())
    );
    assert_eq!(
        playback_bridge_config(0, 2).unwrap_err(),
        Error::Eval("ALSA playback max block frames must be greater than zero".to_string())
    );
    assert_eq!(playback_bridge_config(8, 2).unwrap().scratch_capacity, 16);
    assert_eq!(checked_frames(5, "ASIO").unwrap(), 5);
    assert_eq!(checked_channels(3, "ALSA", " playback output channel count exceeds u16").unwrap(), 3);
}

#[test]
fn callback_blocks_are_checked_against_the_prepared_bound() {
    assert!(check_block_frames("ASIO", 128, 128).is_ok());
    assert_eq!(
        check_block_frames("ASIO", 129, 128).unwrap_err(),
        Error::Eval("ASIO callback received 129 frames, max block size is 128".to_string())
    );
    assert_eq!(
        check_playback_frames(9, 8).unwrap_err(),
        Error::Eval("ALSA playback callback received 9 frames, max is 8".to_string())
    );
    assert_eq!(samples_to_frames(6, 2).unwrap(), 3);
    assert_eq!(
        samples_to_frames(5, 2).unwrap_err(),
        Error::Eval("ALSA capture sample length 5 is not divisible by channels 2".to_string())
    );
    assert_eq!(
        samples_to_frames(4, 0).unwrap_err(),
        Error::Eval("ALSA capture channel count must be greater than zero".to_string())
    );
}

#[test]
fn input_planar_takes_block_prefixes_or_silence() {
    let left = vec![1.0f32, 0.5, 0.25];
    let right = vec![0.0f32, -1.0, 7.0];
    let lanes = input_planar("ASIO", Some(&[left, right]), 2, 2, 0.0).unwrap();
    assert_eq!(lanes, vec![vec![1.0, 0.5], vec![0.0, -1.0]]);
    assert_eq!(input_planar::<f32>("ASIO", None, 2, 3, 0.0).unwrap(), vec![vec![0.0; 3]; 2]);
    assert_eq!(
        input_planar("CoreAudio", Some(&[vec![1.0f32]]), 2, 1, 0.0).unwrap_err(),
        Error::Eval("CoreAudio input has 1 channels, expected 2".to_string())
    );
    assert_eq!(
        input_planar("ASIO", Some(&[vec![1.0f32, 2.0], vec![1.0]]), 2, 2, 0.0).unwrap_err(),
        Error::Eval("ASIO input lane has 1 frames, expected 2".to_string())
    );
}

#[test]
fn sample_position_advances_and_resets() {
    let mut pos = SamplePosition::new();
    pos.advance(2);
    pos.advance(3);
    assert_eq!(pos.sample_pos(), 5);
    pos.reset();
    assert_eq!(pos.sample_pos(), 0);
    pos.advance(u64::MAX as usize);
    pos.advance_saturating(10);
    assert_eq!(pos.sample_pos(), u64::MAX);
}

#[test]
fn lanes_silence_only_lanes_holding_the_block() {
    let mut lanes = vec![vec![1, 2, 3], vec![4]];
    silence_lanes(&mut lanes, 2, 0);
    assert_eq!(lanes, vec![vec![0, 0, 3], vec![4]]);
    assert_eq!(silent_lanes_of(2, 1, 9), vec![vec![9], vec![9]]);
}

#[test]
fn plugin_packs_publish_one_card_per_export() {
    let symbols = plugin_core_symbols();
    assert_eq!(symbols[0], Symbol::qualified("plugin-core", "PluginDescriptor"));
    let pack = plugin_core_pack();
    assert_eq!(pack.lib_id, Symbol::new("plugin-core".to_string()));
    assert_eq!(pack.values.len(), symbols.len());
    for (value, symbol) in pack.values.iter().zip(symbols.iter()) {
        assert_eq!(&value.symbol, symbol);
        assert_eq!(value.fields.len(), 4);
        match &value.fields[2].1 {
            SurfaceField::Str(kind) => assert_eq!(kind, "plugin-descriptor"),
            other => panic!("unexpected field {other:?}"),
        }
    }
    assert_eq!(lv2_plugin_pack().values.len(), 6);
    assert_eq!(Vst3PluginLib.pack().values.len(), 7);
}

#[test]
fn stream_cards_name_backend_transport_and_role() {
    let pack = AlsaLib.pack();
    assert_eq!(pack.lib_id, Symbol::new("stream-alsa".to_string()));
    assert_eq!(pack.values.len(), 5);
    let first = &pack.values[0];
    assert_eq!(first.symbol, Symbol::qualified("stream", "AlsaBackend"));
    match &first.fields[5].1 {
        SurfaceField::Str(role) => assert_eq!(role, "ALSA host PCM backend card"),
        other => panic!("unexpected field {other:?}"),
    }
    match &first.fields[6].1 {
        SurfaceField::Strs(names) => assert_eq!(names, &vec!["default", "hw:*", "plughw:*"]),
        other => panic!("unexpected field {other:?}"),
    }
    assert_eq!(alsa_card_role("Unknown"), "ALSA card");
    let asio = AsioLib.pack();
    assert_eq!(asio.values.len(), 3);
    match &asio.values[1].fields[6].1 {
        SurfaceField::Strs(items) => assert_eq!(items.len(), 4),
        other => panic!("unexpected field {other:?}"),
    }
    let coreaudio = CoreAudioLib.pack();
    assert_eq!(coreaudio.values.len(), 4);
    match &coreaudio.values[0].fields[6].1 {
        SurfaceField::Symbols(order) => {
            assert_eq!(order[0], Symbol::qualified("stream/host", "portaudio"))
        }
        other => panic!("unexpected field {other:?}"),
    }
}

#[test]
fn text_helpers_match_std() {
    for c in ['a', ' ', '\t', '\n', '\u{a0}', '\u{2003}', '\u{3000}', 'Z', '\u{85}', '\u{200b}'] {
        assert_eq!(is_whitespace_char(c), c.is_whitespace(), "{c:?}");
    }
    for code in 0u32..0x3100 {
        if let Some(c) = char::from_u32(code) {
            assert_eq!(is_whitespace_char(c), c.is_whitespace(), "{code:x}");
        }
    }
    assert!(is_blank(" \t\n"));
    assert!(is_blank(""));
    assert!(!is_blank(" x "));
    assert!(contains_whitespace("a b"));
    assert!(!contains_whitespace("ab"));
    assert!(text_eq("abc", "abc"));
    assert!(!text_eq("abc", "abd"));
    assert!(ascii_lower_eq("WaSm", "wasm"));
    assert!(!ascii_lower_eq("wasm", "WASM"));
    assert_eq!(strip_prefix("hw:1", "hw:"), Some("1"));
    assert_eq!(strip_prefix("plughw:1", "hw:"), None);
    for n in [0u64, 7, 10, 512, 65_535, u64::MAX] {
        assert_eq!(decimal(n), n.to_string());
    }
    assert_eq!(Symbol::qualified("stream", "x").to_text(), "stream/x");
    assert!(Symbol::qualified("a", "b").same_as(&Symbol::qualified("a", "b")));
    assert!(!Symbol::qualified("a", "b").same_as(&Symbol::new("a/b".to_string())));
}

#[test]
fn planar_bridge_state_plans_blocks_and_advances_only_after_render() {
    let mut state = PlanarBridgeState::new("ASIO", 4, 1, 2).unwrap();
    assert_eq!(state.config().scratch_capacity, 8);
    assert_eq!(
        state.begin_block::<f32>(None, 5, 0.0).err().unwrap().message(),
        "ASIO callback received 5 frames, max block size is 4"
    );
    let input = vec![vec![1.0f32, 2.0, 3.0, 4.0]];
    let plan = state.begin_block(Some(&input[..]), 3, 0.0).unwrap();
    assert_eq!(plan.frames, 3);
    assert_eq!(plan.inputs, vec![vec![1.0, 2.0, 3.0]]);
    assert_eq!(plan.outputs, vec![vec![0.0; 3]; 2]);
    assert_eq!(plan.sample_pos, 0);
    assert_eq!(state.sample_pos(), 0);
    state.finish_block(plan.frames);
    let next = state.begin_block::<f32>(None, 2, 0.0).unwrap();
    assert_eq!(next.sample_pos, 3);
    assert_eq!(next.inputs, vec![vec![0.0; 2]]);
    let two = vec![vec![1.0f32], vec![2.0]];
    assert_eq!(
        state.begin_block(Some(&two[..]), 1, 0.0).err().unwrap().message(),
        "ASIO input has 2 channels, expected 1"
    );
    state.reset();
    assert_eq!(state.sample_pos(), 0);
    assert_eq!(
        PlanarBridgeState::new("CoreAudio", 4, 0, 0).err().unwrap().message(),
        "CoreAudio bridge needs at least one audio lane"
    );
    assert_eq!(widest_lanes_of(0, 0), 1);
    assert_eq!(widest_lanes_of(3, 2), 3);
}

#[test]
fn playback_bridge_state_refuses_oversized_blocks_and_saturates() {
    let mut state = PlaybackBridgeState::new(4, 2).unwrap();
    assert_eq!(
        state.begin_render::<f32>(5, 0.0).err().unwrap().message(),
        "ALSA playback callback received 5 frames, max is 4"
    );
    let plan = state.begin_render(4, 0i16).unwrap();
    assert!(plan.inputs.is_empty());
    assert_eq!(plan.outputs, vec![vec![0i16; 4]; 2]);
    state.finish_render(plan.frames);
    assert_eq!(state.sample_pos(), 4);
    state.reset();
    assert_eq!(state.sample_pos(), 0);
    assert_eq!(
        PlaybackBridgeState::new(0, 2).err().unwrap().message(),
        "ALSA playback max block frames must be greater than zero"
    );
}
