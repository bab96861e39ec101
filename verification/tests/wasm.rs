use sim_audio_hosting::descriptor::{PluginDescriptor, PortDecl};
use sim_audio_hosting::error::Error;
use sim_audio_hosting::wasm::{
    MAX_PLUGIN_CHANNELS, PluginRoute, PluginRouter, WasmResourceLimits, check_plugin_channels,
    descriptor_from_manifest, manifest_parameter_names, route_for_extension,
};
use sim_audio_hosting::wasm_host::{
    WasmHostAudio, audio_channel_count, manifest_window, process_status,
};
use sim_audio_hosting::wasm_manifest::{WASM_MANIFEST_SIZE, WasmAudioManifest};
use sim_audio_hosting::text::ascii_lowercase;
use sim_audio_hosting::wire::{PluginFormat, PortDir, PortMedia};

fn manifest_descriptor(audio_in: u16, audio_out: u16) -> Result<PluginDescriptor<u32>, Error> {
    descriptor_from_manifest("sim.test", "test", "", audio_in, audio_out)
}

#[test]
fn processor_manifest_within_channel_cap_builds_descriptor() {
    let descriptor = manifest_descriptor(2, MAX_PLUGIN_CHANNELS).expect("channel count within cap");
    assert_eq!(descriptor.ports.len(), 2);
}

#[test]
fn processor_manifest_over_channel_cap_is_rejected() {
    let err = manifest_descriptor(u16::MAX, 2)
        .expect_err("manifest over the channel cap must be rejected");
    assert!(err.message().contains("exceeding the host maximum"));
}

#[test]
fn processor_manifest_over_output_channel_cap_is_rejected() {
    let err = manifest_descriptor(2, MAX_PLUGIN_CHANNELS + 1)
        .expect_err("output channel count over the cap must be rejected");
    assert!(err.message().contains("output channels"));
}

#[test]
fn manifest_manifest_within_channel_cap_builds_descriptor() {
    let descriptor = manifest_descriptor(2, MAX_PLUGIN_CHANNELS).expect("channel count within cap");
    assert_eq!(descriptor.ports.len(), 2);
}

#[test]
fn manifest_manifest_over_channel_cap_is_rejected() {
    let err = manifest_descriptor(u16::MAX, 2)
        .expect_err("manifest over the channel cap must be rejected");
    assert!(err.message().contains("exceeding the host maximum"));
}

#[test]
fn manifest_manifest_over_output_channel_cap_is_rejected() {
    let err = manifest_descriptor(2, MAX_PLUGIN_CHANNELS + 1)
        .expect_err("output channel count over the cap must be rejected");
    assert!(err.message().contains("output channels"));
}

#[test]
fn manifest_descriptor_is_a_wasm_plugin_with_one_port_per_direction() {
    let descriptor = manifest_descriptor(0, 2).unwrap();
    assert_eq!(descriptor.id.format, PluginFormat::Wasm);
    assert_eq!(descriptor.id.stable_id, "sim.test");
    assert_eq!(descriptor.version, "0.1.0");
    assert_eq!(
        descriptor.ports,
        vec![PortDecl::new("audio-out".to_string(), PortMedia::Audio, PortDir::Out, 2)]
    );
    let err = descriptor_from_manifest::<u32>(" ", "test", "", 1, 1).unwrap_err();
    assert_eq!(err, Error::Eval("plugin stable id cannot be empty".to_string()));
}

#[test]
fn channel_cap_message_names_the_count_and_the_ceiling() {
    assert_eq!(
        check_plugin_channels("input", 513).unwrap_err(),
        Error::Eval(
            "wasm plugin declares 513 input channels, exceeding the host maximum of 512"
                .to_string()
        )
    );
    assert!(check_plugin_channels("input", 512).is_ok());
}

#[test]
fn manifest_parameters_are_named_by_id() {
    assert_eq!(
        manifest_parameter_names(12),
        ("param-12".to_string(), "Param 12".to_string())
    );
    assert_eq!(manifest_parameter_names(0), ("param-0".to_string(), "Param 0".to_string()));
}

#[test]
fn router_unknown_extension_errors() {
    let router = PluginRouter::new(WasmResourceLimits::default());
    let result = router.route("plugin.vst3");
    let Err(err) = result else {
        panic!("unknown extension unexpectedly loaded");
    };

    assert!(err.message().contains("unrecognised plugin extension"));
}

#[test]
fn router_selects_loaders_by_extension_ignoring_case() {
    let router = PluginRouter::new(WasmResourceLimits::strict());
    assert_eq!(router.route("dir/gain.wasm").unwrap(), PluginRoute::Wasm);
    assert_eq!(router.route("gain.WASM").unwrap(), PluginRoute::Wasm);
    assert_eq!(router.route("fixture://gain.clap").unwrap(), PluginRoute::Clap);
    assert_eq!(router.route("https://sim.dev/lv2/gain.lv2").unwrap(), PluginRoute::Lv2);
    assert_eq!(
        router.route("no_extension").unwrap_err(),
        Error::Eval(
            "unrecognised plugin extension None; expected .wasm, .clap, or .lv2".to_string()
        )
    );
    assert_eq!(
        router.route("plugin.VST3").unwrap_err(),
        Error::Eval(
            "unrecognised plugin extension Some(\"vst3\"); expected .wasm, .clap, or .lv2"
                .to_string()
        )
    );
    assert_eq!(route_for_extension(Some("Lv2")).unwrap(), PluginRoute::Lv2);
    assert_eq!(router.limits(), WasmResourceLimits::strict());
}

#[test]
fn resource_limit_profiles_are_ordered() {
    let strict = WasmResourceLimits::strict();
    let default = WasmResourceLimits::default();
    let permissive = WasmResourceLimits::permissive();
    assert!(strict.fuel_per_process < default.fuel_per_process);
    assert!(default.fuel_per_process < permissive.fuel_per_process);
    assert_eq!(strict.max_memory_bytes(), 16 * 65536);
    assert_eq!(default.max_memory_bytes(), 64 * 65536);
    assert_eq!(permissive.max_memory_bytes(), 256 * 65536);
}

#[test]
fn host_audio_reads_writes_and_stages_blocks() {
    let mut host: WasmHostAudio<f32, f64> = WasmHostAudio::new();
    assert_eq!(host.frame_count(), 0);
    host.prepare_lanes(2, 2, 4, 0.0);
    host.stage_block(3, &[vec![1.0, 2.0, 3.0], vec![4.0, 5.0]], 0.0);
    assert_eq!(host.frame_count(), 3);
    assert_eq!(host.audio_read(0, 2, -1.0), 3.0);
    assert_eq!(host.audio_read(0, 3, -1.0), 0.0);
    assert_eq!(host.audio_read(1, 0, -1.0), 0.0);
    assert_eq!(host.audio_read(5, 0, -1.0), -1.0);
    host.audio_write(1, 2, 0.25);
    host.audio_write(7, 0, 9.0);
    let mut outputs = vec![vec![9.0; 3], vec![9.0; 3], vec![9.0; 3]];
    host.copy_outputs(&mut outputs, 3);
    assert_eq!(outputs, vec![vec![0.0, 0.0, 0.0], vec![0.0, 0.0, 0.25], vec![9.0, 9.0, 9.0]]);
}

#[test]
fn host_audio_parameters_default_and_refuse_absent_ids() {
    let mut host: WasmHostAudio<f32, f64> = WasmHostAudio::new();
    host.declare_params(2, 1.0);
    assert_eq!(host.param_get(0, 1.0), 1.0);
    assert!(host.set_param(1, 0.5).is_ok());
    assert_eq!(host.param_get(1, 1.0), 0.5);
    assert_eq!(host.param_get(9, 1.0), 1.0);
    assert_eq!(
        host.set_param(2, 0.5).unwrap_err(),
        Error::Eval("wasm plugin parameter 2 is absent".to_string())
    );
}

#[test]
fn host_audio_restore_applies_declared_and_reports_skipped() {
    let mut host: WasmHostAudio<f32, f64> = WasmHostAudio::new();
    host.declare_params(1, 1.0);
    let (applied, report) = host.restore_params(&[(0, 0.25), (3, 0.5), (7, 0.75)]);
    assert_eq!(applied, vec![(0, 0.25)]);
    assert_eq!(host.param_get(0, 1.0), 0.25);
    assert_eq!(
        report.unwrap(),
        "wasm plugin state restore skipped 2 parameter(s): wasm plugin parameter 3 is absent; wasm plugin parameter 7 is absent"
    );
    let (applied, report) = host.restore_params(&[(0, 0.5)]);
    assert_eq!(applied, vec![(0, 0.5)]);
    assert!(report.is_none());
}

#[test]
fn process_status_zero_is_success() {
    assert!(process_status(0).is_ok());
    assert_eq!(
        process_status(3).unwrap_err(),
        Error::Eval("wasm plugin process returned status 3".to_string())
    );
    assert_eq!(
        process_status(-2).unwrap_err(),
        Error::Eval("wasm plugin process returned status -2".to_string())
    );
    assert_eq!(
        process_status(i32::MIN).unwrap_err().message(),
        format!("wasm plugin process returned status {}", i32::MIN)
    );
}

#[test]
fn manifest_window_must_fit_memory() {
    assert!(manifest_window(0, 16, 16).is_ok());
    assert!(manifest_window(8, 16, 16).is_err());
    assert_eq!(
        manifest_window(usize::MAX, 16, 65536).unwrap_err(),
        Error::Eval("manifest pointer is out of bounds".to_string())
    );
}

#[test]
fn audio_channel_count_sums_audio_ports_in_one_direction() {
    let ports = vec![
        PortDecl::new("a".to_string(), PortMedia::Audio, PortDir::In, 2),
        PortDecl::new("b".to_string(), PortMedia::Audio, PortDir::Out, 2),
        PortDecl::new("c".to_string(), PortMedia::Control, PortDir::In, 1),
        PortDecl::new("d".to_string(), PortMedia::Audio, PortDir::In, 3),
    ];
    assert_eq!(audio_channel_count(&ports, PortDir::In), 5);
    assert_eq!(audio_channel_count(&ports, PortDir::Out), 2);
}

fn manifest_bytes(counts: [u16; 3], name: &[u8], vendor: &[u8], stable_id: &[u8]) -> Vec<u8> {
    let mut bytes = vec![0u8; WASM_MANIFEST_SIZE];
    for (k, c) in counts.iter().enumerate() {
        bytes[2 * k] = (*c & 0xff) as u8;
        bytes[2 * k + 1] = (*c >> 8) as u8;
    }
    bytes[8..8 + name.len()].copy_from_slice(name);
    bytes[72..72 + vendor.len()].copy_from_slice(vendor);
    bytes[104..104 + stable_id.len()].copy_from_slice(stable_id);
    bytes
}

#[test]
fn manifest_bytes_decode_counts_and_nul_padded_texts() {
    let bytes = manifest_bytes([1, 2, 0x0103], b"Gain", &[b'V'; 32], b"sim.gain");
    let manifest = WasmAudioManifest::from_bytes(&bytes).unwrap();
    assert_eq!(manifest.audio_in_channels, 1);
    assert_eq!(manifest.audio_out_channels, 2);
    assert_eq!(manifest.param_count, 259);
    assert_eq!(manifest.name, "Gain");
    assert_eq!(manifest.vendor, "V".repeat(32));
    assert_eq!(manifest.stable_id, "sim.gain");
}

#[test]
fn manifest_bytes_refuse_wrong_size_and_non_utf8_text() {
    let short = vec![0u8; WASM_MANIFEST_SIZE - 1];
    assert_eq!(
        WasmAudioManifest::from_bytes(&short).err().unwrap(),
        Error::Eval("wasm manifest has the wrong size".to_string())
    );
    let bad = manifest_bytes([0, 0, 0], &[0xff, 0xfe], b"v", b"id");
    assert_eq!(
        WasmAudioManifest::from_bytes(&bad).err().unwrap(),
        Error::Eval("wasm manifest text is not UTF-8".to_string())
    );
}

#[test]
fn ascii_lowercase_maps_only_ascii_letters() {
    assert_eq!(ascii_lowercase("WaSm.CLAP-Ä"), "wasm.clap-Ä");
    assert_eq!(ascii_lowercase(""), "");
}
