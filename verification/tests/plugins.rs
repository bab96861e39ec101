use sim_audio_hosting::capability::{AudioPluginCapability, CapabilitySet};
use sim_audio_hosting::descriptor::{PluginDescriptor, PluginId, PluginLoadSpec, PortDecl};
use sim_audio_hosting::error::Error;
use sim_audio_hosting::hosted::{HostedPluginProcessor, Lv2HostProcessor};
use sim_audio_hosting::lv2::{
    Lv2PluginDescriptor, Lv2Port, Lv2PortKind, lv2_gain_descriptor, lv2_gain_lv2_descriptor,
};
use sim_audio_hosting::native::{
    Lv2HostProvider, check_clap_load, check_fixture_uri, host_lv2_instance, load_lv2_plugin,
};
use sim_audio_hosting::vst3::{
    Vst3Bus, Vst3HostingDecision, Vst3ParamMap, current_vst3_scope, vst3_gain_descriptor,
    vst3_gain_vst3_descriptor,
};
use sim_audio_hosting::vst3_event::{BlockEvent, Vst3Event, Vst3EventBuffer};
use sim_audio_hosting::wire::{
    ParameterKind, PluginFormat, PortDir, PortMedia, parameter_kind, parameter_kind_name,
    plugin_format, port_dir, port_dir_name, port_media, port_media_name,
};

/// A parameter as the tests describe one: id and stable id.
#[derive(Clone, Debug, PartialEq)]
struct Param {
    id: u32,
    stable_id: &'static str,
}

fn port(name: &str, media: PortMedia, dir: PortDir, channels: u16) -> PortDecl {
    PortDecl::new(name.to_string(), media, dir, channels)
}

#[test]
fn plugin_ids_reject_empty_stable_ids() {
    assert!(PluginId::new(PluginFormat::Clap, "".to_string()).is_err());
}

#[test]
fn wasm_plugin_format_has_wire_name() {
    assert_eq!(PluginFormat::Wasm.as_str(), "wasm");
}

#[test]
fn plugin_load_specs_validate_location_and_format() {
    assert!(PluginLoadSpec::new(PluginFormat::Clap, " ".to_string()).is_err());

    let spec = PluginLoadSpec::new(PluginFormat::Clap, "fixture://gain".to_string()).unwrap();
    assert_eq!(spec.format(), PluginFormat::Clap);
    assert_eq!(spec.location(), "fixture://gain");
    assert!(spec.require_format(PluginFormat::Clap).is_ok());
    assert!(spec.require_format(PluginFormat::Wasm).is_err());
}

#[test]
fn audio_effect_descriptor_declares_stereo_ports_and_keeps_parameters() {
    let descriptor: PluginDescriptor<Param> = PluginDescriptor::audio_effect(
        PluginFormat::Clap,
        "org.sim.gain".to_string(),
        "SIM Gain".to_string(),
        2,
    )
    .unwrap()
    .with_parameter(Param { id: 7, stable_id: "gain" });
    assert_eq!(descriptor.id.format.as_str(), "clap");
    assert_eq!(descriptor.ports.len(), 4);
    assert_eq!(descriptor.parameters, vec![Param { id: 7, stable_id: "gain" }]);
    assert_eq!(descriptor.version, "0.1.0");
    assert_eq!(descriptor.vendor, "sim");
}

#[test]
fn descriptor_refuses_blank_name_and_zero_channels() {
    let blank: Result<PluginDescriptor<Param>, Error> = PluginDescriptor::audio_effect(
        PluginFormat::Sim,
        "org.sim.x".to_string(),
        "  ".to_string(),
        2,
    );
    assert_eq!(blank.unwrap_err(), Error::Eval("plugin name cannot be empty".to_string()));
    let id = PluginId::new(PluginFormat::Sim, "\t\n".to_string());
    assert_eq!(id.unwrap_err(), Error::Eval("plugin stable id cannot be empty".to_string()));
}

#[test]
fn wire_names_round_trip() {
    for format in [
        PluginFormat::Clap,
        PluginFormat::Lv2,
        PluginFormat::Vst3,
        PluginFormat::Wasm,
        PluginFormat::Sim,
    ] {
        assert_eq!(plugin_format(format.as_str()).unwrap(), format);
    }
    for kind in [ParameterKind::Float, ParameterKind::Integer, ParameterKind::Boolean] {
        assert_eq!(parameter_kind(parameter_kind_name(kind)).unwrap(), kind);
    }
    for media in [PortMedia::Audio, PortMedia::Control, PortMedia::Event] {
        assert_eq!(port_media(port_media_name(media)).unwrap(), media);
    }
    for dir in [PortDir::In, PortDir::Out] {
        assert_eq!(port_dir(port_dir_name(dir)).unwrap(), dir);
    }
    assert!(plugin_format("vst2").is_err());
    assert!(parameter_kind("double").is_err());
}

#[test]
fn lv2_ports_map_to_graph_port_decls_and_parameters() {
    let lv2 = lv2_gain_lv2_descriptor(Param { id: 2, stable_id: "gain" }).unwrap();
    assert_eq!(
        lv2.port_decls(),
        vec![
            port("audio-in", PortMedia::Audio, PortDir::In, 2),
            port("audio-out", PortMedia::Audio, PortDir::Out, 2),
            port("gain", PortMedia::Control, PortDir::In, 1),
        ]
    );
    let descriptor = lv2.to_plugin_descriptor().unwrap();
    assert_eq!(descriptor.id.format, PluginFormat::Lv2);
    assert_eq!(descriptor.parameters[0].id, 2);
    assert_eq!(descriptor.parameters[0].stable_id, "gain");
}

#[test]
fn lv2_atom_ports_map_to_event_lanes() {
    let port_ = Lv2Port::atom_input(3, "events".to_string()).unwrap();
    assert_eq!(port_.kind, Lv2PortKind::AtomSequence);
    assert_eq!(port_.to_port_decl(), port("events", PortMedia::Event, PortDir::In, 1));
}

#[test]
fn linux_lv2_plugin_smoke_fixture_is_available() {
    let descriptor = lv2_gain_descriptor(Param { id: 2, stable_id: "gain" }).unwrap();
    assert_eq!(descriptor.id.stable_id, "https://sim.dev/lv2/gain");
}

#[test]
fn lv2_ports_refuse_blank_symbols_and_zero_lanes() {
    assert_eq!(
        Lv2Port::audio_input(0, " ".to_string(), 2).unwrap_err(),
        Error::Eval("LV2 port symbol cannot be empty".to_string())
    );
    assert_eq!(
        Lv2Port::audio_output(1, "out".to_string(), 0).unwrap_err(),
        Error::Eval("LV2 port out must expose at least one graph lane".to_string())
    );
    let blank_uri: Result<Lv2PluginDescriptor<Param>, Error> =
        Lv2PluginDescriptor::new("".to_string(), "Name".to_string());
    assert_eq!(blank_uri.unwrap_err(), Error::Eval("LV2 plugin URI cannot be empty".to_string()));
}

#[test]
fn vst3_descriptor_maps_buses_and_params_to_plugin_core() {
    let vst3 = vst3_gain_vst3_descriptor(Param { id: 0, stable_id: "gain" }).unwrap();
    assert_eq!(
        vst3.port_decls(),
        vec![
            port("audio-in", PortMedia::Audio, PortDir::In, 2),
            port("audio-out", PortMedia::Audio, PortDir::Out, 2),
            port("events-in", PortMedia::Event, PortDir::In, 1),
        ]
    );
    let descriptor = vst3.to_plugin_descriptor().unwrap();
    assert_eq!(descriptor.id.format, PluginFormat::Vst3);
    assert_eq!(descriptor.parameters[0].id, 0);
    assert_eq!(descriptor.parameters[0].stable_id, "gain");
}

#[test]
fn vst3_gain_fixture_keeps_its_class_id() {
    let descriptor = vst3_gain_descriptor(Param { id: 0, stable_id: "gain" }).unwrap();
    assert_eq!(descriptor.id.stable_id, "53494d2d4741494e2d56535433000001");
    assert_eq!(descriptor.name, "SIM VST3 Gain");
}

#[test]
fn vst3_buses_refuse_blank_names() {
    assert_eq!(
        Vst3Bus::audio_input(" ".to_string(), 2).unwrap_err(),
        Error::Eval("VST3 bus name cannot be empty".to_string())
    );
    assert_eq!(
        Vst3Bus::audio_output("main".to_string(), 0).unwrap_err(),
        Error::Eval("VST3 bus main must expose at least one graph lane".to_string())
    );
}

#[test]
fn vst3_scope_documents_native_sdk_and_hosting_decisions() {
    let scope = current_vst3_scope();
    assert!(!scope.native_export_supported());
    assert!(scope.native_export_blocker.contains("Steinberg VST3 SDK"));
    assert_eq!(scope.hosting, Vst3HostingDecision::Deferred);
    assert!(
        scope
            .sdk_requirements
            .iter()
            .any(|requirement| requirement == "host validator or smoke host")
    );
}

#[test]
fn vst3_events_map_to_block_events_and_sim_param_ids() {
    let mut params = Vst3ParamMap::new();
    params.insert(100, 7);
    let events: Vst3EventBuffer<f32, f64> = Vst3EventBuffer::new(vec![
        Vst3Event::NoteOn {
            sample_offset: 0,
            channel: 1,
            pitch: 60,
            velocity: 0.75,
        },
        Vst3Event::ParamValue {
            sample_offset: 4,
            vst3_param_id: 100,
            normalized: 0.5,
        },
        Vst3Event::Midi {
            sample_offset: 8,
            bytes: [0x80, 60, 0],
            len: 3,
        },
    ]);
    assert_eq!(
        events.to_block_events(&params),
        vec![
            BlockEvent::NoteOn {
                offset: 0,
                channel: 1,
                key: 60,
                velocity: 0.75,
            },
            BlockEvent::ParamSet {
                offset: 4,
                param: 7,
                value: 0.5,
            },
            BlockEvent::Midi {
                offset: 8,
                bytes: [0x80, 60, 0],
                len: 3,
            },
        ]
    );
}

#[test]
fn vst3_checked_event_conversion_rejects_end_of_block_offsets() {
    let params = Vst3ParamMap::new();
    let accepted: Vst3Event<f32, f64> = Vst3Event::Midi {
        sample_offset: 7,
        bytes: [0x90, 60, 100],
        len: 3,
    };
    assert_eq!(
        accepted.try_to_block_event(&params, 8).unwrap(),
        BlockEvent::Midi {
            offset: 7,
            bytes: [0x90, 60, 100],
            len: 3,
        }
    );

    let rejected: Vst3EventBuffer<f32, f64> = Vst3EventBuffer::new(vec![Vst3Event::ParamValue {
        sample_offset: 8,
        vst3_param_id: 100,
        normalized: 0.5,
    }]);
    let err = rejected
        .try_to_block_events(&params, 8)
        .expect_err("offset equal to frames is outside the block");

    assert!(err.message().contains("VST3 event offset 8"));
    assert!(err.message().contains("outside block frames 0..8"));
}

#[test]
fn vst3_note_off_keeps_its_fields_and_unmapped_ids_pass_through() {
    let params = Vst3ParamMap::identity(&[3, 4]);
    let off: Vst3Event<f32, f64> = Vst3Event::NoteOff {
        sample_offset: 2,
        channel: 0,
        pitch: 64,
        velocity: 0.5,
    };
    assert_eq!(
        off.to_block_event(&params),
        BlockEvent::NoteOff { offset: 2, channel: 0, key: 64, velocity: 0.5 }
    );
    assert_eq!(params.sim_param_for(3), 3);
    assert_eq!(params.sim_param_for(99), 99);
}

#[test]
fn vst3_param_map_insert_then_lookup() {
    let mut params = Vst3ParamMap::new();
    params.insert(10, 1);
    params.insert(11, 2);
    params.insert(10, 5);
    assert_eq!(params.sim_param_for(10), 5);
    assert_eq!(params.sim_param_for(11), 2);
    assert_eq!(params.sim_param_for(12), 12);
}

#[test]
fn hosted_processor_gives_back_its_instance() {
    let mut hosted = HostedPluginProcessor::new(Param { id: 1, stable_id: "a" });
    assert_eq!(hosted.instance().id, 1);
    hosted.instance_mut().id = 9;
    assert_eq!(hosted.into_inner(), Param { id: 9, stable_id: "a" });
    let lv2 = Lv2HostProcessor::new(Param { id: 4, stable_id: "b" });
    assert_eq!(lv2.hosted().instance().id, 4);
}

#[test]
fn capability_sets_grant_and_require() {
    let empty = CapabilitySet::empty();
    assert!(!empty.contains(AudioPluginCapability::WasmPlugin));
    let granted = empty.grant(AudioPluginCapability::WasmPlugin);
    assert!(granted.contains(AudioPluginCapability::WasmPlugin));
    assert!(!granted.contains(AudioPluginCapability::NativePlugin));
    assert!(granted.require(AudioPluginCapability::WasmPlugin).is_ok());
    match granted.require(AudioPluginCapability::NativePlugin) {
        Err(Error::CapabilityDenied { capability }) => {
            assert_eq!(capability, AudioPluginCapability::NativePlugin.as_capability_name());
            assert_eq!(capability.name, "plugin.audio.native");
        }
        other => panic!("unexpected {other:?}"),
    }
    let mut set = CapabilitySet::default();
    set.insert(AudioPluginCapability::NativePlugin);
    assert_eq!(set, CapabilitySet::with(AudioPluginCapability::NativePlugin));
}

#[test]
fn clap_load_denied_without_capability() {
    let spec = PluginLoadSpec::new(PluginFormat::Clap, "fixture://gain".to_string()).unwrap();
    let err = check_clap_load(&CapabilitySet::empty(), &spec)
        .expect_err("load must require native capability");

    assert!(matches!(
        err,
        Error::CapabilityDenied { capability }
            if capability == AudioPluginCapability::NativePlugin.as_capability_name()
    ));
}

#[test]
fn clap_load_rejects_non_clap_specs() {
    let spec = PluginLoadSpec::new(PluginFormat::Wasm, "fixture://gain".to_string()).unwrap();
    let caps = CapabilitySet::with(AudioPluginCapability::NativePlugin);

    assert!(check_clap_load(&caps, &spec).is_err());
}

/// A provider that serves the built-in gain plugin under one URI.
struct GainProvider {
    uri: String,
}

impl Lv2HostProvider for GainProvider {
    type Plugin = PluginDescriptor<Param>;

    fn instantiate(&self, uri: &str) -> Result<Self::Plugin, Error> {
        check_fixture_uri(&self.uri, uri)?;
        lv2_gain_descriptor(Param { id: 2, stable_id: "gain" })
    }
}

#[test]
fn lv2_load_denied_without_capability() {
    let provider = GainProvider { uri: "https://sim.dev/lv2/gain".to_string() };
    let err = load_lv2_plugin(&CapabilitySet::empty(), "https://sim.dev/lv2/gain", &provider)
        .expect_err("load must require native capability");

    assert!(matches!(
        err,
        Error::CapabilityDenied { capability }
            if capability == AudioPluginCapability::NativePlugin.as_capability_name()
    ));
}

#[test]
fn lv2_load_allowed_with_capability() {
    let provider = GainProvider { uri: "https://sim.dev/lv2/gain".to_string() };
    let caps = CapabilitySet::with(AudioPluginCapability::NativePlugin);
    let processor = load_lv2_plugin(&caps, "https://sim.dev/lv2/gain", &provider)
        .expect("native capability allows fixture LV2 load");

    assert_eq!(processor.instance().id.format, PluginFormat::Lv2);
    assert_eq!(processor.instance().id.stable_id, "https://sim.dev/lv2/gain");
}

#[test]
fn lv2_load_rejects_unavailable_uri() {
    let provider = GainProvider { uri: "https://sim.dev/lv2/gain".to_string() };
    let caps = CapabilitySet::with(AudioPluginCapability::NativePlugin);

    let err = load_lv2_plugin(&caps, "urn:missing:lv2", &provider).unwrap_err();
    assert_eq!(
        err,
        Error::Eval("LV2 fixture URI 'urn:missing:lv2' is not available".to_string())
    );
}

#[test]
fn hosting_an_instantiation_error_passes_it_on() {
    let failed: Result<Param, Error> = Err(Error::Eval("boom".to_string()));
    assert_eq!(host_lv2_instance(failed).unwrap_err(), Error::Eval("boom".to_string()));
    let hosted = host_lv2_instance(Ok(Param { id: 5, stable_id: "p" })).unwrap();
    assert_eq!(hosted.instance().id, 5);
}

#[test]
fn descriptor_parameter_finds_the_first_parameter_with_the_id() {
    let descriptor: PluginDescriptor<Param> = PluginDescriptor::audio_effect(
        PluginFormat::Clap,
        "org.sim.gain".to_string(),
        "SIM Gain".to_string(),
        2,
    )
    .unwrap()
    .with_parameter(Param { id: 7, stable_id: "gain" })
    .with_parameter(Param { id: 9, stable_id: "mix" })
    .with_parameter(Param { id: 7, stable_id: "shadow" });
    let ids: Vec<u32> = descriptor.parameters.iter().map(|p| p.id).collect();
    assert_eq!(descriptor.parameter(&ids, 7).unwrap().stable_id, "gain");
    assert_eq!(descriptor.parameter(&ids, 9).unwrap().stable_id, "mix");
    assert!(descriptor.parameter(&ids, 8).is_none());
}

#[test]
fn param_map_after_many_inserts_keeps_the_last_mapping() {
    let mut params = Vst3ParamMap::new();
    assert_eq!(params.sim_param_for(11), 11);
    params.insert(1, 10);
    params.insert(2, 20);
    params.insert(1, 30);
    assert_eq!(params.sim_param_for(1), 30);
    assert_eq!(params.sim_param_for(2), 20);
    assert_eq!(params.sim_param_for(3), 3);
}
