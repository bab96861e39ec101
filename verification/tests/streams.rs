use sim_audio_hosting::alsa::{
    AlsaBackend, AlsaPcmDevice, AlsaPcmName, AlsaPcmNameKind, alsa_audio_backend_candidate,
    alsa_backend_symbol,
};
use sim_audio_hosting::asio::{
    AsioBackend, AsioDriver, AsioTiming, asio_backend_symbol, asio_clock_symbol,
    asio_sdk_build_requirements,
};
use sim_audio_hosting::coreaudio::{
    CoreAudioBackend, CoreAudioDevice, CoreAudioTiming, coreaudio_audio_backend_candidate,
    coreaudio_backend_symbol, coreaudio_clock_symbol, macos_audio_backend_priority,
    macos_midi_backend_priority,
};
use sim_audio_hosting::error::Error;
use sim_audio_hosting::stream_host::{
    HostBackendCapability, HostDirection, HostLatency, HostOpenRequest, PcmSampleFormat,
    direction_compatible, latency_for,
};
use sim_audio_hosting::symbol::Symbol;

fn request(backend: Symbol, device: &str, direction: HostDirection) -> HostOpenRequest {
    HostOpenRequest {
        backend,
        device: Symbol::new(device.to_string()),
        pcm: true,
        direction,
        buffer_capacity: 4,
    }
}

#[test]
fn fake_backend_enumerates_default_hw_and_plughw_pcm_devices() {
    let backend = AlsaBackend::fake();
    let inventory = backend.inventory();

    assert_eq!(inventory.backend, alsa_backend_symbol());
    assert!(inventory.devices.iter().any(|device| {
        device.device == Symbol::new("alsa/default/playback".to_string())
            && device.direction == HostDirection::Output
    }));
    assert!(inventory.devices.iter().any(|device| {
        device.device == Symbol::new("alsa/default/capture".to_string())
            && device.direction == HostDirection::Input
    }));
    assert!(
        inventory
            .devices
            .iter()
            .any(|device| device.device == Symbol::new("alsa/hw:0,0/playback".to_string()))
    );
    assert!(
        inventory
            .devices
            .iter()
            .any(|device| device.device == Symbol::new("alsa/plughw:1,0/capture".to_string()))
    );
}

#[test]
fn backend_opens_default_playback_and_capture_by_backend_id() {
    let backend = AlsaBackend::fake();
    assert_eq!(backend.inventory().devices.len(), 4);

    let playback = backend
        .open(&request(alsa_backend_symbol(), "alsa/default/playback", HostDirection::Output))
        .unwrap();
    assert_eq!(playback.sample_rate_hz, 48_000);
    assert_eq!(playback.clock, Symbol::qualified("clock", "alsa"));
    assert_eq!(playback.backend, alsa_backend_symbol());
    assert!(playback.pcm);
    assert_eq!(playback.buffer_capacity, 4);

    let capture = backend
        .open(&request(alsa_backend_symbol(), "alsa/default/capture", HostDirection::Input))
        .unwrap();
    assert_eq!(capture.device, Symbol::new("alsa/default/capture".to_string()));
}

#[test]
fn default_open_helpers_use_default_pcm_fallbacks() {
    let backend = AlsaBackend::fake();

    assert_eq!(backend.open_default_capture(16).unwrap().buffer_capacity, 16);
    assert_eq!(
        backend.open_default_playback(4).unwrap().device,
        Symbol::new("alsa/default/playback".to_string())
    );
    assert_eq!(
        backend.open_default_capture(4).unwrap().device,
        Symbol::new("alsa/default/capture".to_string())
    );
}

#[test]
fn pcm_name_parser_accepts_documented_alsa_names() {
    let default = AlsaPcmName::parse("default".to_string()).unwrap();
    let hw = AlsaPcmName::parse("hw:2,0".to_string()).unwrap();
    let plughw = AlsaPcmName::parse("plughw:USB".to_string()).unwrap();

    assert_eq!(default.kind(), AlsaPcmNameKind::Default);
    assert_eq!(hw.kind(), AlsaPcmNameKind::Hw);
    assert_eq!(plughw.kind(), AlsaPcmNameKind::PlugHw);
    assert!(AlsaPcmName::parse("pulse".to_string()).is_err());
    assert!(AlsaPcmName::parse("hw:".to_string()).is_err());
}

#[test]
fn explicit_open_rejects_wrong_direction() {
    let backend = AlsaBackend::new(vec![
        AlsaPcmDevice::playback("hw:0,0".to_string(), "Output".to_string(), 2, 48_000).unwrap(),
    ]);
    let request = request(alsa_backend_symbol(), "alsa/hw:0,0/playback", HostDirection::Input);

    assert!(backend.open(&request).is_err());
}

#[test]
fn alsa_open_refuses_other_backends_non_pcm_and_unknown_devices() {
    let backend = AlsaBackend::fake();
    let other = request(Symbol::qualified("stream/host", "jack"), "x", HostDirection::Output);
    assert_eq!(
        backend.open(&other).unwrap_err(),
        Error::Eval("ALSA backend cannot open stream/host/jack requests".to_string())
    );
    let mut midi = request(alsa_backend_symbol(), "alsa/default/playback", HostDirection::Output);
    midi.pcm = false;
    assert_eq!(
        backend.open(&midi).unwrap_err(),
        Error::TypeMismatch {
            expected: "PCM stream request",
            found: "non-PCM stream request"
        }
    );
    let missing = request(alsa_backend_symbol(), "alsa/hw:9,9/playback", HostDirection::Output);
    assert_eq!(
        backend.open(&missing).unwrap_err(),
        Error::Eval("ALSA PCM device alsa/hw:9,9/playback was not found".to_string())
    );
}

#[test]
fn alsa_device_names_and_ports_follow_the_pcm_name() {
    let device = AlsaPcmDevice::capture("plughw:1,0".to_string(), "In".to_string(), 2, 44_100)
        .unwrap()
        .with_buffer_frames(256)
        .unwrap();
    assert_eq!(device.id(), &Symbol::new("alsa/plughw:1,0/capture".to_string()));
    assert_eq!(device.port_symbol(), Symbol::new("alsa/plughw:1,0/capture/port".to_string()));
    assert_eq!(device.buffer_frames(), 256);
    assert_eq!(device.sample_format(), PcmSampleFormat::F32);
    assert!(!device.is_default());
    assert!(device.is_compatible_with(HostDirection::Input));
    assert!(!device.is_compatible_with(HostDirection::Output));
    assert_eq!(alsa_audio_backend_candidate(), "alsa");
}

#[test]
fn fake_backend_enumerates_sim_asio_driver_and_ports() {
    let backend = AsioBackend::fake();
    let inventory = backend.inventory();

    assert_eq!(inventory.backend, asio_backend_symbol());
    assert!(inventory.devices.iter().any(|device| {
        device.device == Symbol::new("asio/SIM-ASIO/driver".to_string())
            && device.direction == HostDirection::Duplex
    }));
    assert!(
        inventory
            .ports
            .iter()
            .any(|port| port.port == Symbol::new("asio/SIM-ASIO/driver/output_0".to_string()))
    );
    assert_eq!(inventory.ports.len(), 4);
}

#[test]
fn fake_backend_capabilities_include_duplex_and_offline() {
    let backend = AsioBackend::fake();
    let capabilities = backend.capabilities();

    assert!(capabilities.contains(&HostBackendCapability::AudioInput));
    assert!(capabilities.contains(&HostBackendCapability::AudioOutput));
    assert!(capabilities.contains(&HostBackendCapability::Duplex));
    assert!(capabilities.contains(&HostBackendCapability::Offline));
    assert!(capabilities.contains(&HostBackendCapability::Fake));
}

#[test]
fn registry_opens_sim_driver_by_backend_id() {
    let backend = AsioBackend::fake();
    let opened = backend
        .open(&request(asio_backend_symbol(), "asio/SIM-ASIO/driver", HostDirection::Duplex))
        .unwrap();

    assert_eq!(opened.clock, asio_clock_symbol());
    assert_eq!(opened.sample_rate_hz, 48_000);
}

#[test]
fn custom_driver_timing_reaches_open_config() {
    let timing = AsioTiming::new(96_000, 64, 32, 96).unwrap();
    let backend = AsioBackend::new(vec![
        AsioDriver::new("Vendor".to_string(), timing, 1, 2).unwrap(),
    ]);
    let opened = backend
        .open(&request(asio_backend_symbol(), "asio/Vendor/driver", HostDirection::Output))
        .unwrap();

    assert_eq!(opened.sample_rate_hz, 96_000);
    assert_eq!(opened.latency.output_frames, 96);
}

#[test]
fn sdk_requirements_document_optional_native_build() {
    let requirements = asio_sdk_build_requirements();

    assert!(requirements.iter().any(|item| item.contains("ASIO SDK")));
    assert!(requirements.iter().any(|item| item.contains("stream-asio")));
}

#[test]
fn asio_open_sim_driver_and_refusals() {
    let backend = AsioBackend::fake();
    let plan = backend.open_sim_driver(4).unwrap();
    assert_eq!(plan.device, Symbol::new("asio/SIM-ASIO/driver".to_string()));
    assert_eq!(plan.direction, HostDirection::Duplex);
    assert_eq!(plan.backend, asio_backend_symbol());
    assert_eq!(plan.buffer_capacity, 4);
    assert!(AsioTiming::new(48_000, 0, 0, 0).is_err());
    assert!(AsioDriver::new("Silent".to_string(), AsioTiming::pro_audio_default(), 0, 0).is_err());
    assert!(AsioBackend::default().open_sim_driver(4).is_err());
}

#[test]
fn fake_backend_enumerates_default_input_and_output() {
    let backend = CoreAudioBackend::fake();
    let inventory = backend.inventory();

    assert_eq!(inventory.backend, coreaudio_backend_symbol());
    assert!(inventory.devices.iter().any(|device| {
        device.device == Symbol::new("coreaudio/default-output".to_string())
            && device.direction == HostDirection::Output
    }));
    assert!(inventory.devices.iter().any(|device| {
        device.device == Symbol::new("coreaudio/default-input".to_string())
            && device.direction == HostDirection::Input
    }));
}

#[test]
fn config_probe_candidate_names_coreaudio_backend() {
    assert_eq!(coreaudio_audio_backend_candidate(), "coreaudio");
    assert_eq!(coreaudio_backend_symbol().name.as_str(), coreaudio_audio_backend_candidate());
}

#[test]
fn registry_opens_default_coreaudio_devices_by_backend_id() {
    let backend = CoreAudioBackend::fake();
    let output = backend
        .open(&request(
            coreaudio_backend_symbol(),
            "coreaudio/default-output",
            HostDirection::Output,
        ))
        .unwrap();

    assert_eq!(output.clock, coreaudio_clock_symbol());
    assert_eq!(output.sample_rate_hz, 48_000);
}

#[test]
fn custom_device_timing_reaches_open_config() {
    let timing = CoreAudioTiming::new(44_100, 64, 24, 32).unwrap();
    let backend = CoreAudioBackend::new(vec![
        CoreAudioDevice::output(
            "coreaudio/vendor/out".to_string(),
            "Vendor Out".to_string(),
            2,
            timing,
        )
        .unwrap(),
    ]);
    let opened = backend
        .open(&request(coreaudio_backend_symbol(), "coreaudio/vendor/out", HostDirection::Output))
        .unwrap();

    assert_eq!(opened.sample_rate_hz, 44_100);
    assert_eq!(opened.latency.output_frames, 32);
}

#[test]
fn macos_priorities_keep_portable_audio_and_rtmidi_first() {
    let audio = macos_audio_backend_priority();
    let midi = macos_midi_backend_priority();

    assert_eq!(audio[0], Symbol::qualified("stream/host", "portaudio"));
    assert_eq!(audio[2], coreaudio_backend_symbol());
    assert_eq!(midi[0], Symbol::qualified("stream/host", "rtmidi"));
}

#[test]
fn coreaudio_default_helpers_open_default_devices() {
    let backend = CoreAudioBackend::fake();
    assert_eq!(
        backend.open_default_output(4).unwrap().device,
        Symbol::new("coreaudio/default-output".to_string())
    );
    assert_eq!(
        backend.open_default_input(4).unwrap().device,
        Symbol::new("coreaudio/default-input".to_string())
    );
    assert!(CoreAudioBackend::default().open_default_output(4).is_err());
}

#[test]
fn directions_and_latencies() {
    assert!(direction_compatible(HostDirection::Duplex, HostDirection::Input));
    assert!(direction_compatible(HostDirection::Output, HostDirection::Output));
    assert!(!direction_compatible(HostDirection::Output, HostDirection::Input));
    assert_eq!(
        latency_for(HostDirection::Input, 64, 128),
        HostLatency { input_frames: 64, output_frames: 0 }
    );
    assert_eq!(
        latency_for(HostDirection::Duplex, 64, 128),
        HostLatency { input_frames: 64, output_frames: 128 }
    );
}
