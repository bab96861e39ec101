//! WebAssembly plugin resource limits, the host checks on a plugin's audio
//! manifest, and the extension-based routing of plugin loads.
use vstd::prelude::*;
use vstd::string::StringExecFns;
use crate::descriptor::{PluginDescriptor, PluginId, PortDecl, port_value, port_values};
use crate::error::Error;
use crate::text::{
    ascii_lower, ascii_lower_eq, ascii_lowercase, ascii_lower_text, decimal, decimal_text,
    is_blank_text,
};
use crate::wire::{PluginFormat, PortDir, PortMedia};
use crate::wasm_host::audio_channels_in;

verus! {

/// Resource limits applied to every WebAssembly plugin instance.
#[derive(Clone, Copy, Debug, PartialEq, Eq, Structural)]
pub struct WasmResourceLimits {
    /// Wasmtime fuel units available for each audio process call.
    pub fuel_per_process: u64,
    /// Maximum number of 64 KiB linear-memory pages per instance.
    pub max_memory_pages: u32,
}

/// The size of one WebAssembly linear-memory page in bytes.
pub const WASM_PAGE_BYTES: usize = 65536;

/// The strict profile: 1,000,000 fuel units and 16 pages.
pub open spec fn strict_limits() -> WasmResourceLimits {
    WasmResourceLimits { fuel_per_process: 1_000_000, max_memory_pages: 16 }
}

/// The default profile: 10,000,000 fuel units and 64 pages.
pub open spec fn default_limits() -> WasmResourceLimits {
    WasmResourceLimits { fuel_per_process: 10_000_000, max_memory_pages: 64 }
}

/// The permissive profile: 100,000,000 fuel units and 256 pages.
pub open spec fn permissive_limits() -> WasmResourceLimits {
    WasmResourceLimits { fuel_per_process: 100_000_000, max_memory_pages: 256 }
}

impl WasmResourceLimits {
    /// Returns a tighter profile for tests and low-trust plugin loads.
    pub fn strict() -> (res: WasmResourceLimits)
        ensures
            res == strict_limits(),
    {
        WasmResourceLimits { fuel_per_process: 1_000_000, max_memory_pages: 16 }
    }

    /// Returns a roomier profile for trusted local plugin development.
    pub fn permissive() -> (res: WasmResourceLimits)
        ensures
            res == permissive_limits(),
    {
        WasmResourceLimits { fuel_per_process: 100_000_000, max_memory_pages: 256 }
    }

    /// Returns the maximum memory size in bytes: 64 KiB per page.
    pub fn max_memory_bytes(self) -> (res: usize)
        requires
            self.max_memory_pages as int * 65536 <= usize::MAX,
        ensures
            res == self.max_memory_pages as int * 65536,
    {
        self.max_memory_pages as usize * 64 * 1024
    }
}

impl Default for WasmResourceLimits {
    fn default() -> (res: WasmResourceLimits)
        ensures
            res == default_limits(),
    {
        WasmResourceLimits { fuel_per_process: 10_000_000, max_memory_pages: 64 }
    }
}

/// The three built-in profiles are ordered: strict below the default below
/// permissive, in both fuel and memory, and even the permissive memory cap
/// fits a 32-bit byte count.
pub proof fn lemma_limit_profiles_ordered()
    ensures
        strict_limits().fuel_per_process < default_limits().fuel_per_process
            < permissive_limits().fuel_per_process,
        strict_limits().max_memory_pages < default_limits().max_memory_pages
            < permissive_limits().max_memory_pages,
        permissive_limits().max_memory_pages as int * 65536 <= u32::MAX,
{
}

/// Host ceiling on the audio channel count a plugin manifest may declare.
///
/// The manifest is guest-supplied; the host sizes per-channel buffers from
/// it, so the cap is checked before any host buffer is allocated.
pub const MAX_PLUGIN_CHANNELS: u16 = 512;

/// The message a channel count over the host ceiling is refused with.
pub open spec fn channel_cap_refusal(which: Seq<char>, channels: u16) -> Seq<char> {
    "wasm plugin declares "@ + decimal_text(channels as nat) + " "@ + which
        + " channels, exceeding the host maximum of 512"@
}

/// Refuses a declared channel count above the host ceiling.
pub fn check_plugin_channels(which: &str, channels: u16) -> (res: Result<(), Error>)
    ensures
        res is Ok <==> channels <= MAX_PLUGIN_CHANNELS,
        res matches Err(e) ==> e is Eval && e->Eval_0@ == channel_cap_refusal(which@, channels),
{
    if channels > MAX_PLUGIN_CHANNELS {
        let message = String::from_str("wasm plugin declares ").concat(
            decimal(channels as u64).as_str(),
        ).concat(" ").concat(which).concat(" channels, exceeding the host maximum of 512");
        return Err(Error::Eval(message));
    }
    Ok(())
}

/// The audio ports a manifest declares: an input port and an output port,
/// each present only when its channel count is not zero.
pub open spec fn manifest_ports(audio_in: u16, audio_out: u16) -> Seq<
    (Seq<char>, PortMedia, PortDir, u16),
> {
    (if audio_in > 0 {
        seq![("audio-in"@, PortMedia::Audio, PortDir::In, audio_in)]
    } else {
        Seq::empty()
    }) + (if audio_out > 0 {
        seq![("audio-out"@, PortMedia::Audio, PortDir::Out, audio_out)]
    } else {
        Seq::empty()
    })
}

/// The ports a manifest's descriptor declares carry exactly its channels:
/// all are audio ports, the input ports sum to the declared inputs and the
/// output ports to the declared outputs, which is what a host sizes its
/// lanes from.
pub proof fn lemma_manifest_ports_carry_declared_channels(
    ports: Seq<PortDecl>,
    audio_in: u16,
    audio_out: u16,
)
    requires
        port_values(ports) == manifest_ports(audio_in, audio_out),
    ensures
        audio_channels_in(ports, PortDir::In) == audio_in,
        audio_channels_in(ports, PortDir::Out) == audio_out,
        forall|i: int| 0 <= i < ports.len() ==> (#[trigger] ports[i]).media == PortMedia::Audio,
{
    let m = manifest_ports(audio_in, audio_out);
    assert(ports.len() == m.len());
    assert forall|i: int| 0 <= i < ports.len() implies port_value(#[trigger] ports[i]) == m[i] by {
        assert(port_values(ports)[i] == port_value(ports[i]));
    }
    reveal_with_fuel(audio_channels_in, 3);
    if ports.len() == 2 {
        assert(ports.drop_last().len() == 1);
        assert(ports.drop_last().last() == ports[0]);
        assert(ports.drop_last().drop_last().len() == 0);
    } else if ports.len() == 1 {
        assert(ports.drop_last().len() == 0);
    }
}

/// The manifests a descriptor can be built from.
pub open spec fn manifest_accepted(
    stable_id: Seq<char>,
    name: Seq<char>,
    audio_in: u16,
    audio_out: u16,
) -> bool {
    audio_in <= MAX_PLUGIN_CHANNELS && audio_out <= MAX_PLUGIN_CHANNELS && !is_blank_text(
        stable_id,
    ) && !is_blank_text(name)
}

/// The message a manifest is refused with.
pub open spec fn manifest_refusal(
    stable_id: Seq<char>,
    audio_in: u16,
    audio_out: u16,
) -> Seq<char> {
    if audio_in > MAX_PLUGIN_CHANNELS {
        channel_cap_refusal("input"@, audio_in)
    } else if audio_out > MAX_PLUGIN_CHANNELS {
        channel_cap_refusal("output"@, audio_out)
    } else if is_blank_text(stable_id) {
        "plugin stable id cannot be empty"@
    } else {
        "plugin name cannot be empty"@
    }
}

/// Builds the descriptor of a WebAssembly plugin from the identity and
/// channel counts of its audio manifest: format `wasm`, version `0.1.0`,
/// and an audio port per direction that has channels. The manifest's
/// parameters are appended by the embedding host.
pub fn descriptor_from_manifest<P>(
    stable_id: &str,
    name: &str,
    vendor: &str,
    audio_in_channels: u16,
    audio_out_channels: u16,
) -> (res: Result<PluginDescriptor<P>, Error>)
    ensures
        res is Ok <==> manifest_accepted(stable_id@, name@, audio_in_channels, audio_out_channels),
        res matches Ok(d) ==> d.id.format == PluginFormat::Wasm && d.id.stable_id@ == stable_id@
            && d.name@ == name@ && d.vendor@ == vendor@ && d.version@ == "0.1.0"@
            && port_values(d.ports@) == manifest_ports(audio_in_channels, audio_out_channels)
            && d.parameters@.len() == 0 && d.latency_frames == 0,
        res matches Err(e) ==> e is Eval && e->Eval_0@ == manifest_refusal(
            stable_id@,
            audio_in_channels,
            audio_out_channels,
        ),
{
    match check_plugin_channels("input", audio_in_channels) {
        Ok(()) => {},
        Err(e) => return Err(e),
    }
    match check_plugin_channels("output", audio_out_channels) {
        Ok(()) => {},
        Err(e) => return Err(e),
    }
    let id = match PluginId::new(PluginFormat::Wasm, String::from_str(stable_id)) {
        Ok(id) => id,
        Err(e) => return Err(e),
    };
    let mut descriptor: PluginDescriptor<P> = match PluginDescriptor::new(
        id,
        String::from_str(name),
        String::from_str(vendor),
        String::from_str("0.1.0"),
    ) {
        Ok(d) => d,
        Err(e) => return Err(e),
    };
    if audio_in_channels > 0 {
        descriptor.ports.push(
            PortDecl::named("audio-in", PortMedia::Audio, PortDir::In, audio_in_channels),
        );
    }
    if audio_out_channels > 0 {
        descriptor.ports.push(
            PortDecl::named("audio-out", PortMedia::Audio, PortDir::Out, audio_out_channels),
        );
    }
    assert(port_values(descriptor.ports@) =~= manifest_ports(
        audio_in_channels,
        audio_out_channels,
    ));
    Ok(descriptor)
}

/// Returns the stable id and display name of manifest parameter `id`:
/// `param-<id>` and `Param <id>`.
pub fn manifest_parameter_names(id: u32) -> (res: (String, String))
    ensures
        res.0@ == "param-"@ + decimal_text(id as nat),
        res.1@ == "Param "@ + decimal_text(id as nat),
{
    let digits = decimal(id as u64);
    (
        String::from_str("param-").concat(digits.as_str()),
        String::from_str("Param ").concat(digits.as_str()),
    )
}

/// The loader a plugin path is routed to.
#[derive(Clone, Copy, Debug, PartialEq, Eq, Structural)]
pub enum PluginRoute {
    /// The WebAssembly loader (`.wasm`).
    Wasm,
    /// The CLAP provider (`.clap`).
    Clap,
    /// The LV2 provider (`.lv2`).
    Lv2,
}

/// The text of an optional borrowed text.
pub open spec fn str_option_text(o: Option<&str>) -> Option<Seq<char>> {
    match o {
        Some(s) => Some(s@),
        None => None,
    }
}

/// The text of an optional owned text.
pub open spec fn string_option_text(o: Option<String>) -> Option<Seq<char>> {
    match o {
        Some(s) => Some(s@),
        None => None,
    }
}

/// The route a lowercased file extension selects, if any.
pub open spec fn route_of_extension(extension: Option<Seq<char>>) -> Option<PluginRoute> {
    match extension {
        Some(ext) => {
            let lower = ascii_lower_text(ext);
            if lower == "wasm"@ {
                Some(PluginRoute::Wasm)
            } else if lower == "clap"@ {
                Some(PluginRoute::Clap)
            } else if lower == "lv2"@ {
                Some(PluginRoute::Lv2)
            } else {
                None
            }
        },
        None => None,
    }
}

/// Lower-casing an ASCII letter twice is lower-casing it once.
proof fn lemma_ascii_lower_idempotent(c: char)
    ensures
        ascii_lower(ascii_lower(c)) == ascii_lower(c),
{
    if 'A' <= c && c <= 'Z' {
        let u = c as u8;
        assert(65 <= u <= 90);
        assert(97 <= ((u + 32) as u8) <= 122);
    }
}

/// The route of an extension depends only on its ASCII lower-casing, so
/// every case variant of a known extension selects the same loader: an
/// extension routes to wasm, CLAP or LV2 exactly when its lower-casing is
/// `wasm`, `clap` or `lv2`.
pub proof fn lemma_route_ignores_ascii_case(ext: Seq<char>)
    ensures
        route_of_extension(Some(ext)) == route_of_extension(Some(ascii_lower_text(ext))),
        (route_of_extension(Some(ext)) == Some(PluginRoute::Wasm)) <==> ascii_lower_text(ext)
            == "wasm"@,
        (route_of_extension(Some(ext)) == Some(PluginRoute::Clap)) <==> ascii_lower_text(ext)
            == "clap"@,
        (route_of_extension(Some(ext)) == Some(PluginRoute::Lv2)) <==> ascii_lower_text(ext)
            == "lv2"@,
{
    assert forall|i: int| 0 <= i < ext.len() implies #[trigger] ascii_lower_text(
        ascii_lower_text(ext),
    )[i] == ascii_lower_text(ext)[i] by {
        lemma_ascii_lower_idempotent(ext[i]);
    }
    assert(ascii_lower_text(ascii_lower_text(ext)) =~= ascii_lower_text(ext));
    reveal_strlit("wasm");
    reveal_strlit("clap");
    reveal_strlit("lv2");
    assert("clap"@[0] != "wasm"@[0]);
    assert("lv2"@.len() != "wasm"@.len() && "lv2"@.len() != "clap"@.len());
}

/// The message a path with an unrecognised extension is refused with.
pub open spec fn unrecognised_extension_message(extension: Option<Seq<char>>) -> Seq<char> {
    match extension {
        Some(ext) => "unrecognised plugin extension Some("@ + debug_text_of(ascii_lower_text(ext))
            + "); expected .wasm, .clap, or .lv2"@,
        None => "unrecognised plugin extension None; expected .wasm, .clap, or .lv2"@,
    }
}

/// Selects the loader for a file extension, compared case-insensitively.
pub fn route_for_extension(extension: Option<&str>) -> (res: Result<PluginRoute, Error>)
    ensures
        route_of_extension(str_option_text(extension)) matches Some(r) ==> res == Ok::<
            PluginRoute,
            Error,
        >(r),
        route_of_extension(str_option_text(extension)) is None ==> (res matches Err(e) && e is Eval
            && e->Eval_0@ == unrecognised_extension_message(str_option_text(extension))),
{
    match extension {
        Some(ext) => {
            if ascii_lower_eq(ext, "wasm") {
                Ok(PluginRoute::Wasm)
            } else if ascii_lower_eq(ext, "clap") {
                Ok(PluginRoute::Clap)
            } else if ascii_lower_eq(ext, "lv2") {
                Ok(PluginRoute::Lv2)
            } else {
                let shown = debug_text(ascii_lowercase(ext).as_str());
                Err(
                    Error::eval3(
                        "unrecognised plugin extension Some(",
                        shown.as_str(),
                        "); expected .wasm, .clap, or .lv2",
                    ),
                )
            }
        },
        None => Err(
            Error::eval("unrecognised plugin extension None; expected .wasm, .clap, or .lv2"),
        ),
    }
}

/// The `{:?}` rendering of a text: quoted, with escapes.
pub uninterp spec fn debug_text_of(s: Seq<char>) -> Seq<char>;

/// Renders `s` as `format!("{:?}", s)` does.
///
/// Trusted: the result is the `Debug` rendering of the text, named
/// `debug_text_of`; nothing else is claimed of it.
#[verifier::external_body]
fn debug_text(s: &str) -> (res: String)
    ensures
        res@ == debug_text_of(s@),
{
    format!("{:?}", s)
}

/// The file extension of a path, as `std::path::Path::extension` reads it.
pub uninterp spec fn path_extension_of(path: Seq<char>) -> Option<Seq<char>>;

/// Reads the file extension of `path` with `std::path::Path::extension`.
///
/// Trusted: the result is whatever `Path::extension` yields for the path
/// text, named `path_extension_of`; nothing else is claimed of it.
#[verifier::external_body]
fn path_extension(path: &str) -> (res: Option<String>)
    ensures
        string_option_text(res) == path_extension_of(path@),
{
    match std::path::Path::new(path).extension() {
        Some(ext) => Some(ext.to_string_lossy().into_owned()),
        None => None,
    }
}

/// Dispatches plugin load requests to the wasm, CLAP, or LV2 loader.
#[derive(Clone, Copy, Debug, PartialEq, Eq, Structural)]
pub struct PluginRouter {
    limits: WasmResourceLimits,
}

/// Configures native provider overrides for a plugin router.
#[derive(Clone, Copy, Debug, PartialEq, Eq, Structural)]
pub struct PluginRouterBuilder {
    limits: WasmResourceLimits,
}

impl PluginRouterBuilder {
    /// The resource limits the router will apply to wasm loads.
    pub closed spec fn spec_limits(&self) -> WasmResourceLimits {
        self.limits
    }

    /// Builds a router configuration with the given wasm resource limits.
    pub fn new(limits: WasmResourceLimits) -> (res: PluginRouterBuilder)
        ensures
            res.spec_limits() == limits,
    {
        PluginRouterBuilder { limits }
    }

    /// Finishes router construction.
    pub fn build(self) -> (res: PluginRouter)
        ensures
            res.spec_limits() == self.spec_limits(),
    {
        PluginRouter { limits: self.limits }
    }
}

impl PluginRouter {
    /// The resource limits applied to wasm loads.
    pub closed spec fn spec_limits(&self) -> WasmResourceLimits {
        self.limits
    }

    /// Builds a router with default wasm loading and no native provider
    /// overrides.
    pub fn new(limits: WasmResourceLimits) -> (res: PluginRouter)
        ensures
            res.spec_limits() == limits,
    {
        PluginRouterBuilder::new(limits).build()
    }

    /// Starts configuring a plugin router.
    pub fn builder(limits: WasmResourceLimits) -> (res: PluginRouterBuilder)
        ensures
            res.spec_limits() == limits,
    {
        PluginRouterBuilder::new(limits)
    }

    /// Returns the resource limits applied to wasm loads.
    pub fn limits(&self) -> (res: WasmResourceLimits)
        ensures
            res == self.spec_limits(),
    {
        self.limits
    }

    /// Selects the loader for `path` by its extension, compared
    /// case-insensitively: `.wasm`, `.clap` or `.lv2`.
    pub fn route(&self, path: &str) -> (res: Result<PluginRoute, Error>)
        ensures
            route_of_extension(path_extension_of(path@)) matches Some(r) ==> res == Ok::<
                PluginRoute,
                Error,
            >(r),
            route_of_extension(path_extension_of(path@)) is None ==> (res matches Err(e)
                && e is Eval && e->Eval_0@ == unrecognised_extension_message(
                path_extension_of(path@),
            )),
    {
        let extension = path_extension(path);
        match &extension {
            Some(ext) => {
                let text = ext.as_str();
                assert(str_option_text(Some(text)) == path_extension_of(path@));
                route_for_extension(Some(text))
            },
            None => route_for_extension(None),
        }
    }
}

} // verus!
