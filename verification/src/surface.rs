//! The descriptor cards each lib publishes to the runtime: a pack of
//! values, one per exported symbol, each a list of keyed fields.
use vstd::prelude::*;
use vstd::string::StringExecFns;
use crate::alsa::{alsa_backend_symbol, alsa_backend_value, alsa_transport_symbol};
use crate::asio::{
    asio_backend_symbol, asio_backend_value, asio_sdk_build_requirements, asio_transport_symbol,
};
use crate::coreaudio::{
    coreaudio_backend_symbol, coreaudio_backend_value, coreaudio_transport_symbol,
    macos_audio_backend_priority, macos_midi_backend_priority,
};
use crate::symbol::{Symbol, symbol_value};
use crate::text::text_eq;

verus! {

/// One field of a published card.
#[derive(Clone, Debug)]
pub enum SurfaceField {
    /// A symbol.
    Symbol(Symbol),
    /// A text.
    Str(String),
    /// A list of texts.
    Strs(Vec<String>),
    /// A list of symbols.
    Symbols(Vec<Symbol>),
}

/// The card published for one exported symbol.
#[derive(Clone, Debug)]
pub struct SurfaceValueSpec {
    /// The exported symbol the card describes.
    pub symbol: Symbol,
    /// The card's fields, keyed by unqualified symbols, in order.
    pub fields: Vec<(Symbol, SurfaceField)>,
}

/// The cards one lib publishes.
#[derive(Clone, Debug)]
pub struct SurfacePackSpec {
    /// The lib's identity.
    pub lib_id: Symbol,
    /// One card per exported symbol, in export order.
    pub values: Vec<SurfaceValueSpec>,
}

/// The texts of a list of strings.
pub open spec fn texts_of(v: Seq<String>) -> Seq<Seq<char>> {
    v.map_values(|s: String| s@)
}

/// The values of a list of symbols.
pub open spec fn symbol_values(v: Seq<Symbol>) -> Seq<(Option<Seq<char>>, Seq<char>)> {
    v.map_values(|s: Symbol| symbol_value(s))
}

/// The entry's key is the unqualified symbol `key`.
pub open spec fn entry_keyed(entry: (Symbol, SurfaceField), key: Seq<char>) -> bool {
    symbol_value(entry.0) == (None::<Seq<char>>, key)
}

/// The entry is `key` holding the symbol `value`.
pub open spec fn entry_holds_symbol(
    entry: (Symbol, SurfaceField),
    key: Seq<char>,
    value: (Option<Seq<char>>, Seq<char>),
) -> bool {
    entry_keyed(entry, key) && (entry.1 matches SurfaceField::Symbol(s) && symbol_value(s) == value)
}

/// The entry is `key` holding the text `text`.
pub open spec fn entry_holds_text(entry: (Symbol, SurfaceField), key: Seq<char>, text: Seq<char>) -> bool {
    entry_keyed(entry, key) && (entry.1 matches SurfaceField::Str(s) && s@ == text)
}

/// The entry is `key` holding the texts `texts`.
pub open spec fn entry_holds_texts(
    entry: (Symbol, SurfaceField),
    key: Seq<char>,
    texts: Seq<Seq<char>>,
) -> bool {
    entry_keyed(entry, key) && (entry.1 matches SurfaceField::Strs(v) && texts_of(v@) == texts)
}

/// The entry is `key` holding the symbols `values`.
pub open spec fn entry_holds_symbols(
    entry: (Symbol, SurfaceField),
    key: Seq<char>,
    values: Seq<(Option<Seq<char>>, Seq<char>)>,
) -> bool {
    entry_keyed(entry, key) && (entry.1 matches SurfaceField::Symbols(v) && symbol_values(v@)
        == values)
}

/// A card of the uniform shape the plugin libs publish: the symbol, then
/// the layer, kind and role texts.
pub open spec fn is_uniform_card(
    card: SurfaceValueSpec,
    symbol: (Option<Seq<char>>, Seq<char>),
    layer: Seq<char>,
    kind: Seq<char>,
    role: Seq<char>,
) -> bool {
    &&& symbol_value(card.symbol) == symbol
    &&& card.fields@.len() == 4
    &&& entry_holds_symbol(card.fields@[0], "symbol"@, symbol)
    &&& entry_holds_text(card.fields@[1], "layer"@, layer)
    &&& entry_holds_text(card.fields@[2], "kind"@, kind)
    &&& entry_holds_text(card.fields@[3], "role"@, role)
}

/// Builds the entry `key` holding `symbol`.
pub fn symbol_entry(key: &str, symbol: Symbol) -> (res: (Symbol, SurfaceField))
    ensures
        entry_holds_symbol(res, key@, symbol_value(symbol)),
{
    (Symbol::named(key), SurfaceField::Symbol(symbol))
}

/// Builds the entry `key` holding `text`.
pub fn text_entry(key: &str, text: &str) -> (res: (Symbol, SurfaceField))
    ensures
        entry_holds_text(res, key@, text@),
{
    (Symbol::named(key), SurfaceField::Str(String::from_str(text)))
}

/// Builds the entry `key` holding the texts `texts`.
pub fn texts_entry(key: &str, texts: Vec<String>) -> (res: (Symbol, SurfaceField))
    ensures
        entry_holds_texts(res, key@, texts_of(texts@)),
{
    (Symbol::named(key), SurfaceField::Strs(texts))
}

/// Builds the entry `key` holding the symbols `symbols`.
pub fn symbols_entry(key: &str, symbols: Vec<Symbol>) -> (res: (Symbol, SurfaceField))
    ensures
        entry_holds_symbols(res, key@, symbol_values(symbols@)),
{
    (Symbol::named(key), SurfaceField::Symbols(symbols))
}

/// Builds a card of the uniform plugin-lib shape.
pub fn uniform_card(symbol: Symbol, layer: &str, kind: &str, role: &str) -> (res: SurfaceValueSpec)
    ensures
        is_uniform_card(res, symbol_value(symbol), layer@, kind@, role@),
{
    let mut fields: Vec<(Symbol, SurfaceField)> = Vec::new();
    fields.push(symbol_entry("symbol", symbol.clone()));
    fields.push(text_entry("layer", layer));
    fields.push(text_entry("kind", kind));
    fields.push(text_entry("role", role));
    SurfaceValueSpec { symbol, fields }
}

/// The pack publishes, for each exported symbol in order, the uniform card
/// with the given layer, kind and role.
pub open spec fn is_uniform_pack(
    pack: SurfacePackSpec,
    lib_id: Seq<char>,
    symbols: Seq<(Option<Seq<char>>, Seq<char>)>,
    layer: Seq<char>,
    kind: Seq<char>,
    role: Seq<char>,
) -> bool {
    &&& symbol_value(pack.lib_id) == (None::<Seq<char>>, lib_id)
    &&& pack.values@.len() == symbols.len()
    &&& forall|i: int|
        0 <= i < symbols.len() ==> is_uniform_card(
            #[trigger] pack.values@[i],
            symbols[i],
            layer,
            kind,
            role,
        )
}

/// Builds the pack of uniform cards for `symbols`.
pub fn uniform_pack(lib_id: &str, symbols: Vec<Symbol>, kind: &str, role: &str) -> (res:
    SurfacePackSpec)
    ensures
        is_uniform_pack(res, lib_id@, symbol_values(symbols@), lib_id@, kind@, role@),
{
    let mut values: Vec<SurfaceValueSpec> = Vec::new();
    let mut i: usize = 0;
    while i < symbols.len()
        invariant
            i <= symbols@.len(),
            values@.len() == i,
            forall|j: int|
                0 <= j < i ==> is_uniform_card(
                    #[trigger] values@[j],
                    symbol_value(symbols@[j]),
                    lib_id@,
                    kind@,
                    role@,
                ),
        decreases symbols@.len() - i,
    {
        values.push(uniform_card(symbols[i].clone(), lib_id, kind, role));
        i = i + 1;
    }
    SurfacePackSpec { lib_id: Symbol::named(lib_id), values }
}

/// The values of the symbols `lib/name` for each name of `names`.
pub open spec fn qualified_values(lib: Seq<char>, names: Seq<Seq<char>>) -> Seq<
    (Option<Seq<char>>, Seq<char>),
> {
    names.map_values(|n: Seq<char>| (Some(lib), n))
}

/// Returns the qualified export symbols the plugin-core lib publishes.
pub fn plugin_core_symbols() -> (res: Vec<Symbol>)
    ensures
        symbol_values(res@) == qualified_values(
            "plugin-core"@,
            seq![
                "PluginDescriptor"@,
                "ParameterDescriptor"@,
                "PluginState"@,
                "HostedPluginProcessor"@,
                "ProcessorPlugin"@,
            ],
        ),
{
    let mut res: Vec<Symbol> = Vec::new();
    res.push(Symbol::qualified("plugin-core", "PluginDescriptor"));
    res.push(Symbol::qualified("plugin-core", "ParameterDescriptor"));
    res.push(Symbol::qualified("plugin-core", "PluginState"));
    res.push(Symbol::qualified("plugin-core", "HostedPluginProcessor"));
    res.push(Symbol::qualified("plugin-core", "ProcessorPlugin"));
    assert(symbol_values(res@) =~= qualified_values(
        "plugin-core"@,
        seq![
            "PluginDescriptor"@,
            "ParameterDescriptor"@,
            "PluginState"@,
            "HostedPluginProcessor"@,
            "ProcessorPlugin"@,
        ],
    ));
    res
}

/// The plugin-core pack: one uniform descriptor card per export symbol.
pub fn plugin_core_pack() -> (res: SurfacePackSpec)
    ensures
        is_uniform_pack(
            res,
            "plugin-core"@,
            qualified_values(
                "plugin-core"@,
                seq![
                    "PluginDescriptor"@,
                    "ParameterDescriptor"@,
                    "PluginState"@,
                    "HostedPluginProcessor"@,
                    "ProcessorPlugin"@,
                ],
            ),
            "plugin-core"@,
            "plugin-descriptor"@,
            "common plugin descriptor and adapter surface"@,
        ),
{
    uniform_pack(
        "plugin-core",
        plugin_core_symbols(),
        "plugin-descriptor",
        "common plugin descriptor and adapter surface",
    )
}

/// Returns the qualified symbol for each `plugin-lv2` runtime export.
pub fn lv2_plugin_symbols() -> (res: Vec<Symbol>)
    ensures
        symbol_values(res@) == qualified_values(
            "plugin-lv2"@,
            seq![
                "Lv2Port"@,
                "Lv2PluginDescriptor"@,
                "Lv2StatePatch"@,
                "Lv2HostProcessor"@,
                "Lv2ExportedProcessor"@,
                "Lv2GainFixture"@,
            ],
        ),
{
    let mut res: Vec<Symbol> = Vec::new();
    res.push(Symbol::qualified("plugin-lv2", "Lv2Port"));
    res.push(Symbol::qualified("plugin-lv2", "Lv2PluginDescriptor"));
    res.push(Symbol::qualified("plugin-lv2", "Lv2StatePatch"));
    res.push(Symbol::qualified("plugin-lv2", "Lv2HostProcessor"));
    res.push(Symbol::qualified("plugin-lv2", "Lv2ExportedProcessor"));
    res.push(Symbol::qualified("plugin-lv2", "Lv2GainFixture"));
    assert(symbol_values(res@) =~= qualified_values(
        "plugin-lv2"@,
        seq![
            "Lv2Port"@,
            "Lv2PluginDescriptor"@,
            "Lv2StatePatch"@,
            "Lv2HostProcessor"@,
            "Lv2ExportedProcessor"@,
            "Lv2GainFixture"@,
        ],
    ));
    res
}

/// The plugin-lv2 pack: one uniform adapter card per export symbol.
pub fn lv2_plugin_pack() -> (res: SurfacePackSpec)
    ensures
        is_uniform_pack(
            res,
            "plugin-lv2"@,
            qualified_values(
                "plugin-lv2"@,
                seq![
                    "Lv2Port"@,
                    "Lv2PluginDescriptor"@,
                    "Lv2StatePatch"@,
                    "Lv2HostProcessor"@,
                    "Lv2ExportedProcessor"@,
                    "Lv2GainFixture"@,
                ],
            ),
            "plugin-lv2"@,
            "lv2-plugin-adapter"@,
            "LV2-shaped host and export adapter"@,
        ),
{
    uniform_pack(
        "plugin-lv2",
        lv2_plugin_symbols(),
        "lv2-plugin-adapter",
        "LV2-shaped host and export adapter",
    )
}

/// Returns the qualified symbols the VST3 lib exports, one per adapter
/// card.
pub fn vst3_plugin_symbols() -> (res: Vec<Symbol>)
    ensures
        symbol_values(res@) == qualified_values(
            "plugin-vst3"@,
            seq![
                "Vst3PluginDescriptor"@,
                "Vst3ParamInfo"@,
                "Vst3Event"@,
                "Vst3ParamMap"@,
                "Vst3ExportedProcessor"@,
                "Vst3GainFixture"@,
                "Vst3ScopeDecision"@,
            ],
        ),
{
    let mut res: Vec<Symbol> = Vec::new();
    res.push(Symbol::qualified("plugin-vst3", "Vst3PluginDescriptor"));
    res.push(Symbol::qualified("plugin-vst3", "Vst3ParamInfo"));
    res.push(Symbol::qualified("plugin-vst3", "Vst3Event"));
    res.push(Symbol::qualified("plugin-vst3", "Vst3ParamMap"));
    res.push(Symbol::qualified("plugin-vst3", "Vst3ExportedProcessor"));
    res.push(Symbol::qualified("plugin-vst3", "Vst3GainFixture"));
    res.push(Symbol::qualified("plugin-vst3", "Vst3ScopeDecision"));
    assert(symbol_values(res@) =~= qualified_values(
        "plugin-vst3"@,
        seq![
            "Vst3PluginDescriptor"@,
            "Vst3ParamInfo"@,
            "Vst3Event"@,
            "Vst3ParamMap"@,
            "Vst3ExportedProcessor"@,
            "Vst3GainFixture"@,
            "Vst3ScopeDecision"@,
        ],
    ));
    res
}

/// The plugin-vst3 pack: one uniform adapter card per export symbol.
pub fn vst3_plugin_pack() -> (res: SurfacePackSpec)
    ensures
        is_uniform_pack(
            res,
            "plugin-vst3"@,
            qualified_values(
                "plugin-vst3"@,
                seq![
                    "Vst3PluginDescriptor"@,
                    "Vst3ParamInfo"@,
                    "Vst3Event"@,
                    "Vst3ParamMap"@,
                    "Vst3ExportedProcessor"@,
                    "Vst3GainFixture"@,
                    "Vst3ScopeDecision"@,
                ],
            ),
            "plugin-vst3"@,
            "vst3-plugin-adapter"@,
            "VST3-shaped export adapter and SDK scope record"@,
        ),
{
    uniform_pack(
        "plugin-vst3",
        vst3_plugin_symbols(),
        "vst3-plugin-adapter",
        "VST3-shaped export adapter and SDK scope record",
    )
}

/// The host-registered lib that publishes the VST3 adapter cards.
pub struct Vst3PluginLib;

impl Vst3PluginLib {
    /// The cards this lib publishes.
    pub fn pack(&self) -> (res: SurfacePackSpec)
        ensures
            is_uniform_pack(
                res,
                "plugin-vst3"@,
                qualified_values(
                    "plugin-vst3"@,
                    seq![
                        "Vst3PluginDescriptor"@,
                        "Vst3ParamInfo"@,
                        "Vst3Event"@,
                        "Vst3ParamMap"@,
                        "Vst3ExportedProcessor"@,
                        "Vst3GainFixture"@,
                        "Vst3ScopeDecision"@,
                    ],
                ),
                "plugin-vst3"@,
                "vst3-plugin-adapter"@,
                "VST3-shaped export adapter and SDK scope record"@,
            ),
    {
        vst3_plugin_pack()
    }
}

/// The fields every stream-host card opens with: the symbol, the
/// `stream-host` layer, the `plugin` kind, the backend and transport
/// symbols and the card's role.
pub open spec fn is_stream_card_head(
    card: SurfaceValueSpec,
    symbol: (Option<Seq<char>>, Seq<char>),
    backend: (Option<Seq<char>>, Seq<char>),
    transport: (Option<Seq<char>>, Seq<char>),
    role: Seq<char>,
) -> bool {
    &&& symbol_value(card.symbol) == symbol
    &&& card.fields@.len() >= 6
    &&& entry_holds_symbol(card.fields@[0], "symbol"@, symbol)
    &&& entry_holds_text(card.fields@[1], "layer"@, "stream-host"@)
    &&& entry_holds_text(card.fields@[2], "kind"@, "plugin"@)
    &&& entry_holds_symbol(card.fields@[3], "backend"@, backend)
    &&& entry_holds_symbol(card.fields@[4], "transport"@, transport)
    &&& entry_holds_text(card.fields@[5], "role"@, role)
}

/// Builds the six opening fields of a stream-host card.
fn stream_card_head(symbol: &Symbol, backend: Symbol, transport: Symbol, role: &str) -> (res: Vec<
    (Symbol, SurfaceField),
>)
    ensures
        res@.len() == 6,
        entry_holds_symbol(res@[0], "symbol"@, symbol_value(*symbol)),
        entry_holds_text(res@[1], "layer"@, "stream-host"@),
        entry_holds_text(res@[2], "kind"@, "plugin"@),
        entry_holds_symbol(res@[3], "backend"@, symbol_value(backend)),
        entry_holds_symbol(res@[4], "transport"@, symbol_value(transport)),
        entry_holds_text(res@[5], "role"@, role@),
{
    let mut fields: Vec<(Symbol, SurfaceField)> = Vec::new();
    fields.push(symbol_entry("symbol", symbol.clone()));
    fields.push(text_entry("layer", "stream-host"));
    fields.push(text_entry("kind", "plugin"));
    fields.push(symbol_entry("backend", backend));
    fields.push(symbol_entry("transport", transport));
    fields.push(text_entry("role", role));
    fields
}

/// Owned copies of borrowed texts.
fn owned_texts(texts: &[&str]) -> (res: Vec<String>)
    ensures
        texts_of(res@) == texts@.map_values(|t: &str| t@),
{
    let mut res: Vec<String> = Vec::new();
    let mut i: usize = 0;
    while i < texts.len()
        invariant
            i <= texts@.len(),
            res@.len() == i,
            forall|j: int| 0 <= j < i ==> #[trigger] res@[j]@ == texts@[j]@,
        decreases texts@.len() - i,
    {
        res.push(String::from_str(texts[i]));
        i = i + 1;
    }
    assert(texts_of(res@) =~= texts@.map_values(|t: &str| t@));
    res
}

/// The export names of the ALSA lib.
pub open spec fn alsa_export_names() -> Seq<Seq<char>> {
    seq![
        "AlsaBackend"@,
        "AlsaDefaultPcm"@,
        "AlsaHwPcm"@,
        "AlsaPlugHwPcm"@,
        "AlsaSequencerFollowUp"@,
    ]
}

/// The role an ALSA card states for the export `name`.
pub open spec fn alsa_role_of(name: Seq<char>) -> Seq<char> {
    if name == "AlsaBackend"@ {
        "ALSA host PCM backend card"@
    } else if name == "AlsaDefaultPcm"@ {
        "ALSA default PCM fallback card"@
    } else if name == "AlsaHwPcm"@ {
        "ALSA hw:* PCM naming card"@
    } else if name == "AlsaPlugHwPcm"@ {
        "ALSA plughw:* PCM naming card"@
    } else if name == "AlsaSequencerFollowUp"@ {
        "ALSA sequencer MIDI follow-up card"@
    } else {
        "ALSA card"@
    }
}

/// The ALSA card for the export `symbol`.
pub open spec fn is_alsa_card(card: SurfaceValueSpec, symbol: (Option<Seq<char>>, Seq<char>)) -> bool {
    &&& card.fields@.len() == 8
    &&& is_stream_card_head(
        card,
        symbol,
        alsa_backend_value(),
        (Some("stream/transport"@), "alsa"@),
        alsa_role_of(symbol.1),
    )
    &&& entry_holds_texts(card.fields@[6], "pcm-names"@, seq!["default"@, "hw:*"@, "plughw:*"@])
    &&& entry_holds_text(
        card.fields@[7],
        "sequencer-midi"@,
        "follow-up: keep ALSA sequencer MIDI in a MIDI adapter"@,
    )
}

/// Returns the role an ALSA card states for the export `name`.
pub fn alsa_card_role(name: &str) -> (res: &'static str)
    ensures
        res@ == alsa_role_of(name@),
{
    if text_eq(name, "AlsaBackend") {
        "ALSA host PCM backend card"
    } else if text_eq(name, "AlsaDefaultPcm") {
        "ALSA default PCM fallback card"
    } else if text_eq(name, "AlsaHwPcm") {
        "ALSA hw:* PCM naming card"
    } else if text_eq(name, "AlsaPlugHwPcm") {
        "ALSA plughw:* PCM naming card"
    } else if text_eq(name, "AlsaSequencerFollowUp") {
        "ALSA sequencer MIDI follow-up card"
    } else {
        "ALSA card"
    }
}

/// Returns the symbols the ALSA lib exports.
pub fn alsa_symbols() -> (res: Vec<Symbol>)
    ensures
        symbol_values(res@) == qualified_values("stream"@, alsa_export_names()),
{
    let mut res: Vec<Symbol> = Vec::new();
    res.push(Symbol::qualified("stream", "AlsaBackend"));
    res.push(Symbol::qualified("stream", "AlsaDefaultPcm"));
    res.push(Symbol::qualified("stream", "AlsaHwPcm"));
    res.push(Symbol::qualified("stream", "AlsaPlugHwPcm"));
    res.push(Symbol::qualified("stream", "AlsaSequencerFollowUp"));
    assert(symbol_values(res@) =~= qualified_values("stream"@, alsa_export_names()));
    res
}

/// Builds the ALSA card for the export `symbol`.
pub fn alsa_value_spec(symbol: Symbol) -> (res: SurfaceValueSpec)
    ensures
        is_alsa_card(res, symbol_value(symbol)),
{
    let role = alsa_card_role(symbol.name.as_str());
    let mut fields = stream_card_head(&symbol, alsa_backend_symbol(), alsa_transport_symbol(), role);
    let mut pcm_names: Vec<String> = Vec::new();
    pcm_names.push(String::from_str("default"));
    pcm_names.push(String::from_str("hw:*"));
    pcm_names.push(String::from_str("plughw:*"));
    assert(texts_of(pcm_names@) =~= seq!["default"@, "hw:*"@, "plughw:*"@]);
    fields.push(texts_entry("pcm-names", pcm_names));
    fields.push(
        text_entry("sequencer-midi", "follow-up: keep ALSA sequencer MIDI in a MIDI adapter"),
    );
    SurfaceValueSpec { symbol, fields }
}

/// The ALSA pack: one card per export, in export order.
pub open spec fn is_alsa_pack(pack: SurfacePackSpec) -> bool {
    let symbols = qualified_values("stream"@, alsa_export_names());
    &&& symbol_value(pack.lib_id) == (None::<Seq<char>>, "stream-alsa"@)
    &&& pack.values@.len() == symbols.len()
    &&& forall|i: int| 0 <= i < symbols.len() ==> is_alsa_card(#[trigger] pack.values@[i], symbols[i])
}

/// Builds the ALSA pack.
pub fn alsa_pack() -> (res: SurfacePackSpec)
    ensures
        is_alsa_pack(res),
{
    let symbols = alsa_symbols();
    let mut values: Vec<SurfaceValueSpec> = Vec::new();
    let mut i: usize = 0;
    while i < symbols.len()
        invariant
            i <= symbols@.len(),
            values@.len() == i,
            forall|j: int| 0 <= j < i ==> is_alsa_card(#[trigger] values@[j], symbol_value(symbols@[j])),
        decreases symbols@.len() - i,
    {
        values.push(alsa_value_spec(symbols[i].clone()));
        i = i + 1;
    }
    assert(symbol_values(symbols@).len() == symbols@.len());
    assert forall|j: int| 0 <= j < values@.len() implies is_alsa_card(
        #[trigger] values@[j],
        qualified_values("stream"@, alsa_export_names())[j],
    ) by {
        assert(symbol_values(symbols@)[j] == symbol_value(symbols@[j]));
    }
    SurfacePackSpec { lib_id: Symbol::named("stream-alsa"), values }
}

/// The host-registered lib that publishes the ALSA stream-host cards.
pub struct AlsaLib;

impl AlsaLib {
    /// The cards this lib publishes.
    pub fn pack(&self) -> (res: SurfacePackSpec)
        ensures
            is_alsa_pack(res),
    {
        alsa_pack()
    }
}

/// The export names of the ASIO lib.
pub open spec fn asio_export_names() -> Seq<Seq<char>> {
    seq!["AsioBackend"@, "AsioSdkBuildRequirements"@, "AsioBufferSwitchBridge"@]
}

/// The role an ASIO card states for the export `name`.
pub open spec fn asio_role_of(name: Seq<char>) -> Seq<char> {
    if name == "AsioBackend"@ {
        "ASIO host audio backend card"@
    } else if name == "AsioSdkBuildRequirements"@ {
        "ASIO optional SDK build requirements card"@
    } else if name == "AsioBufferSwitchBridge"@ {
        "ASIO buffer switch graph bridge card"@
    } else {
        "ASIO card"@
    }
}

/// The ASIO SDK build requirements, as a card lists them.
pub open spec fn asio_requirement_texts() -> Seq<Seq<char>> {
    seq![
        "Windows target"@,
        "Steinberg ASIO SDK headers supplied outside this repository"@,
        "vendor driver import library or COM registration"@,
        "SIM stream-asio feature enabled explicitly"@,
    ]
}

/// The ASIO card for the export `symbol`.
pub open spec fn is_asio_card(card: SurfaceValueSpec, symbol: (Option<Seq<char>>, Seq<char>)) -> bool {
    &&& card.fields@.len() == 7
    &&& is_stream_card_head(
        card,
        symbol,
        asio_backend_value(),
        (Some("stream/transport"@), "asio"@),
        asio_role_of(symbol.1),
    )
    &&& entry_holds_texts(card.fields@[6], "requirements"@, asio_requirement_texts())
}

/// Returns the role an ASIO card states for the export `name`.
pub fn asio_card_role(name: &str) -> (res: &'static str)
    ensures
        res@ == asio_role_of(name@),
{
    if text_eq(name, "AsioBackend") {
        "ASIO host audio backend card"
    } else if text_eq(name, "AsioSdkBuildRequirements") {
        "ASIO optional SDK build requirements card"
    } else if text_eq(name, "AsioBufferSwitchBridge") {
        "ASIO buffer switch graph bridge card"
    } else {
        "ASIO card"
    }
}

/// Returns the symbols the ASIO lib exports.
pub fn asio_symbols() -> (res: Vec<Symbol>)
    ensures
        symbol_values(res@) == qualified_values("stream"@, asio_export_names()),
{
    let mut res: Vec<Symbol> = Vec::new();
    res.push(Symbol::qualified("stream", "AsioBackend"));
    res.push(Symbol::qualified("stream", "AsioSdkBuildRequirements"));
    res.push(Symbol::qualified("stream", "AsioBufferSwitchBridge"));
    assert(symbol_values(res@) =~= qualified_values("stream"@, asio_export_names()));
    res
}

/// Builds the ASIO card for the export `symbol`.
pub fn asio_value_spec(symbol: Symbol) -> (res: SurfaceValueSpec)
    ensures
        is_asio_card(res, symbol_value(symbol)),
{
    let role = asio_card_role(symbol.name.as_str());
    let mut fields = stream_card_head(&symbol, asio_backend_symbol(), asio_transport_symbol(), role);
    let requirements = asio_sdk_build_requirements();
    let texts = owned_texts(requirements.as_slice());
    assert(requirements@.map_values(|t: &str| t@) =~= asio_requirement_texts());
    fields.push(texts_entry("requirements", texts));
    SurfaceValueSpec { symbol, fields }
}

/// The ASIO pack: one card per export, in export order.
pub open spec fn is_asio_pack(pack: SurfacePackSpec) -> bool {
    let symbols = qualified_values("stream"@, asio_export_names());
    &&& symbol_value(pack.lib_id) == (None::<Seq<char>>, "stream-asio"@)
    &&& pack.values@.len() == symbols.len()
    &&& forall|i: int| 0 <= i < symbols.len() ==> is_asio_card(#[trigger] pack.values@[i], symbols[i])
}

/// Builds the ASIO pack.
pub fn asio_pack() -> (res: SurfacePackSpec)
    ensures
        is_asio_pack(res),
{
    let symbols = asio_symbols();
    let mut values: Vec<SurfaceValueSpec> = Vec::new();
    let mut i: usize = 0;
    while i < symbols.len()
        invariant
            i <= symbols@.len(),
            values@.len() == i,
            forall|j: int| 0 <= j < i ==> is_asio_card(#[trigger] values@[j], symbol_value(symbols@[j])),
        decreases symbols@.len() - i,
    {
        values.push(asio_value_spec(symbols[i].clone()));
        i = i + 1;
    }
    assert(symbol_values(symbols@).len() == symbols@.len());
    assert forall|j: int| 0 <= j < values@.len() implies is_asio_card(
        #[trigger] values@[j],
        qualified_values("stream"@, asio_export_names())[j],
    ) by {
        assert(symbol_values(symbols@)[j] == symbol_value(symbols@[j]));
    }
    SurfacePackSpec { lib_id: Symbol::named("stream-asio"), values }
}

/// The host-registered lib that publishes the ASIO stream-host cards.
pub struct AsioLib;

impl AsioLib {
    /// The cards this lib publishes.
    pub fn pack(&self) -> (res: SurfacePackSpec)
        ensures
            is_asio_pack(res),
    {
        asio_pack()
    }
}

/// The export names of the CoreAudio lib.
pub open spec fn coreaudio_export_names() -> Seq<Seq<char>> {
    seq![
        "CoreAudioBackend"@,
        "CoreAudioNativeFallback"@,
        "MacosAudioBackendPriority"@,
        "MacosMidiBackendPriority"@,
    ]
}

/// The role a CoreAudio card states for the export `name`.
pub open spec fn coreaudio_role_of(name: Seq<char>) -> Seq<char> {
    if name == "CoreAudioBackend"@ {
        "CoreAudio host PCM backend card"@
    } else if name == "CoreAudioNativeFallback"@ {
        "CoreAudio native fallback policy card"@
    } else if name == "MacosAudioBackendPriority"@ {
        "macOS audio backend priority card"@
    } else if name == "MacosMidiBackendPriority"@ {
        "macOS MIDI backend priority card"@
    } else {
        "CoreAudio card"@
    }
}

/// The CoreAudio card for the export `symbol`.
pub open spec fn is_coreaudio_card(card: SurfaceValueSpec, symbol: (Option<Seq<char>>, Seq<char>)) -> bool {
    &&& card.fields@.len() == 9
    &&& is_stream_card_head(
        card,
        symbol,
        coreaudio_backend_value(),
        (Some("stream/transport"@), "coreaudio"@),
        coreaudio_role_of(symbol.1),
    )
    &&& entry_holds_symbols(
        card.fields@[6],
        "audio-priority"@,
        seq![
            (Some("stream/host"@), "portaudio"@),
            (Some("stream/host"@), "rtaudio"@),
            coreaudio_backend_value(),
        ],
    )
    &&& entry_holds_symbols(
        card.fields@[7],
        "midi-priority"@,
        seq![(Some("stream/host"@), "rtmidi"@), (Some("stream/host"@), "coremidi"@)],
    )
    &&& entry_holds_text(
        card.fields@[8],
        "native-policy"@,
        "Use native CoreAudio when PortAudio or RtAudio is insufficient"@,
    )
}

/// Returns the role a CoreAudio card states for the export `name`.
pub fn coreaudio_card_role(name: &str) -> (res: &'static str)
    ensures
        res@ == coreaudio_role_of(name@),
{
    if text_eq(name, "CoreAudioBackend") {
        "CoreAudio host PCM backend card"
    } else if text_eq(name, "CoreAudioNativeFallback") {
        "CoreAudio native fallback policy card"
    } else if text_eq(name, "MacosAudioBackendPriority") {
        "macOS audio backend priority card"
    } else if text_eq(name, "MacosMidiBackendPriority") {
        "macOS MIDI backend priority card"
    } else {
        "CoreAudio card"
    }
}

/// Returns the symbols the CoreAudio lib exports.
pub fn coreaudio_symbols() -> (res: Vec<Symbol>)
    ensures
        symbol_values(res@) == qualified_values("stream"@, coreaudio_export_names()),
{
    let mut res: Vec<Symbol> = Vec::new();
    res.push(Symbol::qualified("stream", "CoreAudioBackend"));
    res.push(Symbol::qualified("stream", "CoreAudioNativeFallback"));
    res.push(Symbol::qualified("stream", "MacosAudioBackendPriority"));
    res.push(Symbol::qualified("stream", "MacosMidiBackendPriority"));
    assert(symbol_values(res@) =~= qualified_values("stream"@, coreaudio_export_names()));
    res
}

/// Builds the CoreAudio card for the export `symbol`.
pub fn coreaudio_value_spec(symbol: Symbol) -> (res: SurfaceValueSpec)
    ensures
        is_coreaudio_card(res, symbol_value(symbol)),
{
    let role = coreaudio_card_role(symbol.name.as_str());
    let mut fields = stream_card_head(
        &symbol,
        coreaudio_backend_symbol(),
        coreaudio_transport_symbol(),
        role,
    );
    let audio = macos_audio_backend_priority();
    assert(symbol_values(audio@) =~= seq![
        (Some("stream/host"@), "portaudio"@),
        (Some("stream/host"@), "rtaudio"@),
        coreaudio_backend_value(),
    ]);
    fields.push(symbols_entry("audio-priority", audio));
    let midi = macos_midi_backend_priority();
    assert(symbol_values(midi@) =~= seq![
        (Some("stream/host"@), "rtmidi"@),
        (Some("stream/host"@), "coremidi"@),
    ]);
    fields.push(symbols_entry("midi-priority", midi));
    fields.push(
        text_entry(
            "native-policy",
            "Use native CoreAudio when PortAudio or RtAudio is insufficient",
        ),
    );
    SurfaceValueSpec { symbol, fields }
}

/// The CoreAudio pack: one card per export, in export order.
pub open spec fn is_coreaudio_pack(pack: SurfacePackSpec) -> bool {
    let symbols = qualified_values("stream"@, coreaudio_export_names());
    &&& symbol_value(pack.lib_id) == (None::<Seq<char>>, "stream-coreaudio"@)
    &&& pack.values@.len() == symbols.len()
    &&& forall|i: int|
        0 <= i < symbols.len() ==> is_coreaudio_card(#[trigger] pack.values@[i], symbols[i])
}

/// Builds the CoreAudio pack.
pub fn coreaudio_pack() -> (res: SurfacePackSpec)
    ensures
        is_coreaudio_pack(res),
{
    let symbols = coreaudio_symbols();
    let mut values: Vec<SurfaceValueSpec> = Vec::new();
    let mut i: usize = 0;
    while i < symbols.len()
        invariant
            i <= symbols@.len(),
            values@.len() == i,
            forall|j: int|
                0 <= j < i ==> is_coreaudio_card(#[trigger] values@[j], symbol_value(symbols@[j])),
        decreases symbols@.len() - i,
    {
        values.push(coreaudio_value_spec(symbols[i].clone()));
        i = i + 1;
    }
    assert(symbol_values(symbols@).len() == symbols@.len());
    assert forall|j: int| 0 <= j < values@.len() implies is_coreaudio_card(
        #[trigger] values@[j],
        qualified_values("stream"@, coreaudio_export_names())[j],
    ) by {
        assert(symbol_values(symbols@)[j] == symbol_value(symbols@[j]));
    }
    SurfacePackSpec { lib_id: Symbol::named("stream-coreaudio"), values }
}

/// The host-registered lib that publishes the CoreAudio stream-host cards.
pub struct CoreAudioLib;

impl CoreAudioLib {
    /// The cards this lib publishes.
    pub fn pack(&self) -> (res: SurfacePackSpec)
        ensures
            is_coreaudio_pack(res),
    {
        coreaudio_pack()
    }
}

/// What a host-registered provider lib declares of itself. Providers of
/// this crate require, grant and export nothing.
#[derive(Clone, Debug)]
pub struct LibManifest {
    /// The lib's identity.
    pub id: Symbol,
    /// The lib's version.
    pub version: String,
    /// The ABI major version it is built against.
    pub abi_major: u32,
    /// The ABI minor version it is built against.
    pub abi_minor: u32,
    /// Whether the host registers the lib in process (rather than loading
    /// it from a file).
    pub host_registered: bool,
}

/// The modeled cpal provider identity: `audio/provider` `cpal-modeled`.
pub open spec fn cpal_modeled_provider_value() -> (Option<Seq<char>>, Seq<char>) {
    (Some("audio/provider"@), "cpal-modeled"@)
}

/// Returns the modeled cpal provider identity.
pub fn cpal_modeled_provider_symbol() -> (res: Symbol)
    ensures
        symbol_value(res) == cpal_modeled_provider_value(),
{
    Symbol::qualified("audio/provider", "cpal-modeled")
}

/// The FFI-free modeled cpal provider lib.
pub struct CpalProviderModeled;

impl CpalProviderModeled {
    /// The provider's manifest: its identity, version `0.1.0`, ABI 0.1,
    /// registered by the host.
    pub fn manifest(&self) -> (res: LibManifest)
        ensures
            symbol_value(res.id) == cpal_modeled_provider_value(),
            res.version@ == "0.1.0"@,
            res.abi_major == 0,
            res.abi_minor == 1,
            res.host_registered,
    {
        LibManifest {
            id: cpal_modeled_provider_symbol(),
            version: String::from_str("0.1.0"),
            abi_major: 0,
            abi_minor: 1,
            host_registered: true,
        }
    }
}

} // verus!
