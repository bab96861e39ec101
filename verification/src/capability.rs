//! Audio plugin capabilities and the granted-capability set that loaders
//! consult before a privileged load.
use vstd::prelude::*;
use crate::error::{CapabilityName, Error};

verus! {

/// Privileged audio plugin operations exposed by host adapters.
#[derive(Clone, Copy, Debug, PartialEq, Eq, Structural)]
pub enum AudioPluginCapability {
    /// Loading WebAssembly audio plugins.
    WasmPlugin,
    /// Loading native audio plugins.
    NativePlugin,
}

/// The stable kernel capability name of a plugin operation.
pub open spec fn capability_name_text(capability: AudioPluginCapability) -> Seq<char> {
    match capability {
        AudioPluginCapability::WasmPlugin => "plugin.audio.wasm"@,
        AudioPluginCapability::NativePlugin => "plugin.audio.native"@,
    }
}

impl AudioPluginCapability {
    /// Returns the stable kernel capability name for this plugin operation.
    pub fn as_capability_name(self) -> (res: CapabilityName)
        ensures
            res.name@ == capability_name_text(self),
    {
        match self {
            AudioPluginCapability::WasmPlugin => CapabilityName::new("plugin.audio.wasm"),
            AudioPluginCapability::NativePlugin => CapabilityName::new("plugin.audio.native"),
        }
    }
}

/// Granted audio plugin capabilities for loader entry points.
#[derive(Clone, Copy, Debug, PartialEq, Eq, Structural)]
pub struct CapabilitySet {
    wasm_plugin: bool,
    native_plugin: bool,
}

impl View for CapabilitySet {
    type V = Set<AudioPluginCapability>;

    closed spec fn view(&self) -> Set<AudioPluginCapability> {
        Set::new(
            |c: AudioPluginCapability|
                match c {
                    AudioPluginCapability::WasmPlugin => self.wasm_plugin,
                    AudioPluginCapability::NativePlugin => self.native_plugin,
                },
        )
    }
}

impl CapabilitySet {
    /// Builds an empty plugin capability set.
    pub fn empty() -> (res: CapabilitySet)
        ensures
            res@ == Set::<AudioPluginCapability>::empty(),
    {
        let res = CapabilitySet { wasm_plugin: false, native_plugin: false };
        assert(res@ =~= Set::<AudioPluginCapability>::empty());
        res
    }

    /// Builds a plugin capability set containing one capability.
    pub fn with(capability: AudioPluginCapability) -> (res: CapabilitySet)
        ensures
            res@ == Set::<AudioPluginCapability>::empty().insert(capability),
    {
        CapabilitySet::empty().grant(capability)
    }

    /// Returns this set with `capability` granted.
    pub fn grant(self, capability: AudioPluginCapability) -> (res: CapabilitySet)
        ensures
            res@ == self@.insert(capability),
    {
        let mut set = self;
        set.insert(capability);
        set
    }

    /// Grants `capability` in place.
    pub fn insert(&mut self, capability: AudioPluginCapability)
        ensures
            final(self)@ == old(self)@.insert(capability),
    {
        match capability {
            AudioPluginCapability::WasmPlugin => self.wasm_plugin = true,
            AudioPluginCapability::NativePlugin => self.native_plugin = true,
        }
        assert(self@ =~= old(self)@.insert(capability));
    }

    /// Reports whether `capability` is granted.
    pub fn contains(&self, capability: AudioPluginCapability) -> (res: bool)
        ensures
            res == self@.contains(capability),
    {
        match capability {
            AudioPluginCapability::WasmPlugin => self.wasm_plugin,
            AudioPluginCapability::NativePlugin => self.native_plugin,
        }
    }

    /// Requires `capability`, returning a structured capability error when
    /// absent.
    pub fn require(&self, capability: AudioPluginCapability) -> (res: Result<(), Error>)
        ensures
            res is Ok <==> self@.contains(capability),
            res matches Err(e) ==> e matches Error::CapabilityDenied { capability: name }
                && name.name@ == capability_name_text(capability),
    {
        if self.contains(capability) {
            Ok(())
        } else {
            Err(Error::CapabilityDenied { capability: capability.as_capability_name() })
        }
    }
}

impl Default for CapabilitySet {
    fn default() -> (res: CapabilitySet)
        ensures
            res@ == Set::<AudioPluginCapability>::empty(),
    {
        CapabilitySet::empty()
    }
}

/// Every capability set is finite: it holds at most the two plugin
/// capabilities.
pub proof fn lemma_capability_set_finite(set: CapabilitySet)
    ensures
        set@.subset_of(
            Set::<AudioPluginCapability>::empty().insert(AudioPluginCapability::WasmPlugin).insert(
                AudioPluginCapability::NativePlugin,
            ),
        ),
{
    assert forall|c: AudioPluginCapability| set@.contains(c) implies
        Set::<AudioPluginCapability>::empty().insert(AudioPluginCapability::WasmPlugin).insert(
            AudioPluginCapability::NativePlugin,
        ).contains(c) by {
        match c {
            AudioPluginCapability::WasmPlugin => {},
            AudioPluginCapability::NativePlugin => {},
        }
    }
}

/// A granted capability stays granted under further grants, and a grant
/// makes its capability pass `require`: granting is monotone and
/// idempotent.
pub proof fn lemma_grant_monotone_idempotent(
    set: Set<AudioPluginCapability>,
    granted: AudioPluginCapability,
    other: AudioPluginCapability,
)
    ensures
        set.insert(granted).contains(granted),
        set.contains(other) ==> set.insert(granted).contains(other),
        set.insert(granted).insert(granted) == set.insert(granted),
        set.insert(granted).insert(other) == set.insert(other).insert(granted),
{
    assert(set.insert(granted).insert(granted) =~= set.insert(granted));
    assert(set.insert(granted).insert(other) =~= set.insert(other).insert(granted));
}

/// Two distinct capabilities have distinct kernel names.
pub proof fn lemma_capability_names_distinct()
    ensures
        capability_name_text(AudioPluginCapability::WasmPlugin) != capability_name_text(
            AudioPluginCapability::NativePlugin,
        ),
{
    reveal_strlit("plugin.audio.wasm");
    reveal_strlit("plugin.audio.native");
    assert("plugin.audio.wasm"@[13] == 'w');
    assert("plugin.audio.native"@[13] == 'n');
}

} // verus!
