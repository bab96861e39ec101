//! Capability-gated loading of native (CLAP and LV2) plugins through
//! host-supplied providers.
use vstd::prelude::*;
use crate::capability::{AudioPluginCapability, CapabilitySet, capability_name_text};
use crate::descriptor::PluginLoadSpec;
use crate::error::Error;
use crate::hosted::Lv2HostProcessor;
use crate::text::text_eq;
use crate::wire::{PluginFormat, format_wire_name};

verus! {

/// Decides whether a CLAP plugin may be loaded for `spec`: the native-plugin
/// capability must be granted, then the request must name the CLAP format.
pub fn check_clap_load(caps: &CapabilitySet, spec: &PluginLoadSpec) -> (res: Result<(), Error>)
    ensures
        res is Ok <==> caps@.contains(AudioPluginCapability::NativePlugin) && spec.spec_format()
            == PluginFormat::Clap,
        !caps@.contains(AudioPluginCapability::NativePlugin) ==> (res matches Err(e)
            && e matches Error::CapabilityDenied { capability: name } && name.name@
            == capability_name_text(AudioPluginCapability::NativePlugin)),
        caps@.contains(AudioPluginCapability::NativePlugin) && spec.spec_format()
            != PluginFormat::Clap ==> (res matches Err(e) && e matches Error::TypeMismatch {
            expected: x,
            found: f,
        } && x@ == format_wire_name(PluginFormat::Clap) && f@ == format_wire_name(
            spec.spec_format(),
        )),
{
    match caps.require(AudioPluginCapability::NativePlugin) {
        Ok(()) => {},
        Err(e) => return Err(e),
    }
    spec.require_format(PluginFormat::Clap)
}

/// A backend that can instantiate an LV2-shaped plugin from its URI.
pub trait Lv2HostProvider {
    /// The plugin instance the provider produces.
    type Plugin;

    /// Whether `res` is an outcome this provider may give when asked to
    /// instantiate the plugin named `uri`. A provider that states nothing
    /// of its outcomes keeps this default, which admits every outcome.
    open spec fn instantiates(&self, uri: Seq<char>, res: Result<Self::Plugin, Error>) -> bool {
        true
    }

    /// Instantiates the plugin named `uri`; an unavailable URI is an error.
    fn instantiate(&self, uri: &str) -> (res: Result<Self::Plugin, Error>)
        ensures
            self.instantiates(uri@, res),
    ;
}

/// Loads an LV2 plugin through `provider` once the native-plugin capability
/// is granted, and hosts it as a graph processor.
pub fn load_lv2_plugin<P: Lv2HostProvider>(caps: &CapabilitySet, uri: &str, provider: &P) -> (res:
    Result<Lv2HostProcessor<P::Plugin>, Error>)
    ensures
        !caps@.contains(AudioPluginCapability::NativePlugin) ==> (res matches Err(e)
            && e matches Error::CapabilityDenied { capability: name } && name.name@
            == capability_name_text(AudioPluginCapability::NativePlugin)),
        caps@.contains(AudioPluginCapability::NativePlugin) ==> exists|
            r: Result<P::Plugin, Error>,
        |
            #[trigger] provider.instantiates(uri@, r) && match r {
                Ok(plugin) => res matches Ok(h) && h.held() == plugin,
                Err(e) => res == Err::<Lv2HostProcessor<P::Plugin>, Error>(e),
            },
{
    match caps.require(AudioPluginCapability::NativePlugin) {
        Ok(()) => {},
        Err(e) => return Err(e),
    }
    let instantiated = provider.instantiate(uri);
    let ghost outcome = instantiated;
    let res = host_lv2_instance(instantiated);
    assert(provider.instantiates(uri@, outcome));
    res
}

/// Hosts what a provider's instantiation returned: an instance becomes a
/// hosted graph processor, an error is passed on unchanged.
pub fn host_lv2_instance<I>(instantiated: Result<I, Error>) -> (res: Result<Lv2HostProcessor<I>, Error>)
    ensures
        instantiated matches Ok(plugin) ==> (res matches Ok(p) && p.held() == plugin),
        instantiated matches Err(e) ==> res == Err::<Lv2HostProcessor<I>, Error>(e),
{
    match instantiated {
        Ok(plugin) => Ok(Lv2HostProcessor::new(plugin)),
        Err(e) => Err(e),
    }
}

/// Decides a fixture provider's instantiation: only the URI it was built
/// with is available.
pub fn check_fixture_uri(accepted: &str, uri: &str) -> (res: Result<(), Error>)
    ensures
        res is Ok <==> uri@ == accepted@,
        res matches Err(e) ==> e is Eval && e->Eval_0@ == "LV2 fixture URI '"@ + uri@
            + "' is not available"@,
{
    if text_eq(uri, accepted) {
        Ok(())
    } else {
        Err(Error::eval3("LV2 fixture URI '", uri, "' is not available"))
    }
}

} // verus!
