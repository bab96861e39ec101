//! Wrappers that host a plugin instance inside an audio graph.
//!
//! The graph-facing `prepare`/`reset`/`process` forwarding and the mapping of
//! reported latency onto tail frames run through the audio-graph traits of
//! the embedding host; the wrappers here own the instance and hand it out.
use vstd::prelude::*;

verus! {

/// Adapts a plugin instance into an audio-graph processor.
#[derive(Clone, Debug)]
pub struct HostedPluginProcessor<I> {
    instance: I,
}

impl<I> HostedPluginProcessor<I> {
    /// The wrapped instance.
    pub closed spec fn held(&self) -> I {
        self.instance
    }

    /// Wraps an instance so it can be inserted into an audio graph.
    pub fn new(instance: I) -> (res: HostedPluginProcessor<I>)
        ensures
            res.held() == instance,
    {
        HostedPluginProcessor { instance }
    }

    /// Returns a shared reference to the wrapped instance.
    pub fn instance(&self) -> (res: &I)
        ensures
            *res == self.held(),
    {
        &self.instance
    }

    /// Returns a mutable reference to the wrapped instance.
    pub fn instance_mut(&mut self) -> (res: &mut I)
        ensures
            *res == old(self).held(),
            final(self).held() == *final(res),
    {
        &mut self.instance
    }

    /// Consumes the wrapper and returns the wrapped instance.
    pub fn into_inner(self) -> (res: I)
        ensures
            res == self.held(),
    {
        self.instance
    }
}

/// Graph processor that drives an LV2-shaped plugin instance through the
/// shared hosted-processor wrapper.
#[derive(Clone, Debug)]
pub struct Lv2HostProcessor<I> {
    hosted: HostedPluginProcessor<I>,
}

impl<I> Lv2HostProcessor<I> {
    /// The hosted instance.
    pub closed spec fn held(&self) -> I {
        self.hosted.held()
    }

    /// Hosts `instance` as a graph processor.
    pub fn new(instance: I) -> (res: Lv2HostProcessor<I>)
        ensures
            res.held() == instance,
    {
        Lv2HostProcessor { hosted: HostedPluginProcessor::new(instance) }
    }

    /// Returns a shared reference to the hosted plugin instance.
    pub fn instance(&self) -> (res: &I)
        ensures
            *res == self.held(),
    {
        self.hosted.instance()
    }

    /// Returns a mutable reference to the hosted plugin instance.
    pub fn instance_mut(&mut self) -> (res: &mut I)
        ensures
            *res == old(self).held(),
            final(self).held() == *final(res),
    {
        self.hosted.instance_mut()
    }

    /// Returns the shared hosted-processor wrapper.
    pub fn hosted(&self) -> (res: &HostedPluginProcessor<I>)
        ensures
            res.held() == self.held(),
    {
        &self.hosted
    }

    /// Returns the shared hosted-processor wrapper for mutation.
    pub fn hosted_mut(&mut self) -> (res: &mut HostedPluginProcessor<I>)
        ensures
            res.held() == old(self).held(),
            final(self).held() == final(res).held(),
    {
        &mut self.hosted
    }
}

} // verus!
