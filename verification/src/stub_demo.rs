use vstd::prelude::*;

use crate::engine_state::ExternalState;

verus! {

/// A demo that draws nothing but a cleared frame; the engine runs it when no
/// real demo is built in.
pub struct Demo;

/// Loading of the stub demo, which has nothing to load.
pub struct DemoLoadingProcess {}

impl Demo {
    /// Starts loading the demo.
    pub fn start_loading() -> (p: DemoLoadingProcess) {
        DemoLoadingProcess {}
    }

    /// Advances the demo by one frame; the stub keeps no state.
    pub fn tick(&mut self, _input: &ExternalState)
        ensures
            *final(self) == *old(self),
    {
    }
}

impl DemoLoadingProcess {
    /// Polls the loading: the stub demo is ready at the first poll.
    pub fn simple_poll(&mut self) -> (r: Option<Demo>)
        ensures
            r is Some,
    {
        Some(Demo)
    }
}

} // verus!
