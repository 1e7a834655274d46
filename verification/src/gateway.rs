//! The gateway's own engine slot: the peer process the forwarder talks to
//! holds at most one live engine object and exposes start/stop/status.
//!
//! Booting the engine object is the shell's work; the slot here is the
//! verified single-holder state.  A start replaces whatever was held — the
//! gateway's observed behavior — and a stop empties the slot.

use vstd::prelude::*;

verus! {

/// The single-slot reference to the engine object the gateway owns.
pub struct GatewaySlot {
    pub engine: Option<u64>,
}

impl GatewaySlot {
    /// An engine object is held and assumed alive.
    pub open spec fn running(self) -> bool {
        self.engine is Some
    }

    pub fn new() -> (r: GatewaySlot)
        ensures
            !r.running(),
    {
        GatewaySlot { engine: None }
    }

    /// Installs a freshly booted engine object, replacing any held one:
    /// at most one reference is ever live.
    pub fn install(&mut self, handle: u64)
        ensures
            final(self).engine == Some(handle),
    {
        self.engine = Some(handle);
    }

    /// Drops the held engine object, if any.  Idempotent.
    pub fn clear(&mut self)
        ensures
            final(self).engine is None,
    {
        self.engine = None;
    }

    /// The status word of the gateway's control surface.
    pub fn status_str(&self) -> (r: &'static str)
        ensures
            self.running() ==> r@ == "running"@,
            !self.running() ==> r@ == "stopped"@,
    {
        if self.engine.is_some() {
            "running"
        } else {
            "stopped"
        }
    }
}

} // verus!
