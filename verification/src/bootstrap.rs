//! Connection bootstrap: checking the advertised protocol globals.
//!
//! A probe session needs four globals from the display server: surface
//! compositing, the overlay-shell extension, shared-memory buffer support,
//! and the input seat. The caller enumerates what the registry advertised
//! and records it as an [`AdvertisedGlobals`]; [`validate_globals`] decides
//! whether the session may proceed. A missing global is a fatal startup
//! error — there is no degraded mode — and the session must abort before
//! any surface is created.

use vstd::prelude::*;

verus! {

/// Which of the four required protocol globals the registry advertised.
#[derive(Debug, Clone, Copy, PartialEq, Eq, Structural)]
pub struct AdvertisedGlobals {
    pub compositor: bool,
    pub layer_shell: bool,
    pub shm: bool,
    pub seat: bool,
}

/// One of the globals the session cannot run without.
#[derive(Debug, Clone, Copy, PartialEq, Eq, Structural)]
pub enum RequiredGlobal {
    Compositor,
    LayerShell,
    Shm,
    Seat,
}

/// An unrecoverable startup failure.
#[derive(Debug, Clone, Copy, PartialEq, Eq, Structural)]
pub enum StartupError {
    /// A required global was not advertised by the display server.
    MissingGlobal { which: RequiredGlobal },
}

/// The bootstrap decision: the first missing global, in binding order, or
/// permission to proceed when all four are present.
pub open spec fn validate_globals_spec(g: AdvertisedGlobals) -> Result<(), StartupError> {
    if !g.compositor {
        Err(StartupError::MissingGlobal { which: RequiredGlobal::Compositor })
    } else if !g.layer_shell {
        Err(StartupError::MissingGlobal { which: RequiredGlobal::LayerShell })
    } else if !g.shm {
        Err(StartupError::MissingGlobal { which: RequiredGlobal::Shm })
    } else if !g.seat {
        Err(StartupError::MissingGlobal { which: RequiredGlobal::Seat })
    } else {
        Ok(())
    }
}

/// Decide whether bootstrap may proceed to surface creation. Succeeds if
/// and only if all four required globals are present; otherwise names the
/// first missing one, in the order the session would bind them.
pub fn validate_globals(g: AdvertisedGlobals) -> (r: Result<(), StartupError>)
    ensures
        r == validate_globals_spec(g),
        r is Ok <==> (g.compositor && g.layer_shell && g.shm && g.seat),
{
    if !g.compositor {
        Err(StartupError::MissingGlobal { which: RequiredGlobal::Compositor })
    } else if !g.layer_shell {
        Err(StartupError::MissingGlobal { which: RequiredGlobal::LayerShell })
    } else if !g.shm {
        Err(StartupError::MissingGlobal { which: RequiredGlobal::Shm })
    } else if !g.seat {
        Err(StartupError::MissingGlobal { which: RequiredGlobal::Seat })
    } else {
        Ok(())
    }
}

} // verus!
