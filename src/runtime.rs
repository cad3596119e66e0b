//! The lifecycle of the process-wide engine platform: brought up at most
//! once, torn down at most once, never used again after teardown.

use vstd::prelude::*;

verus! {

/// Where the process-wide platform stands.
#[derive(Clone, Copy, Debug, PartialEq, Eq, Structural)]
pub enum Platform {
    Uninitialized,
    Initialized,
    ShutDown,
}

/// Why a runtime cannot be built.
#[derive(Clone, Copy, Debug, PartialEq, Eq, Structural)]
pub enum PlatformError {
    /// The platform was torn down; it cannot serve another runtime.
    ShutDown,
}

impl Platform {
    /// The first state of a process.
    pub fn new() -> (r: Platform)
        ensures
            r == Platform::Uninitialized,
    {
        Platform::Uninitialized
    }

    /// A runtime is about to be built. `Ok(true)`: bring the platform up now;
    /// `Ok(false)`: it is up already; `Err`: it was torn down.
    pub fn init(&mut self) -> (r: Result<bool, PlatformError>)
        ensures
            *old(self) == Platform::Uninitialized ==> r == Ok::<bool, PlatformError>(true)
                && *final(self) == Platform::Initialized,
            *old(self) == Platform::Initialized ==> r == Ok::<bool, PlatformError>(false)
                && *final(self) == Platform::Initialized,
            *old(self) == Platform::ShutDown ==> r == Err::<bool, PlatformError>(
                PlatformError::ShutDown,
            ) && *final(self) == Platform::ShutDown,
    {
        match *self {
            Platform::Uninitialized => {
                *self = Platform::Initialized;
                Ok(true)
            },
            Platform::Initialized => Ok(false),
            Platform::ShutDown => Err(PlatformError::ShutDown),
        }
    }

    /// The process ends its use of the engine. `true`: dispose of the
    /// platform now; `false`: there is nothing to dispose of. Either way no
    /// runtime can be built afterwards.
    pub fn shutdown(&mut self) -> (r: bool)
        ensures
            r == (*old(self) == Platform::Initialized),
            *final(self) == Platform::ShutDown,
    {
        let was_up = match *self {
            Platform::Initialized => true,
            _ => false,
        };
        *self = Platform::ShutDown;
        was_up
    }
}

} // verus!
