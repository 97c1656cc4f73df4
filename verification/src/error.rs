use vstd::prelude::*;

verus! {

/// What can go wrong while bridging a window.
#[derive(Clone, Copy, Debug, PartialEq, Eq, Structural)]
pub enum BridgeError {
    /// A display-server request failed: the window is gone or the reply was malformed.
    Protocol,
    /// A texture could not be bound, allocated or imported.
    Gpu,
    /// The compositor could not be asked, or answered with something unusable.
    Registry,
    /// The window handle is already tracked.
    DuplicateWindow,
    /// An event names a window that is not tracked.
    Logic,
}

impl BridgeError {
    /// The name of the error, for messages.
    pub fn name(&self) -> (text: &'static str)
        ensures
            text@ == match *self {
                BridgeError::Protocol => "ProtocolError"@,
                BridgeError::Gpu => "GpuError"@,
                BridgeError::Registry => "RegistryError"@,
                BridgeError::DuplicateWindow => "DuplicateWindow"@,
                BridgeError::Logic => "LogicError"@,
            },
    {
        match self {
            BridgeError::Protocol => "ProtocolError",
            BridgeError::Gpu => "GpuError",
            BridgeError::Registry => "RegistryError",
            BridgeError::DuplicateWindow => "DuplicateWindow",
            BridgeError::Logic => "LogicError",
        }
    }

}

} // verus!
