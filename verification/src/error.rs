use vstd::prelude::*;

verus! {

/// Why an adapter was passed over during selection.
#[derive(Clone, Copy, Debug, PartialEq, Eq, Structural)]
pub enum RejectReason {
    /// A required queue role found no family.
    IncompleteQueueFamilies,
    /// A required device extension is not offered.
    MissingExtension,
    /// Geometry shaders are not supported.
    MissingGeometryShader,
    /// The adapter rates zero although nothing required is missing.
    ZeroScore,
}

/// One adapter that selection passed over, by its place in the enumeration.
#[derive(Clone, Copy, Debug, PartialEq, Eq, Structural)]
pub struct Rejection {
    pub index: usize,
    pub reason: RejectReason,
}

/// The native call that a status code came from.
#[derive(Clone, Copy, Debug, PartialEq, Eq, Structural)]
pub enum NativeCall {
    LoadDriver,
    CreateInstance,
    CreateDebugMessenger,
    EnumerateAdapters,
    CreateSurface,
    QuerySurface,
    CreateDevice,
    CreateSwapchain,
}

/// What can go wrong while the context is brought up. A variant with an `i32`
/// carries the status code of the native call that failed.
#[derive(Debug, PartialEq, Eq)]
pub enum Error {
    /// A name holds the character zero and cannot be handed to the driver.
    InvalidName,
    /// The driver is missing, or refused the instance, a layer or an extension.
    ContextCreation(i32),
    /// The adapters could not be listed.
    AdapterEnumeration(i32),
    /// No adapter passed selection; every adapter is listed with the reason.
    NoSuitableAdapter(Vec<Rejection>),
    /// A required queue role found no family on the chosen adapter.
    IncompleteQueueFamilies,
    /// The platform refused to bind the window.
    SurfaceCreation(i32),
    /// A query against the surface failed.
    SurfaceQuery(i32),
    /// The logical device could not be created.
    DeviceCreation(i32),
    /// The surface offers no format or no present mode.
    InadequateSurface,
    /// The swapchain could not be created.
    ChainCreation(i32),
}

/// The error that stands for a failed native call.
pub open spec fn native_error(call: NativeCall, code: i32) -> Error {
    match call {
        NativeCall::LoadDriver => Error::ContextCreation(code),
        NativeCall::CreateInstance => Error::ContextCreation(code),
        NativeCall::CreateDebugMessenger => Error::ContextCreation(code),
        NativeCall::EnumerateAdapters => Error::AdapterEnumeration(code),
        NativeCall::CreateSurface => Error::SurfaceCreation(code),
        NativeCall::QuerySurface => Error::SurfaceQuery(code),
        NativeCall::CreateDevice => Error::DeviceCreation(code),
        NativeCall::CreateSwapchain => Error::ChainCreation(code),
    }
}

impl Error {
    /// Turns the status code of a failed native call into the error of the
    /// component that made the call.
    pub fn from_native(call: NativeCall, code: i32) -> (r: Error)
        ensures
            r == native_error(call, code),
    {
        match call {
            NativeCall::LoadDriver => Error::ContextCreation(code),
            NativeCall::CreateInstance => Error::ContextCreation(code),
            NativeCall::CreateDebugMessenger => Error::ContextCreation(code),
            NativeCall::EnumerateAdapters => Error::AdapterEnumeration(code),
            NativeCall::CreateSurface => Error::SurfaceCreation(code),
            NativeCall::QuerySurface => Error::SurfaceQuery(code),
            NativeCall::CreateDevice => Error::DeviceCreation(code),
            NativeCall::CreateSwapchain => Error::ChainCreation(code),
        }
    }

    /// Whether bring-up can go on with another adapter or after the window
    /// was made anew; every other error ends it.
    pub open spec fn recoverable(self) -> bool {
        match self {
            Error::IncompleteQueueFamilies => true,
            Error::SurfaceCreation(_) => true,
            Error::ChainCreation(_) => true,
            Error::InadequateSurface => true,
            _ => false,
        }
    }

    /// Tests `recoverable`.
    pub fn is_recoverable(&self) -> (r: bool)
        ensures
            r == self.recoverable(),
    {
        match self {
            Error::IncompleteQueueFamilies => true,
            Error::SurfaceCreation(_) => true,
            Error::ChainCreation(_) => true,
            Error::InadequateSurface => true,
            _ => false,
        }
    }
}

} // verus!
