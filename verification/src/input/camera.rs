//! Camera frame source. This build has no V4L2 capture support, so opening
//! a camera always reports the backend as unavailable.

use vstd::prelude::*;

use crate::utils::errors::{ErrorView, MiddlewareError};

verus! {

/// A V4L2 camera source (unavailable in this build).
pub struct CameraInputProvider;

impl CameraInputProvider {
    /// Opening a camera fails: capture support is not built in.
    pub fn new(path: &str) -> (r: Result<CameraInputProvider, MiddlewareError>)
        ensures
            r matches Err(e) && e@ == ErrorView::BackendUnavailable(
                "Camera support requires the `camera` feature flag. Build with: cargo build --features camera"@,
            ),
    {
        Err(
            MiddlewareError::BackendUnavailable(
                String::from_str(
                    "Camera support requires the `camera` feature flag. Build with: cargo build --features camera",
                ),
            ),
        )
    }
}

} // verus!
