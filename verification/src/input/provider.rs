//! Frame sources of the edge client. A file source yields its image once;
//! decoding the file is the caller's part, and its outcome is handed back.

use vstd::prelude::*;

use crate::utils::errors::{ErrorView, MiddlewareError};
use crate::utils::text::concat3;

verus! {

/// One RGB frame: `width * height * 3` bytes, row-major.
#[derive(Debug)]
pub struct FrameData {
    pub rgb_data: Vec<u8>,
    pub width: u32,
    pub height: u32,
}

impl Clone for FrameData {
    fn clone(&self) -> (c: FrameData)
        ensures
            c.rgb_data@ == self.rgb_data@,
            c.width == self.width,
            c.height == self.height,
    {
        FrameData { rgb_data: self.rgb_data.clone(), width: self.width, height: self.height }
    }
}

/// A single image file used as a one-shot frame source.
#[derive(Debug)]
pub struct FileInputProvider {
    path: String,
    consumed: bool,
}

impl FileInputProvider {
    /// The file's path.
    pub closed spec fn path_of(&self) -> Seq<char> {
        self.path@
    }

    /// Whether the frame has been delivered.
    pub closed spec fn consumed_spec(&self) -> bool {
        self.consumed
    }

    /// A source for the image at `path`, not yet consumed.
    pub fn new(path: &str) -> (p: FileInputProvider)
        ensures
            p.path_of() == path@,
            !p.consumed_spec(),
    {
        FileInputProvider { path: String::from_str(path), consumed: false }
    }

    /// The source's name: the file path.
    pub fn source_name(&self) -> (s: &str)
        ensures
            s@ == self.path_of(),
    {
        self.path.as_str()
    }

    /// A file is not a stream.
    pub fn is_streaming(&self) -> (b: bool)
        ensures
            !b,
    {
        false
    }

    /// Whether the frame has been delivered.
    pub fn is_consumed(&self) -> (b: bool)
        ensures
            b == self.consumed_spec(),
    {
        self.consumed
    }

    /// Whether the next request needs the file decoded: only while the
    /// frame has not been delivered.
    pub fn wants_frame(&self) -> (b: bool)
        ensures
            b == !self.consumed_spec(),
    {
        !self.consumed
    }

    /// Finishes a frame request. Once consumed, the source is exhausted
    /// (`Ok(None)`) whatever `decoded` holds. Otherwise a decoded frame is
    /// delivered and consumes the source, and a decoding failure (its
    /// reason) is reported without consuming it, so the request can be
    /// retried.
    pub fn complete_frame(&mut self, decoded: Result<FrameData, String>) -> (r: Result<
        Option<FrameData>,
        MiddlewareError,
    >)
        ensures
            final(self).path_of() == old(self).path_of(),
            old(self).consumed_spec() ==> (r matches Ok(None) && final(self).consumed_spec()),
            !old(self).consumed_spec() ==> match decoded {
                Ok(f) => r == Ok::<Option<FrameData>, MiddlewareError>(Some(f))
                    && final(self).consumed_spec(),
                Err(reason) => (r matches Err(e) && e@ == ErrorView::ImageLoadFailed(
                    old(self).path_of() + ": "@ + reason@,
                )) && !final(self).consumed_spec(),
            },
    {
        if self.consumed {
            return Ok(None);
        }
        match decoded {
            Ok(f) => {
                self.consumed = true;
                Ok(Some(f))
            },
            Err(reason) => Err(
                MiddlewareError::ImageLoadFailed(
                    concat3(self.path.as_str(), ": ", reason.as_str()),
                ),
            ),
        }
    }
}

} // verus!
