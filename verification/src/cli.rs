//! The typed options record parsed from the command line.

use vstd::prelude::*;

use crate::error::ThreshError;
use crate::paths::{derived_output, has_path_components, resolve_output_path};

verus! {

/// The options of one invocation, immutable once parsed: the input path, the
/// pixel size, two declared-but-inert mode flags, and an optional explicit
/// output path.
pub struct Cli {
    /// The path to the image to read.
    pub path: String,
    /// Pixel size; it only affects the derived output file name's
    /// `_p{size}` suffix.
    pub size: u8,
    /// Black and white; declared but currently inert.
    pub bw: bool,
    /// No resize; declared but currently inert.
    pub no_resize: bool,
    /// Output path; when absent, the output path is derived from the input
    /// path and the pixel size.
    pub output: Option<String>,
}

impl Cli {
    /// Resolves the output path for these options: the explicit output
    /// verbatim when one was given, else `{parent}/{stem}_p{size}.{ext}`
    /// derived from the input path, else `InvalidPath`.
    pub fn resolve_output_path(&self) -> (r: Result<String, ThreshError>)
        ensures
            self.output is Some ==> r is Ok && r->Ok_0@ == self.output->0@,
            self.output is None && has_path_components(self.path@) ==> r is Ok && r->Ok_0@
                == derived_output(self.path@, self.size),
            self.output is None && !has_path_components(self.path@) ==> r is Err && r->Err_0
                == ThreshError::InvalidPath,
    {
        let explicit: Option<String> = match &self.output {
            Some(s) => Some(s.clone()),
            None => None,
        };
        resolve_output_path(self.path.as_str(), explicit, self.size)
    }
}

} // verus!
