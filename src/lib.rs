// Turns a directory and an entry point into one self-extracting binary: a
// runner stub whose configuration block is patched in place, followed by the
// compressed directory and a trailer that locates it.
use vstd::prelude::*;

// decisions of a running binary: cache reuse, clean-up, exit codes
pub mod bootstrap;
// inputs of a composition and the supported architectures
pub mod compose;
// the configuration block and the patching of runner images
pub mod marker;
// reading the configuration block back
pub mod options;
// layout of a composed binary and the trailer that locates its payload
pub mod trailer;

verus! {

} // verus!
