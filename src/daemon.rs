//! What the daemon command was asked for.
use vstd::prelude::*;
use crate::providers::WindowProvider;

verus! {

#[derive(Clone, Copy, Debug)]
pub struct Args {
    /// The window provider to use instead of detecting one.
    pub provider: Option<WindowProvider>,
}

} // verus!
