//! The error kind of the configuration subsystem.

use vstd::prelude::*;

verus! {

/// Why a configuration was not accepted.
///
/// There is one kind for every cause: an unreadable source, text that does not
/// decode, and each violated structural rule.
#[derive(Clone, Copy, Debug, PartialEq, Eq, Structural)]
pub enum ConfigError {
    BadConfig,
}

} // verus!
