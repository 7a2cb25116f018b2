//! The names under which the bindings are known to a script.
//!
//! A script calls `is_set(name)`, `get(name)`, `set(name, value)` with a string, a boolean
//! or an array, and `prompt(..)` in its five forms. Whoever registers the bindings with a
//! scripting engine registers them under these names.

use vstd::prelude::*;

verus! {

/// The existence check: one name, gives a boolean.
pub const IS_SET: &'static str = "is_set";

/// The read: one name, gives a boolean or a string.
pub const GET: &'static str = "get";

/// The write, in its three forms: a name and a string, a boolean or an array.
pub const SET: &'static str = "set";

/// The prompt, in its five forms: a message alone; with a default string; with a default
/// string and a pattern; with a default string and a list of choices; with a default
/// boolean.
pub const PROMPT: &'static str = "prompt";

} // verus!
