//! Bindings between hook scripts and the template variable store.
//!
//! A hook script reads, creates and changes the variables that a template is later
//! rendered with, and may prompt the user for a value. This library holds the rules of
//! those bindings, each as a function over the store with a contract that Verus proves:
//!
//! - [`read`]: how a variable reads (as a boolean, as a string, or as not existing), and
//!   the bindings `is_set` and `get`;
//! - [`write`]: the three forms of `set`, which keep a variable to the kind it has and take
//!   an array once only;
//! - [`convert`]: the conversion of a script's value into a value of the store;
//! - [`prompt`]: the five forms of `prompt`, each as the question for the prompter and the
//!   reading of its answer;
//! - [`script`]: values as a script hands them over;
//! - [`value`]: the store and its values, which are those of `liquid`;
//! - [`error`]: the failures, and the text that a script sees for each;
//! - [`names`]: the names under which a script calls the bindings.
//!
//! The store is a `liquid::Object`, handed in by the caller for each call. Registering the
//! bindings with a scripting engine, sharing the store among them and asking the user are
//! left to the caller.

pub mod convert;
pub mod error;
pub mod names;
pub mod prompt;
pub mod read;
pub mod script;
pub mod value;
pub mod write;
