//! The closed taxonomy of conditions the argument parser can raise.
use vstd::prelude::*;

verus! {

/// A condition kind raised while parsing command-line input.
///
/// Each kind has a documented payload convention and a fixed override
/// policy: a listener registered for `OutputHelp` supplements the built-in
/// help rendering, while a listener for any other kind replaces the
/// default reaction.
#[derive(PartialEq, Eq, Structural, Clone, Copy, Debug, Hash)]
pub enum Event {
    /// A required argument is missing from the input. The payload carries
    /// the matched command name and the missing argument name. Listeners
    /// override the default behavior.
    MissingRequiredArgument,
    /// An option's value is missing. The payload carries the name of the
    /// missing argument. Listeners override the default behavior.
    OptionMissingArgument,
    /// Help was requested for a single command. The payload carries that
    /// command's name. This kind has no bulk-registration shortcut.
    OutputCommandHelp,
    /// Program-wide help was requested. Listeners supplement, and do not
    /// override, the default help rendering.
    OutputHelp,
    /// The program version was requested. The payload carries the version
    /// text. Listeners override the default behavior.
    OutputVersion,
    /// The input named a command that matches nothing in the program. The
    /// payload carries the unrecognized name. Listeners override the
    /// default behavior.
    UnknownCommand,
    /// An unknown flag or option was passed. The payload carries the
    /// unknown option. Listeners override the default behavior.
    UnknownOption,
    /// An argument could not be resolved. This kind has no
    /// bulk-registration shortcut.
    UnresolvedArgument,
}

} // verus!
