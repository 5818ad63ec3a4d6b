//! The per-emission payload and its fluent builder.
use vstd::prelude::*;

use crate::command::Command;
use crate::event::Event;

verus! {

/// Mathematical model of an [`EventConfig`]: every field as a plain value.
#[verifier::ext_equal]
pub ghost struct EventConfigView {
    pub args: Seq<Seq<char>>,
    pub arg_count: nat,
    pub error_string: Seq<char>,
    pub exit_code: nat,
    pub event_type: Event,
    pub matched_cmd: Option<Seq<char>>,
    pub additional_info: Seq<char>,
    pub program_ref: Seq<char>,
}

impl EventConfigView {
    /// The fully-specified default payload: help event, exit code zero,
    /// empty text and arguments, no matched command, a placeholder
    /// program reference.
    pub open spec fn initial() -> Self {
        EventConfigView {
            args: Seq::empty(),
            arg_count: 0,
            error_string: Seq::empty(),
            exit_code: 0,
            event_type: Event::OutputHelp,
            matched_cmd: None,
            additional_info: Seq::empty(),
            program_ref: "none"@,
        }
    }
}

/// The payload for one raised condition: the data handed to every
/// listener that dispatch invokes.
///
/// Built from [`EventConfig::default`] by a fluent sequence of setters;
/// each setter consumes the payload and returns it with exactly one field
/// replaced, so setter composition commutes except between setters of the
/// same field, where the last write wins.
#[derive(Debug)]
pub struct EventConfig {
    args: Vec<String>,
    arg_count: usize,
    error_string: String,
    exit_code: usize,
    event_type: Event,
    matched_cmd: Option<Command>,
    additional_info: String,
    program_ref: Command,
}

impl View for EventConfig {
    type V = EventConfigView;

    closed spec fn view(&self) -> EventConfigView {
        EventConfigView {
            args: self.args.deep_view(),
            arg_count: self.arg_count as nat,
            error_string: self.error_string@,
            exit_code: self.exit_code as nat,
            event_type: self.event_type,
            matched_cmd: match self.matched_cmd {
                Some(c) => Some(c@),
                None => None,
            },
            additional_info: self.additional_info@,
            program_ref: self.program_ref@,
        }
    }
}

impl Clone for EventConfig {
    /// An independent copy of the payload: what dispatch hands to each
    /// listener so none observes another's mutations.
    fn clone(&self) -> (r: Self)
        ensures
            r@ == self@,
    {
        EventConfig {
            args: clone_string_vec(&self.args),
            arg_count: self.arg_count,
            error_string: self.error_string.clone(),
            exit_code: self.exit_code,
            event_type: self.event_type,
            matched_cmd: match &self.matched_cmd {
                Some(c) => Some(c.clone()),
                None => None,
            },
            additional_info: self.additional_info.clone(),
            program_ref: self.program_ref.clone(),
        }
    }
}

/// An element-wise copy of a vector of strings.
fn clone_string_vec(v: &Vec<String>) -> (r: Vec<String>)
    ensures
        r@ == v@,
{
    let mut r: Vec<String> = Vec::new();
    let mut i: usize = 0;
    while i < v.len()
        invariant
            i <= v.len(),
            r@ =~= v@.take(i as int),
        decreases v.len() - i,
    {
        r.push(v[i].clone());
        proof {
            assert(r@ =~= v@.take(i + 1));
        }
        i = i + 1;
    }
    proof {
        assert(r@ =~= v@);
    }
    r
}

impl Default for EventConfig {
    /// A fresh, deterministic, fully-specified payload; dispatch sites
    /// build one of these per detected condition.
    fn default() -> (r: Self)
        ensures
            r@ == EventConfigView::initial(),
    {
        let r = EventConfig {
            args: Vec::new(),
            arg_count: 0,
            error_string: String::new(),
            exit_code: 0,
            event_type: Event::OutputHelp,
            matched_cmd: None,
            additional_info: String::new(),
            program_ref: Command::new("none"),
        };
        proof {
            assert(r@.args =~= EventConfigView::initial().args);
            assert(r@ =~= EventConfigView::initial());
        }
        r
    }
}

impl EventConfig {
    /// An independent copy of the argument strings.
    pub fn get_args(&self) -> (r: Vec<String>)
        ensures
            r.deep_view() == self@.args,
    {
        clone_string_vec(&self.args)
    }

    /// The condition kind this payload describes.
    pub fn get_event(&self) -> (r: Event)
        ensures
            r == self@.event_type,
    {
        self.event_type
    }

    /// The root command/program entity the payload was built against.
    pub fn get_program(&self) -> (r: &Command)
        ensures
            r@ == self@.program_ref,
    {
        &self.program_ref
    }

    /// The exit code dispatch terminates with after listeners run.
    pub fn get_exit_code(&self) -> (r: usize)
        ensures
            r == self@.exit_code,
    {
        self.exit_code
    }

    /// The error or message text carried for the condition.
    pub fn get_error_str(&self) -> (r: &str)
        ensures
            r@ == self@.error_string,
    {
        self.error_string.as_str()
    }

    /// The matched command, if the condition concerned one.
    pub fn get_matched_cmd(&self) -> (r: Option<&Command>)
        ensures
            match r {
                Some(c) => self@.matched_cmd == Some(c@),
                None => self@.matched_cmd is None,
            },
    {
        match &self.matched_cmd {
            Some(c) => Some(c),
            None => None,
        }
    }

    /// Replaces the argument strings, leaving every other field as it was.
    pub fn args(self, args: Vec<String>) -> (r: Self)
        ensures
            r@ == (EventConfigView { args: args.deep_view(), ..self@ }),
    {
        EventConfig { args, ..self }
    }

    /// Replaces the argument count, leaving every other field as it was.
    pub fn arg_c(self, count: usize) -> (r: Self)
        ensures
            r@ == (EventConfigView { arg_count: count as nat, ..self@ }),
    {
        EventConfig { arg_count: count, ..self }
    }

    /// Replaces the exit code, leaving every other field as it was.
    pub fn exit_code(self, code: usize) -> (r: Self)
        ensures
            r@ == (EventConfigView { exit_code: code as nat, ..self@ }),
    {
        EventConfig { exit_code: code, ..self }
    }

    /// Replaces the error text, leaving every other field as it was.
    pub fn error_str(self, val: String) -> (r: Self)
        ensures
            r@ == (EventConfigView { error_string: val@, ..self@ }),
    {
        EventConfig { error_string: val, ..self }
    }

    /// Replaces the condition kind, leaving every other field as it was.
    pub fn set_event(self, event: Event) -> (r: Self)
        ensures
            r@ == (EventConfigView { event_type: event, ..self@ }),
    {
        EventConfig { event_type: event, ..self }
    }

    /// Records the matched command, leaving every other field as it was.
    pub fn set_matched_cmd(self, cmd: &Command) -> (r: Self)
        ensures
            r@ == (EventConfigView { matched_cmd: Some(cmd@), ..self@ }),
    {
        EventConfig { matched_cmd: Some(cmd.clone()), ..self }
    }

    /// Replaces the additional-info text, leaving every other field as it
    /// was.
    pub fn info(self, info: &str) -> (r: Self)
        ensures
            r@ == (EventConfigView { additional_info: info@, ..self@ }),
    {
        EventConfig { additional_info: info.to_owned(), ..self }
    }

    /// Replaces the program reference, leaving every other field as it
    /// was.
    pub fn program(self, p_ref: Command) -> (r: Self)
        ensures
            r@ == (EventConfigView { program_ref: p_ref@, ..self@ }),
    {
        EventConfig { program_ref: p_ref, ..self }
    }
}

} // verus!
