//! The listener registry and the priority-ordered dispatcher.
use vstd::prelude::*;

use crate::config::EventConfig;
use crate::event::Event;
use crate::ordering::first_at;
use crate::ordering::lemma_first_at_props;
use crate::ordering::sort_by_priority;
use crate::ordering::sorted_copy;
use crate::ordering::without_first_at;

verus! {

/// The list registered for a kind, or the empty list where none is.
pub open spec fn registered<L>(m: Map<Event, Seq<(L, i32)>>, e: Event) -> Seq<(L, i32)> {
    if m.contains_key(e) {
        m[e]
    } else {
        Seq::empty()
    }
}

/// The six kinds the bulk-registration shortcut covers. It deliberately
/// excludes `OutputCommandHelp` and `UnresolvedArgument`, which must be
/// wired individually.
pub open spec fn bulk_kinds() -> Set<Event> {
    set![
        Event::OutputHelp,
        Event::OutputVersion,
        Event::MissingRequiredArgument,
        Event::OptionMissingArgument,
        Event::UnknownCommand,
        Event::UnknownOption,
    ]
}

/// The four error kinds the error-only shortcut covers.
pub open spec fn error_kinds() -> Set<Event> {
    set![
        Event::MissingRequiredArgument,
        Event::OptionMissingArgument,
        Event::UnknownCommand,
        Event::UnknownOption,
    ]
}

/// The registry after `(cb, pstn)` is appended to every kind in `ks`,
/// creating a list where a kind had none; kinds outside `ks` keep their
/// lists.
pub open spec fn extended<L>(
    m: Map<Event, Seq<(L, i32)>>,
    ks: Set<Event>,
    cb: L,
    pstn: i32,
) -> Map<Event, Seq<(L, i32)>> {
    Map::new(
        |e: Event| m.contains_key(e) || ks.contains(e),
        |e: Event|
            if ks.contains(e) {
                registered(m, e).push((cb, pstn))
            } else {
                m[e]
            },
    )
}

/// What a bulk registration does to each single kind: a kind in `ks`
/// gets `(cb, pstn)` appended to its list (created where absent), and a
/// kind outside `ks` keeps its list — and its absence — untouched.
pub proof fn lemma_extended_per_kind<L>(
    m: Map<Event, Seq<(L, i32)>>,
    ks: Set<Event>,
    cb: L,
    pstn: i32,
    e: Event,
)
    ensures
        ks.contains(e) ==> extended(m, ks, cb, pstn).contains_key(e) && extended(m, ks, cb, pstn)[e]
            == registered(m, e).push((cb, pstn)),
        !ks.contains(e) ==> (extended(m, ks, cb, pstn).contains_key(e) <==> m.contains_key(e)),
        !ks.contains(e) && m.contains_key(e) ==> extended(m, ks, cb, pstn)[e] == m[e],
{
}

/// The bulk shortcut covers exactly six kinds: help, version, and the
/// four error kinds. `OutputCommandHelp` and `UnresolvedArgument` are
/// outside it.
pub proof fn lemma_bulk_kinds_membership()
    ensures
        bulk_kinds().contains(Event::OutputHelp),
        bulk_kinds().contains(Event::OutputVersion),
        bulk_kinds().contains(Event::MissingRequiredArgument),
        bulk_kinds().contains(Event::OptionMissingArgument),
        bulk_kinds().contains(Event::UnknownCommand),
        bulk_kinds().contains(Event::UnknownOption),
        !bulk_kinds().contains(Event::OutputCommandHelp),
        !bulk_kinds().contains(Event::UnresolvedArgument),
{
}

/// The error-only shortcut covers exactly the four error kinds.
pub proof fn lemma_error_kinds_membership()
    ensures
        error_kinds().contains(Event::MissingRequiredArgument),
        error_kinds().contains(Event::OptionMissingArgument),
        error_kinds().contains(Event::UnknownCommand),
        error_kinds().contains(Event::UnknownOption),
        !error_kinds().contains(Event::OutputHelp),
        !error_kinds().contains(Event::OutputVersion),
        !error_kinds().contains(Event::OutputCommandHelp),
        !error_kinds().contains(Event::UnresolvedArgument),
{
}

/// What one dispatch call decides: either no list is registered for the
/// raised kind and control continues with the caller's default behavior,
/// or the process must terminate with the payload's exit code after the
/// listed invocations run in order.
pub enum DispatchOutcome<L> {
    /// No list is registered for the raised kind. Dispatch is a no-op;
    /// the caller remains responsible for the default behavior.
    Continue,
    /// Every registration for the raised kind, stably sorted by
    /// ascending priority: the order in which the listeners must run,
    /// each with its own copy of the payload, before the process
    /// terminates with `exit_code`.
    Terminate { listeners: Vec<(L, i32)>, exit_code: usize },
}

/// The registry mapping each condition kind to its registered listeners.
///
/// `L` is the listener handle — an opaque callable reference; the
/// dispatcher never invokes one itself, it only decides which run and in
/// what order. One instance is owned by the top-level program entity:
/// created empty, mutated by registration and removal during setup, read
/// by dispatch.
#[derive(Clone)]
pub struct EventEmitter<L> {
    missing_required_argument: Option<Vec<(L, i32)>>,
    option_missing_argument: Option<Vec<(L, i32)>>,
    output_command_help: Option<Vec<(L, i32)>>,
    output_help: Option<Vec<(L, i32)>>,
    output_version: Option<Vec<(L, i32)>>,
    unknown_command: Option<Vec<(L, i32)>>,
    unknown_option: Option<Vec<(L, i32)>>,
    unresolved_argument: Option<Vec<(L, i32)>>,
}

/// The registrations a slot holds, as a sequence.
spec fn stored<L>(o: Option<Vec<(L, i32)>>) -> Seq<(L, i32)> {
    match o {
        Some(v) => v@,
        None => Seq::empty(),
    }
}

/// A slot's contents, `None` where no list was ever registered.
spec fn slot_view<L>(o: Option<Vec<(L, i32)>>) -> Option<Seq<(L, i32)>> {
    match o {
        Some(v) => Some(v@),
        None => None,
    }
}

impl<L> EventEmitter<L> {
    /// The slot for one condition kind.
    closed spec fn slot(&self, e: Event) -> Option<Seq<(L, i32)>> {
        match e {
            Event::MissingRequiredArgument => slot_view(self.missing_required_argument),
            Event::OptionMissingArgument => slot_view(self.option_missing_argument),
            Event::OutputCommandHelp => slot_view(self.output_command_help),
            Event::OutputHelp => slot_view(self.output_help),
            Event::OutputVersion => slot_view(self.output_version),
            Event::UnknownCommand => slot_view(self.unknown_command),
            Event::UnknownOption => slot_view(self.unknown_option),
            Event::UnresolvedArgument => slot_view(self.unresolved_argument),
        }
    }
}

impl<L> View for EventEmitter<L> {
    type V = Map<Event, Seq<(L, i32)>>;

    /// The registry as a map: a kind is in the domain exactly when a
    /// list was registered for it (possibly since emptied by removals).
    closed spec fn view(&self) -> Map<Event, Seq<(L, i32)>> {
        Map::new(|e: Event| self.slot(e) is Some, |e: Event| self.slot(e)->0)
    }
}

/// Appends `(cb, pstn)` to a slot, creating the list where none is.
fn push_slot<L>(slot: &mut Option<Vec<(L, i32)>>, cb: L, pstn: i32)
    ensures
        *final(slot) is Some,
        stored(*final(slot)) == stored(*old(slot)).push((cb, pstn)),
{
    match slot {
        Some(v) => {
            v.push((cb, pstn));
        },
        None => {
            let mut v: Vec<(L, i32)> = Vec::new();
            v.push((cb, pstn));
            proof {
                assert(v@ =~= Seq::<(L, i32)>::empty().push((cb, pstn)));
            }
            *slot = Some(v);
        },
    }
}

/// Appends `(cb, pstn)` to a slot only where a list is already present.
fn push_if_present<L>(slot: &mut Option<Vec<(L, i32)>>, cb: L, pstn: i32)
    ensures
        *old(slot) is Some ==> *final(slot) is Some && stored(*final(slot)) == stored(
            *old(slot),
        ).push((cb, pstn)),
        *old(slot) is None ==> *final(slot) is None,
{
    match slot {
        Some(v) => {
            v.push((cb, pstn));
        },
        None => {},
    }
}

/// Removes the first entry at priority `val` from a slot, if any.
fn remove_first_slot<L>(slot: &mut Option<Vec<(L, i32)>>, val: i32)
    ensures
        *old(slot) is None ==> *final(slot) is None,
        *old(slot) is Some ==> *final(slot) is Some && stored(*final(slot)) == without_first_at(
            stored(*old(slot)),
            val,
        ),
{
    match slot {
        Some(v) => {
            let mut j: usize = 0;
            while j < v.len() && v[j].1 != val
                invariant
                    j <= v.len(),
                    forall|i: int| 0 <= i < j ==> v@[i].1 != val,
                decreases v.len() - j,
            {
                j = j + 1;
            }
            proof {
                lemma_first_at_props(v@, val);
                let fa = first_at(v@, val);
                assert(j == fa) by {
                    if j < fa {
                        assert(v@[j as int].1 == val);
                    }
                    if fa < j {
                        assert(v@[fa].1 != val);
                    }
                }
            }
            if j < v.len() {
                v.remove(j);
            }
        },
        None => {},
    }
}

impl<L: Copy> EventEmitter<L> {
    /// A registry with nothing registered.
    pub fn new() -> (r: Self)
        ensures
            r@ == Map::<Event, Seq<(L, i32)>>::empty(),
    {
        let r = EventEmitter {
            missing_required_argument: None,
            option_missing_argument: None,
            output_command_help: None,
            output_help: None,
            output_version: None,
            unknown_command: None,
            unknown_option: None,
            unresolved_argument: None,
        };
        proof {
            assert(r@ =~= Map::<Event, Seq<(L, i32)>>::empty());
        }
        r
    }

    /// Registers `cb` at priority `pstn` for `event`, appending to that
    /// kind's list and creating it where absent. Nothing is deduplicated:
    /// registering the same listener twice yields two invocations.
    /// Ordering is resolved only at dispatch time.
    pub fn on(&mut self, event: Event, cb: L, pstn: i32)
        ensures
            final(self)@ == old(self)@.insert(
                event,
                registered(old(self)@, event).push((cb, pstn)),
            ),
    {
        match event {
            Event::MissingRequiredArgument => push_slot(
                &mut self.missing_required_argument,
                cb,
                pstn,
            ),
            Event::OptionMissingArgument => push_slot(&mut self.option_missing_argument, cb, pstn),
            Event::OutputCommandHelp => push_slot(&mut self.output_command_help, cb, pstn),
            Event::OutputHelp => push_slot(&mut self.output_help, cb, pstn),
            Event::OutputVersion => push_slot(&mut self.output_version, cb, pstn),
            Event::UnknownCommand => push_slot(&mut self.unknown_command, cb, pstn),
            Event::UnknownOption => push_slot(&mut self.unknown_option, cb, pstn),
            Event::UnresolvedArgument => push_slot(&mut self.unresolved_argument, cb, pstn),
        }
        proof {
            assert(self@ =~= old(self)@.insert(
                event,
                registered(old(self)@, event).push((cb, pstn)),
            ));
        }
    }

    /// Resolves dispatch for the payload's kind. Where no list is
    /// registered, the outcome is [`DispatchOutcome::Continue`] and the
    /// process must not terminate. Where one is, the outcome lists every
    /// registration for that kind, stably sorted by ascending priority,
    /// with the payload's exit code as the termination directive.
    pub fn emit(&self, cfg: &EventConfig) -> (out: DispatchOutcome<L>)
        ensures
            self@.contains_key(cfg@.event_type) <==> out is Terminate,
            out matches DispatchOutcome::Terminate { listeners, exit_code } ==> listeners@
                == sort_by_priority(self@[cfg@.event_type]) && exit_code == cfg@.exit_code,
    {
        let event = cfg.get_event();
        match self.slot_ref(event) {
            Some(list) => {
                let listeners = sorted_copy(list);
                DispatchOutcome::Terminate { listeners, exit_code: cfg.get_exit_code() }
            },
            None => DispatchOutcome::Continue,
        }
    }

    /// Registers `cb` at priority −5 for every kind currently present in
    /// the registry; on an empty registry it falls back to the six-kind
    /// bulk shortcut instead. The kinds covered therefore depend on the
    /// registry's state at call time.
    pub fn insert_before_all(&mut self, cb: L)
        ensures
            old(self)@ == Map::<Event, Seq<(L, i32)>>::empty() ==> final(self)@ == extended(
                old(self)@,
                bulk_kinds(),
                cb,
                -5i32,
            ),
            old(self)@ != Map::<Event, Seq<(L, i32)>>::empty() ==> final(self)@ == extended(
                old(self)@,
                old(self)@.dom(),
                cb,
                -5i32,
            ),
    {
        if self.has_no_kinds() {
            self.on_all(cb, -5);
        } else {
            self.push_present(cb, -5);
        }
    }

    /// Registers `cb` at priority 5 for every kind currently present in
    /// the registry; on an empty registry it falls back to the six-kind
    /// bulk shortcut instead. The kinds covered therefore depend on the
    /// registry's state at call time.
    pub fn insert_after_all(&mut self, cb: L)
        ensures
            old(self)@ == Map::<Event, Seq<(L, i32)>>::empty() ==> final(self)@ == extended(
                old(self)@,
                bulk_kinds(),
                cb,
                5i32,
            ),
            old(self)@ != Map::<Event, Seq<(L, i32)>>::empty() ==> final(self)@ == extended(
                old(self)@,
                old(self)@.dom(),
                cb,
                5i32,
            ),
    {
        if self.has_no_kinds() {
            self.on_all(cb, 5);
        } else {
            self.push_present(cb, 5);
        }
    }

    /// Registers `cb` at `pstn` for exactly the six kinds of
    /// [`bulk_kinds`]: help, version, and the four error kinds.
    /// `OutputCommandHelp` and `UnresolvedArgument` are excluded.
    pub fn on_all(&mut self, cb: L, pstn: i32)
        ensures
            final(self)@ == extended(old(self)@, bulk_kinds(), cb, pstn),
    {
        self.on(Event::OutputHelp, cb, pstn);
        self.on(Event::OutputVersion, cb, pstn);
        self.on_all_errors(cb, pstn);
        proof {
            assert(self@ =~= extended(old(self)@, bulk_kinds(), cb, pstn));
        }
    }

    /// Registers `cb` at `pstn` for exactly the four error kinds of
    /// [`error_kinds`].
    pub fn on_all_errors(&mut self, cb: L, pstn: i32)
        ensures
            final(self)@ == extended(old(self)@, error_kinds(), cb, pstn),
    {
        self.on(Event::MissingRequiredArgument, cb, pstn);
        self.on(Event::OptionMissingArgument, cb, pstn);
        self.on(Event::UnknownCommand, cb, pstn);
        self.on(Event::UnknownOption, cb, pstn);
        proof {
            assert(self@ =~= extended(old(self)@, error_kinds(), cb, pstn));
        }
    }

    /// Removes the first entry registered for `event` whose priority
    /// equals `val`: exactly one matching entry per call, so other
    /// entries at the same priority stay.
    pub fn rm_lstnr_idx(&mut self, event: Event, val: i32)
        ensures
            !old(self)@.contains_key(event) ==> final(self)@ == old(self)@,
            old(self)@.contains_key(event) ==> final(self)@ == old(self)@.insert(
                event,
                without_first_at(old(self)@[event], val),
            ),
    {
        match event {
            Event::MissingRequiredArgument => remove_first_slot(
                &mut self.missing_required_argument,
                val,
            ),
            Event::OptionMissingArgument => remove_first_slot(
                &mut self.option_missing_argument,
                val,
            ),
            Event::OutputCommandHelp => remove_first_slot(&mut self.output_command_help, val),
            Event::OutputHelp => remove_first_slot(&mut self.output_help, val),
            Event::OutputVersion => remove_first_slot(&mut self.output_version, val),
            Event::UnknownCommand => remove_first_slot(&mut self.unknown_command, val),
            Event::UnknownOption => remove_first_slot(&mut self.unknown_option, val),
            Event::UnresolvedArgument => remove_first_slot(&mut self.unresolved_argument, val),
        }
        proof {
            if old(self)@.contains_key(event) {
                assert(self@ =~= old(self)@.insert(
                    event,
                    without_first_at(old(self)@[event], val),
                ));
            } else {
                assert(self@ =~= old(self)@);
            }
        }
    }

    /// The slot holding `event`'s list.
    fn slot_ref(&self, event: Event) -> (r: &Option<Vec<(L, i32)>>)
        ensures
            slot_view(*r) == self.slot(event),
    {
        match event {
            Event::MissingRequiredArgument => &self.missing_required_argument,
            Event::OptionMissingArgument => &self.option_missing_argument,
            Event::OutputCommandHelp => &self.output_command_help,
            Event::OutputHelp => &self.output_help,
            Event::OutputVersion => &self.output_version,
            Event::UnknownCommand => &self.unknown_command,
            Event::UnknownOption => &self.unknown_option,
            Event::UnresolvedArgument => &self.unresolved_argument,
        }
    }

    /// Whether no kind is present in the registry.
    fn has_no_kinds(&self) -> (r: bool)
        ensures
            r <==> self@ == Map::<Event, Seq<(L, i32)>>::empty(),
    {
        let r = self.missing_required_argument.is_none() && self.option_missing_argument.is_none()
            && self.output_command_help.is_none() && self.output_help.is_none()
            && self.output_version.is_none() && self.unknown_command.is_none()
            && self.unknown_option.is_none() && self.unresolved_argument.is_none();
        proof {
            if r {
                assert(self@ =~= Map::<Event, Seq<(L, i32)>>::empty());
            } else {
                if self.missing_required_argument is Some {
                    assert(self@.contains_key(Event::MissingRequiredArgument));
                }
                if self.option_missing_argument is Some {
                    assert(self@.contains_key(Event::OptionMissingArgument));
                }
                if self.output_command_help is Some {
                    assert(self@.contains_key(Event::OutputCommandHelp));
                }
                if self.output_help is Some {
                    assert(self@.contains_key(Event::OutputHelp));
                }
                if self.output_version is Some {
                    assert(self@.contains_key(Event::OutputVersion));
                }
                if self.unknown_command is Some {
                    assert(self@.contains_key(Event::UnknownCommand));
                }
                if self.unknown_option is Some {
                    assert(self@.contains_key(Event::UnknownOption));
                }
                if self.unresolved_argument is Some {
                    assert(self@.contains_key(Event::UnresolvedArgument));
                }
            }
        }
        r
    }

    /// Appends `(cb, pstn)` to every kind currently present.
    fn push_present(&mut self, cb: L, pstn: i32)
        ensures
            final(self)@ == extended(old(self)@, old(self)@.dom(), cb, pstn),
    {
        push_if_present(&mut self.missing_required_argument, cb, pstn);
        push_if_present(&mut self.option_missing_argument, cb, pstn);
        push_if_present(&mut self.output_command_help, cb, pstn);
        push_if_present(&mut self.output_help, cb, pstn);
        push_if_present(&mut self.output_version, cb, pstn);
        push_if_present(&mut self.unknown_command, cb, pstn);
        push_if_present(&mut self.unknown_option, cb, pstn);
        push_if_present(&mut self.unresolved_argument, cb, pstn);
        proof {
            assert(self@ =~= extended(old(self)@, old(self)@.dom(), cb, pstn));
        }
    }
}

impl<L: Copy> Default for EventEmitter<L> {
    /// The same empty registry [`EventEmitter::new`] makes.
    fn default() -> (r: Self)
        ensures
            r@ == Map::<Event, Seq<(L, i32)>>::empty(),
    {
        Self::new()
    }
}

} // verus!
