//! The application state and its single owner.
//!
//! Every change of the state goes through a method of [`App`]. The methods keep
//! the selection inside the projection and the derived fields in step with it.

use crate::criteria::{FilterCriteria, InputMode, SortCriteria};
use crate::event::Event;
use crate::machine::{clone_text, Machine};
use crate::projection::{filter_machines, filtered, project, projection, sort_machines, sorted};
use crate::text::{decimal, numbered, pop_char, prefixed, push_char, text_view};
use vstd::prelude::*;
use vstd::string::*;

verus! {

/// The application state as a mathematical value.
pub struct AppView {
    /// Whether the event loop goes on.
    pub running: bool,
    /// The credential sent with every request.
    pub htb_api_key: Seq<char>,
    /// The resource collection, as last fetched.
    pub machines: Seq<Machine>,
    /// The selected position in the projection, if any.
    pub selected: Option<int>,
    /// The last status message.
    pub info_message: Seq<char>,
    /// The current filter.
    pub filter_criteria: FilterCriteria,
    /// The current sort key.
    pub sort_criteria: SortCriteria,
    /// The input mode.
    pub input_mode: InputMode,
    /// The free-text buffer.
    pub flag_input: Seq<char>,
    /// Whether free-text entry is on offer for the selected record.
    pub show_input_field: bool,
    /// The address of the selected record.
    pub selected_machine_ip: Option<Seq<char>>,
    /// The identifier of the selected record, when that record is active.
    pub selected_machine_id: Option<u64>,
}

impl AppView {
    /// What the listing shows in this state.
    pub open spec fn listing(self) -> Seq<Machine> {
        projection(self.machines, self.filter_criteria, self.sort_criteria)
    }

    /// The selected record, if the selection points at one.
    pub open spec fn chosen(self) -> Option<Machine> {
        match self.selected {
            Some(i) => if 0 <= i < self.listing().len() {
                Some(self.listing()[i])
            } else {
                None
            },
            None => None,
        }
    }

    /// The state with its derived fields computed anew: free-text entry is on
    /// offer when the selected record is active and the user misses one of its
    /// objectives; the address is that of the selected record; the identifier is
    /// that of the selected record when it is active.
    pub open spec fn derived(self) -> AppView {
        AppView {
            show_input_field: match self.chosen() {
                Some(m) => m.active() && m.unfinished(),
                None => false,
            },
            selected_machine_ip: match self.chosen() {
                Some(m) => text_view(m.ip),
                None => None,
            },
            selected_machine_id: match self.chosen() {
                Some(m) => if m.active() {
                    Some(m.id)
                } else {
                    None
                },
                None => None,
            },
            ..self
        }
    }

    /// The invariant of the state: a selection lies inside the projection, and
    /// the derived fields are those of the selection.
    pub open spec fn wf(self) -> bool {
        &&& (self.selected matches Some(i) ==> 0 <= i < self.listing().len())
        &&& self == self.derived()
    }

    /// The state with the selection set to `s`.
    pub open spec fn select(self, s: Option<int>) -> AppView {
        AppView { selected: s, ..self }.derived()
    }

    /// The selection one step down, wrapping from the last record to the first;
    /// none while the projection is empty.
    pub open spec fn selection_after_next(self) -> Option<int> {
        let len = self.listing().len();
        if len == 0 {
            None
        } else {
            match self.selected {
                Some(i) => if i >= len - 1 {
                    Some(0int)
                } else {
                    Some(i + 1)
                },
                None => Some(0int),
            }
        }
    }

    /// The selection one step up, wrapping from the first record to the last;
    /// none while the projection is empty.
    pub open spec fn selection_after_previous(self) -> Option<int> {
        let len = self.listing().len();
        if len == 0 {
            None
        } else {
            match self.selected {
                Some(i) => if i == 0 {
                    Some(len - 1)
                } else {
                    Some(i - 1)
                },
                None => Some(0int),
            }
        }
    }

    /// The selection after the collection changed: kept where it still points
    /// into the projection, moved to the last record where it points past it,
    /// dropped where the projection is empty.
    pub open spec fn selection_clamped(self) -> Option<int> {
        let len = self.listing().len();
        match self.selected {
            Some(i) => if len == 0 {
                None
            } else if i >= len {
                Some(len - 1)
            } else {
                Some(i)
            },
            None => None,
        }
    }

    /// The state after a move to the next record.
    pub open spec fn moved_next(self) -> AppView {
        self.select(self.selection_after_next())
    }

    /// The state after a move to the previous record.
    pub open spec fn moved_previous(self) -> AppView {
        self.select(self.selection_after_previous())
    }

    /// The state after the filter moved on in its cycle: the selection is dropped.
    pub open spec fn filter_cycled(self) -> AppView {
        AppView { filter_criteria: self.filter_criteria.successor(), ..self }.select(None)
    }

    /// The state after the sort key moved on in its cycle: the selection is
    /// dropped.
    pub open spec fn sort_cycled(self) -> AppView {
        AppView { sort_criteria: self.sort_criteria.successor(), ..self }.select(None)
    }

    /// The state after the collection was replaced by `machines`.
    pub open spec fn reloaded(self, machines: Seq<Machine>) -> AppView {
        let loaded = AppView { machines, ..self };
        loaded.select(loaded.selection_clamped())
    }

    /// The state with another status message.
    pub open spec fn with_message(self, text: Seq<char>) -> AppView {
        AppView { info_message: text, ..self }
    }

    /// The state with another input mode.
    pub open spec fn with_mode(self, mode: InputMode) -> AppView {
        AppView { input_mode: mode, ..self }
    }

    /// The state with another free-text buffer.
    pub open spec fn with_input(self, text: Seq<char>) -> AppView {
        AppView { flag_input: text, ..self }
    }

    /// The state after the command to enter text: the mode changes only where
    /// free-text entry is on offer.
    pub open spec fn text_entered(self) -> AppView {
        if self.show_input_field {
            self.with_mode(InputMode::Flag)
        } else {
            self
        }
    }

    /// The state after a refresh ended with `result`.
    pub open spec fn after_fetch(self, result: Result<Vec<Machine>, String>) -> AppView {
        match result {
            Ok(machines) => self.reloaded(machines@),
            Err(e) => self.with_message(fetch_error_text(e@)),
        }
    }

    /// The state after a start request was made: the status message says so where
    /// the selected record is active already.
    pub open spec fn after_spawn_request(self) -> AppView {
        match self.chosen() {
            Some(m) => if m.active() {
                self.with_message(already_active_text(m.id))
            } else {
                self
            },
            None => self,
        }
    }

    /// Whether `emitted` is what a start request in this state puts on the bus:
    /// the request for the start of its target, or nothing without a target.
    pub open spec fn asks_start(self, emitted: Option<Event>) -> bool {
        match emitted {
            Some(Event::SpawnMachine(id)) => self.spawn_target() == Some(id),
            Some(_) => false,
            None => self.spawn_target().is_none(),
        }
    }

    /// Whether `emitted` is what a submission in this state puts on the bus: the
    /// request to submit the free-text buffer for the selected active record, or
    /// nothing where no such record is selected.
    pub open spec fn asks_submit(self, emitted: Option<Event>) -> bool {
        match emitted {
            Some(Event::SubmitFlag(id, flag)) => self.selected_machine_id == Some(id) && flag@
                == self.flag_input,
            Some(_) => false,
            None => self.selected_machine_id.is_none(),
        }
    }

    /// The identifier that a start request goes out for, if one goes out: that of
    /// the selected record, unless that record is active already.
    pub open spec fn spawn_target(self) -> Option<u64> {
        match self.chosen() {
            Some(m) => if m.active() {
                None
            } else {
                Some(m.id)
            },
            None => None,
        }
    }
}

/// The status message after a failed refresh.
pub open spec fn fetch_error_text(e: Seq<char>) -> Seq<char> {
    "Error fetching machines: "@ + e
}

/// The status message after a failed start request.
pub open spec fn spawn_error_text(e: Seq<char>) -> Seq<char> {
    "Error spawning machine: "@ + e
}

/// The status message after a failed token submission.
pub open spec fn submit_error_text(e: Seq<char>) -> Seq<char> {
    "Error sending flag: "@ + e
}

/// The status message after a start request ended with `result`.
pub open spec fn spawn_result_text(result: Result<String, String>) -> Seq<char> {
    match result {
        Ok(message) => message@,
        Err(e) => spawn_error_text(e@),
    }
}

/// The status message after a token submission ended with `result`.
pub open spec fn submit_result_text(result: Result<String, String>) -> Seq<char> {
    match result {
        Ok(message) => message@,
        Err(e) => submit_error_text(e@),
    }
}

/// Whether `emitted` is what the end of an action puts on the bus: after a
/// success the event that asks for a refresh, after a failure nothing.
pub open spec fn asks_refresh(result: Result<String, String>, emitted: Option<Event>) -> bool {
    if result.is_ok() {
        emitted matches Some(e) && e is UpdateList
    } else {
        emitted.is_none()
    }
}

/// The status message for a start request on a record that is active already.
pub open spec fn already_active_text(id: u64) -> Seq<char> {
    "Machine "@ + decimal(id as nat) + " is already active"@
}

/// Computing the derived fields makes a state with a selection inside the
/// projection well formed, and computing them twice changes nothing more.
pub proof fn lemma_derived_wf(v: AppView)
    ensures
        v.derived().derived() == v.derived(),
        (v.selected matches Some(i) ==> 0 <= i < v.listing().len()) ==> v.derived().wf(),
{
    assert(v.derived().listing() == v.listing());
    assert(v.derived().chosen() == v.chosen());
    assert(v.derived().derived() =~= v.derived());
}

/// Every way in which the selection or the collection changes leaves the state
/// well formed.
pub proof fn lemma_selection_stays_inside(v: AppView, machines: Seq<Machine>)
    requires
        v.wf(),
    ensures
        v.moved_next().wf(),
        v.moved_previous().wf(),
        v.filter_cycled().wf(),
        v.sort_cycled().wf(),
        v.reloaded(machines).wf(),
{
    lemma_derived_wf(AppView { selected: v.selection_after_next(), ..v });
    lemma_derived_wf(AppView { selected: v.selection_after_previous(), ..v });
    lemma_derived_wf(
        AppView { selected: None, ..AppView { filter_criteria: v.filter_criteria.successor(), ..v } },
    );
    lemma_derived_wf(
        AppView { selected: None, ..AppView { sort_criteria: v.sort_criteria.successor(), ..v } },
    );
    let loaded = AppView { machines, ..v };
    lemma_derived_wf(AppView { selected: loaded.selection_clamped(), ..loaded });
}

/// The selection wraps around: from the last record the next is the first, from
/// the first the previous is the last, and over an empty projection it stays
/// none.
pub proof fn lemma_selection_wraps(v: AppView)
    ensures
        v.listing().len() > 0 && v.selected == Some(v.listing().len() - 1)
            ==> v.moved_next().selected == Some(0int),
        v.listing().len() > 0 && v.selected == Some(0int) ==> v.moved_previous().selected == Some(
            v.listing().len() - 1,
        ),
        v.listing().len() == 0 ==> v.moved_next().selected.is_none()
            && v.moved_previous().selected.is_none(),
{
}

/// A change of the filter or of the sort key drops the selection and what is
/// derived from it, whatever was selected before.
pub proof fn lemma_cycle_drops_selection(v: AppView)
    ensures
        v.filter_cycled().selected.is_none(),
        v.sort_cycled().selected.is_none(),
        !v.filter_cycled().show_input_field && !v.sort_cycled().show_input_field,
        v.filter_cycled().selected_machine_id.is_none(),
        v.sort_cycled().selected_machine_id.is_none(),
{
}

/// In a well-formed state the targets of requests are resolved in the
/// projection: a submission goes to the selected record of the listing, if that
/// record is active, and a start goes to it, if that record is not.
pub proof fn lemma_targets_in_projection(v: AppView, id: u64)
    requires
        v.wf(),
    ensures
        v.selected_machine_id == Some(id) <==> (v.chosen() matches Some(m) && m.active() && m.id
            == id),
        v.spawn_target() == Some(id) <==> (v.chosen() matches Some(m) && !m.active() && m.id == id),
        v.chosen() matches Some(m) ==> (v.selected matches Some(i) && m == v.listing()[i]),
{
}

/// Four turns of the filter cycle, or of the sort cycle, bring the criterion
/// back to where it was.
pub proof fn lemma_cycles_close(v: AppView)
    ensures
        v.filter_cycled().filter_cycled().filter_cycled().filter_cycled().filter_criteria
            == v.filter_criteria,
        v.sort_cycled().sort_cycled().sort_cycled().sort_cycled().sort_criteria == v.sort_criteria,
{
}

/// The application state. Its fields are read through the methods below and
/// changed only by the commands.
pub struct App {
    running: bool,
    htb_api_key: String,
    machines: Vec<Machine>,
    selected: Option<usize>,
    info_message: String,
    filter_criteria: FilterCriteria,
    sort_criteria: SortCriteria,
    input_mode: InputMode,
    flag_input: String,
    show_input_field: bool,
    selected_machine_ip: Option<String>,
    selected_machine_id: Option<u64>,
}

impl View for App {
    type V = AppView;

    closed spec fn view(&self) -> AppView {
        AppView {
            running: self.running,
            htb_api_key: self.htb_api_key@,
            machines: self.machines@,
            selected: match self.selected {
                Some(i) => Some(i as int),
                None => None,
            },
            info_message: self.info_message@,
            filter_criteria: self.filter_criteria,
            sort_criteria: self.sort_criteria,
            input_mode: self.input_mode,
            flag_input: self.flag_input@,
            show_input_field: self.show_input_field,
            selected_machine_ip: text_view(self.selected_machine_ip),
            selected_machine_id: self.selected_machine_id,
        }
    }
}

impl App {
    /// A fresh state: running, nothing loaded, nothing selected, no filter,
    /// sorted by difficulty, keystrokes read as commands.
    pub fn new(htb_api_key: String) -> (r: App)
        ensures
            r@ == (AppView {
                running: true,
                htb_api_key: htb_api_key@,
                machines: Seq::empty(),
                selected: None,
                info_message: Seq::empty(),
                filter_criteria: FilterCriteria::NoFilter,
                sort_criteria: SortCriteria::Difficulty,
                input_mode: InputMode::Normal,
                flag_input: Seq::empty(),
                show_input_field: false,
                selected_machine_ip: None,
                selected_machine_id: None,
            }),
            r@.wf(),
    {
        App {
            running: true,
            htb_api_key,
            machines: Vec::new(),
            selected: None,
            info_message: String::new(),
            filter_criteria: FilterCriteria::NoFilter,
            sort_criteria: SortCriteria::Difficulty,
            input_mode: InputMode::Normal,
            flag_input: String::new(),
            show_input_field: false,
            selected_machine_ip: None,
            selected_machine_id: None,
        }
    }

    /// Whether the event loop goes on.
    pub fn running(&self) -> (r: bool)
        ensures
            r == self@.running,
    {
        self.running
    }

    /// The credential sent with every request.
    pub fn htb_api_key(&self) -> (r: &String)
        ensures
            r@ == self@.htb_api_key,
    {
        &self.htb_api_key
    }

    /// The resource collection, as last fetched.
    pub fn machines(&self) -> (r: &Vec<Machine>)
        ensures
            r@ == self@.machines,
    {
        &self.machines
    }

    /// The selected position in the projection, if any.
    pub fn selected(&self) -> (r: Option<usize>)
        ensures
            r.is_some() == self@.selected.is_some(),
            r matches Some(i) ==> self@.selected == Some(i as int),
    {
        self.selected
    }

    /// The last status message.
    pub fn info_message(&self) -> (r: &String)
        ensures
            r@ == self@.info_message,
    {
        &self.info_message
    }

    /// The current filter.
    pub fn filter_criteria(&self) -> (r: FilterCriteria)
        ensures
            r == self@.filter_criteria,
    {
        self.filter_criteria
    }

    /// The current sort key.
    pub fn sort_criteria(&self) -> (r: SortCriteria)
        ensures
            r == self@.sort_criteria,
    {
        self.sort_criteria
    }

    /// The input mode.
    pub fn input_mode(&self) -> (r: InputMode)
        ensures
            r == self@.input_mode,
    {
        self.input_mode
    }

    /// The free-text buffer.
    pub fn flag_input(&self) -> (r: &String)
        ensures
            r@ == self@.flag_input,
    {
        &self.flag_input
    }

    /// Whether free-text entry is on offer for the selected record.
    pub fn show_input_field(&self) -> (r: bool)
        ensures
            r == self@.show_input_field,
    {
        self.show_input_field
    }

    /// The address of the selected record, if it has one.
    pub fn selected_machine_ip(&self) -> (r: Option<String>)
        ensures
            text_view(r) == self@.selected_machine_ip,
    {
        clone_text(&self.selected_machine_ip)
    }

    /// The identifier of the selected record, when that record is active.
    pub fn selected_machine_id(&self) -> (r: Option<u64>)
        ensures
            r == self@.selected_machine_id,
    {
        self.selected_machine_id
    }

    /// Ends the event loop.
    pub fn quit(&mut self)
        ensures
            final(self)@ == (AppView { running: false, ..old(self)@ }),
            old(self)@.wf() ==> final(self)@.wf(),
    {
        self.running = false;
    }

    /// Moves the selection to the next record of the projection, from the last
    /// one to the first.
    pub fn next(&mut self)
        ensures
            final(self)@ == old(self)@.moved_next(),
            final(self)@.wf(),
    {
        let sorted = project(&self.machines, self.filter_criteria, self.sort_criteria);
        let len: usize = sorted.len();
        self.selected = if len == 0 {
            None
        } else {
            match self.selected {
                Some(i) => if i >= len - 1 {
                    Some(0)
                } else {
                    Some(i + 1)
                },
                None => Some(0),
            }
        };
        proof {
            lemma_derived_wf(self@);
        }
        self.update_input_fields();
    }

    /// Moves the selection to the previous record of the projection, from the
    /// first one to the last.
    pub fn previous(&mut self)
        ensures
            final(self)@ == old(self)@.moved_previous(),
            old(self)@.wf() ==> final(self)@.wf(),
    {
        let sorted = project(&self.machines, self.filter_criteria, self.sort_criteria);
        let len: usize = sorted.len();
        self.selected = if len == 0 {
            None
        } else {
            match self.selected {
                Some(i) => if i == 0 {
                    Some(len - 1)
                } else {
                    Some(i - 1)
                },
                None => Some(0),
            }
        };
        proof {
            lemma_derived_wf(self@);
        }
        self.update_input_fields();
    }

    /// The event that asks for a refresh. The state owner does not fetch: it
    /// puts the wish on the bus.
    pub fn request_fetch_machines(&self) -> (r: Event)
        ensures
            r is FetchMachines,
    {
        Event::FetchMachines
    }

    /// Takes in the result of a refresh. A catalog replaces the collection, and a
    /// selection is kept inside the new projection; an error leaves the
    /// collection as it was and becomes the status message.
    pub fn handle_fetch_machines_result(&mut self, result: Result<Vec<Machine>, String>)
        ensures
            final(self)@ == old(self)@.after_fetch(result),
            old(self)@.wf() ==> final(self)@.wf(),
    {
        match result {
            Ok(machines) => {
                self.machines = machines;
                match self.selected {
                    Some(i) => {
                        let sorted = project(
                            &self.machines,
                            self.filter_criteria,
                            self.sort_criteria,
                        );
                        let len: usize = sorted.len();
                        self.selected = if len == 0 {
                            None
                        } else if i >= len {
                            Some(len - 1)
                        } else {
                            Some(i)
                        };
                    },
                    None => {},
                }
                proof {
                    lemma_derived_wf(self@);
                }
                self.update_input_fields();
            },
            Err(e) => {
                self.info_message = prefixed("Error fetching machines: ", e.as_str());
            },
        }
    }

    /// Asks for the selected record to be started. The target is resolved in the
    /// projection as it stands now. Where that record is active already, the
    /// status message says so and no request goes out.
    pub fn request_spawn_machine(&mut self) -> (r: Option<Event>)
        ensures
            final(self)@ == old(self)@.after_spawn_request(),
            old(self)@.wf() ==> final(self)@.wf(),
            old(self)@.asks_start(r),
    {
        match self.selected {
            Some(selected) => {
                let sorted = project(&self.machines, self.filter_criteria, self.sort_criteria);
                if selected < sorted.len() {
                    let machine = &sorted[selected];
                    if machine.is_active() {
                        self.info_message = numbered("Machine ", machine.id, " is already active");
                        None
                    } else {
                        Some(Event::SpawnMachine(machine.id))
                    }
                } else {
                    None
                }
            },
            None => None,
        }
    }

    /// Takes in the result of a start request: the message, or the error behind
    /// a fixed prefix, becomes the status message. After a success the catalog
    /// may have changed, so the event that asks for a refresh is handed back.
    pub fn handle_spawn_machine_result(&mut self, result: Result<String, String>) -> (r: Option<
        Event,
    >)
        ensures
            final(self)@ == old(self)@.with_message(spawn_result_text(result)),
            old(self)@.wf() ==> final(self)@.wf(),
            asks_refresh(result, r),
    {
        match result {
            Ok(message) => {
                self.info_message = message;
                Some(Event::UpdateList)
            },
            Err(e) => {
                self.info_message = prefixed("Error spawning machine: ", e.as_str());
                None
            },
        }
    }

    /// Asks for the free-text buffer to be submitted as the token of the selected
    /// active record; nothing goes out where no such record is selected.
    pub fn request_submit_flag(&self) -> (r: Option<Event>)
        ensures
            self@.asks_submit(r),
    {
        match self.selected_machine_id {
            Some(machine_id) => Some(Event::SubmitFlag(machine_id, self.flag_input.clone())),
            None => None,
        }
    }

    /// Takes in the result of a token submission: the message, or the error
    /// behind a fixed prefix, becomes the status message. The input mode and the
    /// buffer stay as they are. After a success the event that asks for a refresh
    /// is handed back.
    pub fn handle_submit_flag_result(&mut self, result: Result<String, String>) -> (r: Option<
        Event,
    >)
        ensures
            final(self)@ == old(self)@.with_message(submit_result_text(result)),
            old(self)@.wf() ==> final(self)@.wf(),
            asks_refresh(result, r),
    {
        match result {
            Ok(message) => {
                self.info_message = message;
                Some(Event::UpdateList)
            },
            Err(e) => {
                self.info_message = prefixed("Error sending flag: ", e.as_str());
                None
            },
        }
    }

    /// The records of the collection that pass the current filter.
    pub fn filtered_machines(&self) -> (r: Vec<Machine>)
        ensures
            r@ == filtered(self@.machines, self@.filter_criteria),
    {
        filter_machines(&self.machines, self.filter_criteria)
    }

    /// The given records in the order of the current sort key, records with
    /// equal keys in the order given.
    pub fn sorted_machines(&self, machines: Vec<Machine>) -> (r: Vec<Machine>)
        ensures
            r@ == sorted(machines@, self@.sort_criteria),
    {
        sort_machines(machines, self.sort_criteria)
    }

    /// What the listing shows: the filtered records in sorted order.
    pub fn projected_machines(&self) -> (r: Vec<Machine>)
        ensures
            r@ == self@.listing(),
    {
        project(&self.machines, self.filter_criteria, self.sort_criteria)
    }

    /// Moves the filter on in its cycle and drops the selection.
    pub fn cycle_filter(&mut self)
        ensures
            final(self)@ == old(self)@.filter_cycled(),
            final(self)@.wf(),
    {
        self.filter_criteria = self.filter_criteria.next();
        self.selected = None;
        proof {
            lemma_derived_wf(self@);
        }
        self.update_input_fields();
    }

    /// Moves the sort key on in its cycle and drops the selection.
    pub fn cycle_sort(&mut self)
        ensures
            final(self)@ == old(self)@.sort_cycled(),
            final(self)@.wf(),
    {
        self.sort_criteria = self.sort_criteria.next();
        self.selected = None;
        proof {
            lemma_derived_wf(self@);
        }
        self.update_input_fields();
    }

    /// Computes the derived fields anew from the selection and the projection.
    pub fn update_input_fields(&mut self)
        ensures
            final(self)@ == old(self)@.derived(),
            old(self)@.wf() ==> final(self)@.wf(),
    {
        proof {
            lemma_derived_wf(self@);
        }
        match self.selected {
            Some(selected) => {
                let sorted = project(&self.machines, self.filter_criteria, self.sort_criteria);
                if selected < sorted.len() {
                    let machine = &sorted[selected];
                    let active = machine.is_active();
                    self.show_input_field = active && (!machine.auth_user_in_user_owns
                        || !machine.auth_user_in_root_owns);
                    self.selected_machine_ip = clone_text(&machine.ip);
                    self.selected_machine_id = if active {
                        Some(machine.id)
                    } else {
                        None
                    };
                } else {
                    self.show_input_field = false;
                    self.selected_machine_ip = None;
                    self.selected_machine_id = None;
                }
            },
            None => {
                self.show_input_field = false;
                self.selected_machine_ip = None;
                self.selected_machine_id = None;
            },
        }
    }

    /// Switches to free-text entry, but only where it is on offer: the selected
    /// record is active and the user misses one of its objectives.
    pub fn enter_flag_input_mode(&mut self)
        ensures
            final(self)@ == old(self)@.text_entered(),
            old(self)@.wf() ==> final(self)@.wf(),
    {
        if self.show_input_field {
            self.input_mode = InputMode::Flag;
        }
    }

    /// Leaves free-text entry. The buffer keeps its text.
    pub fn leave_flag_input_mode(&mut self)
        ensures
            final(self)@ == old(self)@.with_mode(InputMode::Normal),
            old(self)@.wf() ==> final(self)@.wf(),
    {
        self.input_mode = InputMode::Normal;
    }

    /// Appends a character to the free-text buffer.
    pub fn push_flag_char(&mut self, c: char)
        ensures
            final(self)@ == old(self)@.with_input(old(self)@.flag_input.push(c)),
            old(self)@.wf() ==> final(self)@.wf(),
    {
        push_char(&mut self.flag_input, c);
    }

    /// Removes the last character of the free-text buffer, if there is one.
    pub fn pop_flag_char(&mut self)
        ensures
            final(self)@ == old(self)@.with_input(erased(old(self)@.flag_input)),
            old(self)@.wf() ==> final(self)@.wf(),
    {
        let _ = pop_char(&mut self.flag_input);
    }

    /// Replaces the status message.
    pub fn set_info_message(&mut self, message: String)
        ensures
            final(self)@ == old(self)@.with_message(message@),
            old(self)@.wf() ==> final(self)@.wf(),
    {
        self.info_message = message;
    }
}

/// A text without its last character; the empty text stays empty.
pub open spec fn erased(t: Seq<char>) -> Seq<char> {
    if t.len() == 0 {
        t
    } else {
        t.drop_last()
    }
}

} // verus!
