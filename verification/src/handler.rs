//! How key presses and bus events act on the application state.

use crate::app::{asks_refresh, erased, spawn_result_text, submit_result_text, App, AppView};
use crate::criteria::InputMode;
use crate::event::{Effect, Event, Key};
use vstd::prelude::*;

verus! {

/// The state after a key press. In normal mode `q` quits, `f` and `s` cycle the
/// filter and the sort key, the arrows move the selection, `a` asks for free-text
/// entry and Enter asks for a start. In free-text mode Escape returns to normal
/// mode, characters and Backspace edit the buffer, and Enter submits it, which
/// leaves the state as it is. Every other key does nothing.
pub open spec fn after_key(v: AppView, key: Key) -> AppView {
    match v.input_mode {
        InputMode::Normal => match key {
            Key::Char(c) => if c == 'q' {
                AppView { running: false, ..v }
            } else if c == 'f' {
                v.filter_cycled()
            } else if c == 's' {
                v.sort_cycled()
            } else if c == 'a' {
                v.text_entered()
            } else {
                v
            },
            Key::Down => v.moved_next(),
            Key::Up => v.moved_previous(),
            Key::Enter => v.after_spawn_request(),
            _ => v,
        },
        InputMode::Flag => match key {
            Key::Esc => v.with_mode(InputMode::Normal),
            Key::Char(c) => v.with_input(v.flag_input.push(c)),
            Key::Backspace => v.with_input(erased(v.flag_input)),
            _ => v,
        },
    }
}

/// Whether `emitted` is what a key press in state `v` puts on the bus: Enter in
/// normal mode asks for the start of the selected record unless it is active,
/// Enter in free-text mode asks for the buffer to be submitted for the selected
/// active record, and nothing else emits.
pub open spec fn key_emits(v: AppView, key: Key, emitted: Option<Event>) -> bool {
    if key == Key::Enter && v.input_mode == InputMode::Normal {
        v.asks_start(emitted)
    } else if key == Key::Enter && v.input_mode == InputMode::Flag {
        v.asks_submit(emitted)
    } else {
        emitted.is_none()
    }
}

/// Applies a key press to the state and hands back the event that it puts on
/// the bus, if any.
pub fn handle_key_events(key_event: Key, app: &mut App) -> (r: Option<Event>)
    ensures
        final(app)@ == after_key(old(app)@, key_event),
        key_emits(old(app)@, key_event, r),
        old(app)@.wf() ==> final(app)@.wf(),
{
    match app.input_mode() {
        InputMode::Normal => match key_event {
            Key::Char(c) => {
                if c == 'q' {
                    app.quit();
                } else if c == 'f' {
                    app.cycle_filter();
                } else if c == 's' {
                    app.cycle_sort();
                } else if c == 'a' {
                    app.enter_flag_input_mode();
                }
                None
            },
            Key::Down => {
                app.next();
                None
            },
            Key::Up => {
                app.previous();
                None
            },
            Key::Enter => app.request_spawn_machine(),
            _ => None,
        },
        InputMode::Flag => match key_event {
            Key::Esc => {
                app.leave_flag_input_mode();
                None
            },
            Key::Enter => app.request_submit_flag(),
            Key::Char(c) => {
                app.push_flag_char(c);
                None
            },
            Key::Backspace => {
                app.pop_flag_char();
                None
            },
            _ => None,
        },
    }
}

/// The state after an event was handled. Key presses act as `after_key` says,
/// results of background work are taken in, a new status message is set, and
/// every other event leaves the state as it is.
pub open spec fn after_event(v: AppView, event: Event) -> AppView {
    match event {
        Event::Key(key) => after_key(v, key),
        Event::FetchMachinesResult(result) => v.after_fetch(result),
        Event::SpawnMachineResult(result) => v.with_message(spawn_result_text(result)),
        Event::SubmitFlagResult(result) => v.with_message(submit_result_text(result)),
        Event::UpdateInfoMessage(message) => v.with_message(message@),
        _ => v,
    }
}

/// Whether `effect` is what the driver owes after `event` was handled in state
/// `v`. A key press posts what `key_emits` says. A wish for fresh data starts a
/// refresh, a start or submit request starts that action for the identifier it
/// names, a successful start or submission posts the event that asks for a
/// refresh, and that event posts the wish for fresh data. Nothing else is owed.
pub open spec fn effect_owed(v: AppView, event: Event, effect: Effect) -> bool {
    match event {
        Event::Key(key) => match effect {
            Effect::Emit(e) => key_emits(v, key, Some(e)),
            Effect::Idle => key_emits(v, key, None),
            _ => false,
        },
        Event::FetchMachines => effect is Refresh,
        Event::SpawnMachine(id) => effect == Effect::Start(id),
        Event::SubmitFlag(id, flag) => effect matches Effect::Submit(i, f) && i == id && f@ == flag@,
        Event::SpawnMachineResult(result) => match effect {
            Effect::Emit(e) => asks_refresh(result, Some(e)),
            Effect::Idle => asks_refresh(result, None),
            _ => false,
        },
        Event::SubmitFlagResult(result) => match effect {
            Effect::Emit(e) => asks_refresh(result, Some(e)),
            Effect::Idle => asks_refresh(result, None),
            _ => false,
        },
        Event::UpdateList => effect matches Effect::Emit(e) && e is FetchMachines,
        _ => effect is Idle,
    }
}

/// Handles one event from the bus: changes the state and says what the driver
/// has to do next. The state owner never touches the network itself.
pub fn handle_event(event: Event, app: &mut App) -> (r: Effect)
    ensures
        final(app)@ == after_event(old(app)@, event),
        effect_owed(old(app)@, event, r),
        old(app)@.wf() ==> final(app)@.wf(),
{
    match event {
        Event::Tick => Effect::Idle,
        Event::Key(key) => match handle_key_events(key, app) {
            Some(e) => Effect::Emit(e),
            None => Effect::Idle,
        },
        Event::Mouse => Effect::Idle,
        Event::Resize(_, _) => Effect::Idle,
        Event::FetchMachines => Effect::Refresh,
        Event::FetchMachinesResult(result) => {
            app.handle_fetch_machines_result(result);
            Effect::Idle
        },
        Event::SpawnMachine(id) => Effect::Start(id),
        Event::SpawnMachineResult(result) => match app.handle_spawn_machine_result(result) {
            Some(e) => Effect::Emit(e),
            None => Effect::Idle,
        },
        Event::SubmitFlag(id, flag) => Effect::Submit(id, flag),
        Event::SubmitFlagResult(result) => match app.handle_submit_flag_result(result) {
            Some(e) => Effect::Emit(e),
            None => Effect::Idle,
        },
        Event::UpdateList => Effect::Emit(app.request_fetch_machines()),
        Event::UpdateInfoMessage(message) => {
            app.set_info_message(message);
            Effect::Idle
        },
    }
}

/// In normal mode the characters and Backspace leave the buffer alone, and only
/// the command to enter text, on a record that offers it, leads to free-text
/// mode; from free-text mode only Escape leads back.
pub proof fn lemma_input_mode_transitions(v: AppView, key: Key)
    ensures
        v.input_mode == InputMode::Normal ==> after_key(v, key).flag_input == v.flag_input,
        v.input_mode == InputMode::Normal ==> (after_key(v, key).input_mode == InputMode::Flag <==> key
            == Key::Char('a') && v.show_input_field),
        v.input_mode == InputMode::Flag ==> (after_key(v, key).input_mode == InputMode::Normal <==> key
            == Key::Esc),
        v.input_mode == InputMode::Flag && key == Key::Esc ==> after_key(v, key).flag_input
            == v.flag_input,
{
}

} // verus!
