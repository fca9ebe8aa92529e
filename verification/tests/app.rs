use htb_tui::app::App;
use htb_tui::criteria::{FilterCriteria, InputMode, SortCriteria};
use htb_tui::event::{Effect, Event, Key};
use htb_tui::handler::{handle_event, handle_key_events};
use htb_tui::machine::{ActiveStatus, Machine};

fn record(id: u64, name: &str, difficulty: u64, active: bool, user: bool, root: bool) -> Machine {
    Machine {
        id,
        name: String::from(name),
        os: String::from("Linux"),
        points: 30,
        star_bits: 0,
        release: String::from("2024-01-01T00:00:00.000000Z"),
        difficulty,
        user_owns_count: 100 - difficulty,
        auth_user_in_user_owns: user,
        root_owns_count: difficulty,
        auth_user_in_root_owns: root,
        active: ActiveStatus::Flag(active),
        ip: if active { Some(format!("10.10.10.{}", id)) } else { None },
    }
}

fn loaded(machines: Vec<Machine>) -> App {
    let mut app = App::new(String::from("key"));
    app.handle_fetch_machines_result(Ok(machines));
    app
}

fn three() -> Vec<Machine> {
    vec![
        record(1, "Alpha", 10, true, true, true),
        record(2, "Bravo", 20, false, false, true),
        record(3, "Charlie", 30, true, false, false),
    ]
}

#[test]
fn new_state_is_empty_and_running() {
    let app = App::new(String::from("secret"));
    assert!(app.running());
    assert_eq!(app.htb_api_key(), "secret");
    assert!(app.machines().is_empty());
    assert_eq!(app.selected(), None);
    assert_eq!(app.info_message(), "");
    assert_eq!(app.filter_criteria(), FilterCriteria::NoFilter);
    assert_eq!(app.sort_criteria(), SortCriteria::Difficulty);
    assert_eq!(app.input_mode(), InputMode::Normal);
    assert_eq!(app.flag_input(), "");
    assert!(!app.show_input_field());
    assert_eq!(app.selected_machine_ip(), None);
    assert_eq!(app.selected_machine_id(), None);
}

#[test]
fn quit_stops_the_loop() {
    let mut app = App::new(String::new());
    app.quit();
    assert!(!app.running());
}

#[test]
fn next_wraps_from_last_to_first() {
    let mut app = loaded(three());
    app.next();
    assert_eq!(app.selected(), Some(0));
    app.next();
    assert_eq!(app.selected(), Some(1));
    app.next();
    assert_eq!(app.selected(), Some(2));
    app.next();
    assert_eq!(app.selected(), Some(0));
}

#[test]
fn previous_wraps_from_first_to_last() {
    let mut app = loaded(three());
    app.previous();
    assert_eq!(app.selected(), Some(0));
    app.previous();
    assert_eq!(app.selected(), Some(2));
    app.previous();
    assert_eq!(app.selected(), Some(1));
}

#[test]
fn selection_stays_none_over_an_empty_projection() {
    let mut app = App::new(String::new());
    app.next();
    assert_eq!(app.selected(), None);
    app.previous();
    assert_eq!(app.selected(), None);
    let mut app = loaded(vec![record(1, "Alpha", 10, false, true, true)]);
    app.cycle_filter();
    assert_eq!(app.filter_criteria(), FilterCriteria::UserNotOwns);
    app.next();
    assert_eq!(app.selected(), None);
    app.previous();
    assert_eq!(app.selected(), None);
}

#[test]
fn cycle_filter_closes_after_four_and_drops_the_selection() {
    let mut app = loaded(three());
    app.next();
    assert_eq!(app.selected(), Some(0));
    app.cycle_filter();
    assert_eq!(app.filter_criteria(), FilterCriteria::UserNotOwns);
    assert_eq!(app.selected(), None);
    assert_eq!(app.selected_machine_id(), None);
    app.cycle_filter();
    assert_eq!(app.filter_criteria(), FilterCriteria::RootNotOwns);
    app.cycle_filter();
    assert_eq!(app.filter_criteria(), FilterCriteria::UserAndRootNotOwns);
    app.cycle_filter();
    assert_eq!(app.filter_criteria(), FilterCriteria::NoFilter);
}

#[test]
fn cycle_sort_closes_after_four_and_drops_the_selection() {
    let mut app = loaded(three());
    app.next();
    app.cycle_sort();
    assert_eq!(app.sort_criteria(), SortCriteria::UserOwns);
    assert_eq!(app.selected(), None);
    assert!(!app.show_input_field());
    app.cycle_sort();
    assert_eq!(app.sort_criteria(), SortCriteria::RootOwns);
    app.cycle_sort();
    assert_eq!(app.sort_criteria(), SortCriteria::Name);
    app.cycle_sort();
    assert_eq!(app.sort_criteria(), SortCriteria::Difficulty);
}

#[test]
fn derived_fields_follow_the_selection() {
    let mut app = loaded(three());
    app.next();
    assert!(!app.show_input_field());
    assert_eq!(app.selected_machine_ip(), Some(String::from("10.10.10.1")));
    assert_eq!(app.selected_machine_id(), Some(1));
    app.next();
    assert!(!app.show_input_field());
    assert_eq!(app.selected_machine_ip(), None);
    assert_eq!(app.selected_machine_id(), None);
    app.next();
    assert!(app.show_input_field());
    assert_eq!(app.selected_machine_ip(), Some(String::from("10.10.10.3")));
    assert_eq!(app.selected_machine_id(), Some(3));
}

#[test]
fn selection_is_relative_to_the_projection() {
    let mut app = loaded(three());
    app.cycle_sort();
    app.cycle_sort();
    assert_eq!(app.sort_criteria(), SortCriteria::RootOwns);
    app.next();
    assert_eq!(app.selected(), Some(0));
    assert_eq!(app.selected_machine_id(), Some(3));
    let shown: Vec<u64> = app.projected_machines().iter().map(|m| m.id).collect();
    assert_eq!(shown, vec![3, 2, 1]);
}

#[test]
fn refresh_clamps_the_selection() {
    let mut app = loaded(three());
    app.next();
    app.next();
    app.next();
    assert_eq!(app.selected(), Some(2));
    app.handle_fetch_machines_result(Ok(vec![record(7, "Golf", 5, true, false, false), record(8, "Hotel", 6, false, false, false)]));
    assert_eq!(app.selected(), Some(1));
    assert_eq!(app.selected_machine_id(), None);
    app.handle_fetch_machines_result(Ok(vec![record(7, "Golf", 5, true, false, false)]));
    assert_eq!(app.selected(), Some(0));
    assert_eq!(app.selected_machine_id(), Some(7));
    assert!(app.show_input_field());
    app.handle_fetch_machines_result(Ok(Vec::new()));
    assert_eq!(app.selected(), None);
    assert_eq!(app.selected_machine_id(), None);
    assert!(!app.show_input_field());
}

#[test]
fn refresh_keeps_a_selection_that_still_fits() {
    let mut app = loaded(three());
    app.next();
    app.next();
    assert_eq!(app.selected(), Some(1));
    app.handle_fetch_machines_result(Ok(three()));
    assert_eq!(app.selected(), Some(1));
    assert_eq!(app.machines().len(), 3);
}

#[test]
fn refresh_without_selection_selects_nothing() {
    let mut app = loaded(three());
    assert_eq!(app.selected(), None);
}

#[test]
fn failed_refresh_keeps_the_collection() {
    let mut app = loaded(three());
    app.next();
    app.handle_fetch_machines_result(Err(String::from("timed out")));
    assert_eq!(app.info_message(), "Error fetching machines: timed out");
    assert_eq!(app.machines(), &three());
    assert_eq!(app.selected(), Some(0));
}

#[test]
fn start_on_an_active_record_makes_no_request() {
    let mut app = loaded(three());
    app.next();
    assert_eq!(app.selected_machine_id(), Some(1));
    let emitted = app.request_spawn_machine();
    assert_eq!(emitted, None);
    assert_eq!(app.info_message(), "Machine 1 is already active");
    let effect = handle_event(Event::Key(Key::Enter), &mut app);
    assert_eq!(effect, Effect::Idle);
    assert_eq!(app.info_message(), "Machine 1 is already active");
}

#[test]
fn start_on_an_inactive_record_asks_for_it() {
    let mut app = loaded(three());
    app.next();
    app.next();
    let emitted = app.request_spawn_machine();
    assert_eq!(emitted, Some(Event::SpawnMachine(2)));
    assert_eq!(app.info_message(), "");
    let effect = handle_event(Event::Key(Key::Enter), &mut app);
    assert_eq!(effect, Effect::Emit(Event::SpawnMachine(2)));
    let effect = handle_event(Event::SpawnMachine(2), &mut app);
    assert_eq!(effect, Effect::Start(2));
}

#[test]
fn start_without_selection_does_nothing() {
    let mut app = loaded(three());
    assert_eq!(app.request_spawn_machine(), None);
    assert_eq!(app.info_message(), "");
}

#[test]
fn start_resolves_the_target_in_the_projection() {
    let mut app = loaded(three());
    app.cycle_filter();
    app.next();
    assert_eq!(app.request_spawn_machine(), Some(Event::SpawnMachine(2)));
}

#[test]
fn start_result_sets_the_message() {
    let mut app = loaded(three());
    let emitted = app.handle_spawn_machine_result(Ok(String::from("Machine 2 spawned successfully")));
    assert_eq!(emitted, Some(Event::UpdateList));
    assert_eq!(app.info_message(), "Machine 2 spawned successfully");
    let emitted = app.handle_spawn_machine_result(Err(String::from("Failed to spawn with status: 400 Bad Request")));
    assert_eq!(emitted, None);
    assert_eq!(app.info_message(), "Error spawning machine: Failed to spawn with status: 400 Bad Request");
    assert_eq!(app.machines(), &three());
}

#[test]
fn submit_result_sets_the_message() {
    let mut app = loaded(three());
    let emitted = app.handle_submit_flag_result(Ok(String::from("Flag for machine 3 is correct")));
    assert_eq!(emitted, Some(Event::UpdateList));
    assert_eq!(app.info_message(), "Flag for machine 3 is correct");
    let emitted = app.handle_submit_flag_result(Err(String::from("Wrong flag for machine 3")));
    assert_eq!(emitted, None);
    assert_eq!(app.info_message(), "Error sending flag: Wrong flag for machine 3");
}

#[test]
fn text_entry_is_guarded() {
    let mut app = loaded(three());
    app.enter_flag_input_mode();
    assert_eq!(app.input_mode(), InputMode::Normal);
    app.next();
    app.enter_flag_input_mode();
    assert_eq!(app.input_mode(), InputMode::Normal);
    app.next();
    app.enter_flag_input_mode();
    assert_eq!(app.input_mode(), InputMode::Normal);
    app.next();
    app.enter_flag_input_mode();
    assert_eq!(app.input_mode(), InputMode::Flag);
}

#[test]
fn text_entry_edits_and_cancel_keeps_the_buffer() {
    let mut app = loaded(three());
    app.previous();
    app.previous();
    assert_eq!(app.selected(), Some(2));
    assert_eq!(handle_key_events(Key::Char('a'), &mut app), None);
    assert_eq!(app.input_mode(), InputMode::Flag);
    for c in "flaq".chars() {
        assert_eq!(handle_key_events(Key::Char(c), &mut app), None);
    }
    assert!(app.running());
    assert_eq!(app.flag_input(), "flaq");
    handle_key_events(Key::Backspace, &mut app);
    handle_key_events(Key::Char('g'), &mut app);
    assert_eq!(app.flag_input(), "flag");
    handle_key_events(Key::Up, &mut app);
    assert_eq!(app.selected(), Some(2));
    let emitted = handle_key_events(Key::Enter, &mut app);
    assert_eq!(emitted, Some(Event::SubmitFlag(3, String::from("flag"))));
    assert_eq!(app.input_mode(), InputMode::Flag);
    assert_eq!(handle_event(Event::SubmitFlag(3, String::from("flag")), &mut app), Effect::Submit(3, String::from("flag")));
    handle_key_events(Key::Esc, &mut app);
    assert_eq!(app.input_mode(), InputMode::Normal);
    assert_eq!(app.flag_input(), "flag");
}

#[test]
fn backspace_on_an_empty_buffer_does_nothing() {
    let mut app = loaded(three());
    app.pop_flag_char();
    assert_eq!(app.flag_input(), "");
    app.push_flag_char('x');
    app.pop_flag_char();
    app.pop_flag_char();
    assert_eq!(app.flag_input(), "");
}

#[test]
fn normal_mode_ignores_edits() {
    let mut app = loaded(three());
    assert_eq!(handle_key_events(Key::Char('x'), &mut app), None);
    assert_eq!(handle_key_events(Key::Backspace, &mut app), None);
    assert_eq!(handle_key_events(Key::Esc, &mut app), None);
    assert_eq!(handle_key_events(Key::Other, &mut app), None);
    assert_eq!(app.flag_input(), "");
    assert_eq!(app.input_mode(), InputMode::Normal);
    assert!(app.running());
}

#[test]
fn normal_mode_commands() {
    let mut app = loaded(three());
    handle_key_events(Key::Down, &mut app);
    assert_eq!(app.selected(), Some(0));
    handle_key_events(Key::Up, &mut app);
    assert_eq!(app.selected(), Some(2));
    handle_key_events(Key::Char('f'), &mut app);
    assert_eq!(app.filter_criteria(), FilterCriteria::UserNotOwns);
    assert_eq!(app.selected(), None);
    handle_key_events(Key::Char('s'), &mut app);
    assert_eq!(app.sort_criteria(), SortCriteria::UserOwns);
    handle_key_events(Key::Char('q'), &mut app);
    assert!(!app.running());
}

#[test]
fn submit_without_an_active_selection_sends_nothing() {
    let mut app = loaded(three());
    assert_eq!(app.request_submit_flag(), None);
    app.next();
    app.next();
    assert_eq!(app.request_submit_flag(), None);
}

#[test]
fn events_map_to_effects() {
    let mut app = loaded(three());
    assert_eq!(handle_event(Event::Tick, &mut app), Effect::Idle);
    assert_eq!(handle_event(Event::Mouse, &mut app), Effect::Idle);
    assert_eq!(handle_event(Event::Resize(80, 24), &mut app), Effect::Idle);
    assert_eq!(handle_event(Event::FetchMachines, &mut app), Effect::Refresh);
    assert_eq!(handle_event(Event::UpdateList, &mut app), Effect::Emit(Event::FetchMachines));
    assert_eq!(handle_event(Event::UpdateInfoMessage(String::from("hello")), &mut app), Effect::Idle);
    assert_eq!(app.info_message(), "hello");
    assert_eq!(handle_event(Event::SpawnMachineResult(Ok(String::from("done"))), &mut app), Effect::Emit(Event::UpdateList));
    assert_eq!(app.info_message(), "done");
    assert_eq!(handle_event(Event::SubmitFlagResult(Err(String::from("no"))), &mut app), Effect::Idle);
    assert_eq!(app.info_message(), "Error sending flag: no");
    assert_eq!(handle_event(Event::FetchMachinesResult(Ok(Vec::new())), &mut app), Effect::Idle);
    assert!(app.machines().is_empty());
    assert_eq!(app.request_fetch_machines(), Event::FetchMachines);
}

#[test]
fn filtered_and_sorted_follow_the_criteria() {
    let mut app = loaded(three());
    app.cycle_filter();
    app.cycle_sort();
    let filtered = app.filtered_machines();
    let shown: Vec<u64> = filtered.iter().map(|m| m.id).collect();
    assert_eq!(shown, vec![2, 3]);
    let sorted = app.sorted_machines(three());
    let shown: Vec<u64> = sorted.iter().map(|m| m.id).collect();
    assert_eq!(shown, vec![1, 2, 3]);
    app.cycle_sort();
    let sorted = app.sorted_machines(three());
    let shown: Vec<u64> = sorted.iter().map(|m| m.id).collect();
    assert_eq!(shown, vec![3, 2, 1]);
}

#[test]
fn set_info_message_replaces_the_message() {
    let mut app = App::new(String::new());
    app.set_info_message(String::from("one"));
    app.set_info_message(String::from("two"));
    assert_eq!(app.info_message(), "two");
}
