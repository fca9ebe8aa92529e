use htb_tui::app::App;
use htb_tui::gateway::{
    active_catalog_url, bearer, fetch_all_machines, fetch_machines, own_url, profile_url,
    retired_catalog_url, spawn_machine, spawn_url, submit_flag, Progress, Reply,
};
use htb_tui::machine::{ActiveStatus, Link, Machine, Root};

fn record(id: u64, active: ActiveStatus) -> Machine {
    Machine {
        id,
        name: format!("box{}", id),
        os: String::from("Linux"),
        points: 20,
        star_bits: 0,
        release: String::new(),
        difficulty: id,
        user_owns_count: 0,
        auth_user_in_user_owns: false,
        root_owns_count: 0,
        auth_user_in_root_owns: false,
        active,
        ip: None,
    }
}

fn page(ids: &[u64], next: Option<&str>) -> Root {
    Root {
        data: ids.iter().map(|id| record(*id, ActiveStatus::Flag(false))).collect(),
        links: Link {
            first: String::from("first"),
            last: String::from("last"),
            prev: None,
            next: next.map(String::from),
        },
    }
}

fn ids(list: &Vec<Machine>) -> Vec<u64> {
    list.iter().map(|m| m.id).collect()
}

#[test]
fn three_retired_pages_are_merged_in_page_order() {
    let (wait, url) = fetch_all_machines();
    assert_eq!(url, "https://labs.hackthebox.com/api/v4/machine/paginated?per_page=100");
    let wait = match fetch_machines(wait, Ok(page(&[1, 2], None))) {
        Progress::Page(wait, url) => {
            assert_eq!(url, "https://labs.hackthebox.com/api/v4/machine/list/retired/paginated?per_page=100");
            wait
        }
        other => panic!("unexpected {:?}", other),
    };
    let wait = match fetch_machines(wait, Ok(page(&[10, 11], Some("retired?page=2")))) {
        Progress::Page(wait, url) => {
            assert_eq!(url, "retired?page=2");
            wait
        }
        other => panic!("unexpected {:?}", other),
    };
    let wait = match fetch_machines(wait, Ok(page(&[12], Some("retired?page=3")))) {
        Progress::Page(wait, url) => {
            assert_eq!(url, "retired?page=3");
            wait
        }
        other => panic!("unexpected {:?}", other),
    };
    match fetch_machines(wait, Ok(page(&[13, 14], None))) {
        Progress::Done(all) => assert_eq!(ids(&all), vec![1, 2, 10, 11, 12, 13, 14]),
        other => panic!("unexpected {:?}", other),
    }
}

#[test]
fn a_next_link_on_the_active_page_is_not_followed() {
    let (wait, _) = fetch_all_machines();
    match fetch_machines(wait, Ok(page(&[1], Some("active?page=2")))) {
        Progress::Page(wait, url) => {
            assert_eq!(url, retired_catalog_url());
            assert!(wait.retired);
            assert_eq!(ids(&wait.collected), vec![1]);
        }
        other => panic!("unexpected {:?}", other),
    }
}

#[test]
fn a_failing_page_fails_the_whole_refresh() {
    let (wait, _) = fetch_all_machines();
    let wait = match fetch_machines(wait, Ok(page(&[1, 2], None))) {
        Progress::Page(wait, _) => wait,
        other => panic!("unexpected {:?}", other),
    };
    assert_eq!(
        fetch_machines(wait, Err(String::from("connection reset"))),
        Progress::Failed(String::from("connection reset"))
    );
    let (wait, _) = fetch_all_machines();
    assert_eq!(
        fetch_machines(wait, Err(String::from("dns"))),
        Progress::Failed(String::from("dns"))
    );
}

#[test]
fn active_records_are_enriched_one_by_one() {
    let (wait, _) = fetch_all_machines();
    let mut first = page(&[1, 2, 3, 4], None);
    first.data[1].active = ActiveStatus::Flag(true);
    first.data[3].active = ActiveStatus::Count(1);
    let wait = match fetch_machines(wait, Ok(first)) {
        Progress::Detail(wait, id) => {
            assert_eq!(id, 2);
            assert_eq!(wait.cursor, 1);
            wait
        }
        other => panic!("unexpected {:?}", other),
    };
    let wait = match wait.supply_response(Ok(String::from("{\"info\":{\"ip\":\"10.10.10.2\"}}"))) {
        Progress::Detail(wait, id) => {
            assert_eq!(id, 4);
            wait
        }
        other => panic!("unexpected {:?}", other),
    };
    let wait = match wait.supply(Some(String::from("10.10.10.4"))) {
        Progress::Page(wait, url) => {
            assert_eq!(url, retired_catalog_url());
            wait
        }
        other => panic!("unexpected {:?}", other),
    };
    match fetch_machines(wait, Ok(page(&[9], None))) {
        Progress::Done(all) => {
            assert_eq!(ids(&all), vec![1, 2, 3, 4, 9]);
            assert_eq!(all[0].ip, None);
            assert_eq!(all[1].ip, Some(String::from("10.10.10.2")));
            assert_eq!(all[2].ip, None);
            assert_eq!(all[3].ip, Some(String::from("10.10.10.4")));
            assert_eq!(all[1].active, ActiveStatus::Flag(true));
        }
        other => panic!("unexpected {:?}", other),
    }
}

#[test]
fn an_integer_other_than_one_is_not_enriched() {
    let (wait, _) = fetch_all_machines();
    let mut first = page(&[1, 2], None);
    first.data[0].active = ActiveStatus::Count(0);
    first.data[1].active = ActiveStatus::Other;
    match fetch_machines(wait, Ok(first)) {
        Progress::Page(wait, _) => assert_eq!(ids(&wait.collected), vec![1, 2]),
        other => panic!("unexpected {:?}", other),
    }
}

#[test]
fn a_failed_enrichment_keeps_the_record_without_address() {
    let mut app = App::new(String::from("key"));
    app.set_info_message(String::from("ready"));
    let (wait, _) = fetch_all_machines();
    let mut first = page(&[5], None);
    first.data[0].active = ActiveStatus::Flag(true);
    let wait = match fetch_machines(wait, Ok(first)) {
        Progress::Detail(wait, id) => {
            assert_eq!(id, 5);
            wait
        }
        other => panic!("unexpected {:?}", other),
    };
    let wait = match wait.supply_response(Err(String::from("transport error"))) {
        Progress::Page(wait, _) => wait,
        other => panic!("unexpected {:?}", other),
    };
    let all = match fetch_machines(wait, Ok(page(&[], None))) {
        Progress::Done(all) => all,
        other => panic!("unexpected {:?}", other),
    };
    assert_eq!(ids(&all), vec![5]);
    assert_eq!(all[0].ip, None);
    assert!(all[0].is_active());
    app.handle_fetch_machines_result(Ok(all));
    assert_eq!(app.info_message(), "ready");
    assert_eq!(app.machines().len(), 1);
    assert_eq!(app.machines()[0].ip, None);
}

#[test]
fn a_profile_without_address_keeps_the_record_without_address() {
    let (wait, _) = fetch_all_machines();
    let mut first = page(&[5, 6], None);
    first.data[0].active = ActiveStatus::Flag(true);
    let wait = match fetch_machines(wait, Ok(first)) {
        Progress::Detail(wait, _) => wait,
        other => panic!("unexpected {:?}", other),
    };
    match wait.supply_response(Ok(String::from("{\"message\":\"Too many requests\"}"))) {
        Progress::Page(wait, _) => {
            assert_eq!(ids(&wait.collected), vec![5, 6]);
            assert_eq!(wait.collected[0].ip, None);
        }
        other => panic!("unexpected {:?}", other),
    }
}

#[test]
fn addresses_of_the_service() {
    assert_eq!(active_catalog_url(), "https://labs.hackthebox.com/api/v4/machine/paginated?per_page=100");
    assert_eq!(retired_catalog_url(), "https://labs.hackthebox.com/api/v4/machine/list/retired/paginated?per_page=100");
    assert_eq!(profile_url(298), "https://labs.hackthebox.com/api/v4/machine/profile/298");
    assert_eq!(spawn_url(7), "https://labs.hackthebox.com/api/v4/vm/spawn/?machine_id=7");
    assert_eq!(own_url(), "https://labs.hackthebox.com/api/v4/machine/own");
    assert_eq!(bearer("abc.def"), "Bearer abc.def");
}

#[test]
fn spawn_outcome_goes_by_the_status_class() {
    assert_eq!(
        spawn_machine(12, &Reply::Status(200, String::from("200 OK"))),
        Ok(String::from("Machine 12 spawned successfully"))
    );
    assert_eq!(
        spawn_machine(12, &Reply::Status(299, String::from("299 <unknown status code>"))),
        Ok(String::from("Machine 12 spawned successfully"))
    );
    assert_eq!(
        spawn_machine(12, &Reply::Status(300, String::from("300 Multiple Choices"))),
        Err(String::from("Failed to spawn with status: 300 Multiple Choices"))
    );
    assert_eq!(
        spawn_machine(12, &Reply::Status(199, String::from("199 <unknown status code>"))),
        Err(String::from("Failed to spawn with status: 199 <unknown status code>"))
    );
    assert_eq!(
        spawn_machine(12, &Reply::Status(400, String::from("400 Bad Request"))),
        Err(String::from("Failed to spawn with status: 400 Bad Request"))
    );
    assert_eq!(
        spawn_machine(12, &Reply::Transport(String::from("connection refused"))),
        Err(String::from("Network request failed: connection refused"))
    );
}

#[test]
fn submit_outcome_goes_by_the_status_class() {
    assert_eq!(
        submit_flag(3, &Reply::Status(200, String::from("200 OK"))),
        Ok(String::from("Flag for machine 3 is correct"))
    );
    assert_eq!(
        submit_flag(3, &Reply::Status(400, String::from("400 Bad Request"))),
        Err(String::from("Wrong flag for machine 3"))
    );
    assert_eq!(
        submit_flag(3, &Reply::Status(500, String::from("500 Internal Server Error"))),
        Err(String::from("Wrong flag for machine 3"))
    );
    assert_eq!(
        submit_flag(3, &Reply::Transport(String::from("timed out"))),
        Err(String::from("Network request failed: timed out"))
    );
}
