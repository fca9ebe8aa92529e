use htb_tui::machine::{clone_machines, clone_text, ActiveStatus, Link, Machine, Root};

#[test]
fn default_record_is_blank_and_inactive() {
    let m = Machine::default();
    assert_eq!(m.id, 0);
    assert_eq!(m.name, "");
    assert_eq!(m.os, "");
    assert_eq!(m.points, 0);
    assert_eq!(m.star_bits, 0);
    assert_eq!(m.release, "");
    assert_eq!(m.difficulty, 0);
    assert_eq!(m.user_owns_count, 0);
    assert_eq!(m.root_owns_count, 0);
    assert!(!m.auth_user_in_user_owns);
    assert!(!m.auth_user_in_root_owns);
    assert_eq!(m.active, ActiveStatus::Other);
    assert_eq!(m.ip, None);
    assert!(!m.is_active());
}

#[test]
fn default_page_is_empty() {
    let root = Root::default();
    assert!(root.data.is_empty());
    assert_eq!(root.links, Link::default());
    assert_eq!(root.links.first, "");
    assert_eq!(root.links.last, "");
    assert_eq!(root.links.prev, None);
    assert_eq!(root.links.next, None);
}

#[test]
fn is_active_normalizes_the_field() {
    let mut m = Machine::default();
    m.active = ActiveStatus::Flag(true);
    assert!(m.is_active());
    m.active = ActiveStatus::Flag(false);
    assert!(!m.is_active());
    m.active = ActiveStatus::Count(1);
    assert!(m.is_active());
    m.active = ActiveStatus::Count(0);
    assert!(!m.is_active());
    m.active = ActiveStatus::Count(7);
    assert!(!m.is_active());
    m.active = ActiveStatus::Other;
    assert!(!m.is_active());
}

#[test]
fn clones_are_equal_to_what_they_copy() {
    let mut m = Machine::default();
    m.id = 9;
    m.name = String::from("Nine");
    m.ip = Some(String::from("10.10.10.9"));
    m.active = ActiveStatus::Count(1);
    let copy = m.clone();
    assert_eq!(copy, m);
    let list = vec![m.clone(), Machine::default()];
    assert_eq!(clone_machines(&list), list);
    let root = Root {
        data: list,
        links: Link {
            first: String::from("a"),
            last: String::from("z"),
            prev: None,
            next: Some(String::from("b")),
        },
    };
    assert_eq!(root.clone(), root);
    assert_eq!(clone_text(&Some(String::from("x"))), Some(String::from("x")));
    assert_eq!(clone_text(&None), None);
}
