use htb_tui::text::{numbered, prefixed, push_decimal, str_le};

#[test]
fn str_le_orders_like_the_standard_order() {
    let words = ["", "a", "ab", "abc", "abd", "b", "B", "z", "é", "zz", "Zebra", "apple", "日本"];
    for a in words.iter() {
        for b in words.iter() {
            assert_eq!(str_le(a, b), a <= b, "{:?} <= {:?}", a, b);
        }
    }
}

#[test]
fn str_le_prefix_comes_first() {
    assert!(str_le("Lame", "Lamer"));
    assert!(!str_le("Lamer", "Lame"));
    assert!(str_le("Lame", "Lame"));
}

#[test]
fn str_le_first_difference_decides() {
    assert!(str_le("Bashed", "Blue"));
    assert!(!str_le("Blue", "Bashed"));
}

#[test]
fn numbered_renders_decimal() {
    assert_eq!(numbered("Machine ", 42, " spawned successfully"), "Machine 42 spawned successfully");
    assert_eq!(numbered("", 0, ""), "0");
    assert_eq!(numbered("", 7, ""), "7");
    assert_eq!(numbered("", 10, ""), "10");
    assert_eq!(numbered("", 1009, "!"), "1009!");
    assert_eq!(numbered("", u64::MAX, ""), "18446744073709551615");
}

#[test]
fn push_decimal_appends() {
    let mut s = String::from("id=");
    push_decimal(&mut s, 305);
    assert_eq!(s, "id=305");
    push_decimal(&mut s, 0);
    assert_eq!(s, "id=3050");
}

#[test]
fn prefixed_concatenates() {
    assert_eq!(prefixed("Error: ", "boom"), "Error: boom");
    assert_eq!(prefixed("", ""), "");
}
