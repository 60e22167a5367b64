use smart_home::text::str_eq;
use smart_home::text::str_lt;
use smart_home::text::trim;

#[test]
fn trim_strips_protocol_blanks() {
    assert_eq!(trim("  status\r\n"), "status");
    assert_eq!(trim("switch"), "switch");
    assert_eq!(trim(" \r\n\t"), "");
}

#[test]
fn str_lt_orders_names() {
    assert!(str_lt("attic", "bedroom"));
    assert!(!str_lt("bedroom", "attic"));
    assert!(!str_lt("attic", "attic"));
    assert!(str_lt("Room1", "Room12"));
}

#[test]
fn str_eq_compares_contents() {
    assert!(str_eq("socket", "socket"));
    assert!(!str_eq("socket", "sockets"));
    assert!(!str_eq("socket", "sockef"));
}
