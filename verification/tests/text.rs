use can_sandwich::text::{push_decimal, push_list};

#[test]
fn decimals_and_lists() {
    let mut s = String::from("n=");
    push_decimal(&mut s, 0);
    push_decimal(&mut s, 1203);
    assert_eq!(s, "n=01203");
    let mut l = String::new();
    push_list(&mut l, &vec![7, 0, 42]);
    assert_eq!(l, "[7, 0, 42]");
    let mut e = String::new();
    push_list(&mut e, &vec![]);
    assert_eq!(e, "[]");
}
