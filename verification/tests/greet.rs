use string_bridge::greet;

#[test]
fn greets_world() {
    assert_eq!(greet("World"), "Hello, World!");
}

#[test]
fn greets_empty_string() {
    assert_eq!(greet(""), "Hello, !");
}

#[test]
fn keeps_exclamation_marks_verbatim() {
    assert_eq!(greet("Bob!"), "Hello, Bob!!");
}

#[test]
fn greeting_twice_nests_rather_than_fixing() {
    let once = greet("World");
    assert_eq!(once, "Hello, World!");
    assert_eq!(greet(&once), "Hello, Hello, World!!");
}

#[test]
fn accepts_non_ascii_and_control_characters() {
    assert_eq!(greet("h\u{e9}llo\u{7}"), "Hello, h\u{e9}llo\u{7}!");
    assert_eq!(greet("\u{1f600}"), "Hello, \u{1f600}!");
}

#[test]
fn distinct_inputs_give_distinct_greetings() {
    let r1 = greet("alpha");
    let r2 = greet("beta");
    assert_eq!(r1, "Hello, alpha!");
    assert_eq!(r2, "Hello, beta!");
    assert_ne!(r1, r2);
}
