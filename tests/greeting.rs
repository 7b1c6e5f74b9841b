use bharatedge::greeting::greet;

#[test]
fn greets_by_name() {
    assert_eq!(greet("Ada"), "Hello, Ada! You've been greeted from Rust!");
}

#[test]
fn empty_name_leaves_gap() {
    assert_eq!(greet(""), "Hello, ! You've been greeted from Rust!");
}

#[test]
fn repeated_calls_agree() {
    let first = greet("world");
    let second = greet("world");
    assert_eq!(first, second);
    assert_eq!(first, "Hello, world! You've been greeted from Rust!");
}

#[test]
fn name_is_kept_verbatim() {
    assert_eq!(
        greet("  Zoë {x}! "),
        "Hello,   Zoë {x}! ! You've been greeted from Rust!"
    );
    assert_eq!(greet("भारत"), "Hello, भारत! You've been greeted from Rust!");
}
