use lazy_learn::greet;

#[test]
fn greet_embeds_the_name() {
    assert_eq!(greet("World"), "Hello, World! Welcome to Lazy Learn.");
}

#[test]
fn greet_accepts_the_empty_name() {
    assert_eq!(greet(""), "Hello, ! Welcome to Lazy Learn.");
}

#[test]
fn greet_keeps_the_name_as_given() {
    assert_eq!(greet("  Zoë {}\n"), "Hello,   Zoë {}\n! Welcome to Lazy Learn.");
    assert_eq!(greet("学生"), "Hello, 学生! Welcome to Lazy Learn.");
}

#[test]
fn greet_is_repeatable() {
    let first = greet("Ada");
    let second = greet("Ada");
    assert_eq!(first, second);
    assert_eq!(first, "Hello, Ada! Welcome to Lazy Learn.");
}

#[test]
fn greet_is_thirty_one_characters_longer_than_the_name() {
    for name in ["", "a", "Grace Hopper"] {
        let text = greet(name);
        assert_eq!(text.chars().count(), name.chars().count() + 31);
        assert_eq!(&text[7..7 + name.len()], name);
    }
}

#[test]
fn greet_tells_names_apart() {
    assert_ne!(greet("Ada"), greet("Ada "));
    assert_ne!(greet("a"), greet("b"));
}
