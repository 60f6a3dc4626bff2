use rayt::fuga::Fuga;

#[test]
fn add_exclamation_appends_one_mark() {
    let f = Fuga::new(String::from("hello"));
    assert_eq!(f.add_exclamation(), "hello!");
}

#[test]
fn add_exclamation_on_empty_text() {
    let f = Fuga::new(String::new());
    assert_eq!(f.add_exclamation(), "!");
}

#[test]
fn text_is_kept_as_given() {
    let f = Fuga::new(String::from("hello, world"));
    assert_eq!(f.text(), "hello, world");
    assert_eq!(f.add_exclamation(), "hello, world!");
    assert_eq!(f.text(), "hello, world");
}
