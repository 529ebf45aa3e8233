use versioned::{Versioned, INITIAL_VERSION};

fn look_at(_: &String) {}

fn modify(_: &mut String) {}

#[test]
fn version_zero_on_new() {
    let versioned_value = Versioned::new(42);

    assert_eq!(*versioned_value, 42);
    assert_eq!(versioned_value.version(), 0);
}

#[test]
fn version_correct_on_with_version() {
    let versioned_value = Versioned::with_version("value", 53);

    assert_eq!(*versioned_value, "value");
    assert_eq!(versioned_value.version(), 53);
}

#[test]
fn version_correct_on_default_with_version() {
    let versioned_value: Versioned<String> = Versioned::default_with_version(97);

    assert_eq!(*versioned_value, String::default());
    assert_eq!(versioned_value.version(), 97);
}

#[test]
fn version_reset_on_clone() {
    let mut versioned_value_0 = Versioned::new("Hello".to_string());

    versioned_value_0.get_mut().push_str("World!");
    versioned_value_0.get_mut().pop();

    assert_eq!(*versioned_value_0, "HelloWorld");
    assert_eq!(versioned_value_0.version(), 2);

    let versioned_value_1 = versioned_value_0.clone();

    assert_eq!(*versioned_value_1, *versioned_value_0);
    assert_eq!(versioned_value_1.version(), INITIAL_VERSION);
}

#[allow(unused_must_use)]
#[test]
fn version_unchanged_on_as_ref() {
    let versioned_value = Versioned::new("some value");

    let _ = *versioned_value;
    let _ = versioned_value.as_ref();

    assert_eq!(versioned_value.version(), 0);

    *versioned_value;
    versioned_value.as_ref();

    assert_eq!(*versioned_value, "some value");
    assert_eq!(versioned_value.version(), 0);
}

#[test]
fn version_increment_on_as_mut() {
    let mut versioned_value = Versioned::new(255);

    *versioned_value.get_mut() = 10;

    assert_eq!(*versioned_value, 10);
    assert_eq!(versioned_value.version(), 1);

    *versioned_value.get_mut() = 50;
    let _ = versioned_value.get_mut();

    assert_eq!(*versioned_value, 50);
    assert_eq!(versioned_value.version(), 3);
}

#[test]
fn version_on_deref_coercion() {
    let mut versioned_value = Versioned::new("bla".to_string());

    look_at(&versioned_value);
    assert_eq!(versioned_value.version(), 0);

    modify(versioned_value.get_mut());
    assert_eq!(versioned_value.version(), 1);
}
