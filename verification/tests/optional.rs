use spaceapi::get_version;
use spaceapi::optional::Optional;

#[test]
fn test_get_version() {
    let version = get_version();
    assert_eq!(3, version.split('.').count());
}

#[test]
fn test_default() {
    let something: Optional<u8> = Default::default();
    assert_eq!(something, Optional::Absent);
}

#[derive(Default)]
struct Foo {
    something: Optional<u8>,
    somenum: u8,
}

#[test]
fn test_default_in_struct() {
    let foo1: Foo = Default::default();
    assert_eq!(foo1.something, Optional::Absent);
    assert_eq!(foo1.somenum, 0);

    let foo2 = Foo { somenum: 7, ..Default::default() };
    assert_eq!(foo2.something, Optional::Absent);
    assert_eq!(foo2.somenum, 7);
}
