use tictactoe::demo::{Bar, Bool, Foo};

#[test]
fn it_works() {
    let bar: Bar = Bar::default();
    let mut foo = Foo::new(0, bar);
    foo.set_bar(&Bar::default());

    assert!(true, "This test passes.");
}

#[test]
fn bar_constructor_needs_a_flag() {
    assert!(Bar::new("labelled", None).is_none());
    let b = Bar::new("labelled", Some(Bool::True)).unwrap();
    assert_eq!(b.bar, "labelled");
    assert_eq!(b.foo, Bool::True);
}

#[test]
fn bars_compare_structurally() {
    let a = Bar::new("same", Some(Bool::False)).unwrap();
    let b = Bar::new("same", Some(Bool::False)).unwrap();
    let c = Bar::new("other", Some(Bool::False)).unwrap();
    let d = Bar::new("same", Some(Bool::True)).unwrap();
    assert!(a == b);
    assert!(a != c);
    assert!(a != d);
}

#[test]
fn foo_holds_and_swaps_its_bar() {
    let first = Bar::new("one", Some(Bool::True)).unwrap();
    let second = Bar::new("two", Some(Bool::False)).unwrap();
    let mut foo = Foo::new(7, first);
    assert_eq!(foo.foo, 7);
    assert!(*foo.get_bar() == first);
    assert!(Foo::same_bar(&foo, Foo::new(9, first)));
    foo.set_bar(&second);
    assert!(*foo.get_bar() == second);
    assert!(!Foo::same_bar(&foo, Foo::new(7, first)));
}

#[test]
fn boolify_collapses_the_flag() {
    assert!(Bool::True.boolify());
    assert!(!Bool::False.boolify());
    assert!(!Bool::Blah(true).boolify());
    assert!(!Bool::Blah(false).boolify());
}
