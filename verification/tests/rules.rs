use script_bridge::environment::{
    Attributes, BoundFunction, ClassDescriptor, Environment, Global, HostValue, SetupError,
};
use script_bridge::error::{ExceptionKind, ScriptException};
use script_bridge::greeting::hello_line;
use script_bridge::person::{
    class_descriptor, Person, CLASS_ARITY, CLASS_NAME, MAX_AGE, SAY_HELLO_ARITY, SAY_HELLO_NAME,
};
use script_bridge::sequence::reverse_and_append;
use script_bridge::text::decimal_text;

#[test]
fn decimal_text_of_small_and_large_numbers() {
    assert_eq!(decimal_text(0), "0");
    assert_eq!(decimal_text(7), "7");
    assert_eq!(decimal_text(10), "10");
    assert_eq!(decimal_text(150), "150");
    assert_eq!(decimal_text(1234567890), "1234567890");
    assert_eq!(decimal_text(u32::MAX), "4294967295");
}

#[test]
fn decimal_text_agrees_with_formatting() {
    let mut n: u32 = 0;
    while n < 2000 {
        assert_eq!(decimal_text(n), format!("{}", n));
        n += 1;
    }
}

#[test]
fn hello_line_without_a_name_greets_the_world() {
    assert_eq!(hello_line(None), "Hello World!");
}

#[test]
fn hello_line_with_a_name_greets_the_name() {
    assert_eq!(hello_line(Some("Ferris")), "Hello Ferris!");
    assert_eq!(hello_line(Some("")), "Hello !");
}

#[test]
fn every_age_up_to_the_maximum_constructs_a_person_of_that_age() {
    let mut age: u32 = 0;
    while age <= 150 {
        let person = Person::new(String::from("John"), age).unwrap();
        assert_eq!(u32::from(person.age()), age);
        assert_eq!(person.name(), "John");
        age += 1;
    }
}

#[test]
fn maximum_age_is_one_hundred_and_fifty() {
    assert_eq!(MAX_AGE, 150);
    assert!(Person::new(String::from("Old"), 150).is_ok());
    assert!(Person::new(String::from("Older"), 151).is_err());
}

#[test]
fn ages_above_the_maximum_raise_a_range_error() {
    for age in [151u32, 152, 255, 256, 1000, 65536, 4294967294, 4294967295] {
        let refused = Person::new(String::from("John"), age).unwrap_err();
        assert_eq!(refused.kind, ExceptionKind::RangeError);
        assert_eq!(
            refused.message,
            format!("invalid age `${}`. Must be between 0 and 150", age)
        );
    }
}

#[test]
fn invalid_age_message_is_exact() {
    let refused = Person::new(String::from("John"), 151).unwrap_err();
    assert_eq!(
        refused,
        ScriptException {
            kind: ExceptionKind::RangeError,
            message: String::from("invalid age `$151`. Must be between 0 and 150"),
        }
    );
}

#[test]
fn person_greeting_names_age_and_name() {
    let person = Person::new(String::from("John"), 28).unwrap();
    assert_eq!(person.greeting(), "Hello 28-year-old John!");
    let newborn = Person::new(String::new(), 0).unwrap();
    assert_eq!(newborn.greeting(), "Hello 0-year-old !");
}

#[test]
fn person_clone_is_equal() {
    let person = Person::new(String::from("Jane"), 150).unwrap();
    let copy = person.clone();
    assert_eq!(copy, person);
    assert_eq!(copy.age(), 150);
    assert_eq!(copy.name(), "Jane");
}

#[test]
fn say_hello_on_a_person_gives_the_greeting() {
    let person = Person::new(String::from("John"), 28).unwrap();
    assert_eq!(Person::say_hello(Some(&person)), Ok(String::from("Hello 28-year-old John!")));
}

#[test]
fn say_hello_without_a_person_raises_a_type_error() {
    assert_eq!(
        Person::say_hello(None),
        Err(ScriptException {
            kind: ExceptionKind::TypeError,
            message: String::from("`this` is not a `Person` object"),
        })
    );
}

#[test]
fn exception_constructors_set_the_kind() {
    let type_error = ScriptException::type_error(String::from("a"));
    assert_eq!(type_error.kind, ExceptionKind::TypeError);
    assert_eq!(type_error.message, "a");
    let range_error = ScriptException::range_error(String::from("b"));
    assert_eq!(range_error.kind, ExceptionKind::RangeError);
    assert_eq!(range_error.message, "b");
    assert_eq!(range_error.clone(), range_error);
}

#[test]
fn reverse_append_reverses_and_appends_two() {
    let out = reverse_and_append(vec![1, 2, 3], 10, 20);
    assert_eq!(out, vec![3, 2, 1, 10, 20]);
}

#[test]
fn reverse_append_of_nothing_is_the_two_extras() {
    let out = reverse_and_append(Vec::<&str>::new(), "x", "y");
    assert_eq!(out, vec!["x", "y"]);
}

#[test]
fn reverse_append_leaves_the_source_as_it_was() {
    let source = vec![String::from("a"), String::from("b")];
    let out = reverse_and_append(source.clone(), String::from("c"), String::from("d"));
    assert_eq!(source, vec!["a", "b"]);
    assert_eq!(out, vec!["b", "a", "c", "d"]);
}

#[test]
fn attributes_all_sets_every_flag() {
    let all = Attributes::all();
    assert!(all.writable && all.enumerable && all.configurable);
    assert!(all.is_all());
    let none = Attributes::none();
    assert!(!none.writable && !none.enumerable && !none.configurable);
    assert!(!none.is_all());
    let mixed = Attributes { writable: true, enumerable: false, configurable: true };
    assert!(!mixed.is_all());
}

#[test]
fn new_environment_binds_nothing() {
    let env: Environment<u8> = Environment::new();
    assert_eq!(env.len(), 0);
    assert!(env.lookup("say_hello").is_none());
}

#[test]
fn second_function_registration_under_a_name_wins() {
    let mut env: Environment<u8> = Environment::new();
    assert_eq!(env.register_global_function(String::from("f"), 1, 1), Ok(()));
    assert_eq!(env.register_global_function(String::from("g"), 0, 7), Ok(()));
    assert_eq!(env.register_global_function(String::from("f"), 2, 2), Ok(()));
    match env.lookup("f") {
        Some(Global::Function(BoundFunction { name, arity, callable })) => {
            assert_eq!(name, "f");
            assert_eq!(*arity, 2);
            assert_eq!(*callable, 2);
        }
        other => panic!("unexpected binding: {:?}", other),
    }
    match env.lookup("g") {
        Some(Global::Function(function)) => assert_eq!(function.callable, 7),
        other => panic!("unexpected binding: {:?}", other),
    }
    assert_eq!(env.len(), 3);
}

#[test]
fn property_registration_keeps_value_and_flags() {
    let mut env: Environment<u8> = Environment::new();
    let registered = env.register_global_property(
        String::from("MY_PROJECT_VERSION"),
        HostValue::Text(String::from("1.0.0")),
        Attributes::all(),
    );
    assert_eq!(registered, Ok(()));
    match env.lookup("MY_PROJECT_VERSION") {
        Some(Global::Property(property)) => {
            assert_eq!(property.value, HostValue::Text(String::from("1.0.0")));
            assert_eq!(property.attributes, Attributes::all());
        }
        other => panic!("unexpected binding: {:?}", other),
    }
}

#[test]
fn function_registration_overwrites_a_property() {
    let mut env: Environment<u8> = Environment::new();
    env.register_global_property(String::from("x"), HostValue::Integer(1), Attributes::none())
        .unwrap();
    env.register_global_function(String::from("x"), 0, 9).unwrap();
    assert!(matches!(env.lookup("x"), Some(Global::Function(_))));
}

fn class(name: &str) -> ClassDescriptor<u8> {
    ClassDescriptor {
        name: String::from(name),
        arity: 2,
        constructor: 0,
        methods: vec![BoundFunction { name: String::from("say_hello"), arity: 0, callable: 1 }],
    }
}

#[test]
fn class_registration_under_a_new_name_succeeds() {
    let mut env: Environment<u8> = Environment::new();
    assert_eq!(env.register_global_class(class("Person")), Ok(()));
    match env.lookup("Person") {
        Some(Global::Class(descriptor)) => {
            assert_eq!(descriptor.arity, 2);
            assert_eq!(descriptor.methods.len(), 1);
            assert_eq!(descriptor.methods[0].name, "say_hello");
        }
        other => panic!("unexpected binding: {:?}", other),
    }
}

#[test]
fn duplicate_class_name_is_refused_and_changes_nothing() {
    let mut env: Environment<u8> = Environment::new();
    env.register_global_class(class("Person")).unwrap();
    let refused = env.register_global_class(class("Person"));
    assert_eq!(refused, Err(SetupError::DuplicateClass { name: String::from("Person") }));
    assert_eq!(env.len(), 1);
}

#[test]
fn class_name_bound_to_a_function_is_refused() {
    let mut env: Environment<u8> = Environment::new();
    env.register_global_function(String::from("Person"), 0, 3).unwrap();
    let refused = env.register_global_class(class("Person"));
    assert_eq!(refused, Err(SetupError::DuplicateClass { name: String::from("Person") }));
    assert!(matches!(env.lookup("Person"), Some(Global::Function(_))));
}

#[test]
fn registrations_are_kept_in_order() {
    let mut env: Environment<u8> = Environment::new();
    env.register_global_function(String::from("say_hello"), 1, 1).unwrap();
    env.register_global_property(
        String::from("MY_PROJECT_VERSION"),
        HostValue::Text(String::from("1.0.0")),
        Attributes::all(),
    )
    .unwrap();
    env.register_global_class(class("Person")).unwrap();
    env.register_global_function(String::from("reverseAppend"), 1, 2).unwrap();
    assert_eq!(env.len(), 4);
    assert_eq!(env.registration(0).unwrap().name(), "say_hello");
    assert_eq!(env.registration(1).unwrap().name(), "MY_PROJECT_VERSION");
    assert_eq!(env.registration(2).unwrap().name(), "Person");
    assert_eq!(env.registration(3).unwrap().name(), "reverseAppend");
    assert!(env.registration(4).is_none());
}

#[test]
fn person_class_is_described_by_name_arity_and_method() {
    assert_eq!(CLASS_NAME, "Person");
    assert_eq!(CLASS_ARITY, 2);
    assert_eq!(SAY_HELLO_NAME, "say_hello");
    assert_eq!(SAY_HELLO_ARITY, 0);
    let descriptor = class_descriptor('c', 'm');
    assert_eq!(descriptor.name, "Person");
    assert_eq!(descriptor.arity, 2);
    assert_eq!(descriptor.constructor, 'c');
    assert_eq!(descriptor.methods.len(), 1);
    assert_eq!(descriptor.methods[0].name, "say_hello");
    assert_eq!(descriptor.methods[0].arity, 0);
    assert_eq!(descriptor.methods[0].callable, 'm');
}

#[test]
fn order_of_distinct_names_does_not_matter() {
    let mut one: Environment<u8> = Environment::new();
    one.register_global_function(String::from("a"), 0, 1).unwrap();
    one.register_global_function(String::from("b"), 0, 2).unwrap();
    let mut other: Environment<u8> = Environment::new();
    other.register_global_function(String::from("b"), 0, 2).unwrap();
    other.register_global_function(String::from("a"), 0, 1).unwrap();
    for name in ["a", "b", "c"] {
        let left = one.lookup(name).map(|global| match global {
            Global::Function(function) => function.callable,
            _ => 0,
        });
        let right = other.lookup(name).map(|global| match global {
            Global::Function(function) => function.callable,
            _ => 0,
        });
        assert_eq!(left, right);
    }
}

#[test]
fn a_registration_stays_until_its_name_is_taken_again() {
    let mut env: Environment<u8> = Environment::new();
    env.register_global_function(String::from("f"), 0, 1).unwrap();
    env.register_global_function(String::from("g"), 0, 2).unwrap();
    env.register_global_property(String::from("p"), HostValue::Boolean(true), Attributes::all())
        .unwrap();
    assert!(matches!(env.lookup("f"), Some(Global::Function(function)) if function.callable == 1));
    env.register_global_function(String::from("f"), 0, 3).unwrap();
    assert!(matches!(env.lookup("f"), Some(Global::Function(function)) if function.callable == 3));
}
