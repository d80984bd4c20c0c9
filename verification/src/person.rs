//! The native `Person` class: its data, the rule its constructor enforces and
//! what its one method says.

use vstd::prelude::*;
use vstd::string::StringExecFns;
use crate::environment::{BoundFunction, ClassDescriptor};
use crate::error::{ExceptionKind, ExceptionView, ScriptException};
use crate::text::{decimal_digits, decimal_text};

verus! {

/// The greatest age a person may have.
pub const MAX_AGE: u32 = 150;

/// The name under which scripts find the class.
pub const CLASS_NAME: &'static str = "Person";

/// The number of arguments that the constructor declares: a name and an age.
pub const CLASS_ARITY: usize = 2;

/// The name of the class's one method.
pub const SAY_HELLO_NAME: &'static str = "say_hello";

/// The number of arguments that the method `say_hello` declares.
pub const SAY_HELLO_ARITY: usize = 0;

/// A person as scripts construct it: a name and an age of at most
/// [`MAX_AGE`] years.
#[derive(Debug, PartialEq, Eq)]
pub struct Person {
    name: String,
    age: u8,
}

/// The mathematical content of a [`Person`].
pub ghost struct PersonView {
    pub name: Seq<char>,
    pub age: nat,
}

impl View for Person {
    type V = PersonView;

    closed spec fn view(&self) -> PersonView {
        PersonView { name: self.name@, age: self.age as nat }
    }
}

impl Clone for Person {
    fn clone(&self) -> (copy: Person)
        ensures
            copy@ == self@,
    {
        proof {
            use_type_invariant(self);
        }
        Person { name: self.name.clone(), age: self.age }
    }
}

/// The message of the exception raised for an age above [`MAX_AGE`].
pub open spec fn invalid_age_text(age: nat) -> Seq<char> {
    "invalid age `$"@ + decimal_digits(age) + "`. Must be between 0 and 150"@
}

/// What a person says when greeted.
pub open spec fn person_hello_text(person: PersonView) -> Seq<char> {
    "Hello "@ + decimal_digits(person.age) + "-year-old "@ + person.name + "!"@
}

/// The message of the exception raised when a method of `Person` runs on a
/// receiver that is no `Person`.
pub open spec fn not_a_person_text() -> Seq<char> {
    "`this` is not a `Person` object"@
}

/// What constructing a person from a name and a coerced age gives.
pub open spec fn construct_spec(name: Seq<char>, age: nat) -> Result<PersonView, ExceptionView> {
    if age <= MAX_AGE {
        Ok(PersonView { name, age })
    } else {
        Err(ExceptionView { kind: ExceptionKind::RangeError, message: invalid_age_text(age) })
    }
}

/// What the method `say_hello` gives for a receiver that is a person
/// (`Some`) or is not (`None`).
pub open spec fn say_hello_spec(receiver: Option<PersonView>) -> Result<Seq<char>, ExceptionView> {
    match receiver {
        Some(person) => Ok(person_hello_text(person)),
        None => Err(ExceptionView { kind: ExceptionKind::TypeError, message: not_a_person_text() }),
    }
}

/// Maps a `Result` of a person and an exception to its mathematical content.
pub open spec fn construct_view(r: Result<Person, ScriptException>) -> Result<
    PersonView,
    ExceptionView,
> {
    match r {
        Ok(person) => Ok(person@),
        Err(e) => Err(e@),
    }
}

/// Maps a `Result` of a line and an exception to its mathematical content.
pub open spec fn line_view(r: Result<String, ScriptException>) -> Result<Seq<char>, ExceptionView> {
    match r {
        Ok(line) => Ok(line@),
        Err(e) => Err(e@),
    }
}

impl Person {
    #[verifier::type_invariant]
    spec fn age_in_range(self) -> bool {
        self.age <= MAX_AGE
    }

    /// Constructs a person. `age` is the script's argument after its
    /// coercion to an unsigned 32-bit number; an age above [`MAX_AGE`] is
    /// refused with a `RangeError` and no person is made.
    pub fn new(name: String, age: u32) -> (r: Result<Person, ScriptException>)
        ensures
            construct_view(r) == construct_spec(name@, age as nat),
    {
        if age > MAX_AGE {
            let mut message = String::from_str("invalid age `$");
            let digits = decimal_text(age);
            message.append(digits.as_str());
            message.append("`. Must be between 0 and 150");
            Err(ScriptException::range_error(message))
        } else {
            Ok(Person { name, age: age as u8 })
        }
    }

    /// The person's name.
    pub fn name(&self) -> (name: &str)
        ensures
            name@ == self@.name,
    {
        self.name.as_str()
    }

    /// The person's age, which never exceeds [`MAX_AGE`].
    pub fn age(&self) -> (age: u8)
        ensures
            age == self@.age,
            age <= MAX_AGE,
    {
        proof {
            use_type_invariant(self);
        }
        self.age
    }

    /// The line `Hello <age>-year-old <name>!`.
    pub fn greeting(&self) -> (line: String)
        ensures
            line@ == person_hello_text(self@),
    {
        let mut line = String::from_str("Hello ");
        let digits = decimal_text(self.age as u32);
        line.append(digits.as_str());
        line.append("-year-old ");
        line.append(self.name.as_str());
        line.append("!");
        line
    }

    /// The method `say_hello` of the class. `receiver` is the native instance
    /// that the call's `this` value boxes, or `None` when `this` boxes no
    /// `Person`; in that case a `TypeError` is raised.
    pub fn say_hello(receiver: Option<&Person>) -> (r: Result<String, ScriptException>)
        ensures
            line_view(r) == say_hello_spec(
                match receiver {
                    Some(person) => Some(person@),
                    None => None,
                },
            ),
    {
        match receiver {
            Some(person) => Ok(person.greeting()),
            None => Err(
                ScriptException::type_error(String::from_str("`this` is not a `Person` object")),
            ),
        }
    }
}

/// What scripts see of the class: its name, its declared arity and its one
/// method, `say_hello`, bound to the callables that the host gives.
pub fn class_descriptor<H>(constructor: H, say_hello: H) -> (class: ClassDescriptor<H>)
    ensures
        class.name@ == CLASS_NAME@,
        class.arity == CLASS_ARITY,
        class.constructor == constructor,
        class.methods@.len() == 1,
        class.methods@[0].name@ == SAY_HELLO_NAME@,
        class.methods@[0].arity == SAY_HELLO_ARITY,
        class.methods@[0].callable == say_hello,
{
    let mut methods: Vec<BoundFunction<H>> = Vec::new();
    methods.push(
        BoundFunction {
            name: String::from_str(SAY_HELLO_NAME),
            arity: SAY_HELLO_ARITY,
            callable: say_hello,
        },
    );
    ClassDescriptor {
        name: String::from_str(CLASS_NAME),
        arity: CLASS_ARITY,
        constructor,
        methods,
    }
}

} // verus!
