//! The bindings to the Boa engine: the engine's own types and calls, each
//! behind a trusted declaration, and the verified functions that sit between
//! them and the rules of this library.
//!
//! What is trusted here is not proved: the private functions marked
//! `external_body` hold the calls into Boa. Only calls that look at a value
//! or make one stand here. Whatever may run script code (a conversion of an
//! object, a property read, an evaluation) is left to the host: this module
//! says which value to convert and what to do with the answer. No call here
//! borrows an object that a caller hands in.

use boa_engine::builtins::JsArgs;
use boa_engine::object::JsObject;
use boa_engine::property::Attribute;
use boa_engine::{Context, JsValue};
use vstd::prelude::*;
use vstd::string::StringExecFns;
use crate::environment::{GlobalProperty, HostValue};
use crate::error::{ExceptionKind, ExceptionView, ScriptException};
use crate::person::{construct_spec, say_hello_spec, Person, PersonView};
use crate::sequence::{reverse_and_append, reverse_append_spec};

verus! {

/// Boa's `JsValue`, a value of a script. Nothing inside it is visible here.
#[verifier::external_type_specification]
#[verifier::external_body]
pub struct ExJsValue(JsValue);

/// Boa's `Context`, the state of one script environment.
#[verifier::external_type_specification]
#[verifier::external_body]
pub struct ExContext(Context);

/// Boa's `JsObject`, a handle to an object on the engine's heap.
#[verifier::external_type_specification]
#[verifier::external_body]
pub struct ExJsObject(JsObject);

/// What `JsValue::is_undefined` answers for a value.
pub uninterp spec fn value_is_undefined(value: JsValue) -> bool;

/// What `JsValue::as_object` gives for a value: the object it refers to, if
/// it refers to one.
pub uninterp spec fn value_object(value: JsValue) -> Option<JsObject>;

/// What `JsValue::from` makes of a `bool`.
pub uninterp spec fn script_boolean(flag: bool) -> JsValue;

/// What `JsValue::from` makes of an `i32`.
pub uninterp spec fn script_integer(number: i32) -> JsValue;

/// What `JsValue::from` makes of a text.
pub uninterp spec fn script_text(text: Seq<char>) -> JsValue;

/// Whether `thrown` is what `Context::construct_type_error` makes of
/// `message`: the engine's `TypeError` with that message.
pub uninterp spec fn type_error_of(thrown: JsValue, message: Seq<char>) -> bool;

/// Whether `thrown` is what `Context::construct_range_error` makes of
/// `message`: the engine's `RangeError` with that message.
pub uninterp spec fn range_error_of(thrown: JsValue, message: Seq<char>) -> bool;

/// What the context's table of global properties holds under the key that
/// the engine makes of `name`: the value and the flags writable, enumerable
/// and configurable, in that order.
pub uninterp spec fn global_property(context: Context, name: Seq<char>) -> Option<
    (JsValue, bool, bool, bool),
>;

/// Whether a value refers to an object.
pub open spec fn value_is_object(value: JsValue) -> bool {
    value_object(value) is Some
}

/// Whether `value` is what a callable reads at position `index` of its
/// arguments: the argument there, or `undefined` past their end.
pub open spec fn reads_as(args: Seq<JsValue>, index: int, value: JsValue) -> bool {
    if index < args.len() {
        value == args[index]
    } else {
        value_is_undefined(value)
    }
}

/// Whether position `index` of the arguments reads as `undefined`: it lies
/// past their end, or the argument there is `undefined`.
pub open spec fn undefined_at(args: Seq<JsValue>, index: int) -> bool {
    index >= args.len() || value_is_undefined(args[index])
}

/// The object that position `index` of the arguments refers to, if any: a
/// position past their end refers to none.
pub open spec fn object_at_spec(args: Seq<JsValue>, index: int) -> Option<JsObject> {
    if index < args.len() {
        value_object(args[index])
    } else {
        None
    }
}

/// Whether `thrown` is the engine's error value for the exception: an object
/// that the engine's constructor of that kind made of the message.
pub open spec fn is_raised(exception: ExceptionView, thrown: JsValue) -> bool {
    &&& value_is_object(thrown)
    &&& match exception.kind {
        ExceptionKind::TypeError => type_error_of(thrown, exception.message),
        ExceptionKind::RangeError => range_error_of(thrown, exception.message),
    }
}

/// Whether the context holds the property under its name: its value
/// converted, and its three flags as they are.
pub open spec fn holds_property(context: Context, property: GlobalProperty) -> bool {
    &&& global_property(context, property.name@) matches Some(held)
    &&& is_script_of(property.value, held.0)
    &&& held.1 == property.attributes.writable
    &&& held.2 == property.attributes.enumerable
    &&& held.3 == property.attributes.configurable
}

/// Whether `script` is the engine's value for the host value.
pub open spec fn is_script_of(value: HostValue, script: JsValue) -> bool {
    match value {
        HostValue::Undefined => value_is_undefined(script),
        HostValue::Boolean(flag) => script == script_boolean(flag),
        HostValue::Integer(number) => script == script_integer(number),
        HostValue::Text(text) => script == script_text(text@),
    }
}

/// Calls `JsArgs::get_or_undefined` on the arguments. For a position that
/// the arguments cover, the result is the argument there; for a position
/// past their end it is Boa's `undefined`.
#[verifier::external_body]
fn get_or_undefined<'a>(args: &'a [JsValue], index: usize) -> (value: &'a JsValue)
    ensures
        reads_as(args@, index as int, *value),
{
    args.get_or_undefined(index)
}

/// Calls `JsValue::is_undefined`; the answer is the one named for the value.
#[verifier::external_body]
fn is_undefined(value: &JsValue) -> (undefined: bool)
    ensures
        undefined == value_is_undefined(*value),
{
    value.is_undefined()
}

/// Calls `JsValue::as_object` and copies the handle; the answer is the one
/// named for the value.
#[verifier::external_body]
fn value_as_object(value: &JsValue) -> (object: Option<JsObject>)
    ensures
        object == value_object(*value),
{
    value.as_object().cloned()
}

/// Calls `Context::construct_type_error`. The result is an object, and it is
/// the one that this constructor makes of the message.
#[verifier::external_body]
fn construct_type_error(context: &mut Context, message: &str) -> (thrown: JsValue)
    ensures
        value_is_object(thrown),
        type_error_of(thrown, message@),
{
    context.construct_type_error(message)
}

/// Calls `Context::construct_range_error`. The result is an object, and it
/// is the one that this constructor makes of the message.
#[verifier::external_body]
fn construct_range_error(context: &mut Context, message: &str) -> (thrown: JsValue)
    ensures
        value_is_object(thrown),
        range_error_of(thrown, message@),
{
    context.construct_range_error(message)
}

/// Calls `JsValue::undefined`; the result is `undefined`.
#[verifier::external_body]
fn undefined_value() -> (value: JsValue)
    ensures
        value_is_undefined(value),
{
    JsValue::undefined()
}

/// Calls `JsValue::from` on a `bool`; the result is the one named for it.
#[verifier::external_body]
fn boolean_value(flag: bool) -> (value: JsValue)
    ensures
        value == script_boolean(flag),
{
    JsValue::from(flag)
}

/// Calls `JsValue::from` on an `i32`; the result is the one named for it.
#[verifier::external_body]
fn integer_value(number: i32) -> (value: JsValue)
    ensures
        value == script_integer(number),
{
    JsValue::from(number)
}

/// Calls `JsValue::from` on a string slice; the result is the one named for
/// its text.
#[verifier::external_body]
fn text_value(text: &str) -> (value: JsValue)
    ensures
        value == script_text(text@),
{
    JsValue::from(text)
}

/// Calls `Context::register_global_property` with an `Attribute` that holds
/// the flags given as `true`. Afterwards the context holds the value and the
/// three flags under the key of the name. Of other names nothing is claimed:
/// the engine gives two names one key where both write the same number.
#[verifier::external_body]
fn register_property(
    context: &mut Context,
    name: &str,
    value: JsValue,
    writable: bool,
    enumerable: bool,
    configurable: bool,
)
    ensures
        global_property(*final(context), name@) == Some(
            (value, writable, enumerable, configurable),
        ),
{
    let mut flags = Attribute::empty();
    flags.set_writable(writable);
    flags.set_enumerable(enumerable);
    flags.set_configurable(configurable);
    context.register_global_property(name, value, flags);
}

/// Whether the argument at `index` is `undefined`. A position past the end
/// of the arguments reads as `undefined`: a call with fewer arguments than the
/// callable declares is no error.
pub fn is_undefined_at(args: &[JsValue], index: usize) -> (undefined: bool)
    ensures
        undefined == undefined_at(args@, index as int),
{
    if index >= args.len() {
        true
    } else {
        is_undefined(&args[index])
    }
}

/// The object that the argument at `index` refers to, if it refers to one. A
/// position past the end of the arguments reads as `undefined`, which is no
/// object.
pub fn object_at(args: &[JsValue], index: usize) -> (object: Option<JsObject>)
    ensures
        object == object_at_spec(args@, index as int),
{
    if index >= args.len() {
        None
    } else {
        value_as_object(&args[index])
    }
}

/// Hands a host value to the engine: the engine's value of the same kind and
/// content.
pub fn to_script(value: &HostValue) -> (script: JsValue)
    ensures
        is_script_of(*value, script),
{
    match value {
        HostValue::Undefined => undefined_value(),
        HostValue::Boolean(flag) => boolean_value(*flag),
        HostValue::Integer(number) => integer_value(*number),
        HostValue::Text(text) => text_value(text.as_str()),
    }
}

/// Turns an exception of this library into the engine's error value of the
/// same kind and message, ready to be returned as the failure of a callable.
pub fn raise(context: &mut Context, exception: &ScriptException) -> (thrown: JsValue)
    ensures
        is_raised(exception@, thrown),
{
    match exception.kind {
        ExceptionKind::TypeError => construct_type_error(context, exception.message.as_str()),
        ExceptionKind::RangeError => construct_range_error(context, exception.message.as_str()),
    }
}

/// The global function `say_hello`, up to the one step that is the engine's:
/// the argument whose string conversion is to be greeted, or `None` where
/// the first argument is missing or `undefined` and the world is greeted.
/// The host converts the value and has the line from
/// [`hello_line`](crate::greeting::hello_line).
pub fn say_hello<'a>(args: &'a [JsValue]) -> (name: Option<&'a JsValue>)
    ensures
        match name {
            None => undefined_at(args@, 0),
            Some(value) => !undefined_at(args@, 0) && *value == args@[0],
        },
{
    if is_undefined_at(args, 0) {
        None
    } else {
        Some(&args[0])
    }
}

/// The two values that the constructor of `Person` converts: the first
/// argument, whose string conversion is the name, and the second, whose
/// conversion to an unsigned 32-bit number is the age. A missing argument
/// reads as `undefined`.
pub fn constructor_arguments<'a>(args: &'a [JsValue]) -> (values: (&'a JsValue, &'a JsValue))
    ensures
        reads_as(args@, 0, *values.0),
        reads_as(args@, 1, *values.1),
{
    (get_or_undefined(args, 0), get_or_undefined(args, 1))
}

/// The constructor of the native class `Person`, from the converted
/// arguments on: a person of that name and age for an age of at most
/// [`MAX_AGE`](crate::person::MAX_AGE), else the engine's error value for the
/// `RangeError` that [`Person::new`] gives, and no person.
pub fn construct_person(name: String, age: u32, context: &mut Context) -> (r: Result<
    Person,
    JsValue,
>)
    ensures
        match construct_spec(name@, age as nat) {
            Ok(view) => r matches Ok(person) && person@ == view,
            Err(exception) => r matches Err(thrown) && is_raised(exception, thrown),
        },
{
    match Person::new(name, age) {
        Ok(person) => Ok(person),
        Err(exception) => Err(raise(context, &exception)),
    }
}

/// What a receiver is to the method `say_hello`: the person's content, or
/// nothing where the receiver boxes no person.
pub open spec fn receiver_view(receiver: Option<&Person>) -> Option<PersonView> {
    match receiver {
        Some(person) => Some(person@),
        None => None,
    }
}

/// The line that the method `say_hello` of `Person` prints. `receiver` is the
/// person that the call's `this` value boxes, if it boxes one; without one the
/// call fails with the engine's error value for the `TypeError` that
/// [`Person::say_hello`] gives.
pub fn person_hello_message(receiver: Option<&Person>, context: &mut Context) -> (r: Result<
    String,
    JsValue,
>)
    ensures
        match say_hello_spec(receiver_view(receiver)) {
            Ok(text) => r matches Ok(line) && line@ == text,
            Err(exception) => r matches Err(thrown) && is_raised(exception, thrown),
        },
{
    match Person::say_hello(receiver) {
        Ok(line) => Ok(line),
        Err(exception) => Err(raise(context, &exception)),
    }
}

/// The exception for an argument that is no array.
pub fn not_an_array() -> (exception: ScriptException)
    ensures
        exception@ == not_an_array_view(),
{
    ScriptException::type_error(String::from_str("argument must be an array"))
}

/// The content of [`not_an_array`].
pub open spec fn not_an_array_view() -> ExceptionView {
    ExceptionView { kind: ExceptionKind::TypeError, message: "argument must be an array"@ }
}

/// The object that the global function `reverseAppend` takes as its array:
/// the one that its first argument refers to. An argument that is missing or
/// refers to no object fails with the engine's error value for
/// [`not_an_array`]. Whether the object is an array is the engine's to say:
/// the host asks it before it reads the items.
pub fn array_argument(args: &[JsValue], context: &mut Context) -> (r: Result<JsObject, JsValue>)
    ensures
        match object_at_spec(args@, 0) {
            Some(object) => r == Ok::<JsObject, JsValue>(object),
            None => r matches Err(thrown) && is_raised(not_an_array_view(), thrown),
        },
{
    match object_at(args, 0) {
        Some(object) => Ok(object),
        None => {
            let exception = not_an_array();
            Err(raise(context, &exception))
        },
    }
}

/// The text that `reverseAppend` appends first.
pub open spec fn label_text() -> Seq<char> {
    "My Project"@
}

/// The global function `reverseAppend`, from the items of its argument on.
/// `items` are the items as the host read them, first to last, and `version`
/// is the outcome of its read of the global `MY_PROJECT_VERSION`. The result
/// holds the items back to front, then the text `My Project`, then the
/// version, or `undefined` where the read failed. The host makes a new array
/// of the result; what the items were read from is not touched.
pub fn reverse_append(items: Vec<JsValue>, version: Result<JsValue, JsValue>) -> (out: Vec<
    JsValue,
>)
    ensures
        out@.len() == items@.len() + 2,
        out@ == reverse_append_spec(items@, script_text(label_text()), out@.last()),
        match version {
            Ok(value) => out@.last() == value,
            Err(_) => value_is_undefined(out@.last()),
        },
{
    let label = text_value("My Project");
    let last = match version {
        Ok(value) => value,
        Err(_) => undefined_value(),
    };
    reverse_and_append(items, label, last)
}

/// Registers a global property with the engine, under its name, with its
/// value converted and its attribute flags as they are.
pub fn install_property(context: &mut Context, property: &GlobalProperty)
    ensures
        holds_property(*final(context), *property),
{
    let value = to_script(&property.value);
    register_property(
        context,
        property.name.as_str(),
        value,
        property.attributes.writable,
        property.attributes.enumerable,
        property.attributes.configurable,
    );
}

/// What a run reports for an exception that no script caught.
pub open spec fn uncaught_text(description: Seq<char>) -> Seq<char> {
    "Uncaught "@ + description
}

/// Builds the report of an uncaught exception from its description.
pub fn uncaught_line(description: &str) -> (line: String)
    ensures
        line@ == uncaught_text(description@),
{
    let mut line = String::from_str("Uncaught ");
    line.append(description);
    line
}

/// What a run gives its host. `outcome` is the text of the run's result, or
/// the description of the exception that ended it. The text is passed on as
/// it is; the description becomes the report of an uncaught exception.
pub fn run_report(outcome: Result<String, String>) -> (r: Result<String, String>)
    ensures
        match outcome {
            Ok(text) => r matches Ok(given) && given@ == text@,
            Err(description) => r matches Err(report) && report@ == uncaught_text(description@),
        },
{
    match outcome {
        Ok(text) => Ok(text),
        Err(description) => Err(uncaught_line(description.as_str())),
    }
}

} // verus!
