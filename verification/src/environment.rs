//! The global environment that a host sets up before any script runs: named
//! functions, properties and classes, in the order of their registration.

use vstd::prelude::*;
use vstd::string::StringExecFns;

verus! {

/// The attribute flags of a global property, each set on its own.
#[derive(Clone, Copy, Debug, PartialEq, Eq, Structural)]
pub struct Attributes {
    pub writable: bool,
    pub enumerable: bool,
    pub configurable: bool,
}

impl Attributes {
    /// All three flags set.
    pub fn all() -> (attributes: Attributes)
        ensures
            attributes == (Attributes { writable: true, enumerable: true, configurable: true }),
    {
        Attributes { writable: true, enumerable: true, configurable: true }
    }

    /// No flag set: a read-only, hidden, permanent property.
    pub fn none() -> (attributes: Attributes)
        ensures
            attributes == (Attributes { writable: false, enumerable: false, configurable: false }),
    {
        Attributes { writable: false, enumerable: false, configurable: false }
    }

    /// Whether all three flags are set.
    pub fn is_all(&self) -> (all: bool)
        ensures
            all == (self.writable && self.enumerable && self.configurable),
    {
        self.writable && self.enumerable && self.configurable
    }
}

/// A host value that can be handed to scripts as it is.
#[derive(Debug, PartialEq, Eq)]
pub enum HostValue {
    Undefined,
    Boolean(bool),
    Integer(i32),
    Text(String),
}

/// A host callable under the name and with the least number of arguments that
/// scripts see. `H` is whatever the host uses to reach the callable.
#[derive(Debug)]
pub struct BoundFunction<H> {
    pub name: String,
    pub arity: usize,
    pub callable: H,
}

/// A named global value with its attribute flags.
#[derive(Debug)]
pub struct GlobalProperty {
    pub name: String,
    pub value: HostValue,
    pub attributes: Attributes,
}

/// What scripts see of a native class: its name, the declared number of
/// constructor arguments, its constructor and its methods.
#[derive(Debug)]
pub struct ClassDescriptor<H> {
    pub name: String,
    pub arity: usize,
    pub constructor: H,
    pub methods: Vec<BoundFunction<H>>,
}

/// One registration in the global namespace.
#[derive(Debug)]
pub enum Global<H> {
    Function(BoundFunction<H>),
    Property(GlobalProperty),
    Class(ClassDescriptor<H>),
}

impl<H> Global<H> {
    /// The name under which the registration is bound.
    pub open spec fn name_view(self) -> Seq<char> {
        match self {
            Global::Function(function) => function.name@,
            Global::Property(property) => property.name@,
            Global::Class(class) => class.name@,
        }
    }

    /// The name under which the registration is bound.
    pub fn name(&self) -> (name: &String)
        ensures
            name@ == self.name_view(),
    {
        match self {
            Global::Function(function) => &function.name,
            Global::Property(property) => &property.name,
            Global::Class(class) => &class.name,
        }
    }
}

/// Why a registration was refused.
#[derive(Debug, PartialEq, Eq)]
pub enum SetupError {
    /// A class was registered under a name that is already bound.
    DuplicateClass { name: String },
}

/// The bindings that a sequence of registrations leaves: each name is bound
/// to the last registration made under it.
pub open spec fn bindings_of<H>(log: Seq<Global<H>>) -> Map<Seq<char>, Global<H>>
    decreases log.len(),
{
    if log.len() == 0 {
        Map::empty()
    } else {
        bindings_of(log.drop_last()).insert(log.last().name_view(), log.last())
    }
}

/// The global environment under construction. It records every accepted
/// registration in order, so that a host can replay them into an engine.
pub struct Environment<H> {
    globals: Vec<Global<H>>,
}

impl<H> Environment<H> {
    /// The accepted registrations, oldest first.
    pub closed spec fn registrations(&self) -> Seq<Global<H>> {
        self.globals@
    }

    /// The global namespace: what each bound name refers to.
    pub open spec fn bindings(&self) -> Map<Seq<char>, Global<H>> {
        bindings_of(self.registrations())
    }

    /// An environment with nothing registered.
    pub fn new() -> (env: Self)
        ensures
            env.registrations() == Seq::<Global<H>>::empty(),
            env.bindings() == Map::<Seq<char>, Global<H>>::empty(),
    {
        Environment { globals: Vec::new() }
    }

    /// Binds `name` to a host callable. A name that is already bound is bound
    /// anew, silently: the last registration wins. This never fails.
    pub fn register_global_function(&mut self, name: String, arity: usize, callable: H) -> (r:
        Result<(), SetupError>)
        ensures
            r is Ok,
            final(self).registrations() == old(self).registrations().push(
                Global::Function(BoundFunction { name, arity, callable }),
            ),
            final(self).bindings() == old(self).bindings().insert(
                name@,
                Global::Function(BoundFunction { name, arity, callable }),
            ),
    {
        let ghost before = self.globals@;
        let global = Global::Function(BoundFunction { name, arity, callable });
        self.globals.push(global);
        assert(self.globals@.drop_last() =~= before);
        Ok(())
    }

    /// Binds `name` to a value with the given attribute flags. A name that is
    /// already bound is bound anew, as for functions. This never fails.
    pub fn register_global_property(
        &mut self,
        name: String,
        value: HostValue,
        attributes: Attributes,
    ) -> (r: Result<(), SetupError>)
        ensures
            r is Ok,
            final(self).registrations() == old(self).registrations().push(
                Global::Property(GlobalProperty { name, value, attributes }),
            ),
            final(self).bindings() == old(self).bindings().insert(
                name@,
                Global::Property(GlobalProperty { name, value, attributes }),
            ),
    {
        let ghost before = self.globals@;
        let global = Global::Property(GlobalProperty { name, value, attributes });
        self.globals.push(global);
        assert(self.globals@.drop_last() =~= before);
        Ok(())
    }

    /// Binds the class's name to the class. A class name must be new to the
    /// namespace: where it is already bound, the registration is refused and
    /// the environment stays as it was.
    pub fn register_global_class(&mut self, class: ClassDescriptor<H>) -> (r: Result<
        (),
        SetupError,
    >)
        ensures
            old(self).bindings().dom().contains(class.name@) ==> {
                &&& r matches Err(SetupError::DuplicateClass { name })
                &&& name@ == class.name@
                &&& final(self).registrations() == old(self).registrations()
            },
            !old(self).bindings().dom().contains(class.name@) ==> {
                &&& r is Ok
                &&& final(self).registrations() == old(self).registrations().push(
                    Global::Class(class),
                )
                &&& final(self).bindings() == old(self).bindings().insert(
                    class.name@,
                    Global::Class(class),
                )
            },
    {
        if self.lookup(class.name.as_str()).is_some() {
            return Err(SetupError::DuplicateClass { name: class.name });
        }
        let ghost before = self.globals@;
        self.globals.push(Global::Class(class));
        assert(self.globals@.drop_last() =~= before);
        Ok(())
    }

    /// What `name` is bound to, if it is bound.
    pub fn lookup(&self, name: &str) -> (found: Option<&Global<H>>)
        ensures
            match found {
                Some(global) => self.bindings().dom().contains(name@) && self.bindings()[name@]
                    == *global,
                None => !self.bindings().dom().contains(name@),
            },
    {
        let key = String::from_str(name);
        let mut i: usize = self.globals.len();
        while i > 0
            invariant
                i <= self.globals@.len(),
                key@ == name@,
                forall|j: int|
                    i <= j < self.globals@.len() ==> (#[trigger] self.globals@[j]).name_view()
                        != name@,
            decreases i,
        {
            i = i - 1;
            if self.globals[i].name().eq(&key) {
                proof {
                    lemma_lookup_last(self.globals@, i as int);
                }
                return Some(&self.globals[i]);
            }
        }
        proof {
            lemma_lookup_absent(self.globals@, name@);
        }
        None
    }

    /// The number of accepted registrations.
    pub fn len(&self) -> (n: usize)
        ensures
            n == self.registrations().len(),
    {
        self.globals.len()
    }

    /// The registration made at position `index`, counting from the oldest, if
    /// there were that many.
    pub fn registration(&self, index: usize) -> (global: Option<&Global<H>>)
        ensures
            match global {
                Some(global) => index < self.registrations().len() && *global
                    == self.registrations()[index as int],
                None => index >= self.registrations().len(),
            },
    {
        if index < self.globals.len() {
            Some(&self.globals[index])
        } else {
            None
        }
    }
}

/// A name is bound to the registration at `index` when no later registration
/// was made under that name.
pub proof fn lemma_lookup_last<H>(log: Seq<Global<H>>, index: int)
    requires
        0 <= index < log.len(),
        forall|j: int| index < j < log.len() ==> (#[trigger] log[j]).name_view() != log[index].name_view(),
    ensures
        bindings_of(log).dom().contains(log[index].name_view()),
        bindings_of(log)[log[index].name_view()] == log[index],
    decreases log.len(),
{
    if index < log.len() - 1 {
        let shorter = log.drop_last();
        assert(shorter[index] == log[index]);
        assert forall|j: int| index < j < shorter.len() implies (#[trigger] shorter[j]).name_view()
            != shorter[index].name_view() by {
            assert(shorter[j] == log[j]);
        }
        lemma_lookup_last(shorter, index);
    }
}

/// A name under which nothing was registered is not bound.
pub proof fn lemma_lookup_absent<H>(log: Seq<Global<H>>, name: Seq<char>)
    requires
        forall|j: int| 0 <= j < log.len() ==> (#[trigger] log[j]).name_view() != name,
    ensures
        !bindings_of(log).dom().contains(name),
    decreases log.len(),
{
    if log.len() > 0 {
        let shorter = log.drop_last();
        assert forall|j: int| 0 <= j < shorter.len() implies (#[trigger] shorter[j]).name_view()
            != name by {
            assert(shorter[j] == log[j]);
        }
        lemma_lookup_absent(shorter, name);
    }
}

/// Last registration wins: after two registrations under one name, whatever
/// was registered before them, the name refers to the second, and the
/// namespace is the one that the second alone would have left.
pub proof fn lemma_last_registration_wins<H>(
    earlier: Seq<Global<H>>,
    first: Global<H>,
    second: Global<H>,
)
    requires
        first.name_view() == second.name_view(),
    ensures
        bindings_of(earlier.push(first).push(second))[second.name_view()] == second,
        bindings_of(earlier.push(first).push(second)) == bindings_of(earlier.push(second)),
{
    let one = earlier.push(first);
    let both = one.push(second);
    let only = earlier.push(second);
    assert(both.drop_last() =~= one);
    assert(one.drop_last() =~= earlier);
    assert(only.drop_last() =~= earlier);
    assert(bindings_of(one) == bindings_of(earlier).insert(first.name_view(), first));
    assert(bindings_of(both) == bindings_of(one).insert(second.name_view(), second));
    assert(bindings_of(only) == bindings_of(earlier).insert(second.name_view(), second));
    assert(bindings_of(both) =~= bindings_of(only));
}

/// The order of two registrations matters only where their names collide:
/// under different names, either order leaves the same namespace.
pub proof fn lemma_order_of_distinct_names<H>(
    earlier: Seq<Global<H>>,
    first: Global<H>,
    second: Global<H>,
)
    requires
        first.name_view() != second.name_view(),
    ensures
        bindings_of(earlier.push(first).push(second)) == bindings_of(
            earlier.push(second).push(first),
        ),
{
    let one = earlier.push(first);
    let other = earlier.push(second);
    assert(one.drop_last() =~= earlier);
    assert(other.drop_last() =~= earlier);
    assert(one.push(second).drop_last() =~= one);
    assert(other.push(first).drop_last() =~= other);
    assert(bindings_of(one) == bindings_of(earlier).insert(first.name_view(), first));
    assert(bindings_of(other) == bindings_of(earlier).insert(second.name_view(), second));
    assert(bindings_of(one.push(second)) == bindings_of(one).insert(second.name_view(), second));
    assert(bindings_of(other.push(first)) == bindings_of(other).insert(first.name_view(), first));
    assert(bindings_of(one.push(second)) =~= bindings_of(other.push(first)));
}

/// A registration stays reachable under its name for as long as no other
/// registration is made under that name.
pub proof fn lemma_registration_stays<H>(
    earlier: Seq<Global<H>>,
    global: Global<H>,
    later: Seq<Global<H>>,
)
    requires
        forall|j: int| 0 <= j < later.len() ==> (#[trigger] later[j]).name_view() != global.name_view(),
    ensures
        bindings_of(earlier.push(global) + later).dom().contains(global.name_view()),
        bindings_of(earlier.push(global) + later)[global.name_view()] == global,
{
    let log = earlier.push(global) + later;
    let index = earlier.len() as int;
    assert(log[index] == global);
    assert forall|j: int| index < j < log.len() implies (#[trigger] log[j]).name_view()
        != log[index].name_view() by {
        assert(log[j] == later[j - index - 1]);
    }
    lemma_lookup_last(log, index);
}

} // verus!
