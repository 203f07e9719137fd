//! Configuration variables and the registry that lists them.
//!
//! A configuration variable is a named value with a note on what it is for.
//! A registry lists variables, the one registered last first, so that a
//! program can show and look up everything that can be configured.

use vstd::prelude::*;

verus! {

/// `str`'s `==` of the standard library: two strings are equal when they hold
/// the same characters in the same order.
#[verifier::external_body]
fn same_text(a: &str, b: &str) -> (same: bool)
    ensures
        same == (a@ == b@),
{
    a == b
}

/// What a registry needs to know of a configuration variable.
pub trait Configurable: std::fmt::Debug {
    /// The name of the variable.
    spec fn name(&self) -> Seq<char>;

    /// The type of the variable's value, as it is written in source text.
    spec fn type_label(&self) -> Seq<char>;

    /// The path of modules under which the variable is found, the name
    /// included.
    spec fn path(&self) -> Seq<char>;

    /// What the variable is for.
    spec fn purpose(&self) -> Seq<char>;

    /// How the default value is written in source text.
    spec fn default_value(&self) -> Seq<char>;

    /// The name of the variable.
    fn get_name(&self) -> (s: &str)
        ensures
            s@ == self.name(),
    ;

    /// The type of the variable's value, as it is written in source text.
    fn get_type(&self) -> (s: &str)
        ensures
            s@ == self.type_label(),
    ;

    /// The path of modules under which the variable is found, the name
    /// included.
    fn get_path(&self) -> (s: &str)
        ensures
            s@ == self.path(),
    ;

    /// What the variable is for.
    fn get_purpose(&self) -> (s: &str)
        ensures
            s@ == self.purpose(),
    ;

    /// How the default value is written in source text.
    fn get_default_value(&self) -> (s: &str)
        ensures
            s@ == self.default_value(),
    ;
}

/// A configuration variable with a value of type `T`.
#[derive(Debug)]
pub struct Config<T> {
    /// The name of the variable.
    pub name: &'static str,
    /// The type of the value, as it is written in source text.
    pub type_str: &'static str,
    /// The path of modules under which the variable is found, such as
    /// `somelib::somemod::A_CONFIG_VAR`.
    pub path: &'static str,
    /// What the variable is for.
    pub purpose: &'static str,
    /// How the default value is written in source text.
    pub default_value_str: &'static str,
    /// The present value.
    pub value: T,
}

impl<T> Config<T> {
    /// A variable that holds its default value.
    pub fn new(
        name: &'static str,
        type_str: &'static str,
        path: &'static str,
        purpose: &'static str,
        default_value_str: &'static str,
        default_value: T,
    ) -> (c: Self)
        ensures
            c == (Config { name, type_str, path, purpose, default_value_str, value: default_value }),
    {
        Config { name, type_str, path, purpose, default_value_str, value: default_value }
    }

    /// Gives the variable a new value; what describes it stays.
    pub fn set(&mut self, value: T)
        ensures
            *final(self) == (Config { value, ..*old(self) }),
    {
        self.value = value;
    }
}

impl<T: Clone> Config<T> {
    /// A copy of the present value.
    pub fn get(&self) -> (value: T)
        ensures
            cloned(self.value, value),
    {
        self.value.clone()
    }
}

impl<T: std::fmt::Debug> Configurable for Config<T> {
    open spec fn name(&self) -> Seq<char> {
        self.name@
    }

    open spec fn type_label(&self) -> Seq<char> {
        self.type_str@
    }

    open spec fn path(&self) -> Seq<char> {
        self.path@
    }

    open spec fn purpose(&self) -> Seq<char> {
        self.purpose@
    }

    open spec fn default_value(&self) -> Seq<char> {
        self.default_value_str@
    }

    fn get_name(&self) -> (s: &str) {
        self.name
    }

    fn get_type(&self) -> (s: &str) {
        self.type_str
    }

    fn get_path(&self) -> (s: &str) {
        self.path
    }

    fn get_purpose(&self) -> (s: &str) {
        self.purpose
    }

    fn get_default_value(&self) -> (s: &str) {
        self.default_value_str
    }
}

/// Walks over configuration variables, one at a time.
pub struct ConfigIterator<'a, C: Configurable> {
    // What is yet to come, the next one last.
    rest: Vec<&'a C>,
}

impl<'a, C: Configurable> ConfigIterator<'a, C> {
    /// The variables that are yet to come, the next one first.
    pub closed spec fn remaining(&self) -> Seq<&'a C> {
        self.rest@.reverse()
    }

    /// An iterator that yields `ptr` and is then done.
    pub fn new(ptr: &'a C) -> (it: Self)
        ensures
            it.remaining() == seq![ptr],
    {
        let mut rest: Vec<&'a C> = Vec::new();
        rest.push(ptr);
        ConfigIterator { rest }
    }

    /// An iterator that yields nothing.
    pub fn empty() -> (it: Self)
        ensures
            it.remaining() == Seq::<&'a C>::empty(),
    {
        let rest: Vec<&'a C> = Vec::new();
        ConfigIterator { rest }
    }

    /// An iterator that yields what `opt` holds, if anything.
    pub fn from_option(opt: Option<&'a C>) -> (it: Self)
        ensures
            opt matches Some(ptr) ==> it.remaining() == seq![ptr],
            opt is None ==> it.remaining() == Seq::<&'a C>::empty(),
    {
        match opt {
            Some(ptr) => ConfigIterator::new(ptr),
            None => ConfigIterator::empty(),
        }
    }

    /// The next variable, if there is one left.
    pub fn next(&mut self) -> (item: Option<&'a C>)
        ensures
            old(self).remaining().len() == 0 ==> item is None,
            old(self).remaining().len() == 0 ==> final(self).remaining() == old(self).remaining(),
            old(self).remaining().len() > 0 ==> item == Some(old(self).remaining()[0]),
            old(self).remaining().len() > 0 ==> final(self).remaining() == old(self).remaining().skip(1),
    {
        self.rest.pop()
    }
}

/// A list of configuration variables of the kind `C`, the one registered last
/// first.
pub struct ConfigRegistry<'a, C: Configurable> {
    // In the order of registration.
    configs: Vec<&'a C>,
}

impl<'a, C: Configurable> ConfigRegistry<'a, C> {
    /// The registered variables, the one registered last first.
    pub closed spec fn listed(&self) -> Seq<&'a C> {
        self.configs@.reverse()
    }

    /// A registry that lists nothing.
    pub fn new() -> (r: Self)
        ensures
            r.listed() == Seq::<&'a C>::empty(),
    {
        let configs: Vec<&'a C> = Vec::new();
        ConfigRegistry { configs }
    }

    /// An iterator over the registered variables, the one registered last
    /// first.
    pub fn iter(&self) -> (it: ConfigIterator<'a, C>)
        ensures
            it.remaining() == self.listed(),
    {
        let mut rest: Vec<&'a C> = Vec::new();
        let mut i: usize = 0;
        while i < self.configs.len()
            invariant
                i <= self.configs.len(),
                rest@ == self.configs@.take(i as int),
            decreases self.configs.len() - i,
        {
            rest.push(self.configs[i]);
            i += 1;
        }
        ConfigIterator { rest }
    }

    /// Puts `new_config` at the head of the list.
    pub fn register(&mut self, new_config: &'a C)
        ensures
            final(self).listed() == seq![new_config] + old(self).listed(),
    {
        self.configs.push(new_config);
    }
}

/// All variables of `registry`, the one registered last first.
pub fn all_configs<'a, C: Configurable>(registry: &ConfigRegistry<'a, C>) -> (it: ConfigIterator<'a, C>)
    ensures
        it.remaining() == registry.listed(),
{
    registry.iter()
}

/// Every variable of `registry` that is called `name`, in the order of the
/// registry.
pub fn find<'a, C: Configurable>(registry: &ConfigRegistry<'a, C>, name: &str) -> (found: Vec<&'a C>)
    ensures
        found@ == registry.listed().filter(|cfg: &'a C| cfg.name() == name@),
{
    let ghost wanted = |cfg: &'a C| cfg.name() == name@;
    let mut found: Vec<&'a C> = Vec::new();
    let mut it = registry.iter();
    let ghost mut seen: Seq<&'a C> = Seq::empty();
    proof {
        reveal(Seq::filter);
    }
    loop
        invariant
            seen + it.remaining() == registry.listed(),
            found@ == seen.filter(wanted),
            wanted == |cfg: &'a C| cfg.name() == name@,
        decreases it.remaining().len(),
    {
        match it.next() {
            None => {
                return found;
            },
            Some(cfg) => {
                proof {
                    reveal(Seq::filter);
                    assert(seen.push(cfg).drop_last() =~= seen);
                    seen = seen.push(cfg);
                }
                if same_text(cfg.get_name(), name) {
                    found.push(cfg);
                }
            },
        }
    }
}

/// The first variable of `registry`, in its order, whose path is `path`.
pub fn lookup<'a, C: Configurable>(registry: &ConfigRegistry<'a, C>, path: &str) -> (found: Option<
    &'a C,
>)
    ensures
        found is None <==> forall|i: int|
            0 <= i < registry.listed().len() ==> (#[trigger] registry.listed()[i]).path() != path@,
        found matches Some(cfg) ==> exists|i: int|
            0 <= i < registry.listed().len() && #[trigger] registry.listed()[i] == cfg
                && cfg.path() == path@ && forall|j: int|
                0 <= j < i ==> (#[trigger] registry.listed()[j]).path() != path@,
{
    let mut it = registry.iter();
    let ghost mut seen: int = 0;
    loop
        invariant
            0 <= seen <= registry.listed().len(),
            it.remaining() == registry.listed().skip(seen),
            forall|j: int| 0 <= j < seen ==> (#[trigger] registry.listed()[j]).path() != path@,
        decreases it.remaining().len(),
    {
        match it.next() {
            None => {
                return None;
            },
            Some(cfg) => {
                if same_text(cfg.get_path(), path) {
                    return Some(cfg);
                }
                proof {
                    assert(registry.listed().skip(seen).skip(1) =~= registry.listed().skip(
                        seen + 1,
                    ));
                    seen = seen + 1;
                }
            },
        }
    }
}

} // verus!
