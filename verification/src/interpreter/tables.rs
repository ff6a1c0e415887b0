//! The tables of the interpreter: variables by name, options by name.
//!
//! Both are hash maps of the crate `hashbrown`. The verifier does not look
//! into them: what a table holds is named by a function without a body,
//! and each operation states over that name what the hash map does.

use vstd::prelude::*;
use crate::interpreter::value::Value;
use crate::interpreter::builtins::option::BuildOption;

verus! {

/// The variables of a script, by name.
#[verifier::external_body]
pub struct VarTable {
    inner: hashbrown::HashMap<String, Value>,
}

/// The options of a build, by name.
#[verifier::external_body]
pub struct OptionTable {
    inner: hashbrown::HashMap<String, BuildOption>,
}

/// What a table of variables holds: the value of each name that is bound.
pub uninterp spec fn var_map(t: VarTable) -> Map<Seq<char>, Value>;

/// What a table of options holds: the option of each name that is
/// declared.
pub uninterp spec fn option_map(t: OptionTable) -> Map<Seq<char>, BuildOption>;

impl VarTable {
    /// `HashMap::new` of hashbrown: a map that holds nothing.
    #[verifier::external_body]
    pub(crate) fn new() -> (r: VarTable)
        ensures
            var_map(r).dom() == Set::<Seq<char>>::empty(),
    {
        VarTable { inner: hashbrown::HashMap::new() }
    }

    /// `HashMap::insert` of hashbrown: the key is bound to the value,
    /// whatever it was bound to before; the other keys keep their values.
    #[verifier::external_body]
    pub(crate) fn insert(&mut self, name: String, value: Value)
        ensures
            var_map(*final(self)) == var_map(*old(self)).insert(name@, value),
    {
        self.inner.insert(name, value);
    }

    /// `HashMap::get` of hashbrown: the value that the key is bound to, or
    /// `None` where it is bound to nothing.
    #[verifier::external_body]
    pub(crate) fn get(&self, name: &str) -> (r: Option<&Value>)
        ensures
            match r {
                Some(v) => var_map(*self).contains_key(name@) && var_map(*self)[name@] == *v,
                None => !var_map(*self).contains_key(name@),
            },
    {
        self.inner.get(name)
    }

    /// `HashMap::contains_key` of hashbrown: whether the key is bound.
    #[verifier::external_body]
    pub(crate) fn contains_key(&self, name: &str) -> (r: bool)
        ensures
            r == var_map(*self).contains_key(name@),
    {
        self.inner.contains_key(name)
    }
}

impl OptionTable {
    /// `HashMap::new` of hashbrown: a map that holds nothing.
    #[verifier::external_body]
    pub(crate) fn new() -> (r: OptionTable)
        ensures
            option_map(r).dom() == Set::<Seq<char>>::empty(),
    {
        OptionTable { inner: hashbrown::HashMap::new() }
    }

    /// `HashMap::insert` of hashbrown: the key is bound to the value,
    /// whatever it was bound to before; the other keys keep their values.
    #[verifier::external_body]
    pub(crate) fn insert(&mut self, name: String, option: BuildOption)
        ensures
            option_map(*final(self)) == option_map(*old(self)).insert(name@, option),
    {
        self.inner.insert(name, option);
    }

    /// `HashMap::get` of hashbrown: the value that the key is bound to, or
    /// `None` where it is bound to nothing.
    #[verifier::external_body]
    pub(crate) fn get(&self, name: &str) -> (r: Option<&BuildOption>)
        ensures
            match r {
                Some(v) => option_map(*self).contains_key(name@) && option_map(*self)[name@]
                    == *v,
                None => !option_map(*self).contains_key(name@),
            },
    {
        self.inner.get(name)
    }
}

} // verus!
