//! A map of environment variables and the trait of their sources.

use vstd::prelude::*;
use indexmap::IndexMap;

verus! {

#[verifier::external_type_specification]
#[verifier::external_body]
#[verifier::reject_recursive_types(K)]
#[verifier::reject_recursive_types(V)]
#[verifier::reject_recursive_types(S)]
pub struct ExIndexMap<K, V, S>(IndexMap<K, V, S>);

/// The variables that a map of environment variables holds, by name.
pub uninterp spec fn env_entries(m: IndexMap<String, String>) -> Map<Seq<char>, Seq<char>>;

/// Relies on `IndexMap::new`: a new map holds no entry.
#[verifier::external_body]
fn new_index_map() -> (r: IndexMap<String, String>)
    ensures
        forall|k: Seq<char>| !(#[trigger] env_entries(r).contains_key(k)),
{
    IndexMap::new()
}

/// Relies on `IndexMap::get`: the value stored under the key equal to
/// `name`, if there is one.
#[verifier::external_body]
fn index_map_get(m: &IndexMap<String, String>, name: &str) -> (r: Option<String>)
    ensures
        match r {
            Some(v) => env_entries(*m).contains_key(name@) && env_entries(*m)[name@] == v@,
            None => !env_entries(*m).contains_key(name@),
        },
{
    match m.get(name) {
        Some(v) => Some(v.clone()),
        None => None,
    }
}

/// A map of environment variables, in the order in which they were read.
pub struct EnvMap(pub IndexMap<String, String>);

impl View for EnvMap {
    type V = Map<Seq<char>, Seq<char>>;

    open spec fn view(&self) -> Map<Seq<char>, Seq<char>> {
        env_entries(self.0)
    }
}

impl EnvMap {
    /// A map without variables.
    pub fn empty() -> (r: EnvMap)
        ensures
            forall|k: Seq<char>| !(#[trigger] r@.contains_key(k)),
    {
        EnvMap(new_index_map())
    }

    /// The value of variable `name`, if the map holds it.
    pub fn get(&self, name: &str) -> (r: Option<String>)
        ensures
            match r {
                Some(v) => self@.contains_key(name@) && self@[name@] == v@,
                None => !self@.contains_key(name@),
            },
    {
        index_map_get(&self.0, name)
    }
}

/// A source of environment variables.
pub trait ProcessEnv {
    /// The variables that this source holds, by name.
    spec fn vars(&self) -> Map<Seq<char>, Seq<char>>;

    /// Reads all environment variables into a map.
    fn read_all(&self) -> (r: EnvMap)
        ensures
            r@ == self.vars(),
    ;

    /// Reads a single environment variable: its value in what `read_all`
    /// gives, if it is there.
    fn read(&self, name: &str) -> (r: Option<String>)
        ensures
            match r {
                Some(v) => self.vars().contains_key(name@) && self.vars()[name@] == v@,
                None => !self.vars().contains_key(name@),
            },
    {
        self.read_all().get(name)
    }
}

} // verus!
