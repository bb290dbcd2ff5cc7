use indexmap::IndexMap;
use turbopack_create_test_app::env::{EnvMap, ProcessEnv};

struct Fixed(Vec<(&'static str, &'static str)>);

impl ProcessEnv for Fixed {
    // Only proofs read this; at run time nothing calls it.
    fn vars(&self) -> vstd::map::Map<vstd::seq::Seq<char>, vstd::seq::Seq<char>> {
        panic!("a specification of the variables is not callable")
    }

    fn read_all(&self) -> EnvMap {
        let mut m = IndexMap::new();
        for (k, v) in &self.0 {
            m.insert(k.to_string(), v.to_string());
        }
        EnvMap(m)
    }
}

#[test]
fn empty_env_map_has_no_variables() {
    let m = EnvMap::empty();
    assert_eq!(m.get("PATH"), None);
    assert_eq!(m.get(""), None);
    assert!(m.0.is_empty());
}

#[test]
fn env_map_get_finds_the_value() {
    let mut m = IndexMap::new();
    m.insert("HOME".to_string(), "/root".to_string());
    m.insert("EMPTY".to_string(), String::new());
    let m = EnvMap(m);
    assert_eq!(m.get("HOME"), Some("/root".to_string()));
    assert_eq!(m.get("EMPTY"), Some(String::new()));
    assert_eq!(m.get("home"), None);
}

#[test]
fn read_looks_up_one_variable_of_read_all() {
    let env = Fixed(vec![("A", "1"), ("B", "two")]);
    assert_eq!(env.read("B"), Some("two".to_string()));
    assert_eq!(env.read("A"), Some("1".to_string()));
    assert_eq!(env.read("C"), None);
}
