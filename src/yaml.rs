use vstd::prelude::*;

verus! {

/// A node of a front-matter document.
#[derive(Debug, PartialEq)]
pub enum Yaml {
    Real(String),
    Integer(i64),
    String(String),
    Boolean(bool),
    Array(Vec<Yaml>),
    Hash(Vec<(Yaml, Yaml)>),
    Alias(usize),
    Null,
    BadValue,
}

/// A mapping node: its entries in document order.
pub type Mapping = Vec<(Yaml, Yaml)>;

/// Whether `k` is the string key `key`.
pub open spec fn is_key(k: Yaml, key: Seq<char>) -> bool {
    match k {
        Yaml::String(s) => s@ == key,
        _ => false,
    }
}

/// The value of the first entry of `h`, from index `i` on, whose key is the string `key`.
pub open spec fn lookup_from(h: Seq<(Yaml, Yaml)>, key: Seq<char>, i: int) -> Option<Yaml>
    decreases h.len() - i,
{
    if i < 0 || i >= h.len() {
        None
    } else if is_key(h[i].0, key) {
        Some(h[i].1)
    } else {
        lookup_from(h, key, i + 1)
    }
}

/// The value of the first entry of `h` whose key is the string `key`.
pub open spec fn lookup(h: Seq<(Yaml, Yaml)>, key: Seq<char>) -> Option<Yaml> {
    lookup_from(h, key, 0)
}

/// The node that an optional reference points to.
pub open spec fn deref_opt(v: Option<&Yaml>) -> Option<Yaml> {
    match v {
        Some(y) => Some(*y),
        None => None,
    }
}

/// Finds the value stored under the string key `key`.
pub fn get<'a>(h: &'a Mapping, key: &str) -> (r: Option<&'a Yaml>)
    ensures
        deref_opt(r) == lookup(h@, key@),
{
    let wanted = String::from_str(key);
    let mut i: usize = 0;
    while i < h.len()
        invariant
            i <= h.len(),
            wanted@ == key@,
            lookup(h@, key@) == lookup_from(h@, key@, i as int),
        decreases h.len() - i,
    {
        if let Yaml::String(s) = &h[i].0 {
            if *s == wanted {
                return Some(&h[i].1);
            }
        }
        i = i + 1;
    }
    None
}

} // verus!
