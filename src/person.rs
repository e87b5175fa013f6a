use vstd::prelude::*;

use crate::link::{Link, LinkV, links_view, opt_view};

verus! {

/// What a key reference is: where the key is and its fingerprint.
pub struct KeyV {
    pub url: Seq<char>,
    pub fingerprint: Seq<char>,
}

/// What a person is.
pub struct PersonV {
    pub name: Seq<char>,
    pub email: Option<Seq<char>>,
    pub photo: Option<Seq<char>>,
    pub key: Option<KeyV>,
    pub nicknames: Seq<Seq<char>>,
    pub also: Seq<LinkV>,
}

/// A reference to a person's public key.
#[derive(Clone, Debug, PartialEq, Eq)]
pub struct Key {
    pub url: String,
    pub fingerprint: String,
}

/// An identity: a name with optional contact details, nicknames, further
/// links and a key reference.
#[derive(Clone, Debug, PartialEq, Eq)]
pub struct Person {
    pub name: String,
    pub email: Option<String>,
    pub photo: Option<String>,
    pub key: Option<Key>,
    pub nicknames: Vec<String>,
    pub also: Vec<Link>,
}

impl View for Key {
    type V = KeyV;

    open spec fn view(&self) -> KeyV {
        KeyV { url: self.url@, fingerprint: self.fingerprint@ }
    }
}

/// The views of a sequence of strings.
pub open spec fn strings_view(v: Seq<String>) -> Seq<Seq<char>> {
    v.map_values(|s: String| s@)
}

impl View for Person {
    type V = PersonV;

    open spec fn view(&self) -> PersonV {
        PersonV {
            name: self.name@,
            email: opt_view(self.email),
            photo: opt_view(self.photo),
            key: match self.key {
                Some(k) => Some(k@),
                None => None,
            },
            nicknames: strings_view(self.nicknames@),
            also: links_view(self.also@),
        }
    }
}

/// The name, followed by the e-mail address in angle brackets when there is one.
pub open spec fn display_spec(p: PersonV) -> Seq<char> {
    match p.email {
        Some(e) => p.name + " <"@ + e + ">"@,
        None => p.name,
    }
}

impl Person {
    /// The person as `Name <email>`, or the name alone.
    pub fn display(&self) -> (r: String)
        ensures
            r@ == display_spec(self@),
    {
        let mut r = self.name.clone();
        match &self.email {
            Some(e) => {
                r.append(" <");
                r.append(e.as_str());
                r.append(">");
            },
            None => {},
        }
        r
    }
}

} // verus!
