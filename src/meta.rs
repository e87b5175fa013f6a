use vstd::prelude::*;

use crate::error::{DecodeError, invert, result_view};
use crate::link::{Link, LinkV, links_spec, links_view, parse_links, prepend};
use crate::person::{Key, KeyV, Person, PersonV, strings_view};
use crate::yaml::{Mapping, Yaml, deref_opt, get, lookup};

verus! {

/// A list of links that may be absent: absence is the empty list.
pub open spec fn opt_links_spec(v: Option<Yaml>) -> Result<Seq<LinkV>, DecodeError> {
    match v {
        Some(y) => links_spec(y),
        None => Ok(seq![]),
    }
}

/// A required, non-empty name.
pub open spec fn name_spec(v: Option<Yaml>) -> Result<Seq<char>, DecodeError> {
    match v {
        Some(Yaml::String(s)) => if s@.len() == 0 {
            Err(DecodeError::NameEmpty)
        } else {
            Ok(s@)
        },
        None => Err(DecodeError::MissingName),
        _ => Err(DecodeError::NameNotString),
    }
}

/// An optional string field; `e` is the error for a value of another shape.
pub open spec fn opt_text_spec(v: Option<Yaml>, e: DecodeError) -> Result<Option<Seq<char>>, DecodeError> {
    match v {
        Some(Yaml::String(s)) => Ok(Some(s@)),
        None => Ok(None),
        _ => Err(e),
    }
}

/// The strings of a sequence of nodes, or an error at the first that is not one.
pub open spec fn string_items_spec(items: Seq<Yaml>) -> Result<Seq<Seq<char>>, DecodeError>
    decreases items.len(),
{
    if items.len() == 0 {
        Ok(seq![])
    } else {
        match items[0] {
            Yaml::String(s) => prepend(seq![s@], string_items_spec(items.drop_first())),
            _ => Err(DecodeError::NicknameNotString),
        }
    }
}

/// Nicknames: one string, a sequence of strings, or nothing at all.
pub open spec fn nicknames_spec(v: Option<Yaml>) -> Result<Seq<Seq<char>>, DecodeError> {
    match v {
        Some(Yaml::String(s)) => Ok(seq![s@]),
        Some(Yaml::Array(a)) => string_items_spec(a@),
        Some(_) => Err(DecodeError::NicknamesInvalid),
        None => Ok(seq![]),
    }
}

/// A required, non-empty string field of a key reference.
pub open spec fn key_field_spec(
    v: Option<Yaml>,
    missing: DecodeError,
    not_string: DecodeError,
    empty: DecodeError,
) -> Result<Seq<char>, DecodeError> {
    match v {
        Some(Yaml::String(s)) => if s@.len() == 0 {
            Err(empty)
        } else {
            Ok(s@)
        },
        Some(_) => Err(not_string),
        None => Err(missing),
    }
}

/// An optional key reference: a mapping with a `url` and a `fingerprint`.
pub open spec fn key_spec(v: Option<Yaml>) -> Result<Option<KeyV>, DecodeError> {
    match v {
        Some(Yaml::Hash(h)) => match key_field_spec(
            lookup(h@, "url"@),
            DecodeError::KeyUrlMissing,
            DecodeError::KeyUrlNotString,
            DecodeError::KeyUrlEmpty,
        ) {
            Err(e) => Err(e),
            Ok(url) => match key_field_spec(
                lookup(h@, "fingerprint"@),
                DecodeError::KeyFingerprintMissing,
                DecodeError::KeyFingerprintNotString,
                DecodeError::KeyFingerprintEmpty,
            ) {
                Err(e) => Err(e),
                Ok(fingerprint) => Ok(Some(KeyV { url, fingerprint })),
            },
        },
        Some(_) => Err(DecodeError::KeyNotHash),
        None => Ok(None),
    }
}

/// A person written out as a mapping. The fields are decoded in the order
/// name, photo, email, nicknames, also, key; the first error is the result.
pub open spec fn person_fields_spec(h: Seq<(Yaml, Yaml)>) -> Result<PersonV, DecodeError> {
    match name_spec(lookup(h, "name"@)) {
        Err(e) => Err(e),
        Ok(name) => match opt_text_spec(lookup(h, "photo"@), DecodeError::PhotoNotString) {
            Err(e) => Err(e),
            Ok(photo) => match opt_text_spec(lookup(h, "email"@), DecodeError::EmailNotString) {
                Err(e) => Err(e),
                Ok(email) => match nicknames_spec(lookup(h, "nicknames"@)) {
                    Err(e) => Err(e),
                    Ok(nicknames) => match opt_links_spec(lookup(h, "also"@)) {
                        Err(e) => Err(e),
                        Ok(also) => match key_spec(lookup(h, "key"@)) {
                            Err(e) => Err(e),
                            Ok(key) => Ok(PersonV { name, email, photo, key, nicknames, also }),
                        },
                    },
                },
            },
        },
    }
}

/// A person: a bare non-empty string is the name alone, a mapping is decoded
/// field by field, and any other node is rejected.
pub open spec fn person_spec(y: Yaml) -> Result<PersonV, DecodeError> {
    match y {
        Yaml::String(s) => if s@.len() == 0 {
            Err(DecodeError::NameEmpty)
        } else {
            Ok(
                PersonV {
                    name: s@,
                    email: None,
                    photo: None,
                    key: None,
                    nicknames: seq![],
                    also: seq![],
                },
            )
        },
        Yaml::Hash(h) => person_fields_spec(h@),
        _ => Err(DecodeError::InvalidPerson),
    }
}

/// An optional person.
pub open spec fn opt_person_spec(v: Option<Yaml>) -> Result<Option<PersonV>, DecodeError> {
    match v {
        Some(y) => match person_spec(y) {
            Ok(p) => Ok(Some(p)),
            Err(e) => Err(e),
        },
        None => Ok(None),
    }
}

fn parse_optional_links(v: Option<&Yaml>) -> (r: Result<Vec<Link>, DecodeError>)
    ensures
        match r {
            Ok(l) => opt_links_spec(deref_opt(v)) == Ok::<_, DecodeError>(links_view(l@)),
            Err(e) => opt_links_spec(deref_opt(v)) == Err::<Seq<LinkV>, _>(e),
        },
{
    match v {
        Some(y) => parse_links(y),
        None => {
            let out: Vec<Link> = Vec::new();
            assert(links_view(out@) =~= seq![]);
            Ok(out)
        },
    }
}

fn parse_name(v: Option<&Yaml>) -> (r: Result<String, DecodeError>)
    ensures
        result_view(r) == name_spec(deref_opt(v)),
{
    match v {
        Some(Yaml::String(s)) => {
            if s.as_str().is_empty() {
                Err(DecodeError::NameEmpty)
            } else {
                Ok(s.clone())
            }
        },
        None => Err(DecodeError::MissingName),
        _ => Err(DecodeError::NameNotString),
    }
}

fn parse_opt_text(v: Option<&Yaml>, e: DecodeError) -> (r: Result<Option<String>, DecodeError>)
    ensures
        match r {
            Ok(o) => opt_text_spec(deref_opt(v), e) == Ok::<_, DecodeError>(
                crate::link::opt_view(o),
            ),
            Err(x) => opt_text_spec(deref_opt(v), e) == Err::<Option<Seq<char>>, _>(x),
        },
{
    match v {
        Some(Yaml::String(s)) => Ok(Some(s.clone())),
        None => Ok(None),
        _ => Err(e),
    }
}

fn parse_nicknames(v: Option<&Yaml>) -> (r: Result<Vec<String>, DecodeError>)
    ensures
        match r {
            Ok(n) => nicknames_spec(deref_opt(v)) == Ok::<_, DecodeError>(strings_view(n@)),
            Err(e) => nicknames_spec(deref_opt(v)) == Err::<Seq<Seq<char>>, _>(e),
        },
{
    let items = match v {
        Some(Yaml::String(s)) => {
            let mut out: Vec<String> = Vec::new();
            out.push(s.clone());
            assert(strings_view(out@) =~= seq![s@]);
            return Ok(out);
        },
        Some(Yaml::Array(a)) => a,
        Some(_) => return Err(DecodeError::NicknamesInvalid),
        None => {
            let out: Vec<String> = Vec::new();
            assert(strings_view(out@) =~= seq![]);
            return Ok(out);
        },
    };
    let mut out: Vec<String> = Vec::new();
    let mut i: usize = 0;
    proof {
        assert(items@.skip(0) =~= items@);
        assert(strings_view(out@) =~= Seq::<Seq<char>>::empty());
        if let Ok(t) = string_items_spec(items@) {
            assert(Seq::<Seq<char>>::empty() + t =~= t);
        }
    }
    while i < items.len()
        invariant
            i <= items.len(),
            deref_opt(v) == Some(Yaml::Array(*items)),
            string_items_spec(items@) == prepend(strings_view(out@), string_items_spec(items@.skip(i as int))),
        decreases items.len() - i,
    {
        let ghost rest = items@.skip(i as int);
        assert(rest.drop_first() =~= items@.skip(i + 1));
        assert(rest[0] == items@[i as int]);
        match &items[i] {
            Yaml::String(s) => {
                let c = s.clone();
                proof {
                    let ghost pre = strings_view(out@);
                    assert(strings_view(out@.push(c)) =~= pre + seq![s@]);
                    if let Ok(t) = string_items_spec(items@.skip(i + 1)) {
                        assert(pre + (seq![s@] + t) =~= (pre + seq![s@]) + t);
                    }
                }
                out.push(c);
            },
            _ => return Err(DecodeError::NicknameNotString),
        }
        i = i + 1;
    }
    assert(items@.skip(i as int) =~= Seq::<Yaml>::empty());
    assert(strings_view(out@) + seq![] =~= strings_view(out@));
    Ok(out)
}

fn parse_key_field(
    v: Option<&Yaml>,
    missing: DecodeError,
    not_string: DecodeError,
    empty: DecodeError,
) -> (r: Result<String, DecodeError>)
    ensures
        result_view(r) == key_field_spec(deref_opt(v), missing, not_string, empty),
{
    match v {
        Some(Yaml::String(s)) => {
            if s.as_str().is_empty() {
                Err(empty)
            } else {
                Ok(s.clone())
            }
        },
        Some(_) => Err(not_string),
        None => Err(missing),
    }
}

fn parse_key(v: Option<&Yaml>) -> (r: Result<Option<Key>, DecodeError>)
    ensures
        match r {
            Ok(Some(k)) => key_spec(deref_opt(v)) == Ok::<_, DecodeError>(Some(k@)),
            Ok(None) => key_spec(deref_opt(v)) == Ok::<_, DecodeError>(None::<KeyV>),
            Err(e) => key_spec(deref_opt(v)) == Err::<Option<KeyV>, _>(e),
        },
{
    match v {
        Some(Yaml::Hash(h)) => {
            let url = match parse_key_field(
                get(h, "url"),
                DecodeError::KeyUrlMissing,
                DecodeError::KeyUrlNotString,
                DecodeError::KeyUrlEmpty,
            ) {
                Ok(u) => u,
                Err(e) => return Err(e),
            };
            let fingerprint = match parse_key_field(
                get(h, "fingerprint"),
                DecodeError::KeyFingerprintMissing,
                DecodeError::KeyFingerprintNotString,
                DecodeError::KeyFingerprintEmpty,
            ) {
                Ok(f) => f,
                Err(e) => return Err(e),
            };
            Ok(Some(Key { url, fingerprint }))
        },
        Some(_) => Err(DecodeError::KeyNotHash),
        None => Ok(None),
    }
}

/// Decodes a person, given as a bare name or as a mapping of fields.
pub fn parse_person(person: &Yaml) -> (r: Result<Person, DecodeError>)
    ensures
        result_view(r) == person_spec(*person),
{
    match person {
        Yaml::Hash(h) => {
            let name = match parse_name(get(h, "name")) {
                Ok(n) => n,
                Err(e) => return Err(e),
            };
            let photo = match parse_opt_text(get(h, "photo"), DecodeError::PhotoNotString) {
                Ok(p) => p,
                Err(e) => return Err(e),
            };
            let email = match parse_opt_text(get(h, "email"), DecodeError::EmailNotString) {
                Ok(m) => m,
                Err(e) => return Err(e),
            };
            let nicknames = match parse_nicknames(get(h, "nicknames")) {
                Ok(n) => n,
                Err(e) => return Err(e),
            };
            let also = match parse_optional_links(get(h, "also")) {
                Ok(a) => a,
                Err(e) => return Err(e),
            };
            let key = match parse_key(get(h, "key")) {
                Ok(k) => k,
                Err(e) => return Err(e),
            };
            Ok(Person { name, email, photo, key, nicknames, also })
        },
        Yaml::String(s) => {
            if s.as_str().is_empty() {
                return Err(DecodeError::NameEmpty);
            }
            let p = Person {
                name: s.clone(),
                email: None,
                photo: None,
                key: None,
                nicknames: Vec::new(),
                also: Vec::new(),
            };
            assert(p@.nicknames =~= seq![]);
            assert(p@.also =~= seq![]);
            Ok(p)
        },
        _ => Err(DecodeError::InvalidPerson),
    }
}

/// What site metadata is.
pub struct SourceMetaV {
    pub nav: Seq<LinkV>,
    pub author: PersonV,
}

/// Site-wide metadata: the navigation links and the site's author.
#[derive(Clone, Debug, PartialEq, Eq)]
pub struct SourceMeta {
    pub nav: Vec<Link>,
    pub author: Person,
}

impl View for SourceMeta {
    type V = SourceMetaV;

    open spec fn view(&self) -> SourceMetaV {
        SourceMetaV { nav: links_view(self.nav@), author: self.author@ }
    }
}

/// What person-oriented page metadata is.
pub struct EntryMetaV {
    pub author: Option<PersonV>,
    pub about: Option<PersonV>,
}

/// Page metadata that names people: an author who overrides the site's
/// author, and the person the page is about.
#[derive(Clone, Debug, PartialEq, Eq)]
pub struct EntryMeta {
    pub author: Option<Person>,
    pub about: Option<Person>,
}

/// The view of an optional person.
pub open spec fn opt_person_view(p: Option<Person>) -> Option<PersonV> {
    match p {
        Some(p) => Some(p@),
        None => None,
    }
}

impl View for EntryMeta {
    type V = EntryMetaV;

    open spec fn view(&self) -> EntryMetaV {
        EntryMetaV { author: opt_person_view(self.author), about: opt_person_view(self.about) }
    }
}

/// Page metadata that names a template.
#[derive(Clone, Debug, PartialEq, Eq)]
pub struct LayoutMeta {
    pub layout: String,
}

impl View for LayoutMeta {
    type V = Seq<char>;

    open spec fn view(&self) -> Seq<char> {
        self.layout@
    }
}

/// Site metadata: an optional `nav` list of links, then a required `author`.
pub open spec fn source_meta_spec(h: Seq<(Yaml, Yaml)>) -> Result<SourceMetaV, DecodeError> {
    match opt_links_spec(lookup(h, "nav"@)) {
        Err(e) => Err(e),
        Ok(nav) => match opt_person_spec(lookup(h, "author"@)) {
            Err(e) => Err(e),
            Ok(None) => Err(DecodeError::MissingAuthor),
            Ok(Some(author)) => Ok(SourceMetaV { nav, author }),
        },
    }
}

/// Person-oriented page metadata: an optional `author`, then an optional `about`.
pub open spec fn entry_meta_spec(h: Seq<(Yaml, Yaml)>) -> Result<EntryMetaV, DecodeError> {
    match opt_person_spec(lookup(h, "author"@)) {
        Err(e) => Err(e),
        Ok(author) => match opt_person_spec(lookup(h, "about"@)) {
            Err(e) => Err(e),
            Ok(about) => Ok(EntryMetaV { author, about }),
        },
    }
}

/// Layout-oriented page metadata: `layout` is a string, `"default"` when absent.
pub open spec fn layout_meta_spec(h: Seq<(Yaml, Yaml)>) -> Result<Seq<char>, DecodeError> {
    match lookup(h, "layout"@) {
        Some(Yaml::String(s)) => Ok(s@),
        Some(_) => Err(DecodeError::LayoutNotString),
        None => Ok("default"@),
    }
}

fn parse_opt_person(v: Option<&Yaml>) -> (r: Result<Option<Person>, DecodeError>)
    ensures
        match r {
            Ok(p) => opt_person_spec(deref_opt(v)) == Ok::<_, DecodeError>(opt_person_view(p)),
            Err(e) => opt_person_spec(deref_opt(v)) == Err::<Option<PersonV>, _>(e),
        },
{
    invert(
        match v {
            Some(y) => Some(parse_person(y)),
            None => None,
        },
    )
}

impl SourceMeta {
    /// Decodes site metadata.
    pub fn from_yaml(meta: Mapping) -> (r: Result<SourceMeta, DecodeError>)
        ensures
            result_view(r) == source_meta_spec(meta@),
    {
        let nav = match parse_optional_links(get(&meta, "nav")) {
            Ok(n) => n,
            Err(e) => return Err(e),
        };
        let author = match parse_opt_person(get(&meta, "author")) {
            Ok(Some(p)) => p,
            Ok(None) => return Err(DecodeError::MissingAuthor),
            Err(e) => return Err(e),
        };
        Ok(SourceMeta { nav, author })
    }
}

impl EntryMeta {
    /// Decodes person-oriented page metadata.
    pub fn from_yaml(meta: Mapping) -> (r: Result<EntryMeta, DecodeError>)
        ensures
            result_view(r) == entry_meta_spec(meta@),
    {
        let author = match parse_opt_person(get(&meta, "author")) {
            Ok(p) => p,
            Err(e) => return Err(e),
        };
        let about = match parse_opt_person(get(&meta, "about")) {
            Ok(p) => p,
            Err(e) => return Err(e),
        };
        Ok(EntryMeta { author, about })
    }
}

impl LayoutMeta {
    /// Decodes layout-oriented page metadata.
    pub fn from_yaml(meta: Mapping) -> (r: Result<LayoutMeta, DecodeError>)
        ensures
            result_view(r) == layout_meta_spec(meta@),
    {
        match get(&meta, "layout") {
            Some(Yaml::String(s)) => Ok(LayoutMeta { layout: s.clone() }),
            Some(_) => Err(DecodeError::LayoutNotString),
            None => Ok(LayoutMeta { layout: String::from_str("default") }),
        }
    }
}

/// Decoding depends on the document alone: equal documents give the same
/// metadata or the same error, however often they are decoded.
pub proof fn lemma_decode_deterministic(a: Mapping, b: Mapping)
    requires
        a@ == b@,
    ensures
        source_meta_spec(a@) == source_meta_spec(b@),
        entry_meta_spec(a@) == entry_meta_spec(b@),
        layout_meta_spec(a@) == layout_meta_spec(b@),
{
}

/// A missing `nav`, `nicknames` or `also` field is the empty list, never an
/// error.
pub proof fn lemma_absent_lists_are_empty(h: Mapping)
    ensures
        lookup(h@, "nav"@) is None ==> opt_links_spec(lookup(h@, "nav"@)) == Ok::<_, DecodeError>(
            Seq::<LinkV>::empty(),
        ),
        lookup(h@, "nav"@) is None && source_meta_spec(h@) is Ok ==> source_meta_spec(h@)->Ok_0.nav
            == Seq::<LinkV>::empty(),
        lookup(h@, "nicknames"@) is None ==> nicknames_spec(lookup(h@, "nicknames"@)) == Ok::<
            _,
            DecodeError,
        >(Seq::<Seq<char>>::empty()),
        lookup(h@, "nicknames"@) is None && person_spec(Yaml::Hash(h)) is Ok ==> person_spec(
            Yaml::Hash(h),
        )->Ok_0.nicknames == Seq::<Seq<char>>::empty(),
        lookup(h@, "also"@) is None ==> opt_links_spec(lookup(h@, "also"@)) == Ok::<_, DecodeError>(
            Seq::<LinkV>::empty(),
        ),
        lookup(h@, "also"@) is None && person_spec(Yaml::Hash(h)) is Ok ==> person_spec(
            Yaml::Hash(h),
        )->Ok_0.also == Seq::<LinkV>::empty(),
{
}

/// A bare string decodes to the same person as a mapping that holds that
/// string as its `name` and no other person field.
pub proof fn lemma_name_shorthand(s: String, h: Mapping)
    requires
        lookup(h@, "name"@) == Some(Yaml::String(s)),
        lookup(h@, "photo"@) is None,
        lookup(h@, "email"@) is None,
        lookup(h@, "nicknames"@) is None,
        lookup(h@, "also"@) is None,
        lookup(h@, "key"@) is None,
    ensures
        person_spec(Yaml::String(s)) == person_spec(Yaml::Hash(h)),
{
}

} // verus!
