use gazetta_theme::{
    parse_links, parse_person, DecodeError, EntryMeta, Key, LayoutMeta, Link, Person, SourceMeta,
    Yaml,
};

fn s(v: &str) -> Yaml {
    Yaml::String(v.to_string())
}

fn hash(entries: Vec<(&str, Yaml)>) -> Yaml {
    Yaml::Hash(entries.into_iter().map(|(k, v)| (s(k), v)).collect())
}

fn mapping(entries: Vec<(&str, Yaml)>) -> Vec<(Yaml, Yaml)> {
    entries.into_iter().map(|(k, v)| (s(k), v)).collect()
}

fn bare(name: &str) -> Person {
    Person {
        name: name.to_string(),
        email: None,
        photo: None,
        key: None,
        nicknames: vec![],
        also: vec![],
    }
}

fn link(text: &str, url: &str) -> Link {
    Link { text: text.to_string(), url: url.to_string(), title: None }
}

#[test]
fn shorthand_name_equals_full_record() {
    let short = parse_person(&s("Jane Doe")).unwrap();
    let full = parse_person(&hash(vec![("name", s("Jane Doe"))])).unwrap();
    assert_eq!(short, full);
    assert_eq!(short, bare("Jane Doe"));
}

#[test]
fn nicknames_number_rejected() {
    let p = hash(vec![("name", s("Jane")), ("nicknames", Yaml::Integer(5))]);
    let e = parse_person(&p).unwrap_err();
    assert_eq!(e, DecodeError::NicknamesInvalid);
    assert!(e.message().contains("nicknames"));
}

#[test]
fn nickname_element_not_string_rejected() {
    let p = hash(vec![
        ("name", s("Jane")),
        ("nicknames", Yaml::Array(vec![s("jd"), Yaml::Boolean(true)])),
    ]);
    assert_eq!(parse_person(&p), Err(DecodeError::NicknameNotString));
}

#[test]
fn single_nickname_is_wrapped() {
    let p = hash(vec![("name", s("Jane")), ("nicknames", s("jd"))]);
    assert_eq!(parse_person(&p).unwrap().nicknames, vec!["jd".to_string()]);
    let p = hash(vec![("name", s("Jane")), ("nicknames", Yaml::Array(vec![s("a"), s("b")]))]);
    assert_eq!(parse_person(&p).unwrap().nicknames, vec!["a".to_string(), "b".to_string()]);
}

#[test]
fn absent_lists_default_to_empty() {
    let p = parse_person(&hash(vec![("name", s("Jane"))])).unwrap();
    assert!(p.nicknames.is_empty());
    assert!(p.also.is_empty());
    let site = SourceMeta::from_yaml(mapping(vec![("author", s("Jane"))])).unwrap();
    assert!(site.nav.is_empty());
}

#[test]
fn full_person_decodes_every_field() {
    let p = hash(vec![
        ("name", s("Jane Doe")),
        ("email", s("jane@example.com")),
        ("photo", s("/me.jpg")),
        ("nicknames", Yaml::Array(vec![s("jd")])),
        ("also", Yaml::Array(vec![hash(vec![("GitHub", s("https://github.com/jd"))])])),
        ("key", hash(vec![("url", s("/key.asc")), ("fingerprint", s("ABCD"))])),
    ]);
    let got = parse_person(&p).unwrap();
    assert_eq!(
        got,
        Person {
            name: "Jane Doe".to_string(),
            email: Some("jane@example.com".to_string()),
            photo: Some("/me.jpg".to_string()),
            key: Some(Key { url: "/key.asc".to_string(), fingerprint: "ABCD".to_string() }),
            nicknames: vec!["jd".to_string()],
            also: vec![link("GitHub", "https://github.com/jd")],
        }
    );
    assert_eq!(got.display(), "Jane Doe <jane@example.com>");
    assert_eq!(bare("Jane").display(), "Jane");
}

#[test]
fn person_errors() {
    assert_eq!(parse_person(&hash(vec![])), Err(DecodeError::MissingName));
    assert_eq!(parse_person(&hash(vec![("name", Yaml::Integer(1))])), Err(DecodeError::NameNotString));
    assert_eq!(parse_person(&hash(vec![("name", s(""))])), Err(DecodeError::NameEmpty));
    assert_eq!(parse_person(&s("")), Err(DecodeError::NameEmpty));
    assert_eq!(parse_person(&Yaml::Null), Err(DecodeError::InvalidPerson));
    assert_eq!(
        parse_person(&hash(vec![("name", s("J")), ("photo", Yaml::Null)])),
        Err(DecodeError::PhotoNotString)
    );
    assert_eq!(
        parse_person(&hash(vec![("name", s("J")), ("email", Yaml::Boolean(false))])),
        Err(DecodeError::EmailNotString)
    );
    assert_eq!(
        parse_person(&hash(vec![("name", s("J")), ("also", s("x"))])),
        Err(DecodeError::LinksNotArray)
    );
}

#[test]
fn key_errors() {
    let with_key = |k: Yaml| parse_person(&hash(vec![("name", s("J")), ("key", k)]));
    assert_eq!(with_key(s("x")), Err(DecodeError::KeyNotHash));
    assert_eq!(with_key(hash(vec![("fingerprint", s("F"))])), Err(DecodeError::KeyUrlMissing));
    assert_eq!(
        with_key(hash(vec![("url", Yaml::Integer(3)), ("fingerprint", s("F"))])),
        Err(DecodeError::KeyUrlNotString)
    );
    assert_eq!(
        with_key(hash(vec![("url", s("")), ("fingerprint", s("F"))])),
        Err(DecodeError::KeyUrlEmpty)
    );
    assert_eq!(with_key(hash(vec![("url", s("/k"))])), Err(DecodeError::KeyFingerprintMissing));
    assert_eq!(
        with_key(hash(vec![("url", s("/k")), ("fingerprint", Yaml::Null)])),
        Err(DecodeError::KeyFingerprintNotString)
    );
    assert_eq!(
        with_key(hash(vec![("url", s("/k")), ("fingerprint", s(""))])),
        Err(DecodeError::KeyFingerprintEmpty)
    );
}

#[test]
fn links_keep_order_and_reject_bad_shapes() {
    let links = Yaml::Array(vec![hash(vec![("B", s("/b"))]), hash(vec![("A", s("/a"))])]);
    assert_eq!(parse_links(&links).unwrap(), vec![link("B", "/b"), link("A", "/a")]);
    assert_eq!(parse_links(&s("x")), Err(DecodeError::LinksNotArray));
    assert_eq!(
        parse_links(&Yaml::Array(vec![hash(vec![("A", s("/a")), ("B", s("/b"))])])),
        Err(DecodeError::LinkEntryCount)
    );
    assert_eq!(parse_links(&Yaml::Array(vec![hash(vec![])])), Err(DecodeError::LinkEntryCount));
    assert_eq!(
        parse_links(&Yaml::Array(vec![hash(vec![("A", Yaml::Integer(1))])])),
        Err(DecodeError::LinkForm)
    );
    assert_eq!(parse_links(&Yaml::Array(vec![s("/a")])), Err(DecodeError::LinkForm));
    assert_eq!(parse_links(&Yaml::Array(vec![])).unwrap(), vec![]);
}

#[test]
fn site_meta_decodes_nav_and_author() {
    let doc = mapping(vec![
        ("nav", Yaml::Array(vec![hash(vec![("Blog", s("/blog"))])])),
        ("author", s("Jane")),
    ]);
    let site = SourceMeta::from_yaml(doc).unwrap();
    assert_eq!(site.nav, vec![link("Blog", "/blog")]);
    assert_eq!(site.author, bare("Jane"));
}

#[test]
fn site_meta_requires_author() {
    assert_eq!(SourceMeta::from_yaml(mapping(vec![])), Err(DecodeError::MissingAuthor));
    assert_eq!(
        SourceMeta::from_yaml(mapping(vec![("nav", s("x")), ("author", s("J"))])),
        Err(DecodeError::LinksNotArray)
    );
    assert_eq!(
        DecodeError::MissingAuthor.message(),
        "websites must have authors"
    );
}

#[test]
fn entry_meta_optional_people() {
    let none = EntryMeta::from_yaml(mapping(vec![])).unwrap();
    assert_eq!(none, EntryMeta { author: None, about: None });
    let both = EntryMeta::from_yaml(mapping(vec![("author", s("A")), ("about", s("B"))])).unwrap();
    assert_eq!(both.author, Some(bare("A")));
    assert_eq!(both.about, Some(bare("B")));
    assert_eq!(
        EntryMeta::from_yaml(mapping(vec![("about", Yaml::Integer(2))])),
        Err(DecodeError::InvalidPerson)
    );
}

#[test]
fn layout_meta_defaults_and_rejects() {
    assert_eq!(LayoutMeta::from_yaml(mapping(vec![])).unwrap().layout, "default");
    assert_eq!(LayoutMeta::from_yaml(mapping(vec![("layout", s("about"))])).unwrap().layout, "about");
    assert_eq!(
        LayoutMeta::from_yaml(mapping(vec![("layout", Yaml::Integer(1))])),
        Err(DecodeError::LayoutNotString)
    );
}

#[test]
fn decoding_is_deterministic() {
    let doc = || mapping(vec![("author", hash(vec![("name", s("J")), ("nicknames", Yaml::Integer(5))]))]);
    assert_eq!(SourceMeta::from_yaml(doc()), SourceMeta::from_yaml(doc()));
    assert_eq!(EntryMeta::from_yaml(doc()), EntryMeta::from_yaml(doc()));
    let ok = || mapping(vec![("author", s("J"))]);
    assert_eq!(SourceMeta::from_yaml(ok()), SourceMeta::from_yaml(ok()));
}

#[test]
fn invert_turns_option_inside_out() {
    assert_eq!(gazetta_theme::invert::<u8, u8>(None), Ok(None));
    assert_eq!(gazetta_theme::invert::<u8, u8>(Some(Ok(1))), Ok(Some(1)));
    assert_eq!(gazetta_theme::invert::<u8, u8>(Some(Err(2))), Err(2));
}

#[test]
fn error_messages_name_the_field() {
    assert_eq!(DecodeError::NicknamesInvalid.message(), "invalid nicknames value");
    assert_eq!(DecodeError::KeyNotHash.message(), "if specified, key must be a hash");
    assert_eq!(DecodeError::LinkForm.message(), "links must be in the form `name: url`");
    assert_eq!(DecodeError::NameNotString.message(), "name must be a string");
}
