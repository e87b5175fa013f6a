use vstd::prelude::*;

verus! {

/// Why a front-matter document was rejected.
#[derive(Clone, Copy, Debug, PartialEq, Eq, Structural)]
pub enum DecodeError {
    LinksNotArray,
    LinkEntryCount,
    LinkForm,
    MissingName,
    NameNotString,
    NameEmpty,
    PhotoNotString,
    EmailNotString,
    NicknameNotString,
    NicknamesInvalid,
    KeyNotHash,
    KeyUrlMissing,
    KeyUrlNotString,
    KeyUrlEmpty,
    KeyFingerprintMissing,
    KeyFingerprintNotString,
    KeyFingerprintEmpty,
    InvalidPerson,
    MissingAuthor,
    LayoutNotString,
}

/// The message of each error: it names the offending field and the shape it
/// must have.
pub open spec fn message_of(e: DecodeError) -> Seq<char> {
    match e {
        DecodeError::LinksNotArray => "lists of links need to be arrays"@,
        DecodeError::LinkEntryCount => "links must have exactly one entry"@,
        DecodeError::LinkForm => "links must be in the form `name: url`"@,
        DecodeError::MissingName => "missing name"@,
        DecodeError::NameNotString => "name must be a string"@,
        DecodeError::NameEmpty => "name must not be empty"@,
        DecodeError::PhotoNotString => "if specified, photo must be a string"@,
        DecodeError::EmailNotString => "if specified, email must be a string"@,
        DecodeError::NicknameNotString => "nicknames must be strings"@,
        DecodeError::NicknamesInvalid => "invalid nicknames value"@,
        DecodeError::KeyNotHash => "if specified, key must be a hash"@,
        DecodeError::KeyUrlMissing => "key url missing"@,
        DecodeError::KeyUrlNotString => "key url must be a string"@,
        DecodeError::KeyUrlEmpty => "key url must not be empty"@,
        DecodeError::KeyFingerprintMissing => "key fingerprint missing"@,
        DecodeError::KeyFingerprintNotString => "key fingerprint must be a string"@,
        DecodeError::KeyFingerprintEmpty => "key fingerprint must not be empty"@,
        DecodeError::InvalidPerson => "invalid person"@,
        DecodeError::MissingAuthor => "websites must have authors"@,
        DecodeError::LayoutNotString => "layout must be a string"@,
    }
}

impl DecodeError {
    /// The message that names the offending field and the shape it must have.
    pub fn message(&self) -> (r: &'static str)
        ensures
            r@ == message_of(*self),
    {
        match self {
            DecodeError::LinksNotArray => "lists of links need to be arrays",
            DecodeError::LinkEntryCount => "links must have exactly one entry",
            DecodeError::LinkForm => "links must be in the form `name: url`",
            DecodeError::MissingName => "missing name",
            DecodeError::NameNotString => "name must be a string",
            DecodeError::NameEmpty => "name must not be empty",
            DecodeError::PhotoNotString => "if specified, photo must be a string",
            DecodeError::EmailNotString => "if specified, email must be a string",
            DecodeError::NicknameNotString => "nicknames must be strings",
            DecodeError::NicknamesInvalid => "invalid nicknames value",
            DecodeError::KeyNotHash => "if specified, key must be a hash",
            DecodeError::KeyUrlMissing => "key url missing",
            DecodeError::KeyUrlNotString => "key url must be a string",
            DecodeError::KeyUrlEmpty => "key url must not be empty",
            DecodeError::KeyFingerprintMissing => "key fingerprint missing",
            DecodeError::KeyFingerprintNotString => "key fingerprint must be a string",
            DecodeError::KeyFingerprintEmpty => "key fingerprint must not be empty",
            DecodeError::InvalidPerson => "invalid person",
            DecodeError::MissingAuthor => "websites must have authors",
            DecodeError::LayoutNotString => "layout must be a string",
        }
    }
}

/// The view of a decoding result: the value's view, or the same error.
pub open spec fn result_view<T: View>(r: Result<T, DecodeError>) -> Result<T::V, DecodeError> {
    match r {
        Ok(v) => Ok(v@),
        Err(e) => Err(e),
    }
}

/// Turns an optional result inside out: a missing value is a success.
pub fn invert<V, E>(o: Option<Result<V, E>>) -> (r: Result<Option<V>, E>)
    ensures
        r == match o {
            Some(Ok(v)) => Ok(Some(v)),
            Some(Err(e)) => Err(e),
            None => Ok(None::<V>),
        },
{
    match o {
        Some(Ok(v)) => Ok(Some(v)),
        Some(Err(e)) => Err(e),
        None => Ok(None),
    }
}

} // verus!
