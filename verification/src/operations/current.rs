//! `tinty current`: the applied scheme and its properties.
use crate::text::{cat, str_eq, str_trim, trim};
use vstd::prelude::*;

verus! {

/// A property of the applied scheme that can be asked for.
#[derive(Clone, Copy, Debug, PartialEq, Eq, Structural)]
pub enum SchemeProperty {
    Author,
    Description,
    Name,
    Slug,
    System,
    Variant,
}

impl SchemeProperty {
    /// The name under which the property is reported and asked for: its own
    /// name in lower case.
    pub open spec fn key(self) -> Seq<char> {
        match self {
            SchemeProperty::Author => seq!['a', 'u', 't', 'h', 'o', 'r'],
            SchemeProperty::Description => seq!['d', 'e', 's', 'c', 'r', 'i', 'p', 't', 'i', 'o', 'n'],
            SchemeProperty::Name => seq!['n', 'a', 'm', 'e'],
            SchemeProperty::Slug => seq!['s', 'l', 'u', 'g'],
            SchemeProperty::System => seq!['s', 'y', 's', 't', 'e', 'm'],
            SchemeProperty::Variant => seq!['v', 'a', 'r', 'i', 'a', 'n', 't'],
        }
    }
}

/// The property a (trimmed) name asks for.
pub open spec fn property_named(name: Seq<char>) -> Option<SchemeProperty> {
    let t = trim(name);
    if t == "author"@ {
        Some(SchemeProperty::Author)
    } else if t == "description"@ {
        Some(SchemeProperty::Description)
    } else if t == "name"@ {
        Some(SchemeProperty::Name)
    } else if t == "slug"@ {
        Some(SchemeProperty::Slug)
    } else if t == "system"@ {
        Some(SchemeProperty::System)
    } else if t == "variant"@ {
        Some(SchemeProperty::Variant)
    } else {
        None
    }
}

/// The property `name` asks for, surrounding whitespace ignored.
pub fn scheme_property(name: &str) -> (res: Option<SchemeProperty>)
    ensures
        res == property_named(name@),
{
    let t = str_trim(name);
    let s = t.as_str();
    if str_eq(s, "author") {
        Some(SchemeProperty::Author)
    } else if str_eq(s, "description") {
        Some(SchemeProperty::Description)
    } else if str_eq(s, "name") {
        Some(SchemeProperty::Name)
    } else if str_eq(s, "slug") {
        Some(SchemeProperty::Slug)
    } else if str_eq(s, "system") {
        Some(SchemeProperty::System)
    } else if str_eq(s, "variant") {
        Some(SchemeProperty::Variant)
    } else {
        None
    }
}

/// Why `tinty current` has nothing to report.
pub enum CurrentError {
    /// No scheme has been applied.
    NothingApplied,
}

impl CurrentError {
    /// The message this error is reported with.
    pub fn message(&self) -> (res: String)
        ensures
            res@ == "Failed to read last scheme from file. Try applying a scheme and try again."@,
    {
        "Failed to read last scheme from file. Try applying a scheme and try again.".to_string()
    }
}

/// What `tinty current` reports first: the applied scheme's name (`slug`,
/// the recorded text) when one is applied.
pub fn check_current(slug: &str) -> (res: Result<(), CurrentError>)
    ensures
        res is Ok <==> slug@.len() > 0,
{
    if slug.is_empty() {
        Err(CurrentError::NothingApplied)
    } else {
        Ok(())
    }
}

/// The complaint when the asked-for property is unknown or the scheme
/// cannot be read.
pub fn unknown_property_message(property_name: &str) -> (res: String)
    ensures
        res@ == "Unable to find property: "@ + property_name@,
{
    cat("Unable to find property: ", property_name)
}

/// A name asks for the property of that name and no other: the property
/// found for `name` is the one whose own name is `name` (surrounding
/// whitespace aside), every property is found under its own name, and two
/// names that ask for the same property are the same name.
pub proof fn law_each_name_asks_for_its_own_property(name: Seq<char>, other: Seq<char>, p: SchemeProperty)
    ensures
        property_named(name) == Some(p) ==> trim(name) == p.key(),
        property_named(name) matches Some(q) && property_named(other) matches Some(r) && q == r ==> trim(name)
            == trim(other),
        trim(name) == p.key() ==> property_named(name) == Some(p),
{
    reveal_strlit("author");
    reveal_strlit("description");
    reveal_strlit("name");
    reveal_strlit("slug");
    reveal_strlit("system");
    reveal_strlit("variant");
    assert("author"@ =~= SchemeProperty::Author.key());
    assert("description"@ =~= SchemeProperty::Description.key());
    assert("name"@ =~= SchemeProperty::Name.key());
    assert("slug"@ =~= SchemeProperty::Slug.key());
    assert("system"@ =~= SchemeProperty::System.key());
    assert("variant"@ =~= SchemeProperty::Variant.key());
    assert("slug"@[1] != "system"@[1]);
}

} // verus!
