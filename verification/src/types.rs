//! The startup configuration: who to show results for, and how.

use vstd::prelude::*;

verus! {

/// Whether the configured owner is a personal account or an organisation.
#[derive(Clone, Debug, PartialEq, Eq, Structural)]
pub enum OwnerType {
    /// For personal accounts
    User,
    /// For organisation accounts
    Org,
}

/// Colour theme for the web front end.
#[derive(Clone, Debug, PartialEq, Eq, Structural)]
pub enum Theme {
    Light,
    Dark,
}

/// Immutable configuration resolved at startup and served verbatim to
/// the front end.
#[derive(Clone, Debug)]
pub struct Config {
    pub owner: Option<String>,
    pub owner_type: OwnerType,
    pub theme: Theme,
}

/// The serialized name of an owner type.
pub open spec fn spec_owner_type_label(t: OwnerType) -> Seq<char> {
    match t {
        OwnerType::User => "user"@,
        OwnerType::Org => "org"@,
    }
}

/// The serialized name of a theme.
pub open spec fn spec_theme_label(t: Theme) -> Seq<char> {
    match t {
        Theme::Light => "light"@,
        Theme::Dark => "dark"@,
    }
}

/// Returns the lowercase label under which an owner type appears in
/// serialized configuration.
pub fn owner_type_label(t: &OwnerType) -> (r: &'static str)
    ensures
        r@ == spec_owner_type_label(*t),
{
    match t {
        OwnerType::User => "user",
        OwnerType::Org => "org",
    }
}

/// Returns the lowercase label under which a theme appears in
/// serialized configuration.
pub fn theme_label(t: &Theme) -> (r: &'static str)
    ensures
        r@ == spec_theme_label(*t),
{
    match t {
        Theme::Light => "light",
        Theme::Dark => "dark",
    }
}

} // verus!
