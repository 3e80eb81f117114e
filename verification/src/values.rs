use vstd::prelude::*;

use serenity::model::channel::PartialChannel;
use serenity::model::guild::PartialMember;
use serenity::model::guild::Role;
use serenity::model::user::User;

verus! {

// The platform's record types ride through the decoder as opaque payloads:
// the decoder copies them, never reads inside them.
#[verifier::external_type_specification]
#[verifier::external_body]
pub struct ExUser(serenity::model::user::User);

#[verifier::external_type_specification]
#[verifier::external_body]
pub struct ExPartialMember(serenity::model::guild::PartialMember);

#[verifier::external_type_specification]
#[verifier::external_body]
pub struct ExPartialChannel(serenity::model::channel::PartialChannel);

#[verifier::external_type_specification]
#[verifier::external_body]
pub struct ExRole(serenity::model::guild::Role);

/// Relies on serenity's derived `Clone` for `User`: a field-wise copy,
/// equal to the original value.
pub assume_specification[ <serenity::model::user::User as Clone>::clone ](v: &serenity::model::user::User) -> (r: serenity::model::user::User)
    ensures
        r == *v,
;

/// Relies on serenity's derived `Clone` for `PartialMember`: a field-wise
/// copy, equal to the original value.
pub assume_specification[ <serenity::model::guild::PartialMember as Clone>::clone ](v: &serenity::model::guild::PartialMember) -> (r: serenity::model::guild::PartialMember)
    ensures
        r == *v,
;

/// Relies on serenity's derived `Clone` for `PartialChannel`: a field-wise
/// copy, equal to the original value.
pub assume_specification[ <serenity::model::channel::PartialChannel as Clone>::clone ](v: &serenity::model::channel::PartialChannel) -> (r: serenity::model::channel::PartialChannel)
    ensures
        r == *v,
;

/// Relies on serenity's derived `Clone` for `Role`: a field-wise copy,
/// equal to the original value.
pub assume_specification[ <serenity::model::guild::Role as Clone>::clone ](v: &serenity::model::guild::Role) -> (r: serenity::model::guild::Role)
    ensures
        r == *v,
;

/// A decoded argument value, carrying exactly one of the platform's
/// leaf-value shapes at a time.
#[derive(Debug)]
pub enum TypedValue {
    String(String),
    Integer(i64),
    Boolean(bool),
    User(User, Option<PartialMember>),
    Channel(PartialChannel),
    Role(Role),
}

/// The human-readable tag name of a value, as embedded in `WrongType` errors.
pub open spec fn tag_of(v: TypedValue) -> Seq<char> {
    match v {
        TypedValue::String(_) => "String"@,
        TypedValue::Integer(_) => "Integer"@,
        TypedValue::Boolean(_) => "Boolean"@,
        TypedValue::User(_, _) => "User"@,
        TypedValue::Channel(_) => "Channel"@,
        TypedValue::Role(_) => "Role"@,
    }
}

impl TypedValue {
    /// Returns the human-readable name of this value's tag.
    pub fn tag_name(&self) -> (r: String)
        ensures
            r@ == tag_of(*self),
    {
        match self {
            TypedValue::String(_) => String::from_str("String"),
            TypedValue::Integer(_) => String::from_str("Integer"),
            TypedValue::Boolean(_) => String::from_str("Boolean"),
            TypedValue::User(_, _) => String::from_str("User"),
            TypedValue::Channel(_) => String::from_str("Channel"),
            TypedValue::Role(_) => String::from_str("Role"),
        }
    }
}

impl Clone for TypedValue {
    fn clone(&self) -> (r: Self)
        ensures
            r == *self,
    {
        match self {
            TypedValue::String(s) => TypedValue::String(s.clone()),
            TypedValue::Integer(i) => TypedValue::Integer(*i),
            TypedValue::Boolean(b) => TypedValue::Boolean(*b),
            TypedValue::User(u, m) => TypedValue::User(
                u.clone(),
                match m {
                    Some(mm) => Some(mm.clone()),
                    None => None,
                },
            ),
            TypedValue::Channel(c) => TypedValue::Channel(c.clone()),
            TypedValue::Role(ro) => TypedValue::Role(ro.clone()),
        }
    }
}

/// Clones an optional membership record.
pub(crate) fn clone_opt_member(m: &Option<PartialMember>) -> (r: Option<PartialMember>)
    ensures
        r == *m,
{
    match m {
        Some(mm) => Some(mm.clone()),
        None => None,
    }
}

/// Clones an optional decoded value.
pub(crate) fn clone_opt_value(v: &Option<TypedValue>) -> (r: Option<TypedValue>)
    ensures
        r == *v,
{
    match v {
        Some(x) => Some(x.clone()),
        None => None,
    }
}

/// A user record, optionally paired with the membership record the platform
/// delivered beside it.
#[derive(Debug)]
pub enum UserOrMember {
    User(User),
    Member(User, PartialMember),
}

/// How a user record and an optional membership record compose into a
/// `UserOrMember`.
pub open spec fn user_or_member_of(u: User, m: Option<PartialMember>) -> UserOrMember {
    match m {
        Some(mm) => UserOrMember::Member(u, mm),
        None => UserOrMember::User(u),
    }
}

impl UserOrMember {
    /// Composes a user record with an optional membership record.
    pub(crate) fn from_pair(user: User, member: Option<PartialMember>) -> (r: Self)
        ensures
            r == user_or_member_of(user, member),
    {
        match member {
            Some(m) => Self::Member(user, m),
            None => Self::User(user),
        }
    }

    /// Gets the inner user.
    pub fn get_user(&self) -> (r: &User)
        ensures
            *self matches UserOrMember::User(u) ==> *r == u,
            *self matches UserOrMember::Member(u, _) ==> *r == u,
    {
        match self {
            UserOrMember::User(s) => s,
            UserOrMember::Member(u, _) => u,
        }
    }

    /// Gets the inner member, if it exists.
    pub fn get_member(&self) -> (r: Option<&PartialMember>)
        ensures
            *self matches UserOrMember::User(_) ==> r is None,
            *self matches UserOrMember::Member(_, m) ==> (r matches Some(rm) && *rm == m),
    {
        match self {
            UserOrMember::User(_) => None,
            UserOrMember::Member(_, m) => Some(m),
        }
    }
}

/// Either a user (with optional membership record) or a role: the two shapes
/// a mentionable argument can take.
#[derive(Debug)]
pub enum Mentionable {
    UserOrMember(UserOrMember),
    Role(Role),
}

} // verus!
