//! Identities, how they are named, and how they are changed.

use vstd::prelude::*;

use crate::error::WarpError;

verus! {

/// The public key of an identity.
#[derive(Debug, PartialEq, Eq)]
pub struct PublicKey {
    /// Its bytes.
    pub bytes: Vec<u8>,
}

impl PublicKey {
    /// Whether two keys are the same.
    pub fn same(&self, other: &PublicKey) -> (r: bool)
        ensures
            r == (self.bytes@ == other.bytes@),
    {
        if self.bytes.len() != other.bytes.len() {
            return false;
        }
        let mut i: usize = 0;
        while i < self.bytes.len()
            invariant
                i <= self.bytes.len(),
                self.bytes.len() == other.bytes.len(),
                forall|j: int| 0 <= j < i ==> self.bytes@[j] == other.bytes@[j],
            decreases self.bytes.len() - i,
        {
            if self.bytes[i] != other.bytes[i] {
                return false;
            }
            i += 1;
        }
        assert(self.bytes@ =~= other.bytes@);
        true
    }
}

/// The pictures of an identity, by their hashes.
#[derive(Debug, PartialEq, Eq)]
pub struct Graphics {
    /// The picture of the profile.
    pub profile_picture: String,
    /// The banner of the profile.
    pub profile_banner: String,
}

/// An identity as others see it. These fields are this library's own choice: they
/// are what can be looked up by, or changed.
#[derive(Debug, PartialEq, Eq)]
pub struct Identity {
    /// The name of the user.
    pub username: String,
    /// The key that the identity is known by.
    pub public_key: PublicKey,
    /// Its pictures.
    pub graphics: Graphics,
    /// What the user says of their state, if anything.
    pub status_message: Option<String>,
}

/// What is asked for: the identity of a key, that of a name, or the own one. Only
/// an identifier that says exactly one of these is good.
#[derive(Debug, PartialEq, Eq)]
pub struct Identifier {
    /// The key of the identity.
    pub public_key: Option<PublicKey>,
    /// The name of the identity.
    pub username: Option<String>,
    /// Whether the own identity is meant.
    pub own: bool,
}

impl Identifier {
    /// The own identity.
    pub fn own() -> (r: Identifier)
        ensures
            r == (Identifier { public_key: None, username: None, own: true }),
    {
        Identifier { public_key: None, username: None, own: true }
    }

    /// What the identifier says, part by part.
    pub fn get_inner(self) -> (r: (Option<PublicKey>, Option<String>, bool))
        ensures
            r == (self.public_key, self.username, self.own),
    {
        (self.public_key, self.username, self.own)
    }
}

/// By what an identity is looked up, in the cache and in the store.
#[derive(Debug, PartialEq, Eq)]
pub enum LookupBy {
    /// By its key.
    PublicKey(PublicKey),
    /// By its name.
    Username(String),
}

impl LookupBy {
    /// The field of a cached identity that is compared.
    pub open spec fn spec_field(self) -> Seq<char> {
        match self {
            LookupBy::PublicKey(_) => "public_key"@,
            LookupBy::Username(_) => "username"@,
        }
    }

    /// The field of a cached identity that is compared.
    pub fn field(&self) -> (r: &'static str)
        ensures
            r@ == self.spec_field(),
    {
        match self {
            LookupBy::PublicKey(_) => "public_key",
            LookupBy::Username(_) => "username",
        }
    }
}

/// A change to an identity. Only one that gives exactly one field is carried out.
#[derive(Debug, PartialEq, Eq)]
pub struct IdentityUpdate {
    /// A new name.
    pub username: Option<String>,
    /// A new picture.
    pub graphics_picture: Option<String>,
    /// A new banner.
    pub graphics_banner: Option<String>,
    /// A new status message, or none from now on.
    pub status_message: Option<Option<String>>,
}

/// How many fields an update gives.
pub open spec fn fields_given(option: IdentityUpdate) -> int {
    (if option.username is Some { 1int } else { 0 }) + (if option.graphics_picture is Some {
        1int
    } else {
        0
    }) + (if option.graphics_banner is Some { 1int } else { 0 }) + (
    if option.status_message is Some { 1int } else { 0 })
}

/// The identity with the given fields in place of its own.
pub open spec fn with_fields(identity: Identity, option: IdentityUpdate) -> Identity {
    Identity {
        username: match option.username {
            Some(username) => username,
            None => identity.username,
        },
        public_key: identity.public_key,
        graphics: Graphics {
            profile_picture: match option.graphics_picture {
                Some(hash) => hash,
                None => identity.graphics.profile_picture,
            },
            profile_banner: match option.graphics_banner {
                Some(hash) => hash,
                None => identity.graphics.profile_banner,
            },
        },
        status_message: match option.status_message {
            Some(status) => status,
            None => identity.status_message,
        },
    }
}

impl Identity {
    /// Whether two identities say the same, field by field.
    pub open spec fn same(self, other: Identity) -> bool {
        &&& self.username@ == other.username@
        &&& self.public_key.bytes@ == other.public_key.bytes@
        &&& self.graphics.profile_picture@ == other.graphics.profile_picture@
        &&& self.graphics.profile_banner@ == other.graphics.profile_banner@
        &&& match (self.status_message, other.status_message) {
            (Some(status), Some(message)) => status@ == message@,
            (None, None) => true,
            _ => false,
        }
    }

    /// Sets the name.
    pub fn set_username(&mut self, username: String)
        ensures
            *final(self) == (Identity { username, ..*old(self) }),
    {
        self.username = username;
    }

    /// Sets the status message.
    pub fn set_status_message(&mut self, status_message: Option<String>)
        ensures
            *final(self) == (Identity { status_message, ..*old(self) }),
    {
        self.status_message = status_message;
    }

    /// Carries a change out. One that gives no field, or more than one, is
    /// refused, and the identity stays as it is.
    pub fn apply(&mut self, option: IdentityUpdate) -> (r: Result<(), WarpError>)
        ensures
            fields_given(option) == 1 ==> r == Ok::<(), WarpError>(()) && *final(self)
                == with_fields(*old(self), option),
            fields_given(option) != 1 ==> r == Err::<(), WarpError>(
                WarpError::CannotUpdateIdentity,
            ) && *final(self) == *old(self),
            r is Ok ==> {
                &&& option.username matches Some(username) ==> final(self).username == username
                &&& option.graphics_picture matches Some(hash)
                    ==> final(self).graphics.profile_picture == hash
                &&& option.graphics_banner matches Some(hash)
                    ==> final(self).graphics.profile_banner == hash
                &&& option.status_message matches Some(status) ==> final(self).status_message
                    == status
                &&& final(self).public_key == old(self).public_key
            },
    {
        match (
            option.username,
            option.graphics_picture,
            option.graphics_banner,
            option.status_message,
        ) {
            (Some(username), None, None, None) => {
                self.set_username(username);
                Ok(())
            },
            (None, Some(hash), None, None) => {
                self.graphics.profile_picture = hash;
                Ok(())
            },
            (None, None, Some(hash), None) => {
                self.graphics.profile_banner = hash;
                Ok(())
            },
            (None, None, None, Some(status)) => {
                self.set_status_message(status);
                Ok(())
            },
            _ => Err(WarpError::CannotUpdateIdentity),
        }
    }
}

/// A change is good exactly where it gives the name, the picture, the banner or
/// the status message, and none of the other three.
pub proof fn one_field_is_one_of_four(option: IdentityUpdate)
    ensures
        fields_given(option) == 1 <==> {
            let name = option.username is Some;
            let picture = option.graphics_picture is Some;
            let banner = option.graphics_banner is Some;
            let status = option.status_message is Some;
            ||| name && !picture && !banner && !status
            ||| picture && !name && !banner && !status
            ||| banner && !name && !picture && !status
            ||| status && !name && !picture && !banner
        },
{
}

/// A field that a change gives has the given value afterwards, whatever it had
/// before: two identities that get the same change agree on what it gives.
pub proof fn update_sets_what_is_given(identity: Identity, option: IdentityUpdate)
    ensures
        option.username matches Some(username) ==> with_fields(identity, option).username
            == username,
        option.graphics_picture matches Some(hash) ==> with_fields(
            identity,
            option,
        ).graphics.profile_picture == hash,
        option.graphics_banner matches Some(hash) ==> with_fields(
            identity,
            option,
        ).graphics.profile_banner == hash,
        option.status_message matches Some(status) ==> with_fields(identity, option).status_message
            == status,
{
}

/// A second change overrules a first one of the same field, and the order of two
/// changes does not matter where they give different fields.
pub proof fn later_update_overrules(
    identity: Identity,
    first: IdentityUpdate,
    second: IdentityUpdate,
)
    ensures
        (first.username is Some ==> second.username is Some) && (first.graphics_picture is Some
            ==> second.graphics_picture is Some) && (first.graphics_banner is Some
            ==> second.graphics_banner is Some) && (first.status_message is Some
            ==> second.status_message is Some) ==> with_fields(
            with_fields(identity, first),
            second,
        ) == with_fields(identity, second),
        (first.username is None || second.username is None) && (first.graphics_picture is None
            || second.graphics_picture is None) && (first.graphics_banner is None
            || second.graphics_banner is None) && (first.status_message is None
            || second.status_message is None) ==> with_fields(with_fields(identity, first), second)
            == with_fields(with_fields(identity, second), first),
{
}

/// Two keys are the same exactly where their bytes are.
pub proof fn keys_are_their_bytes(a: PublicKey, b: PublicKey, r: bool)
    requires
        call_ensures(PublicKey::same, (&a, &b), r),
    ensures
        r <==> a.bytes@ == b.bytes@,
{
}

/// A cached identity is compared by the field that holds what is looked for.
pub proof fn compared_field_is_the_named_one(by: LookupBy, field: &'static str)
    requires
        call_ensures(LookupBy::field, (&by,), field),
    ensures
        by is PublicKey ==> field@ == "public_key"@,
        by is Username ==> field@ == "username"@,
{
}

/// No change touches the key of an identity, and of the other fields only the
/// one that it gives.
pub proof fn update_keeps_the_rest(identity: Identity, option: IdentityUpdate)
    requires
        fields_given(option) == 1,
    ensures
        with_fields(identity, option).public_key == identity.public_key,
        option.username is None ==> with_fields(identity, option).username == identity.username,
        option.graphics_picture is None ==> with_fields(identity, option).graphics.profile_picture
            == identity.graphics.profile_picture,
        option.graphics_banner is None ==> with_fields(identity, option).graphics.profile_banner
            == identity.graphics.profile_banner,
        option.status_message is None ==> with_fields(identity, option).status_message
            == identity.status_message,
{
}

} // verus!
