//! Account profiles: their encoding, and the decisions taken while reading one from the
//! session server's JSON.

use vstd::prelude::*;
use vstd::string::StrSliceExecFns;
use crate::data::codec::{
    be128, push_be128, proto_string, proto_string_fits, push_string, proto_opt_string,
    push_opt_string, varint, push_varint, string_len, varint_len,
};

verus! {

/// A player's account: UUID, username and skin.
pub struct AccountProfile {
    pub uuid: u128,
    pub username: String,
    pub skin: Option<AccountProperty>,
}

/// A signed profile property.
pub struct AccountProperty {
    pub value: String,
    pub sig: Option<String>,
}

/// The model of a property: its value and optional signature.
pub open spec fn property_model(p: AccountProperty) -> (Seq<char>, Option<Seq<char>>) {
    (p.value@, match p.sig {
        Option::Some(s) => Option::Some(s@),
        Option::None => Option::None,
    })
}

impl Clone for AccountProperty {
    fn clone(&self) -> (r: Self)
        ensures
            property_model(r) == property_model(*self),
    {
        let sig = match &self.sig {
            Some(s) => Some(s.clone()),
            None => None,
        };
        AccountProperty { value: self.value.clone(), sig }
    }
}

/// The name under which the skin property travels.
pub open spec fn textures_key() -> Seq<char> {
    "textures"@
}

fn textures_key_string() -> (r: String)
    ensures
        r@ == textures_key(),
        vstd::utf8::encode_utf8(r@).len() == 8,
{
    let key = "textures";
    proof {
        reveal_strlit("textures");
        vstd::string::is_ascii_spec_bytes(key);
        assert(vstd::string::is_ascii(key));
    }
    key.to_owned()
}

/// The properties as the protocol sends them: their count, then each property as its
/// name, value and optional signature.
pub open spec fn properties_encoding(skin: Option<(Seq<char>, Option<Seq<char>>)>) -> Seq<u8> {
    match skin {
        Option::Some((value, sig)) => varint(1) + proto_string(textures_key()) + proto_string(value)
            + proto_opt_string(sig),
        Option::None => varint(0),
    }
}

impl AccountProfile {
    /// Whether the username holds at most `MAX_USERNAME_LEN` characters, as every
    /// profile read by `ProfileFields::finish` does.
    pub open spec fn username_fits(&self) -> bool {
        self.username@.len() <= MAX_USERNAME_LEN
    }

    pub open spec fn skin_model(&self) -> Option<(Seq<char>, Option<Seq<char>>)> {
        match self.skin {
            Option::Some(p) => Option::Some(property_model(p)),
            Option::None => Option::None,
        }
    }

    /// Whether every string of the profile can be encoded.
    pub open spec fn encodable(&self) -> bool {
        &&& proto_string_fits(self.username@)
        &&& match self.skin {
            Option::Some(p) => proto_string_fits(p.value@) && match p.sig {
                Option::Some(s) => proto_string_fits(s@),
                Option::None => true,
            },
            Option::None => true,
        }
    }

    /// The encoded profile: the UUID in sixteen big-endian bytes, the username, then
    /// the properties.
    pub open spec fn encoding(&self) -> Seq<u8> {
        be128(self.uuid as int) + proto_string(self.username@) + properties_encoding(self.skin_model())
    }

    /// The number of bytes the encoded profile takes.
    pub fn encode_len(&self) -> (n: usize)
        requires
            self.encodable(),
            vstd::utf8::encode_utf8(self.username@).len() + 64 <= usize::MAX,
            self.skin matches Option::Some(p) ==> vstd::utf8::encode_utf8(self.username@).len()
                + vstd::utf8::encode_utf8(p.value@).len() + match p.sig {
                Option::Some(s) => vstd::utf8::encode_utf8(s@).len(),
                Option::None => 0,
            } + 64 <= usize::MAX,
        ensures
            n == self.encoding().len(),
    {
        let base = 16 + string_len(self.username.as_str());
        match &self.skin {
            Some(p) => {
                let key = textures_key_string();
                let sig_len = match &p.sig {
                    Some(s) => 1 + string_len(s.as_str()),
                    None => 1,
                };
                proof {
                    assert(proto_opt_string(match p.sig {
                        Option::Some(s) => Option::Some(s@),
                        Option::None => Option::None,
                    }).len() == sig_len);
                }
                base + varint_len(1) + string_len(key.as_str()) + string_len(p.value.as_str()) + sig_len
            },
            None => base + varint_len(0),
        }
    }

    /// Appends the encoded profile.
    pub fn encode(&self, out: &mut Vec<u8>)
        requires
            self.encodable(),
        ensures
            final(out)@ == old(out)@ + self.encoding(),
    {
        push_be128(out, self.uuid);
        push_string(out, self.username.as_str());
        let ghost mid = out@;
        match &self.skin {
            Some(p) => {
                push_varint(out, 1);
                let key = textures_key_string();
                push_string(out, key.as_str());
                push_string(out, p.value.as_str());
                push_opt_string(out, &p.sig);
                assert(out@ =~= mid + properties_encoding(self.skin_model()));
            },
            None => {
                push_varint(out, 0);
            },
        }
        assert(final(out)@ =~= old(out)@ + self.encoding());
    }
}

/// A field of the profile JSON, by its name.
#[derive(Clone, Copy, PartialEq, Eq, Structural, Debug)]
pub enum ProfileField {
    /// `id`: the UUID.
    Id,
    /// `name`: the username.
    Name,
    /// `properties`: the list of properties.
    Properties,
    /// `textures`: the skin, within the properties.
    Textures,
}

/// Why a profile could not be read.
#[derive(Clone, Copy, PartialEq, Eq, Structural, Debug)]
pub enum ProfileDeserError {
    DuplicateField(ProfileField),
    MissingField(ProfileField),
    /// The username is longer than `MAX_USERNAME_LEN` characters.
    UsernameTooLong,
    /// The UUID is not in a form the `uuid` crate reads.
    InvalidUuid,
}

/// What `uuid::Uuid::try_parse` reads from a text: the UUID as a number, or nothing.
pub uninterp spec fn parsed_uuid(s: Seq<char>) -> Option<u128>;

/// Calls `uuid::Uuid::try_parse` and takes the UUID as a number. The crate's result
/// depends on the text alone; which texts it accepts (hyphenated, simple, braced and
/// URN forms) is left to the name `parsed_uuid`.
#[verifier::external_body]
fn parse_uuid(s: &str) -> (r: Option<u128>)
    ensures
        r == parsed_uuid(s@),
{
    match uuid::Uuid::try_parse(s) {
        Ok(u) => Some(u.as_u128()),
        Err(_) => None,
    }
}

/// The UUID of a profile, read from its text.
pub fn profile_uuid(text: &str) -> (r: Result<u128, ProfileDeserError>)
    ensures
        match parsed_uuid(text@) {
            Option::Some(u) => r == Result::<u128, ProfileDeserError>::Ok(u),
            Option::None => r == Result::<u128, ProfileDeserError>::Err(ProfileDeserError::InvalidUuid),
        },
{
    match parse_uuid(text) {
        Some(u) => Ok(u),
        None => Err(ProfileDeserError::InvalidUuid),
    }
}

/// The most characters a username holds.
pub const MAX_USERNAME_LEN: usize = 16;

/// A username as a profile holds it: at most `MAX_USERNAME_LEN` characters, or the
/// error for a longer one.
pub fn bounded_username(name: String) -> (r: Result<String, ProfileDeserError>)
    ensures
        name@.len() <= MAX_USERNAME_LEN ==> (r matches Result::Ok(n) && n@ == name@),
        name@.len() > MAX_USERNAME_LEN ==> r == Result::<String, ProfileDeserError>::Err(
            ProfileDeserError::UsernameTooLong,
        ),
{
    if name.as_str().unicode_len() <= MAX_USERNAME_LEN {
        Ok(name)
    } else {
        Err(ProfileDeserError::UsernameTooLong)
    }
}

/// The field of the profile a JSON key names, where it names one; others are skipped.
pub open spec fn profile_field_of(key: Seq<char>) -> Option<ProfileField> {
    if key == "id"@ {
        Option::Some(ProfileField::Id)
    } else if key == "name"@ {
        Option::Some(ProfileField::Name)
    } else if key == "properties"@ {
        Option::Some(ProfileField::Properties)
    } else {
        Option::None
    }
}

/// The field of the profile a JSON key names, where it names one.
pub fn profile_field(key: &str) -> (r: Option<ProfileField>)
    ensures
        r == profile_field_of(key@),
{
    let k = key.to_owned();
    if k == "id".to_owned() {
        Some(ProfileField::Id)
    } else if k == "name".to_owned() {
        Some(ProfileField::Name)
    } else if k == "properties".to_owned() {
        Some(ProfileField::Properties)
    } else {
        None
    }
}

/// The fields of a profile read so far.
pub struct ProfileFields {
    pub uuid: Option<u128>,
    pub username: Option<String>,
    pub properties: Option<Option<AccountProperty>>,
}

impl ProfileFields {
    /// Nothing read yet.
    pub fn new() -> (r: Self)
        ensures
            r.uuid is None,
            r.username is None,
            r.properties is None,
    {
        ProfileFields { uuid: None, username: None, properties: None }
    }

    /// Whether `field` was read already.
    pub open spec fn has(&self, field: ProfileField) -> bool {
        match field {
            ProfileField::Id => self.uuid is Some,
            ProfileField::Name => self.username is Some,
            ProfileField::Properties => self.properties is Some,
            ProfileField::Textures => false,
        }
    }

    /// Checks, before a field's value is read, that the field was not read already.
    pub fn begin_field(&self, field: ProfileField) -> (r: Result<(), ProfileDeserError>)
        ensures
            r == (if self.has(field) {
                Result::Err(ProfileDeserError::DuplicateField(field))
            } else {
                Result::Ok(())
            }),
    {
        let seen = match field {
            ProfileField::Id => self.uuid.is_some(),
            ProfileField::Name => self.username.is_some(),
            ProfileField::Properties => self.properties.is_some(),
            ProfileField::Textures => false,
        };
        if seen {
            Err(ProfileDeserError::DuplicateField(field))
        } else {
            Ok(())
        }
    }

    /// The profile read: the UUID and username are required, in that order, and the
    /// username holds at most `MAX_USERNAME_LEN` characters; absent properties mean no
    /// skin.
    pub fn finish(self) -> (r: Result<AccountProfile, ProfileDeserError>)
        ensures
            match (self.uuid, self.username) {
                (Option::Some(u), Option::Some(n)) => if n@.len() <= MAX_USERNAME_LEN {
                    r matches Result::Ok(p) && p.uuid == u && p.username@ == n@ && p.username_fits()
                        && p.skin == match self.properties {
                        Option::Some(s) => s,
                        Option::None => Option::None,
                    }
                } else {
                    r == Result::<AccountProfile, ProfileDeserError>::Err(
                        ProfileDeserError::UsernameTooLong,
                    )
                },
                (Option::None, _) => r == Result::<AccountProfile, ProfileDeserError>::Err(
                    ProfileDeserError::MissingField(ProfileField::Id),
                ),
                (Option::Some(_), Option::None) => r == Result::<
                    AccountProfile,
                    ProfileDeserError,
                >::Err(ProfileDeserError::MissingField(ProfileField::Name)),
            },
    {
        let skin = match self.properties {
            Some(s) => s,
            None => None,
        };
        let uuid = match self.uuid {
            Some(u) => u,
            None => {
                return Err(ProfileDeserError::MissingField(ProfileField::Id));
            },
        };
        let username = match self.username {
            Some(n) => bounded_username(n)?,
            None => {
                return Err(ProfileDeserError::MissingField(ProfileField::Name));
            },
        };
        Ok(AccountProfile { uuid, username, skin })
    }
}

/// Takes one property of the list as the skin; a second one is a duplicate.
pub fn accept_property(skin: &mut Option<AccountProperty>, p: AccountProperty) -> (r: Result<(), ProfileDeserError>)
    ensures
        match *old(skin) {
            Option::Some(_) => r == Result::<(), ProfileDeserError>::Err(
                ProfileDeserError::DuplicateField(ProfileField::Textures),
            ) && *final(skin) == *old(skin),
            Option::None => r is Ok && *final(skin) == Option::Some(p),
        },
{
    if skin.is_some() {
        return Err(ProfileDeserError::DuplicateField(ProfileField::Textures));
    }
    *skin = Some(p);
    Ok(())
}


/// A profile with a signed skin is encoded as its UUID in sixteen bytes, its name,
/// the property count 1, the name `textures`, the skin's value, then the byte 1 and the
/// signature; with an unsigned skin the signature is the byte 0 alone; with no skin the
/// properties are the count 0 alone.
pub proof fn lemma_profile_layout(p: AccountProfile)
    ensures
        be128(p.uuid as int).len() == 16,
        match p.skin_model() {
            Option::Some((value, Option::Some(sig))) => p.encoding() == be128(p.uuid as int)
                + proto_string(p.username@) + seq![1u8] + proto_string("textures"@) + proto_string(
                value,
            ) + seq![1u8] + proto_string(sig),
            Option::Some((value, Option::None)) => p.encoding() == be128(p.uuid as int)
                + proto_string(p.username@) + seq![1u8] + proto_string("textures"@) + proto_string(
                value,
            ) + seq![0u8],
            Option::None => p.encoding() == be128(p.uuid as int) + proto_string(p.username@) + seq![
                0u8,
            ],
        },
{
    assert(varint(1) == seq![1u8]);
    assert(varint(0) == seq![0u8]);
    match p.skin_model() {
        Option::Some((value, sig)) => {
            assert(p.encoding() =~= be128(p.uuid as int) + proto_string(p.username@) + seq![1u8]
                + proto_string("textures"@) + proto_string(value) + proto_opt_string(sig));
            match sig {
                Option::Some(x) => {
                    assert(proto_opt_string(sig) =~= seq![1u8] + proto_string(x));
                },
                Option::None => {},
            }
        },
        Option::None => {},
    }
}

} // verus!
