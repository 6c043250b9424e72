//! The user codec: polymorphic user references over two variants, Person
//! and Bot, sharing a common identity block.
//!
//! The wire discriminant `type` is optional. When it is present it must
//! match the variant ("person" or "bot"); when it is absent the decoder
//! attempts the variant definitions in a fixed priority order, Person
//! before Bot, and accepts the first that type-checks structurally. An
//! object carrying only the common identity fields therefore decodes as a
//! Person. This is the untagged design with the discriminant kept as an
//! optional, checked sentinel; it accepts every payload the tagged design
//! accepts and also payloads that lack the discriminant.

use crate::error::DecodeError;
use crate::json::{
    json_text, lookup, lookup_field, lookup_from, parse_json, parsed_json, str_eq, str_member,
    to_json_string, Json,
};
use crate::property_schema::opt_text;
use vstd::prelude::*;

verus! {

/// The identity block every user reference carries: an opaque identifier,
/// an optional display name and an optional avatar URL.
#[derive(Clone, Debug, Eq, PartialEq)]
pub struct UserCommon {
    pub id: String,
    pub name: Option<String>,
    pub avatar_url: Option<String>,
}

/// The mathematical image of the identity block.
pub struct UserCommonV {
    pub id: Seq<char>,
    pub name: Option<Seq<char>>,
    pub avatar_url: Option<Seq<char>>,
}

impl View for UserCommon {
    type V = UserCommonV;

    open spec fn view(&self) -> UserCommonV {
        UserCommonV { id: self.id@, name: opt_text(self.name), avatar_url: opt_text(
            self.avatar_url,
        ) }
    }
}

/// The Person variant's payload.
#[derive(Clone, Debug, Eq, PartialEq)]
pub struct Person {
    pub email: Option<String>,
}

/// The Bot variant's payload.
#[derive(Clone, Debug, Eq, PartialEq)]
pub struct Bot {
    pub email: Option<String>,
}

/// The mathematical image of either payload.
pub struct PayloadV {
    pub email: Option<Seq<char>>,
}

impl View for Person {
    type V = PayloadV;

    open spec fn view(&self) -> PayloadV {
        PayloadV { email: opt_text(self.email) }
    }
}

impl View for Bot {
    type V = PayloadV;

    open spec fn view(&self) -> PayloadV {
        PayloadV { email: opt_text(self.email) }
    }
}

/// A user reference: an immutable, read-only projection of a server-side
/// identity. `type_tag` records whether the wire object carries the `type`
/// discriminant string.
#[derive(Clone, Debug, Eq, PartialEq)]
pub enum User {
    Person { common: UserCommon, person: Option<Person>, type_tag: bool },
    Bot { common: UserCommon, bot: Option<Bot>, type_tag: bool },
}

/// The mathematical image of a user reference.
pub enum UserV {
    Person { common: UserCommonV, person: Option<PayloadV>, type_tag: bool },
    Bot { common: UserCommonV, bot: Option<PayloadV>, type_tag: bool },
}

impl View for User {
    type V = UserV;

    open spec fn view(&self) -> UserV {
        match *self {
            User::Person { common, person, type_tag } => UserV::Person {
                common: common@,
                person: match person {
                    Some(p) => Some(p@),
                    None => None,
                },
                type_tag,
            },
            User::Bot { common, bot, type_tag } => UserV::Bot {
                common: common@,
                bot: match bot {
                    Some(b) => Some(b@),
                    None => None,
                },
                type_tag,
            },
        }
    }
}

/// The number of members the identity block contributes to the top-level
/// object: `id` and the `object` literal, plus each optional field present.
pub open spec fn common_len(c: UserCommonV) -> int {
    2 + (if c.name is Some {
        1int
    } else {
        0int
    }) + (if c.avatar_url is Some {
        1int
    } else {
        0int
    })
}

/// Members `0` to `common_len(c) - 1` of `fs` encode the identity block:
/// `id`, then `name` and `avatar_url` exactly when present, then the
/// literal member `object = "user"`.
pub open spec fn is_common_prefix(fs: Seq<(String, Json)>, c: UserCommonV) -> bool {
    let i_av = 1 + if c.name is Some {
        1int
    } else {
        0int
    };
    let i_obj = common_len(c) - 1;
    &&& str_member(fs, 0, "id"@, c.id)
    &&& match c.name {
        Some(v) => str_member(fs, 1, "name"@, v),
        None => true,
    }
    &&& match c.avatar_url {
        Some(v) => str_member(fs, i_av, "avatar_url"@, v),
        None => true,
    }
    &&& str_member(fs, i_obj, "object"@, "user"@)
}

/// `j` encodes a variant payload: an object holding `email` exactly when
/// an email is present.
pub open spec fn is_payload_encoding(j: Json, p: PayloadV) -> bool {
    match j {
        Json::Object(fsv) => {
            let fs = fsv@;
            &&& fs.len() == if p.email is Some {
                1int
            } else {
                0int
            }
            &&& match p.email {
                Some(v) => str_member(fs, 0, "email"@, v),
                None => true,
            }
        },
        _ => false,
    }
}

/// `j` is exactly the wire form of the user `u`: the identity block, then
/// the variant's sub-object exactly when its payload is present, then the
/// `type` discriminant exactly when `type_tag` is set.
pub open spec fn is_user_encoding(j: Json, u: UserV) -> bool {
    match j {
        Json::Object(fsv) => {
            let fs = fsv@;
            match u {
                UserV::Person { common, person, type_tag } => {
                    let base = common_len(common);
                    let i_type = base + if person is Some {
                        1int
                    } else {
                        0int
                    };
                    &&& fs.len() == i_type + if type_tag {
                        1int
                    } else {
                        0int
                    }
                    &&& is_common_prefix(fs, common)
                    &&& match person {
                        Some(p) => fs[base].0@ == "person"@ && is_payload_encoding(fs[base].1, p),
                        None => true,
                    }
                    &&& type_tag ==> str_member(fs, i_type, "type"@, "person"@)
                },
                UserV::Bot { common, bot, type_tag } => {
                    let base = common_len(common);
                    let i_type = base + if bot is Some {
                        1int
                    } else {
                        0int
                    };
                    &&& fs.len() == i_type + if type_tag {
                        1int
                    } else {
                        0int
                    }
                    &&& is_common_prefix(fs, common)
                    &&& match bot {
                        Some(p) => fs[base].0@ == "bot"@ && is_payload_encoding(fs[base].1, p),
                        None => true,
                    }
                    &&& type_tag ==> str_member(fs, i_type, "type"@, "bot"@)
                },
            }
        },
        _ => false,
    }
}

/// What decoding one optional string member yields: absent or null means
/// none; any other non-string shape is a mismatch.
pub open spec fn spec_opt_str_member(fs: Seq<(String, Json)>, key: Seq<char>) -> Result<
    Option<Seq<char>>,
    DecodeError,
> {
    match lookup(fs, key) {
        None => Ok(None),
        Some(Json::Null) => Ok(None),
        Some(Json::String(s)) => Ok(Some(s@)),
        Some(_) => Err(DecodeError::TypeMismatch),
    }
}

/// What decoding the identity block yields: `id` is required and must be
/// a string; `name` and `avatar_url` are optional strings; every other
/// member, the `object` literal included, is ignored.
pub open spec fn spec_decode_common(fs: Seq<(String, Json)>) -> Result<UserCommonV, DecodeError> {
    match lookup(fs, "id"@) {
        None => Err(DecodeError::MissingField),
        Some(Json::String(id)) => match (
            spec_opt_str_member(fs, "name"@),
            spec_opt_str_member(fs, "avatar_url"@),
        ) {
            (Ok(name), Ok(avatar_url)) => Ok(UserCommonV { id: id@, name, avatar_url }),
            (Err(e), _) => Err(e),
            (_, Err(e)) => Err(e),
        },
        Some(_) => Err(DecodeError::TypeMismatch),
    }
}

/// What decoding a variant's sub-object member yields: absent or null
/// means no payload; an object holds an optional string `email`; any
/// other shape is a mismatch.
pub open spec fn spec_decode_payload(fs: Seq<(String, Json)>, key: Seq<char>) -> Result<
    Option<PayloadV>,
    DecodeError,
> {
    match lookup(fs, key) {
        None => Ok(None),
        Some(Json::Null) => Ok(None),
        Some(Json::Object(inner)) => match spec_opt_str_member(inner@, "email"@) {
            Ok(email) => Ok(Some(PayloadV { email })),
            Err(e) => Err(e),
        },
        Some(_) => Err(DecodeError::TypeMismatch),
    }
}

/// What the `type` member contributes to an attempt at the variant whose
/// discriminant constant is `want`: absent or null means no tag; the
/// matching constant means a tag; any other string refuses the variant
/// with `UnknownVariant`; a non-string is a mismatch.
pub open spec fn spec_decode_type_tag(fs: Seq<(String, Json)>, want: Seq<char>) -> Result<
    bool,
    DecodeError,
> {
    match lookup(fs, "type"@) {
        None => Ok(false),
        Some(Json::Null) => Ok(false),
        Some(Json::String(s)) => if s@ == want {
            Ok(true)
        } else {
            Err(DecodeError::UnknownVariant)
        },
        Some(_) => Err(DecodeError::TypeMismatch),
    }
}

/// What attempting to decode `j` as a Person yields.
pub open spec fn spec_try_person(j: Json) -> Result<UserV, DecodeError> {
    match j {
        Json::Object(fsv) => match spec_decode_common(fsv@) {
            Err(e) => Err(e),
            Ok(common) => match spec_decode_payload(fsv@, "person"@) {
                Err(e) => Err(e),
                Ok(person) => match spec_decode_type_tag(fsv@, "person"@) {
                    Err(e) => Err(e),
                    Ok(type_tag) => Ok(UserV::Person { common, person, type_tag }),
                },
            },
        },
        _ => Err(DecodeError::TypeMismatch),
    }
}

/// What attempting to decode `j` as a Bot yields.
pub open spec fn spec_try_bot(j: Json) -> Result<UserV, DecodeError> {
    match j {
        Json::Object(fsv) => match spec_decode_common(fsv@) {
            Err(e) => Err(e),
            Ok(common) => match spec_decode_payload(fsv@, "bot"@) {
                Err(e) => Err(e),
                Ok(bot) => match spec_decode_type_tag(fsv@, "bot"@) {
                    Err(e) => Err(e),
                    Ok(type_tag) => Ok(UserV::Bot { common, bot, type_tag }),
                },
            },
        },
        _ => Err(DecodeError::TypeMismatch),
    }
}

/// What decoding a wire object as a user yields: the Person attempt first,
/// then the Bot attempt, and the Person attempt's error where both fail.
pub open spec fn spec_decode_user(j: Json) -> Result<UserV, DecodeError> {
    match spec_try_person(j) {
        Ok(u) => Ok(u),
        Err(e) => match spec_try_bot(j) {
            Ok(u) => Ok(u),
            Err(_) => Err(e),
        },
    }
}

fn push_common(fs: &mut Vec<(String, Json)>, c: &UserCommon)
    requires
        old(fs)@.len() == 0,
    ensures
        final(fs)@.len() == common_len(c@),
        is_common_prefix(final(fs)@, c@),
{
    fs.push(("id".to_owned(), Json::String(c.id.clone())));
    if let Some(v) = &c.name {
        fs.push(("name".to_owned(), Json::String(v.clone())));
    }
    if let Some(v) = &c.avatar_url {
        fs.push(("avatar_url".to_owned(), Json::String(v.clone())));
    }
    fs.push(("object".to_owned(), Json::String("user".to_owned())));
}

fn encode_payload(email: &Option<String>) -> (r: Json)
    ensures
        is_payload_encoding(r, PayloadV { email: opt_text(*email) }),
{
    let mut fs: Vec<(String, Json)> = Vec::new();
    if let Some(v) = email {
        fs.push(("email".to_owned(), Json::String(v.clone())));
    }
    Json::Object(fs)
}

impl User {
    /// The wire form of this user, exactly as `is_user_encoding`
    /// describes; encoding never fails.
    pub fn encode(&self) -> (r: Json)
        ensures
            is_user_encoding(r, self@),
    {
        match self {
            User::Person { common, person, type_tag } => {
                let mut fs: Vec<(String, Json)> = Vec::new();
                push_common(&mut fs, common);
                if let Some(p) = person {
                    fs.push(("person".to_owned(), encode_payload(&p.email)));
                }
                if *type_tag {
                    fs.push(("type".to_owned(), Json::String("person".to_owned())));
                }
                Json::Object(fs)
            },
            User::Bot { common, bot, type_tag } => {
                let mut fs: Vec<(String, Json)> = Vec::new();
                push_common(&mut fs, common);
                if let Some(b) = bot {
                    fs.push(("bot".to_owned(), encode_payload(&b.email)));
                }
                if *type_tag {
                    fs.push(("type".to_owned(), Json::String("bot".to_owned())));
                }
                Json::Object(fs)
            },
        }
    }
}

fn opt_str_member(fs: &Vec<(String, Json)>, key: &str) -> (r: Result<Option<String>, DecodeError>)
    ensures
        (match r {
            Ok(v) => spec_opt_str_member(fs@, key@) == Ok::<Option<Seq<char>>, DecodeError>(
                opt_text(v),
            ),
            Err(e) => spec_opt_str_member(fs@, key@) == Err::<Option<Seq<char>>, DecodeError>(e),
        }),
{
    match lookup_field(fs, key) {
        None => Ok(None),
        Some(Json::Null) => Ok(None),
        Some(Json::String(s)) => Ok(Some(s.clone())),
        Some(_) => Err(DecodeError::TypeMismatch),
    }
}

fn decode_common(fs: &Vec<(String, Json)>) -> (r: Result<UserCommon, DecodeError>)
    ensures
        (match r {
            Ok(c) => spec_decode_common(fs@) == Ok::<UserCommonV, DecodeError>(c@),
            Err(e) => spec_decode_common(fs@) == Err::<UserCommonV, DecodeError>(e),
        }),
{
    match lookup_field(fs, "id") {
        None => Err(DecodeError::MissingField),
        Some(Json::String(id)) => {
            let name = match opt_str_member(fs, "name") {
                Ok(v) => v,
                Err(e) => {
                    return Err(e);
                },
            };
            let avatar_url = match opt_str_member(fs, "avatar_url") {
                Ok(v) => v,
                Err(e) => {
                    return Err(e);
                },
            };
            Ok(UserCommon { id: id.clone(), name, avatar_url })
        },
        Some(_) => Err(DecodeError::TypeMismatch),
    }
}

fn decode_payload(fs: &Vec<(String, Json)>, key: &str) -> (r: Result<
    Option<Option<String>>,
    DecodeError,
>)
    ensures
        (match r {
            Ok(v) => spec_decode_payload(fs@, key@) == Ok::<Option<PayloadV>, DecodeError>(
                match v {
                    Some(email) => Some(PayloadV { email: opt_text(email) }),
                    None => None,
                },
            ),
            Err(e) => spec_decode_payload(fs@, key@) == Err::<Option<PayloadV>, DecodeError>(e),
        }),
{
    match lookup_field(fs, key) {
        None => Ok(None),
        Some(Json::Null) => Ok(None),
        Some(Json::Object(inner)) => match opt_str_member(inner, "email") {
            Ok(email) => Ok(Some(email)),
            Err(e) => Err(e),
        },
        Some(_) => Err(DecodeError::TypeMismatch),
    }
}

fn decode_type_tag(fs: &Vec<(String, Json)>, want: &str) -> (r: Result<bool, DecodeError>)
    ensures
        (match r {
            Ok(b) => spec_decode_type_tag(fs@, want@) == Ok::<bool, DecodeError>(b),
            Err(e) => spec_decode_type_tag(fs@, want@) == Err::<bool, DecodeError>(e),
        }),
{
    match lookup_field(fs, "type") {
        None => Ok(false),
        Some(Json::Null) => Ok(false),
        Some(Json::String(s)) => if str_eq(s.as_str(), want) {
            Ok(true)
        } else {
            Err(DecodeError::UnknownVariant)
        },
        Some(_) => Err(DecodeError::TypeMismatch),
    }
}

fn try_person(j: &Json) -> (r: Result<User, DecodeError>)
    ensures
        (match r {
            Ok(u) => spec_try_person(*j) == Ok::<UserV, DecodeError>(u@),
            Err(e) => spec_try_person(*j) == Err::<UserV, DecodeError>(e),
        }),
{
    match j {
        Json::Object(fs) => {
            let common = match decode_common(fs) {
                Ok(c) => c,
                Err(e) => {
                    return Err(e);
                },
            };
            let person = match decode_payload(fs, "person") {
                Ok(v) => v,
                Err(e) => {
                    return Err(e);
                },
            };
            let type_tag = match decode_type_tag(fs, "person") {
                Ok(b) => b,
                Err(e) => {
                    return Err(e);
                },
            };
            Ok(
                User::Person {
                    common,
                    person: match person {
                        Some(email) => Some(Person { email }),
                        None => None,
                    },
                    type_tag,
                },
            )
        },
        _ => Err(DecodeError::TypeMismatch),
    }
}

fn try_bot(j: &Json) -> (r: Result<User, DecodeError>)
    ensures
        (match r {
            Ok(u) => spec_try_bot(*j) == Ok::<UserV, DecodeError>(u@),
            Err(e) => spec_try_bot(*j) == Err::<UserV, DecodeError>(e),
        }),
{
    match j {
        Json::Object(fs) => {
            let common = match decode_common(fs) {
                Ok(c) => c,
                Err(e) => {
                    return Err(e);
                },
            };
            let bot = match decode_payload(fs, "bot") {
                Ok(v) => v,
                Err(e) => {
                    return Err(e);
                },
            };
            let type_tag = match decode_type_tag(fs, "bot") {
                Ok(b) => b,
                Err(e) => {
                    return Err(e);
                },
            };
            Ok(
                User::Bot {
                    common,
                    bot: match bot {
                        Some(email) => Some(Bot { email }),
                        None => None,
                    },
                    type_tag,
                },
            )
        },
        _ => Err(DecodeError::TypeMismatch),
    }
}

impl User {
    /// Decodes a wire object, exactly as `spec_decode_user` describes: the
    /// Person attempt first, then the Bot attempt, and the Person
    /// attempt's error where both fail.
    pub fn decode(j: &Json) -> (r: Result<User, DecodeError>)
        ensures
            (match r {
                Ok(u) => spec_decode_user(*j) == Ok::<UserV, DecodeError>(u@),
                Err(e) => spec_decode_user(*j) == Err::<UserV, DecodeError>(e),
            }),
    {
        match try_person(j) {
            Ok(u) => Ok(u),
            Err(e) => match try_bot(j) {
                Ok(u) => Ok(u),
                Err(_) => Err(e),
            },
        }
    }

    /// Renders this user's wire form as JSON text (object members come out
    /// sorted by key).
    pub fn to_json_text(&self) -> (r: String)
        ensures
            exists|j: Json| #[trigger] is_user_encoding(j, self@) && r@ == json_text(j),
    {
        let encoded = self.encode();
        let r = to_json_string(&encoded);
        proof {
            assert(is_user_encoding(encoded, self@) && r@ == json_text(encoded));
        }
        r
    }

    /// Parses JSON text and decodes the resulting object; text that is not
    /// well-formed JSON is a shape mismatch.
    pub fn from_json_text(s: &str) -> (r: Result<User, DecodeError>)
        ensures
            (match parsed_json(s@) {
                None => r == Err::<User, DecodeError>(DecodeError::TypeMismatch),
                Some(j) => match r {
                    Ok(u) => spec_decode_user(j) == Ok::<UserV, DecodeError>(u@),
                    Err(e) => spec_decode_user(j) == Err::<UserV, DecodeError>(e),
                },
            }),
    {
        match parse_json(s) {
            None => Err(DecodeError::TypeMismatch),
            Some(j) => User::decode(&j),
        }
    }
}


/// Round-trip for user references: decoding the wire form of a user yields
/// that user back, for every Person and for every Bot whose wire form
/// carries the `type` discriminant. An encoded Bot without the
/// discriminant is left out of this statement: under Person-first priority
/// its wire form decodes as a Person.
pub proof fn lemma_user_round_trip(j: Json, u: UserV)
    requires
        is_user_encoding(j, u),
        (u matches UserV::Bot { type_tag, .. } ==> type_tag),
    ensures
        spec_decode_user(j) == Ok::<UserV, DecodeError>(u),
{
    reveal_with_fuel(lookup_from, 8);
    reveal_strlit("id");
    reveal_strlit("name");
    reveal_strlit("avatar_url");
    reveal_strlit("object");
    reveal_strlit("user");
    reveal_strlit("person");
    reveal_strlit("bot");
    reveal_strlit("type");
    reveal_strlit("email");
    // Lengths and leading characters decide every equality between two of
    // the constants above.
    assert("id"@.len() == 2);
    assert("id"@[0] == 'i');
    assert("name"@.len() == 4);
    assert("name"@[0] == 'n');
    assert("avatar_url"@.len() == 10);
    assert("avatar_url"@[0] == 'a');
    assert("object"@.len() == 6);
    assert("object"@[0] == 'o');
    assert("user"@.len() == 4);
    assert("user"@[0] == 'u');
    assert("person"@.len() == 6);
    assert("person"@[0] == 'p');
    assert("bot"@.len() == 3);
    assert("bot"@[0] == 'b');
    assert("type"@.len() == 4);
    assert("type"@[0] == 't');
    assert("email"@.len() == 5);
    assert("email"@[0] == 'e');
    match u {
        UserV::Person { .. } => {},
        UserV::Bot { .. } => {},
    }
}

} // verus!
