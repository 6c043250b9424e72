use notion::error::DecodeError;
use notion::users::{Bot, Person, User, UserCommon};

#[test]
fn parse_user() {
    let a = "{
                \"object\": \"user\",
                \"id\": \"00000000-0000-0000-0000-000000000000\"
            }";
    let b = "{
                \"object\": \"user\",
                \"id\": \"00000000-0000-0000-0000-000000000000\",
                \"type\": \"person\"
            }";
    let c = "{
                \"object\": \"user\",
                \"id\": \"00000000-0000-0000-0000-000000000000\",
                \"type\": \"bot\"
            }";
    let d = "{
            \"object\": \"user\",
            \"id\": \"00000000-0000-0000-0000-000000000000\",
            \"type\": \"person\",
            \"person\": {
                \"email\": \"foo@example.org\"
            }
        }";
    let e = "{
            \"object\": \"user\",
            \"id\": \"00000000-0000-0000-0000-000000000000\",
            \"person\": {
                \"email\": \"foo@example.org\"
            }
        }";
    let f = "{
            \"object\": \"user\",
            \"id\": \"00000000-0000-0000-0000-000000000000\",
            \"type\": \"bot\",
            \"bot\": {
                \"workspace_name\": \"My Workspace\"
            }
        }";
    let g = "{
            \"object\": \"user\",
            \"id\": \"00000000-0000-0000-0000-000000000000\",
            \"bot\": {
                \"workspace_name\": \"My Workspace\"
            }
        }";

    User::from_json_text(a).unwrap();
    User::from_json_text(b).unwrap();
    User::from_json_text(c).unwrap();
    User::from_json_text(d).unwrap();
    User::from_json_text(e).unwrap();
    User::from_json_text(f).unwrap();
    User::from_json_text(g).unwrap();
}

#[test]
fn identity_only_object_decodes_as_person() {
    // The untagged design adopted here: an object carrying only the common
    // identity fields decodes, Person being the preferred variant.
    let decoded = User::from_json_text("{\"object\":\"user\",\"id\":\"u-1\"}").unwrap();
    assert_eq!(
        decoded,
        User::Person {
            common: UserCommon {
                id: "u-1".to_string(),
                name: None,
                avatar_url: None,
            },
            person: None,
            type_tag: false,
        }
    );
}

#[test]
fn type_tag_selects_the_variant() {
    let decoded = User::from_json_text("{\"id\":\"u-2\",\"type\":\"bot\"}").unwrap();
    assert_eq!(
        decoded,
        User::Bot {
            common: UserCommon {
                id: "u-2".to_string(),
                name: None,
                avatar_url: None,
            },
            bot: None,
            type_tag: true,
        }
    );
}

#[test]
fn person_round_trip() {
    let user = User::Person {
        common: UserCommon {
            id: "u-3".to_string(),
            name: Some("Ada".to_string()),
            avatar_url: Some("https://example.org/a.png".to_string()),
        },
        person: Some(Person {
            email: Some("ada@example.org".to_string()),
        }),
        type_tag: true,
    };
    assert_eq!(User::decode(&user.encode()), Ok(user));
}

#[test]
fn bot_with_tag_round_trip() {
    let user = User::Bot {
        common: UserCommon {
            id: "u-4".to_string(),
            name: None,
            avatar_url: None,
        },
        bot: Some(Bot { email: None }),
        type_tag: true,
    };
    assert_eq!(User::decode(&user.encode()), Ok(user));
}

#[test]
fn encoded_person_text() {
    let user = User::Person {
        common: UserCommon {
            id: "u-5".to_string(),
            name: Some("Ada".to_string()),
            avatar_url: None,
        },
        person: None,
        type_tag: true,
    };
    assert_eq!(
        user.to_json_text(),
        "{\"id\":\"u-5\",\"name\":\"Ada\",\"object\":\"user\",\"type\":\"person\"}"
    );
}

#[test]
fn missing_id_is_rejected() {
    let err = User::from_json_text("{\"object\":\"user\"}").unwrap_err();
    assert_eq!(err, DecodeError::MissingField);
}

#[test]
fn unknown_discriminant_is_rejected() {
    let err = User::from_json_text("{\"id\":\"u-6\",\"type\":\"zebra\"}").unwrap_err();
    assert_eq!(err, DecodeError::UnknownVariant);
}

#[test]
fn mismatched_shapes_are_rejected() {
    let err = User::from_json_text("{\"id\":7}").unwrap_err();
    assert_eq!(err, DecodeError::TypeMismatch);

    let err = User::from_json_text("{\"id\":\"u-7\",\"name\":[]}").unwrap_err();
    assert_eq!(err, DecodeError::TypeMismatch);

    let err = User::from_json_text("\"just a string\"").unwrap_err();
    assert_eq!(err, DecodeError::TypeMismatch);
}

#[test]
fn person_attempt_falls_back_to_bot() {
    // A malformed `person` member refuses the Person attempt; the Bot
    // attempt ignores that member and succeeds, as first-match priority
    // over structural checks prescribes.
    let decoded = User::from_json_text("{\"id\":\"u-8\",\"person\":5}").unwrap();
    assert_eq!(
        decoded,
        User::Bot {
            common: UserCommon {
                id: "u-8".to_string(),
                name: None,
                avatar_url: None,
            },
            bot: None,
            type_tag: false,
        }
    );
}
