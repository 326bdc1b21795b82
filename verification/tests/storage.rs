use monkebot::command::get_bool;
use monkebot::command::get_str;
use monkebot::command::get_user;
use monkebot::command::plan_reactions;
use monkebot::command::plan_speak;
use monkebot::command::OptValue;
use monkebot::command::ResolvedOpt;
use monkebot::errors::Error;
use monkebot::message::PartialMember;
use monkebot::message::User;
use monkebot::random::WeightVec;
use monkebot::stored::Kind;
use monkebot::stored::Stored;

fn triggers_store(kind: Kind) -> Stored<Vec<String>> {
    Stored::new(
        "react".to_string(),
        "triggers".to_string(),
        kind,
        vec!["banana".to_string(), "ape".to_string()],
    )
}

#[test]
fn kind_extensions() {
    assert_eq!(Kind::Rmp.ext(), "rmp".to_string());
    assert_eq!(Kind::Ron.ext(), "ron".to_string());
}

#[test]
fn stored_paths() {
    let st = triggers_store(Kind::Ron);
    assert_eq!(st.ext(), "ron".to_string());
    assert_eq!(st.dir(), "data/react".to_string());
    assert_eq!(st.path(), "data/react/triggers.ron".to_string());
    let st = triggers_store(Kind::Rmp);
    assert_eq!(st.path(), "data/react/triggers.rmp".to_string());
}

#[test]
fn round_trip_triggers_ron() {
    let st = triggers_store(Kind::Ron);
    let (old, fresh) = st.storage_round_trip().expect("round trip");
    assert_eq!(old, vec!["banana".to_string(), "ape".to_string()]);
    assert_eq!(fresh.value, old);
    assert_eq!(fresh.dir, "react".to_string());
    assert_eq!(fresh.key, "triggers".to_string());
    assert_eq!(fresh.kind, Kind::Ron);
}

#[test]
fn round_trip_triggers_rmp() {
    let st = triggers_store(Kind::Rmp);
    let (old, fresh) = st.storage_round_trip().expect("round trip");
    assert_eq!(fresh.value, old);
}

#[test]
fn round_trip_char_pool_both_formats() {
    for kind in [Kind::Ron, Kind::Rmp] {
        let st = Stored::new(
            "react".to_string(),
            "responses".to_string(),
            kind,
            WeightVec(vec![('🍌', 1), ('🙈', 2)]),
        );
        let (old, fresh) = st.storage_round_trip().expect("round trip");
        assert_eq!(old.0, vec![('🍌', 1), ('🙈', 2)]);
        assert_eq!(fresh.value.0, old.0);
    }
}

#[test]
fn round_trip_reply_pool_both_formats() {
    for kind in [Kind::Ron, Kind::Rmp] {
        let pool = vec![
            (("Have a banana!".to_string(), Some('🍌')), 1u64),
            (("Plain words".to_string(), None), 3u64),
        ];
        let st = Stored::new(
            "reply".to_string(),
            "responses".to_string(),
            kind,
            WeightVec(pool.clone()),
        );
        let (old, fresh) = st.storage_round_trip().expect("round trip");
        assert_eq!(old.0, pool);
        assert_eq!(fresh.value.0, pool);
    }
}

#[test]
fn read_of_missing_file_is_not_found() {
    let r = Stored::<Vec<String>>::read("react", "triggers", Kind::Ron, None);
    assert_eq!(r.err(), Some(Error::NotFound));
}

#[test]
fn delete_hands_value_back_and_read_fails_after() {
    let st = triggers_store(Kind::Ron);
    let value = st.storage_delete();
    assert_eq!(value, vec!["banana".to_string(), "ape".to_string()]);
    // With the backing file gone, reading the same namespace and key sees
    // no bytes at all.
    let r = Stored::<Vec<String>>::read("react", "triggers", Kind::Ron, None);
    assert_eq!(r.err(), Some(Error::NotFound));
}

#[test]
fn read_of_garbage_is_decode_error() {
    let garbage = b"certainly not a trigger list".to_vec();
    let r = Stored::<Vec<String>>::read("react", "triggers", Kind::Ron, Some(&garbage));
    assert_eq!(r.err(), Some(Error::Decode));
    let r = Stored::<Vec<String>>::read("react", "triggers", Kind::Rmp, Some(&garbage));
    assert_eq!(r.err(), Some(Error::Decode));
}

#[test]
fn read_parses_structured_text() {
    let bytes = b"[\"foo\",\"bar\"]".to_vec();
    let st = Stored::<Vec<String>>::read("react", "triggers", Kind::Ron, Some(&bytes))
        .expect("well-formed text");
    assert_eq!(st.value, vec!["foo".to_string(), "bar".to_string()]);
}

#[test]
fn read_parses_binary_format() {
    // A two-element array of one-character strings in the binary format.
    let bytes = vec![0x92u8, 0xa1, b'a', 0xa1, b'b'];
    let st = Stored::<Vec<String>>::read("react", "triggers", Kind::Rmp, Some(&bytes))
        .expect("well-formed bytes");
    assert_eq!(st.value, vec!["a".to_string(), "b".to_string()]);
}

#[test]
fn resync_returns_old_and_fresh() {
    let st = triggers_store(Kind::Ron);
    let bytes = st.storage_write().expect("encodes");
    let changed = Stored::new(
        "react".to_string(),
        "triggers".to_string(),
        Kind::Ron,
        vec!["stale".to_string()],
    );
    let (old, fresh) = changed
        .storage_resync(Some(bytes.as_slice()))
        .expect("valid bytes");
    assert_eq!(old, vec!["stale".to_string()]);
    assert_eq!(fresh.value, vec!["banana".to_string(), "ape".to_string()]);
}

#[test]
fn rename_keeps_value_under_new_identity() {
    let st = triggers_store(Kind::Ron);
    let (moved, bytes) = st
        .storage_rename("reply".to_string(), "words".to_string(), Kind::Rmp)
        .expect("encodes");
    assert_eq!(moved.dir, "reply".to_string());
    assert_eq!(moved.key, "words".to_string());
    assert_eq!(moved.kind, Kind::Rmp);
    assert_eq!(moved.path(), "data/reply/words.rmp".to_string());
    assert_eq!(moved.value, vec!["banana".to_string(), "ape".to_string()]);
    let back = Stored::<Vec<String>>::read("reply", "words", Kind::Rmp, Some(&bytes))
        .expect("bytes just written");
    assert_eq!(back.value, moved.value);
}

#[test]
fn write_succeeds_for_ordinary_values() {
    for kind in [Kind::Ron, Kind::Rmp] {
        let st = triggers_store(kind);
        assert!(st.storage_write().is_ok());
    }
}

#[test]
fn unwrap_returns_payload() {
    let st = triggers_store(Kind::Ron);
    assert_eq!(
        st.unwrap(),
        vec!["banana".to_string(), "ape".to_string()]
    );
}

#[test]
fn error_descriptions() {
    assert_eq!(Error::NotFound.describe(), "not found".to_string());
    assert_eq!(Error::Decode.describe(), "decode failure".to_string());
    assert_eq!(Error::Encode.describe(), "encode failure".to_string());
    assert_eq!(Error::Io.describe(), "io failure".to_string());
    assert_eq!(Error::EmptyPool.describe(), "empty pool".to_string());
    assert_eq!(Error::Validation.describe(), "invalid input".to_string());
}

fn opt(name: &str, value: OptValue) -> ResolvedOpt {
    ResolvedOpt {
        name: name.to_string(),
        value,
    }
}

#[test]
fn get_str_finds_first_named_option() {
    let options = vec![
        opt("other", OptValue::Bool(true)),
        opt("content", OptValue::Str("hello".to_string())),
    ];
    assert_eq!(get_str(&options, "content"), Ok("hello"));
    assert_eq!(get_str(&options, "missing"), Err(Error::Validation));
    assert_eq!(get_str(&options, "other"), Err(Error::Validation));
}

#[test]
fn get_bool_rejects_wrong_type() {
    let options = vec![opt("reply", OptValue::Str("yes".to_string()))];
    assert_eq!(get_bool(&options, "reply"), Err(Error::Validation));
    let options = vec![opt("reply", OptValue::Bool(true))];
    assert_eq!(get_bool(&options, "reply"), Ok(true));
}

#[test]
fn get_user_returns_user_and_member() {
    let user = User {
        bot: false,
        tag: "someone#42".to_string(),
        face: "face-id".to_string(),
        accent_colour: Some(7),
    };
    let member = PartialMember {
        user: None,
        nick: Some("nick".to_string()),
    };
    let options = vec![opt(
        "who",
        OptValue::UserOpt(user.clone(), Some(member.clone())),
    )];
    let (u, m) = get_user(&options, "who").expect("present");
    assert_eq!(u.tag, user.tag);
    assert_eq!(m.expect("member present").nick, member.nick);
    assert_eq!(
        get_user(&options, "nobody").err(),
        Some(Error::Validation)
    );
}

#[test]
fn plan_reactions_drops_invalid_and_duplicates() {
    let tokens: Vec<String> = ["🍌", "bad", "🙈", "🍌"]
        .iter()
        .map(|s| s.to_string())
        .collect();
    let valid = vec![true, false, true, true];
    let planned = plan_reactions(&tokens, &valid).expect("two left");
    assert_eq!(planned, vec!["🍌".to_string(), "🙈".to_string()]);
}

#[test]
fn plan_reactions_caps_at_twenty() {
    let tokens: Vec<String> = (0..30).map(|i| format!("emoji{i}")).collect();
    let valid = vec![true; 30];
    let planned = plan_reactions(&tokens, &valid).expect("plenty left");
    assert_eq!(planned.len(), 20);
    assert_eq!(planned[0], "emoji0".to_string());
    assert_eq!(planned[19], "emoji19".to_string());
}

#[test]
fn plan_reactions_with_nothing_valid_fails() {
    let tokens = vec!["a".to_string(), "b".to_string()];
    let valid = vec![false, false];
    assert_eq!(plan_reactions(&tokens, &valid), Err(Error::Validation));
    let planned: Result<Vec<String>, Error> = plan_reactions(&vec![], &vec![]);
    assert_eq!(planned, Err(Error::Validation));
}

#[test]
fn plan_speak_reads_content_and_reply_flag() {
    let options = vec![
        opt("content", OptValue::Str("The monkey speaks".to_string())),
        opt("reply", OptValue::Bool(true)),
    ];
    assert_eq!(
        plan_speak(&options),
        Ok(("The monkey speaks".to_string(), true))
    );
    let options = vec![opt("content", OptValue::Str("solo".to_string()))];
    assert_eq!(plan_speak(&options), Ok(("solo".to_string(), false)));
    let options = vec![opt("reply", OptValue::Bool(true))];
    assert_eq!(plan_speak(&options), Err(Error::Validation));
}

#[test]
fn react_command_declaration() {
    let cmd = monkebot::command::react::new();
    assert_eq!(cmd.name, "react".to_string());
    assert_eq!(cmd.description, "Monkey see, monkey do!".to_string());
    assert!(cmd.admin_only);
    assert!(!cmd.dm_permission);
    assert_eq!(cmd.options.len(), 1);
    assert_eq!(cmd.options[0].name, "emojis".to_string());
    assert!(cmd.options[0].required);
    assert_eq!(cmd.options[0].max_length, None);
}

#[test]
fn speak_command_declaration() {
    let cmd = monkebot::command::speak::new();
    assert_eq!(cmd.name, "speak".to_string());
    assert_eq!(cmd.description, "Speak, monkey!".to_string());
    assert!(cmd.admin_only);
    assert!(!cmd.dm_permission);
    assert_eq!(cmd.options.len(), 2);
    assert_eq!(cmd.options[0].name, "content".to_string());
    assert_eq!(cmd.options[0].max_length, Some(2000));
    assert_eq!(cmd.options[1].name, "reply".to_string());
    assert!(!cmd.options[1].required);
}

#[test]
fn get_i64_finds_integer_options() {
    let options = vec![
        opt("count", OptValue::Int(-3)),
        opt("count", OptValue::Int(9)),
    ];
    assert_eq!(monkebot::command::get_i64(&options, "count"), Ok(-3));
    assert_eq!(
        monkebot::command::get_i64(&options, "absent"),
        Err(Error::Validation)
    );
}
