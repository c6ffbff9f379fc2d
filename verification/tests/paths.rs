use lastlogin_gateway::models::{DerivationPath, Meta, SignRequest};
use lastlogin_gateway::path::build_sign_args;

fn meta(email: &str, user_id: &str) -> Meta {
    Meta { email: email.to_string(), user_id: user_id.to_string() }
}

#[test]
fn canonical_build_is_deterministic_and_exact() {
    let p1 = DerivationPath::build(1, meta("a@b.com", "u1"));
    let s1 = p1.canonical();
    let p2 = DerivationPath::build(1, Meta {
        user_id: "u1".to_string(),
        email: "a@b.com".to_string(),
    });
    let s2 = p2.canonical();
    assert_eq!(s1, s2);
    assert_eq!(s1, "{\"chain\":1,\"meta\":{\"email\":\"a@b.com\",\"user_id\":\"u1\"}}");
    assert_eq!(p1.canonical(), s1);
}

#[test]
fn canonical_matches_external_canonicalizer() {
    let cases: Vec<(u64, &str, &str)> = vec![
        (1, "a@b.com", "u1"),
        (0, "", ""),
        (42, "weird \"quote\" and \\backslash\\", "tab\there"),
        // The reference canonicalizer renders numbers as ECMAScript doubles,
        // so the cross-check stays below 2^53 where that matches exact
        // decimal; the library keeps full u64 precision above that.
        (9007199254740991, "line\nbreak\rand\u{8}bs\u{c}ff", "ctrl\u{1}\u{1f}end"),
        (7, "unicode \u{e9}\u{4e16}\u{754c}", "emoji \u{1f600}"),
    ];
    for (chain, email, user_id) in cases {
        let ours = DerivationPath::build(chain, meta(email, user_id)).canonical();
        let mut meta_map = serde_json::Map::new();
        meta_map.insert("user_id".to_string(), serde_json::Value::from(user_id));
        meta_map.insert("email".to_string(), serde_json::Value::from(email));
        let mut top = serde_json::Map::new();
        top.insert("meta".to_string(), serde_json::Value::Object(meta_map));
        top.insert("chain".to_string(), serde_json::Value::from(chain));
        let reference = serde_json_canonicalizer::to_string(&serde_json::Value::Object(top))
            .expect("canonicalization of a plain object cannot fail");
        assert_eq!(ours, reference, "chain={chain} email={email:?} user_id={user_id:?}");
    }
}

#[test]
fn canonical_renders_max_chain_in_full_decimal() {
    let s = DerivationPath::build(u64::MAX, meta("a@b.com", "u1")).canonical();
    assert!(s.contains("\"chain\":18446744073709551615,"));
}

#[test]
fn canonical_escapes_control_characters() {
    let s = DerivationPath::build(1, meta("a\u{1}b", "c\u{1f}d")).canonical();
    assert_eq!(s, "{\"chain\":1,\"meta\":{\"email\":\"a\\u0001b\",\"user_id\":\"c\\u001fd\"}}");
}

#[test]
fn sign_args_serialization_is_exact() {
    let path = DerivationPath::build(5, meta("a@b.com", "u1")).canonical();
    let mut payload: Vec<u8> = Vec::new();
    for i in 0..32u32 {
        payload.push((i * 8) as u8);
    }
    let req = SignRequest { payload: payload.clone(), path: path.clone(), key_version: 0 };
    let args = build_sign_args(&req);

    let parsed: serde_json::Value = serde_json::from_str(&args).expect("valid JSON");
    let request = parsed.get("request").expect("request key");
    assert_eq!(request.get("key_version").and_then(|v| v.as_u64()), Some(0));
    assert_eq!(request.get("path").and_then(|v| v.as_str()), Some(path.as_str()));
    let nums = request.get("payload").and_then(|v| v.as_array()).expect("payload array");
    assert_eq!(nums.len(), 32);
    for (i, n) in nums.iter().enumerate() {
        assert_eq!(n.as_u64(), Some(payload[i] as u64));
    }

    let mut expected = String::from("{\"request\":{\"payload\":[");
    for (i, b) in payload.iter().enumerate() {
        if i > 0 {
            expected.push(',');
        }
        expected.push_str(&b.to_string());
    }
    expected.push_str("],\"path\":\"");
    expected.push_str(&path.replace('\\', "\\\\").replace('"', "\\\""));
    expected.push_str("\",\"key_version\":0}}");
    assert_eq!(args, expected);
}
