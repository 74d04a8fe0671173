use kb_svc::ids::{LocalId, RequestId, SessionId, TurnId, WorkspaceId};
use std::collections::HashSet;

#[test]
fn generated_ids_carry_prefix_and_are_unique_() {
    let ids: HashSet<WorkspaceId> = (0..128).map(|_| WorkspaceId::generate()).collect();
    assert_eq!(ids.len(), 128, "生成的标识不应重复");

    for id in &ids {
        assert!(id.as_str().starts_with("w-"), "实际标识: {id:?}");
    }
}

#[test]
fn id_newtypes_expose_plain_strings_() {
    let workspace = WorkspaceId::new("w-1");
    let local: LocalId = "w-1".into();

    assert_eq!(workspace.as_str(), "w-1");
    assert_eq!(local.as_str(), "w-1");
    assert_eq!(local.to_string(), "w-1");
    assert_eq!(local.clone().into_string(), "w-1");
}

#[test]
fn generated_ids_are_prefix_dash_and_32_lowercase_hex() {
    let checks = [
        (SessionId::generate().into_string(), "s-"),
        (TurnId::generate().into_string(), "t-"),
        (RequestId::generate().into_string(), "q-"),
        (LocalId::generate().into_string(), "l-"),
    ];
    for (id, prefix) in checks {
        assert!(id.starts_with(prefix), "{id}");
        let hex = &id[prefix.len()..];
        assert_eq!(hex.len(), 32, "{id}");
        assert!(hex.chars().all(|c| c.is_ascii_hexdigit() && !c.is_ascii_uppercase()), "{id}");
    }
}
