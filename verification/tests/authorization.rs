use neptune_auth::authorization::{
    authorize_permissions, describe_permission_group_list, flatten_permissions,
    BasePermissionGroups, GetPermissionGroup, NeptuneAuth, PermissionGroup, PermissionGroupList,
};
use neptune_auth::context::{Addr, ContractInfo, Env};
use neptune_auth::authorization::PermissionGroupView;
use neptune_auth::error::{AuthErrorView, NeptAuthError, NeptAuthResult};
use vstd::seq::Seq;

fn addr(text: &str) -> Addr {
    Addr::new(text.to_string())
}

fn env_of(contract: &str) -> Env {
    Env { contract: ContractInfo { address: addr(contract) } }
}

fn restricted(names: &[&str]) -> PermissionGroup {
    PermissionGroup::Restricted(names.iter().map(|n| addr(n)).collect())
}

fn texts(group: &PermissionGroup) -> Vec<String> {
    match group {
        PermissionGroup::Public => panic!("expected a restricted group"),
        PermissionGroup::Restricted(addrs) => addrs.iter().map(|a| a.text.clone()).collect(),
    }
}

#[test]
fn flatten_two_restricted_unions_in_order() {
    let r = flatten_permissions(vec![restricted(&["alice"]), restricted(&["bob"])]);
    let merged = r.expect("merging two restricted groups must succeed");
    assert_eq!(texts(&merged), vec!["alice".to_string(), "bob".to_string()]);
}

#[test]
fn flatten_retains_duplicates() {
    let r = flatten_permissions(vec![restricted(&["alice", "bob"]), restricted(&["alice"])]);
    let merged = r.expect("merging restricted groups must succeed");
    assert_eq!(
        texts(&merged),
        vec!["alice".to_string(), "bob".to_string(), "alice".to_string()]
    );
}

#[test]
fn flatten_public_alone_is_public() {
    let r = flatten_permissions(vec![PermissionGroup::Public]);
    assert!(matches!(r, Ok(PermissionGroup::Public)));
}

#[test]
fn flatten_public_with_restricted_fails() {
    let r = flatten_permissions(vec![PermissionGroup::Public, restricted(&["alice"])]);
    assert!(matches!(r, Err(NeptAuthError::InvalidPublic)));
    let r = flatten_permissions(vec![restricted(&["alice"]), PermissionGroup::Public]);
    assert!(matches!(r, Err(NeptAuthError::InvalidPublic)));
}

#[test]
fn flatten_empty_list_fails() {
    let r = flatten_permissions(vec![]);
    assert!(matches!(r, Err(NeptAuthError::EmptyPermissionGroupList)));
}

#[test]
fn authorize_public_allows_any_caller() {
    let env = env_of("contract");
    let public = BasePermissionGroups::Public;
    let list: PermissionGroupList<BasePermissionGroups> = vec![&public];
    for caller in ["alice", "bob", "anyone-at-all"] {
        let r = authorize_permissions(&(), &env, &addr(caller), &list);
        assert!(r.is_ok());
    }
}

#[test]
fn internal_source_allows_contract_itself() {
    let env = env_of("contract-x");
    let internal = BasePermissionGroups::Internal;
    let list: PermissionGroupList<BasePermissionGroups> = vec![&internal];

    let allowed = authorize_permissions(&(), &env, &addr("contract-x"), &list);
    assert!(allowed.is_ok());

    let denied = authorize_permissions(&(), &env, &addr("contract-y"), &list);
    match denied {
        Err(NeptAuthError::Unauthorized { sender, permission_group }) => {
            assert_eq!(sender.text, "contract-y");
            assert_eq!(permission_group, "[Internal]");
        }
        other => panic!("expected Unauthorized, got {other:?}"),
    }
}

#[test]
fn public_with_internal_fails_invalid_public() {
    let env = env_of("contract");
    let public = BasePermissionGroups::Public;
    let internal = BasePermissionGroups::Internal;
    let list: PermissionGroupList<BasePermissionGroups> = vec![&public, &internal];
    for caller in ["contract", "someone-else"] {
        let r = authorize_permissions(&(), &env, &addr(caller), &list);
        assert!(matches!(r, Err(NeptAuthError::InvalidPublic)));
    }
}

#[test]
fn empty_source_list_fails() {
    let env = env_of("contract");
    let list: PermissionGroupList<BasePermissionGroups> = vec![];
    for caller in ["contract", "someone-else"] {
        let r = authorize_permissions(&(), &env, &addr(caller), &list);
        assert!(matches!(r, Err(NeptAuthError::EmptyPermissionGroupList)));
    }
}

#[test]
fn authorize_twice_same_verdict() {
    let env = env_of("contract");
    let internal = BasePermissionGroups::Internal;
    let list: PermissionGroupList<BasePermissionGroups> = vec![&internal];

    let first = authorize_permissions(&(), &env, &addr("contract"), &list);
    let second = authorize_permissions(&(), &env, &addr("contract"), &list);
    assert_eq!(first.is_ok(), second.is_ok());

    let first = authorize_permissions(&(), &env, &addr("intruder"), &list);
    let second = authorize_permissions(&(), &env, &addr("intruder"), &list);
    match (first, second) {
        (
            Err(NeptAuthError::Unauthorized { sender: s1, permission_group: g1 }),
            Err(NeptAuthError::Unauthorized { sender: s2, permission_group: g2 }),
        ) => {
            assert!(s1 == s2);
            assert_eq!(g1, g2);
        }
        other => panic!("expected two identical denials, got {other:?}"),
    }
}

#[test]
fn describe_list_renders_names() {
    let internal = BasePermissionGroups::Internal;
    let public = BasePermissionGroups::Public;
    let list: PermissionGroupList<BasePermissionGroups> = vec![&internal, &public];
    let rendered = describe_permission_group_list::<(), BasePermissionGroups>(&list);
    assert_eq!(rendered, "[Internal, Public]");
    let empty: PermissionGroupList<BasePermissionGroups> = vec![];
    let rendered = describe_permission_group_list::<(), BasePermissionGroups>(&empty);
    assert_eq!(rendered, "[]");
}

#[test]
fn addr_equality_is_exact() {
    assert!(addr("alice") == addr("alice"));
    assert!(addr("alice") != addr("Alice"));
    assert_eq!(addr("alice").as_str(), "alice");
}

#[test]
fn base_source_descriptions() {
    assert_eq!(
        <BasePermissionGroups as GetPermissionGroup<()>>::describe(&BasePermissionGroups::Internal),
        "Internal"
    );
    assert_eq!(
        <BasePermissionGroups as GetPermissionGroup<()>>::describe(&BasePermissionGroups::Public),
        "Public"
    );
}

/// A caller-defined source set, as an embedding application would write one.
#[derive(Debug)]
enum TestSource {
    Allow(Vec<Addr>),
    Open,
    Broken,
}

impl GetPermissionGroup<()> for TestSource {
    // The two spec-level items are ghost: they are never run, but an
    // implementation outside the verified crate must still name them.
    fn spec_permission_group(&self, _deps: &(), _env: &Env) -> Result<PermissionGroupView, AuthErrorView> {
        unreachable!()
    }

    fn spec_describe(&self) -> Seq<char> {
        unreachable!()
    }

    fn get_permission_group(&self, _deps: &(), _env: &Env) -> NeptAuthResult<PermissionGroup> {
        match self {
            TestSource::Allow(addrs) => Ok(PermissionGroup::Restricted(addrs.clone())),
            TestSource::Open => Ok(PermissionGroup::Public),
            TestSource::Broken => Err(NeptAuthError::Std("storage read failed".to_string())),
        }
    }

    fn describe(&self) -> String {
        match self {
            TestSource::Allow(_) => "Allow".to_string(),
            TestSource::Open => "Open".to_string(),
            TestSource::Broken => "Broken".to_string(),
        }
    }
}

#[test]
fn restricted_union_allows_any_contributing_source() {
    let env = env_of("contract");
    let first = TestSource::Allow(vec![addr("a"), addr("b")]);
    let second = TestSource::Allow(vec![addr("c")]);
    let list: PermissionGroupList<TestSource> = vec![&first, &second];

    for caller in ["a", "b", "c"] {
        let r = authorize_permissions(&(), &env, &addr(caller), &list);
        assert!(r.is_ok(), "caller {caller} contributes to the union");
    }
    let r = authorize_permissions(&(), &env, &addr("d"), &list);
    match r {
        Err(NeptAuthError::Unauthorized { sender, permission_group }) => {
            assert_eq!(sender.text, "d");
            assert_eq!(permission_group, "[Allow, Allow]");
        }
        other => panic!("expected Unauthorized, got {other:?}"),
    }
}

#[test]
fn source_failure_propagates_first() {
    let env = env_of("contract");
    let broken = TestSource::Broken;
    let open = TestSource::Open;
    let list: PermissionGroupList<TestSource> = vec![&broken, &open];
    let r = authorize_permissions(&(), &env, &addr("anyone"), &list);
    match r {
        Err(NeptAuthError::Std(msg)) => assert_eq!(msg, "storage read failed"),
        other => panic!("expected the source's own failure, got {other:?}"),
    }
}

/// An action type that carries its own source list.
struct GuardedAction {
    sources: Vec<TestSource>,
}

impl NeptuneAuth<(), TestSource> for GuardedAction {
    fn spec_permissions(&self) -> Result<Seq<TestSource>, AuthErrorView> {
        unreachable!()
    }

    fn permissions(&self) -> NeptAuthResult<PermissionGroupList<'_, TestSource>> {
        Ok(self.sources.iter().collect())
    }
}

#[test]
fn neptune_authorize_runs_the_evaluator() {
    let env = env_of("contract");
    let action = GuardedAction { sources: vec![TestSource::Allow(vec![addr("operator")])] };

    assert!(action.neptune_authorize(&(), &env, &addr("operator")).is_ok());
    let denied = action.neptune_authorize(&(), &env, &addr("visitor"));
    match denied {
        Err(NeptAuthError::Unauthorized { sender, permission_group }) => {
            assert_eq!(sender.text, "visitor");
            assert_eq!(permission_group, "[Allow]");
        }
        other => panic!("expected Unauthorized, got {other:?}"),
    }
}

#[test]
fn error_messages_match_display_format() {
    let unauthorized = NeptAuthError::Unauthorized {
        sender: addr("mallory"),
        permission_group: "[Internal]".to_string(),
    };
    assert_eq!(
        unauthorized.message(),
        "Neptune Auth Error - Unauthorized: mallory is not [Internal]"
    );
    assert_eq!(
        NeptAuthError::InvalidPublic.message(),
        "Neptune Auth Error - Public must be only entry in permission group list"
    );
    assert_eq!(
        NeptAuthError::EmptyPermissionGroupList.message(),
        "Neptune Auth Error - Empty permission group list"
    );
    assert_eq!(NeptAuthError::Std("boom".to_string()).message(), "boom");
}
