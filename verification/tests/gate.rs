use auth_core::AuthError;
use auth_core::AuthInfo;
use auth_core::PermissionGate;
use auth_core::RequestContext;
use auth_core::complete_authentication;

fn ctx_with(permissions: Vec<&str>) -> RequestContext {
    let info = AuthInfo {
        identity: "user-17".to_string(),
        permissions: permissions.into_iter().map(|p| p.to_string()).collect(),
    };
    let mut ctx = RequestContext::new();
    complete_authentication(&mut ctx, Ok(info)).unwrap();
    ctx
}

fn gate_of(required: Vec<&str>) -> PermissionGate {
    PermissionGate::new(required.into_iter().map(|p| p.to_string()).collect())
}

#[test]
fn missing_permission_is_rejected_by_name() {
    let gate = gate_of(vec!["read", "write"]);
    let ctx = ctx_with(vec!["read"]);
    assert_eq!(
        gate.check(&ctx),
        Err(AuthError::MissingRequiredPermission("write".to_string()))
    );
}

#[test]
fn superset_of_required_permissions_proceeds() {
    let gate = gate_of(vec!["read", "write"]);
    let ctx = ctx_with(vec!["read", "write", "delete"]);
    assert_eq!(gate.check(&ctx), Ok(()));
}

#[test]
fn first_missing_permission_in_declared_order_is_reported() {
    let gate = gate_of(vec!["read", "write"]);
    let ctx = ctx_with(vec![]);
    assert_eq!(
        gate.check(&ctx),
        Err(AuthError::MissingRequiredPermission("read".to_string()))
    );
}

#[test]
fn exact_permission_set_proceeds() {
    let gate = gate_of(vec!["read"]);
    let ctx = ctx_with(vec!["read"]);
    assert_eq!(gate.check(&ctx), Ok(()));
}

#[test]
fn gate_without_authenticator_fails_closed() {
    // No authenticator ran: the context carries no identity record, and the
    // gate must report the wiring defect rather than let the request pass.
    let gate = gate_of(vec!["read"]);
    let ctx = RequestContext::new();
    assert_eq!(gate.check(&ctx), Err(AuthError::MissingAuthInfo));
}

#[test]
fn chained_gates_check_independently() {
    let first = gate_of(vec!["read"]);
    let second = gate_of(vec!["audit"]);
    let ctx = ctx_with(vec!["read", "write"]);
    assert_eq!(first.check(&ctx), Ok(()));
    assert_eq!(
        second.check(&ctx),
        Err(AuthError::MissingRequiredPermission("audit".to_string()))
    );
}

#[test]
fn duplicate_held_permissions_are_harmless() {
    let gate = gate_of(vec!["read", "write"]);
    let ctx = ctx_with(vec!["read", "read", "write"]);
    assert_eq!(gate.check(&ctx), Ok(()));
}

#[test]
fn required_list_is_kept_in_declared_order() {
    let gate = gate_of(vec!["write", "read"]);
    let required: Vec<String> = gate.required().clone();
    assert_eq!(required, vec!["write".to_string(), "read".to_string()]);
}
