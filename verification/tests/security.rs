use reclaw_core::application::config::AuthMode;
use reclaw_core::domain::error::DomainError;
use reclaw_core::protocol::errors::ErrorShape;
use reclaw_core::protocol::frames::{ConnectAuth, RequestFrame};
use reclaw_core::protocol::parse_request_frame;
use reclaw_core::rpc::dispatcher::{dispatch_request, map_domain_error, reply, Route};
use reclaw_core::rpc::methods::{
    implemented_methods, is_implemented_method, is_known_method, known_events, known_methods,
    parse_optional_params, parse_required_params, unreadable_params,
};
use reclaw_core::rpc::policy::{
    authorize_session, default_operator_scopes, is_control_plane_write_method,
    required_scope_for_method,
};
use reclaw_core::rpc::SessionContext;
use reclaw_core::json::{object, Json};
use reclaw_core::security::auth::{auth_failure_error, authorize, same_secret, AuthFailureReason};
use reclaw_core::security::rate_limit::AuthRateLimiter;

#[test]
fn authorize_accepts_matching_secret() {
    let mode = AuthMode::Token("abc".to_owned());
    let auth = ConnectAuth {
        token: Some("abc".to_owned()),
        device_token: None,
        password: None,
    };

    assert!(authorize(&mode, Some(&auth)).is_ok());
}

#[test]
fn authorize_rejects_invalid_secret() {
    let mode = AuthMode::Password("abc".to_owned());
    let auth = ConnectAuth {
        token: None,
        device_token: None,
        password: Some("zzz".to_owned()),
    };

    let result = authorize(&mode, Some(&auth));
    assert!(matches!(result, Err(AuthFailureReason::InvalidCredentials)));
}

#[test]
fn authorize_misses_secrets() {
    let mode = AuthMode::Token("abc".to_owned());
    assert_eq!(authorize(&mode, None), Err(AuthFailureReason::MissingCredentials));
    assert!(authorize(&AuthMode::NoAuth, None).is_ok());
    assert!(same_secret("s", "s") && !same_secret("s", "S") && !same_secret("", "s"));
    let missing = auth_failure_error(AuthFailureReason::MissingCredentials);
    let wrong = auth_failure_error(AuthFailureReason::InvalidCredentials);
    assert!(missing.message != wrong.message);
}

#[test]
fn limiter_locks_after_threshold() {
    let mut limiter = AuthRateLimiter::new(2, 30_000);
    assert!(limiter.check("a", 0).allowed);
    let _ = limiter.record_failure("a", 1);
    let _ = limiter.record_failure("a", 2);
    assert!(!limiter.record_failure("a", 3).allowed);
}

#[test]
fn limiter_forgets_and_tells_apart() {
    let mut limiter = AuthRateLimiter::new(1, 100);
    let _ = limiter.record_failure("a", 0);
    assert!(!limiter.record_failure("a", 10).allowed);
    assert!(limiter.check("b", 10).allowed);
    assert!(limiter.check("a", 1_000).allowed);
    let _ = limiter.record_failure("a", 1_000);
    limiter.reset("a");
    assert!(limiter.check("a", 1_001).allowed);
}

#[test]
fn methods_have_known_coverage() {
    assert!(is_known_method("health"));
    assert!(is_implemented_method("health"));
    assert!(is_known_method("wizard.start"));
    assert!(!is_implemented_method("wizard.start"));
    assert!(implemented_methods().len() > 10);
}

#[test]
fn every_implemented_method_is_known_and_routed() {
    for method in implemented_methods() {
        assert!(is_known_method(&method));
    }
    assert!(known_methods().len() >= implemented_methods().len());
    assert!(matches!(dispatch_request("chat.send"), Ok(Route::ChatSend)));
    match dispatch_request("wizard.start") {
        Err(error) => assert_eq!(error.code, "UNAVAILABLE"),
        Ok(_) => panic!("the method is not answered"),
    }
    match dispatch_request("no.such") {
        Err(error) => assert_eq!(error.message, "unknown method: no.such"),
        Ok(_) => panic!("the method is not known"),
    }
}

fn session(role: &str, scopes: Vec<String>) -> SessionContext {
    SessionContext {
        conn_id: "c1".to_owned(),
        role: role.to_owned(),
        scopes,
        client_id: "cli".to_owned(),
        client_mode: "cli".to_owned(),
    }
}

#[test]
fn operator_defaults_can_call_admin_method() {
    let session = SessionContext {
        conn_id: "c1".to_owned(),
        role: "operator".to_owned(),
        scopes: default_operator_scopes(),
        client_id: "cli".to_owned(),
        client_mode: "cli".to_owned(),
    };

    assert!(authorize_session(&session, "wizard.start").is_ok());
}

#[test]
fn node_role_is_restricted_from_operator_methods() {
    let session = SessionContext {
        conn_id: "c1".to_owned(),
        role: "node".to_owned(),
        scopes: Vec::new(),
        client_id: "node-a".to_owned(),
        client_mode: "node".to_owned(),
    };

    assert!(authorize_session(&session, "chat.send").is_err());
    assert!(authorize_session(&session, "node.event").is_ok());
}

#[test]
fn scopes_are_required() {
    let bare = session("operator", Vec::new());
    let needed = required_scope_for_method("config.set").expect("a scope expected");
    assert!(authorize_session(&bare, "config.set").is_err());
    assert!(authorize_session(&session("operator", vec![needed.to_owned()]), "config.set").is_ok());
    assert!(authorize_session(&session("guest", Vec::new()), "chat.history").is_err());
}

#[test]
fn errors_of_the_gateway_have_codes() {
    let code = |error: DomainError| map_domain_error(error).code;
    assert_eq!(code(DomainError::InvalidRequest("m".to_owned())), "INVALID_REQUEST");
    assert_eq!(code(DomainError::NotFound("m".to_owned())), "INVALID_REQUEST");
    assert_eq!(code(DomainError::NotPaired("m".to_owned())), "NOT_PAIRED");
    assert_eq!(code(DomainError::Storage("m".to_owned())), "UNAVAILABLE");
    assert_eq!(DomainError::NotFound("m".to_owned()).describe(), "not found: m");
    let good = reply("1", Ok(Json::Null));
    assert!(good.ok && good.id == "1");
    assert!(!reply("1", Err(ErrorShape::new("X", "y"))).ok);
}

#[test]
fn parameters_are_objects() {
    assert!(parse_required_params("m", Some(Json::Object(object()))).is_ok());
    match parse_required_params("m", Some(Json::Null)) {
        Err(error) => assert_eq!(error.message, "invalid m params: object required"),
        Ok(_) => panic!("a refusal was expected"),
    }
    assert!(parse_optional_params(None).is_object());
    assert_eq!(unreadable_params("m", "e").message, "invalid m params: e");
}

#[test]
fn frames_are_requests_with_ids() {
    let frame = |kind: &str, id: &str, method: &str| RequestFrame {
        frame_type: kind.to_owned(),
        id: id.to_owned(),
        method: method.to_owned(),
        params: None,
    };
    assert!(parse_request_frame(Ok(frame("req", "1", "health"))).is_ok());
    assert!(parse_request_frame(Ok(frame("res", "1", "health"))).is_err());
    assert!(parse_request_frame(Ok(frame("req", "", "health"))).is_err());
    assert!(parse_request_frame(Ok(frame("req", "1", ""))).is_err());
    assert!(parse_request_frame(Err("e".to_owned())).is_err());
}

#[test]
fn control_plane_writes_are_told_apart() {
    assert!(is_control_plane_write_method("config.apply"));
    assert!(is_control_plane_write_method("config.patch"));
    assert!(is_control_plane_write_method("update.run"));
    assert!(!is_control_plane_write_method("config.get"));
}

#[test]
fn no_name_is_listed_twice() {
    for names in [known_methods(), implemented_methods(), known_events()] {
        for (i, name) in names.iter().enumerate() {
            assert!(!names[..i].contains(name), "{name}");
        }
    }
    assert!(!is_known_method("Health") && !is_known_method(" health"));
    assert!(!is_known_method("connect"));
}

#[test]
fn only_methods_of_nodes_ask_for_no_scope() {
    for method in known_methods() {
        let of_nodes = ["node.invoke.result", "node.event", "skills.bins"];
        match required_scope_for_method(&method) {
            None => assert!(of_nodes.contains(&method.as_str())),
            Some(scope) => {
                assert!(!of_nodes.contains(&method.as_str()));
                assert!(default_operator_scopes().contains(&scope.to_owned()));
            }
        }
    }
    assert_eq!(required_scope_for_method("exec.approval.resolve"), Some("operator.approvals"));
    assert_eq!(required_scope_for_method("exec.approvals.set"), Some("operator.admin"));
    assert_eq!(required_scope_for_method("config.get"), Some("operator.read"));
    assert_eq!(required_scope_for_method("config.set"), Some("operator.admin"));
}
