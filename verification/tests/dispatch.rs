use issuer_core::handlers::auth::{get_claims, AuthClaims};
use issuer_core::handlers::context::HandlerContext;
use issuer_core::handlers::{FnHandler, HandlerError};
use issuer_core::rpc::{
    call_handler, invalid_params, method_not_found, resolve_handler_error, resolve_method,
    RpcAnswer, RpcResponse, Route,
};
use issuer_core::settings::SettingRow;

fn claims() -> AuthClaims {
    AuthClaims { sub: "b@b.com".to_string(), company: "ACME".to_string(), exp: 2000000000 }
}

#[test]
fn resolve_method_knows_the_registered_methods() {
    assert_eq!(resolve_method("auth.get_claims"), Some(Route::AuthGetClaims));
    assert_eq!(resolve_method("settings.get"), Some(Route::SettingsGet));
    assert_eq!(resolve_method("settings.put"), Some(Route::SettingsPut));
    assert_eq!(resolve_method("issuer.create"), Some(Route::IssuerCreate));
}

#[test]
fn resolve_method_rejects_unknown_namespace() {
    assert_eq!(resolve_method("bogus.nope"), None);
}

#[test]
fn resolve_method_rejects_unknown_action() {
    assert_eq!(resolve_method("settings.delete"), None);
}

#[test]
fn resolve_method_rejects_method_without_dot() {
    assert_eq!(resolve_method("settings"), None);
}

#[test]
fn resolve_method_splits_on_the_first_dot() {
    // The namespace is everything before the first dot only.
    assert_eq!(resolve_method("settings.get.extra"), None);
    assert_eq!(resolve_method(".get"), None);
    assert_eq!(resolve_method("auth."), None);
}

#[test]
fn method_not_found_echoes_method_and_id() {
    let r: RpcResponse<()> = method_not_found(41, "bogus.nope");
    assert_eq!(r.id, 41);
    match r.answer {
        RpcAnswer::Error(e) => {
            assert_eq!(e.code, -32601);
            assert_eq!(e.message, "Method `bogus.nope` not found");
        }
        RpcAnswer::Result(_) => panic!("expected an error answer"),
    }
}

#[test]
fn method_not_found_echoes_dotless_method() {
    let r: RpcResponse<()> = method_not_found(7, "nodot");
    assert_eq!(r.id, 7);
    match r.answer {
        RpcAnswer::Error(e) => {
            assert_eq!(e.code, -32601);
            assert_eq!(e.message, "Method `nodot` not found");
        }
        RpcAnswer::Result(_) => panic!("expected an error answer"),
    }
}

#[test]
fn invalid_params_carries_decoder_details() {
    let r: RpcResponse<()> = invalid_params(3, "missing field `settings`".to_string());
    assert_eq!(r.id, 3);
    match r.answer {
        RpcAnswer::Error(e) => {
            assert_eq!(e.code, -32602);
            assert_eq!(e.message, "missing field `settings`");
        }
        RpcAnswer::Result(_) => panic!("expected an error answer"),
    }
}

#[test]
fn not_found_maps_to_application_404() {
    let r: RpcResponse<()> = resolve_handler_error(9, &HandlerError::NotFound);
    assert_eq!(r.id, 9);
    match r.answer {
        RpcAnswer::Error(e) => {
            assert_eq!(e.code, 404);
            assert_eq!(e.message, "Not found");
        }
        RpcAnswer::Result(_) => panic!("expected an error answer"),
    }
}

#[test]
fn internal_maps_to_application_500_with_cause() {
    let e = HandlerError::Internal { details: "the store went away".to_string() };
    let r: RpcResponse<()> = resolve_handler_error(9, &e);
    assert_eq!(r.id, 9);
    match r.answer {
        RpcAnswer::Error(err) => {
            assert_eq!(err.code, 500);
            assert_eq!(err.message, "the store went away");
        }
        RpcAnswer::Result(_) => panic!("expected an error answer"),
    }
}

#[test]
fn call_handler_wraps_a_success_under_the_request_id() {
    let ctx = HandlerContext::new("s".to_string());
    let handler = FnHandler::new(get_claims);
    let r = call_handler(&ctx, claims(), 12, Ok(()), &handler);
    assert_eq!(r.id, 12);
    match r.answer {
        RpcAnswer::Result(c) => {
            assert_eq!(c.sub, "b@b.com");
            assert_eq!(c.company, "ACME");
            assert_eq!(c.exp, 2000000000);
        }
        RpcAnswer::Error(_) => panic!("expected a success answer"),
    }
}

#[test]
fn call_handler_answers_bad_params_before_the_handler_runs() {
    let ctx = HandlerContext::new("s".to_string());
    let handler = FnHandler::new(get_claims);
    let r = call_handler(&ctx, claims(), 13, Err("invalid type: string".to_string()), &handler);
    assert_eq!(r.id, 13);
    match r.answer {
        RpcAnswer::Error(e) => {
            assert_eq!(e.code, -32602);
            assert_eq!(e.message, "invalid type: string");
        }
        RpcAnswer::Result(_) => panic!("expected an error answer"),
    }
}

#[test]
fn call_handler_maps_a_handler_failure_to_the_error_envelope() {
    let ctx = HandlerContext::new("s".to_string());
    let handler = FnHandler::new(issuer_core::handlers::settings::get);
    let rows = vec![SettingRow {
        name: "issuer.template".to_string(),
        value: Some("zz".to_string()),
    }];
    let r = call_handler(&ctx, claims(), 14, Ok(rows), &handler);
    assert_eq!(r.id, 14);
    match r.answer {
        RpcAnswer::Error(e) => {
            assert_eq!(e.code, 500);
            assert!(e.message.starts_with("Failed to decode deserialize_hex"));
        }
        RpcAnswer::Result(_) => panic!("expected an error answer"),
    }
}

#[test]
fn issuer_create_acknowledges() {
    let ctx = HandlerContext::new("s".to_string());
    let r = issuer_core::handlers::issuer::create(&ctx, claims(), ());
    assert!(r.is_ok());
}
