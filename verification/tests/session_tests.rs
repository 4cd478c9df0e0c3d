use game_auth::session::{
    begin, is_logout, logout_payload, payload_segment, payload_text, step, AuthAction, AuthError,
    AuthEvent, AuthStage, AuthUser, TokenClaims,
};

fn claims(id: i32, device: &str) -> TokenClaims {
    TokenClaims { id, device: device.to_string(), iat: 0, exp: 0 }
}

fn answer(action: &AuthAction) -> Option<Result<AuthUser, AuthError>> {
    match action {
        AuthAction::Respond(r) => Some(*r),
        _ => None,
    }
}

#[test]
fn segment_of_three_part_token() {
    assert_eq!(payload_segment("head.body.sig"), Some("body".to_string()));
    assert_eq!(payload_segment("..").as_deref(), Some(""));
    assert_eq!(payload_segment("a.é☃.c"), Some("é☃".to_string()));
}

#[test]
fn segment_refused_for_other_part_counts() {
    assert_eq!(payload_segment(""), None);
    assert_eq!(payload_segment("nodots"), None);
    assert_eq!(payload_segment("a.b"), None);
    assert_eq!(payload_segment("a.b.c.d"), None);
    assert_eq!(payload_segment("..."), None);
}

#[test]
fn logout_path_recognised() {
    assert!(is_logout("/user/logout"));
    assert!(!is_logout("/user/logout/"));
    assert!(!is_logout("/user/login"));
    assert!(!is_logout(""));
}

#[test]
fn payload_text_decodes_utf8_or_gives_empty() {
    assert_eq!(payload_text(Some(b"{\"id\":3}".to_vec())), "{\"id\":3}");
    assert_eq!(payload_text(Some(vec![0xff, 0xfe])), "");
    assert_eq!(payload_text(None), "");
}

#[test]
fn logout_payload_goes_through_base64() {
    assert_eq!(
        logout_payload("eyJpZCI6NSwiZGV2aWNlIjoicGhvbmUiLCJpYXQiOjAsImV4cCI6MH0="),
        "{\"id\":5,\"device\":\"phone\",\"iat\":0,\"exp\":0}"
    );
    // Standard base64 with canonical padding is required: unpadded text fails.
    assert_eq!(logout_payload("eyJpZCI6NX0"), "");
    assert_eq!(logout_payload("not base64!"), "");
    assert_eq!(logout_payload(""), "");
}

#[test]
fn missing_or_malformed_token_is_refused() {
    let (stage, action) = begin(None, "/game");
    assert!(matches!(stage, AuthStage::Finished));
    assert_eq!(answer(&action), Some(Err(AuthError::Session)));
    let (stage, action) = begin(Some(String::new()), "/game");
    assert!(matches!(stage, AuthStage::Finished));
    assert_eq!(answer(&action), Some(Err(AuthError::Session)));
    let (_, action) = begin(Some("a.b".to_string()), "/user/logout");
    assert_eq!(answer(&action), Some(Err(AuthError::Session)));
}

#[test]
fn well_shaped_token_goes_to_verification() {
    let (stage, action) = begin(Some("h.p.s".to_string()), "/game");
    match action {
        AuthAction::VerifyToken(t) => assert_eq!(t, "h.p.s"),
        _ => panic!("wrong action"),
    }
    match stage {
        AuthStage::AwaitVerification { logout, payload_segment } => {
            assert!(!logout);
            assert_eq!(payload_segment, "p");
        }
        _ => panic!("wrong stage"),
    }
}

#[test]
fn verified_token_with_matching_device_is_accepted() {
    let (stage, _) = begin(Some("h.p.s".to_string()), "/game");
    let (stage, action) = step(stage, AuthEvent::TokenVerified(Ok(claims(7, "phone"))));
    assert!(matches!(action, AuthAction::LookupDevice(7)));
    let (stage, action) = step(stage, AuthEvent::StoredDevice(Some("phone".to_string())));
    assert!(matches!(stage, AuthStage::Finished));
    assert_eq!(answer(&action), Some(Ok(AuthUser(7))));
}

#[test]
fn verified_token_with_other_device_is_refused() {
    let (stage, _) = begin(Some("h.p.s".to_string()), "/game");
    let (stage, _) = step(stage, AuthEvent::TokenVerified(Ok(claims(7, "phone"))));
    let (_, action) = step(stage, AuthEvent::StoredDevice(Some("laptop".to_string())));
    assert_eq!(answer(&action), Some(Err(AuthError::Session)));
}

#[test]
fn store_failure_is_refused() {
    let (stage, _) = begin(Some("h.p.s".to_string()), "/user/logout");
    let (stage, _) = step(stage, AuthEvent::TokenVerified(Ok(claims(7, "phone"))));
    let (_, action) = step(stage, AuthEvent::StoredDevice(None));
    assert_eq!(answer(&action), Some(Err(AuthError::Session)));
}

#[test]
fn unverified_token_off_logout_checks_user_minus_one() {
    let (stage, _) = begin(Some("h.p.s".to_string()), "/game");
    let (stage, action) = step(stage, AuthEvent::TokenVerified(Err("ExpiredSignature".to_string())));
    assert!(matches!(action, AuthAction::LookupDevice(-1)));
    match &stage {
        AuthStage::AwaitDevice { user_id, device } => {
            assert_eq!(*user_id, -1);
            assert_eq!(device, "ExpiredSignature");
        }
        _ => panic!("wrong stage"),
    }
    let (_, action) = step(stage, AuthEvent::StoredDevice(Some("phone".to_string())));
    assert_eq!(answer(&action), Some(Err(AuthError::Session)));
}

#[test]
fn logout_with_unverified_token_reads_payload() {
    let token = "h.eyJpZCI6NSwiZGV2aWNlIjoicGhvbmUiLCJpYXQiOjAsImV4cCI6MH0=.s".to_string();
    let (stage, _) = begin(Some(token), "/user/logout");
    let (stage, action) = step(stage, AuthEvent::TokenVerified(Err("InvalidSignature".to_string())));
    match &action {
        AuthAction::ParsePayloadClaims(text) => {
            assert_eq!(text, "{\"id\":5,\"device\":\"phone\",\"iat\":0,\"exp\":0}")
        }
        _ => panic!("wrong action"),
    }
    let (stage, action) = step(stage, AuthEvent::PayloadClaims(Some(claims(5, "phone"))));
    assert!(matches!(stage, AuthStage::Finished));
    assert_eq!(answer(&action), Some(Ok(AuthUser(5))));
}

#[test]
fn logout_with_unparsable_payload_is_user_minus_one() {
    let (stage, _) = begin(Some("h.xx.s".to_string()), "/user/logout");
    let (stage, action) = step(stage, AuthEvent::TokenVerified(Err("InvalidToken".to_string())));
    match &action {
        AuthAction::ParsePayloadClaims(text) => assert_eq!(text, ""),
        _ => panic!("wrong action"),
    }
    let (_, action) = step(stage, AuthEvent::PayloadClaims(None));
    assert_eq!(answer(&action), Some(Ok(AuthUser(-1))));
}
