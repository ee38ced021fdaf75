use syncnote::ceremonies::{
    excluded_credentials, finish_login, identify_login_user, login_credential, passkey_service,
    registration_credential, registration_identity, start_login, start_registration, stored_passkeys,
};
use syncnote::models::AuthUser;
use webauthn_rs::prelude::{PublicKeyCredential, Url, Webauthn};

fn webauthn() -> Webauthn {
    let origin = Url::parse("http://localhost:3000").unwrap();
    passkey_service("localhost", &origin).unwrap()
}

fn user(display_name: Option<&str>) -> AuthUser {
    AuthUser { id: 42, email: "ann@example.com".into(), display_name: display_name.map(Into::into), is_admin: false }
}

fn credential(user_handle: Option<&str>) -> PublicKeyCredential {
    let handle = match user_handle {
        Some(h) => format!("\"{h}\""),
        None => "null".to_string(),
    };
    let json = format!(
        "{{\"id\":\"eA\",\"rawId\":\"eA\",\"response\":{{\"authenticatorData\":\"eA\",\"clientDataJSON\":\"eA\",\"signature\":\"eA\",\"userHandle\":{handle}}},\"type\":\"public-key\"}}"
    );
    serde_json::from_str(&json).unwrap()
}

#[test]
fn registration_is_made_under_the_users_handle_and_names() {
    assert_eq!(registration_identity(&user(Some("Ann"))), (42u128, "ann@example.com".to_string(), "Ann".to_string()));
    assert_eq!(registration_identity(&user(None)).2, "ann@example.com");

    let (challenge, _state) = start_registration(&webauthn(), &user(Some("Ann B")), &Vec::new()).unwrap();
    let json = serde_json::to_string(&challenge).unwrap();
    assert!(json.contains("\"name\":\"ann@example.com\""));
    assert!(json.contains("\"displayName\":\"Ann B\""));
}

#[test]
fn sign_in_reads_the_user_back_from_the_handle() {
    let w = webauthn();
    assert_eq!(identify_login_user(&w, &credential(Some("AAAAAAAAAAAAAAAAAAAAKg"))), Ok(42));
    let err = identify_login_user(&w, &credential(None)).unwrap_err();
    assert!(err.starts_with("webauthn: "), "{err}");
}

#[test]
fn sign_in_without_passkeys_is_refused() {
    let w = webauthn();
    let (_challenge, state) = start_login(&w).unwrap();
    let r = finish_login(&w, &credential(Some("AAAAAAAAAAAAAAAAAAAAKg")), state, &Vec::new());
    assert_eq!(r.err(), Some("auth: no passkeys registered for that account".to_string()));
}

#[test]
fn relying_party_must_match_origin() {
    let origin = Url::parse("https://idm.different.com").unwrap();
    let err = passkey_service("example.com", &origin).err().unwrap();
    assert!(err.starts_with("webauthn: "), "{err}");
}

#[test]
fn credentials_from_json() {
    let json = "{\"id\":\"eA\",\"rawId\":\"eA\",\"response\":{\"authenticatorData\":\"eA\",\"clientDataJSON\":\"eA\",\"signature\":\"eA\",\"userHandle\":null},\"type\":\"public-key\"}";
    assert!(login_credential(json).is_ok());
    let err = login_credential("{").err().unwrap();
    assert!(err.starts_with("json: "), "{err}");
    let err = registration_credential("[]").err().unwrap();
    assert!(err.starts_with("json: "), "{err}");
}

#[test]
fn unparsable_stored_passkeys_are_skipped() {
    let rows = vec![(1i64, "not json".to_string()), (2i64, "{}".to_string())];
    assert!(stored_passkeys(&rows).is_empty());
    assert!(excluded_credentials(&Vec::new()).is_empty());
}
