use fileshare::names::is_safe_name;
use fileshare::service::{
    authorize_delete, delete_file, delete_outcome, finish_upload, name_for_field,
    upload_response, validate_password, Config, ServiceError,
};
use fileshare::token::generate_token;

fn config() -> Config {
    Config::new("s3cret".to_string(), "https://f.example".to_string())
}

#[test]
fn correct_bearer_is_accepted() {
    assert!(validate_password(Some("Bearer s3cret"), "s3cret"));
}

#[test]
fn wrong_or_missing_bearer_is_refused() {
    assert!(!validate_password(None, "s3cret"));
    assert!(!validate_password(Some("s3cret"), "s3cret"));
    assert!(!validate_password(Some("Bearer wrong"), "s3cret"));
    assert!(!validate_password(Some("bearer s3cret"), "s3cret"));
    assert!(!validate_password(Some("Bearer s3cret "), "s3cret"));
}

#[test]
fn upload_answer_urls() {
    let c = config();
    let r = upload_response(&c, "abcdefgh.png");
    assert!(r.success);
    assert_eq!(r.url, "https://f.example/file/abcdefgh.png");
    let t = generate_token("abcdefgh.png", "s3cret");
    assert_eq!(r.delete_url, format!("https://f.example/delete/{}/abcdefgh.png", t));
}

#[test]
fn upload_without_file_is_malformed() {
    let c = config();
    assert_eq!(finish_upload(&c, None), Err(ServiceError::MalformedRequest));
    assert_eq!(finish_upload(&c, Some("abcdefgh")), Ok(upload_response(&c, "abcdefgh")));
}

#[test]
fn delete_with_wrong_token_is_unauthorized() {
    let c = config();
    assert_eq!(authorize_delete(&c, "00", "abcdefgh.png"), Err(ServiceError::Unauthorized));
    assert_eq!(delete_file(&c, "00", "abcdefgh.png", true), Err(ServiceError::Unauthorized));
    assert_eq!(delete_file(&c, "00", "abcdefgh.png", false), Err(ServiceError::Unauthorized));
}

#[test]
fn delete_of_unsafe_name_is_not_found() {
    let c = config();
    for name in ["../secret", "a/b", "a\\b"] {
        let t = generate_token(name, "s3cret");
        assert!(!is_safe_name(name));
        assert_eq!(authorize_delete(&c, &t, name), Err(ServiceError::NotFound));
        assert_eq!(delete_file(&c, &t, name, true), Err(ServiceError::NotFound));
        assert_eq!(delete_file(&c, &t, name, false), Err(ServiceError::NotFound));
        assert_eq!(delete_file(&c, "00", name, true), Err(ServiceError::Unauthorized));
    }
}

#[test]
fn delete_second_step() {
    assert_eq!(delete_outcome(Ok("p".to_string()), true), Ok("p".to_string()));
    assert_eq!(delete_outcome(Ok("p".to_string()), false), Err(ServiceError::NotFound));
    assert_eq!(delete_outcome(Err(ServiceError::Unauthorized), true), Err(ServiceError::Unauthorized));
}

#[test]
fn only_first_named_field_is_stored() {
    let n = name_for_field(false, Some("photo.png")).unwrap();
    assert_eq!(n.len(), 12);
    assert!(n.ends_with(".png"));
    assert_eq!(name_for_field(true, Some("photo.png")), None);
    assert_eq!(name_for_field(false, None), None);
}

#[test]
fn delete_twice_succeeds_then_not_found() {
    let c = config();
    let t = generate_token("abcdefgh.png", "s3cret");
    assert_eq!(authorize_delete(&c, &t, "abcdefgh.png"), Ok("./uploads/abcdefgh.png".to_string()));
    assert_eq!(delete_file(&c, &t, "abcdefgh.png", true), Ok("./uploads/abcdefgh.png".to_string()));
    assert_eq!(delete_file(&c, &t, "abcdefgh.png", false), Err(ServiceError::NotFound));
}

#[test]
fn status_codes() {
    assert_eq!(ServiceError::Unauthorized.status_code(), 401);
    assert_eq!(ServiceError::NotFound.status_code(), 404);
    assert_eq!(ServiceError::InvalidName.status_code(), 400);
    assert_eq!(ServiceError::MalformedRequest.status_code(), 400);
}
