use gyazo_upload::access_policy::AccessPolicy;
use gyazo_upload::error::UploadError;
use gyazo_upload::render::render_bool;
use gyazo_upload::render::render_u64;
use gyazo_upload::upload::build_upload_form;
use gyazo_upload::upload::handle_response;
use gyazo_upload::upload::prepare_upload;
use gyazo_upload::upload::upload_text_fields;
use gyazo_upload::upload::GyazoUploadOptions;

fn full_options() -> GyazoUploadOptions {
    GyazoUploadOptions {
        access_policy: Some(AccessPolicy::OnlyMe),
        metadata_is_public: Some(true),
        referer_url: Some("https://example.com/page".to_string()),
        app: Some("screenshot-tool".to_string()),
        title: Some("a title".to_string()),
        desc: Some("a description".to_string()),
        created_at: Some(1700000000),
        collection_id: Some("abc123".to_string()),
    }
}

#[test]
fn access_policy_texts() {
    assert_eq!(AccessPolicy::Anyone.as_str(), "anyone");
    assert_eq!(AccessPolicy::OnlyMe.as_str(), "only_me");
}

#[test]
fn render_bool_canonical() {
    assert_eq!(render_bool(true), "true");
    assert_eq!(render_bool(false), "false");
}

#[test]
fn render_u64_canonical() {
    assert_eq!(render_u64(0), "0");
    assert_eq!(render_u64(9), "9");
    assert_eq!(render_u64(10), "10");
    assert_eq!(render_u64(1700000000), "1700000000");
    assert_eq!(render_u64(u64::MAX), "18446744073709551615");
}

#[test]
fn no_options_yields_only_token_field() {
    let token = "secret-token".to_string();
    let fields = upload_text_fields(&token, None);
    assert_eq!(fields.len(), 1);
    assert_eq!(fields[0].0, "access_token");
    assert_eq!(fields[0].1, "secret-token");
}

#[test]
fn default_options_yield_only_token_field() {
    let token = "t".to_string();
    let opts = GyazoUploadOptions::default();
    let fields = upload_text_fields(&token, Some(&opts));
    assert_eq!(fields.len(), 1);
    assert_eq!(fields[0].0, "access_token");
    assert_eq!(fields[0].1, "t");
}

#[test]
fn all_options_yield_one_field_each_in_order() {
    let token = "tok".to_string();
    let opts = full_options();
    let fields = upload_text_fields(&token, Some(&opts));
    let expected: Vec<(&str, &str)> = vec![
        ("access_token", "tok"),
        ("access_policy", "only_me"),
        ("metadata_is_public", "true"),
        ("referer_url", "https://example.com/page"),
        ("app", "screenshot-tool"),
        ("title", "a title"),
        ("desc", "a description"),
        ("created_at", "1700000000"),
        ("collection_id", "abc123"),
    ];
    assert_eq!(fields.len(), expected.len());
    for (got, want) in fields.iter().zip(expected.iter()) {
        assert_eq!(got.0, want.0);
        assert_eq!(got.1, want.1);
    }
}

#[test]
fn subset_of_options_yields_exactly_those_fields() {
    let token = "tok".to_string();
    let opts = GyazoUploadOptions {
        access_policy: Some(AccessPolicy::Anyone),
        metadata_is_public: Some(false),
        referer_url: None,
        app: None,
        title: Some("shot".to_string()),
        desc: None,
        created_at: None,
        collection_id: None,
    };
    let fields = upload_text_fields(&token, Some(&opts));
    assert_eq!(fields.len(), 4);
    assert_eq!(fields[0], ("access_token".to_string(), "tok".to_string()));
    assert_eq!(fields[1], ("access_policy".to_string(), "anyone".to_string()));
    assert_eq!(
        fields[2],
        ("metadata_is_public".to_string(), "false".to_string())
    );
    assert_eq!(fields[3], ("title".to_string(), "shot".to_string()));
}

#[test]
fn build_form_accepts_fields_and_bytes() {
    let token = "tok".to_string();
    let form = build_upload_form(
        &token,
        "shot.png".to_string(),
        vec![0x89, 0x50, 0x4e, 0x47],
        Some(&full_options()),
    );
    assert!(!form.boundary().is_empty());
}

#[test]
fn failed_file_read_is_surfaced_before_any_form_exists() {
    let token = "tok".to_string();
    let outcome = prepare_upload(
        Err("No such file or directory (os error 2)".to_string()),
        &token,
        "missing.png".to_string(),
        None,
    );
    match outcome {
        Err(UploadError::FileReadError(m)) => {
            assert_eq!(m, "No such file or directory (os error 2)");
        }
        _ => panic!("expected a file read error"),
    }
}

#[test]
fn successful_file_read_yields_a_form() {
    let token = "tok".to_string();
    let outcome = prepare_upload(
        Ok(vec![1, 2, 3]),
        &token,
        "shot.png".to_string(),
        None,
    );
    assert!(outcome.is_ok());
}

#[test]
fn non_success_status_is_surfaced_with_its_code() {
    let body = br#"{"error":"unauthorized"}"#;
    match handle_response(401, body) {
        Err(UploadError::HttpStatusError(code)) => assert_eq!(code, 401),
        _ => panic!("expected an http status error"),
    }
    match handle_response(500, b"") {
        Err(UploadError::HttpStatusError(code)) => assert_eq!(code, 500),
        _ => panic!("expected an http status error"),
    }
}

#[test]
fn status_boundaries() {
    let body = br#"{"created_at":"c","image_id":"i","permalink_url":"p","thumb_url":"t","type":"y","url":"u"}"#;
    assert!(handle_response(200, body).is_ok());
    assert!(handle_response(299, body).is_ok());
    assert!(matches!(
        handle_response(199, body),
        Err(UploadError::HttpStatusError(199))
    ));
    assert!(matches!(
        handle_response(300, body),
        Err(UploadError::HttpStatusError(300))
    ));
}

#[test]
fn body_missing_image_id_is_a_decode_error() {
    let body = br#"{"created_at":"2024-01-02T03:04:05+0000","permalink_url":"https://gyazo.com/x","thumb_url":"https://thumb.gyazo.com/x","type":"png","url":"https://i.gyazo.com/x.png"}"#;
    match handle_response(200, body) {
        Err(UploadError::DecodeError(m)) => assert_eq!(m, "missing field image_id"),
        _ => panic!("expected a decode error"),
    }
}

#[test]
fn non_string_member_is_a_decode_error() {
    let body = br#"{"created_at":"c","image_id":7,"permalink_url":"p","thumb_url":"t","type":"y","url":"u"}"#;
    match handle_response(200, body) {
        Err(UploadError::DecodeError(m)) => assert_eq!(m, "missing field image_id"),
        _ => panic!("expected a decode error"),
    }
}

#[test]
fn malformed_json_is_a_decode_error() {
    match handle_response(200, b"{ not json") {
        Err(UploadError::DecodeError(_)) => {}
        _ => panic!("expected a decode error"),
    }
}

#[test]
fn well_formed_body_round_trips_every_field() {
    let body = br#"{"created_at":"2024-01-02T03:04:05+0000","image_id":"8980c52421e452ac3355ca3e5cfe7a0c","permalink_url":"https://gyazo.com/8980c52421e452ac3355ca3e5cfe7a0c","thumb_url":"https://thumb.gyazo.com/thumb/200/afaiyia","type":"png","url":"https://i.gyazo.com/8980c52421e452ac3355ca3e5cfe7a0c.png"}"#;
    let resp = handle_response(200, body).expect("a complete body must decode");
    assert_eq!(resp.created_at, "2024-01-02T03:04:05+0000");
    assert_eq!(resp.image_id, "8980c52421e452ac3355ca3e5cfe7a0c");
    assert_eq!(
        resp.permalink_url,
        "https://gyazo.com/8980c52421e452ac3355ca3e5cfe7a0c"
    );
    assert_eq!(resp.thumb_url, "https://thumb.gyazo.com/thumb/200/afaiyia");
    assert_eq!(resp.response_type, "png");
    assert_eq!(
        resp.url,
        "https://i.gyazo.com/8980c52421e452ac3355ca3e5cfe7a0c.png"
    );
}

#[test]
fn unknown_members_are_ignored() {
    let body = br#"{"created_at":"c","image_id":"i","permalink_url":"p","thumb_url":"t","type":"y","url":"u","extra":{"nested":[1,2,3]}}"#;
    let resp = handle_response(200, body).expect("extra members must not break decoding");
    assert_eq!(resp.image_id, "i");
    assert_eq!(resp.url, "u");
}

#[test]
fn error_messages_are_reachable() {
    let e = UploadError::FileReadError("cannot read".to_string());
    assert_eq!(e.message(), "cannot read");
    let e = UploadError::DecodeError("missing field url".to_string());
    assert_eq!(e.message(), "missing field url");
}
