use base64::Engine;
use gcloud_credentials::signing::der_depth_within;
use gcloud_credentials::{CredentialsFile, Error, JsonValue, SourceKind, MAX_DER_DEPTH};

fn parse(text: &str) -> Result<CredentialsFile, Error> {
    CredentialsFile::from_slice(text.as_bytes())
}

#[test]
fn discriminant_only_leaves_every_field_absent() {
    let c = parse(r#"{"type": "service_account"}"#).unwrap();
    assert_eq!(c.tp, "service_account");
    assert!(c.client_email.is_none());
    assert!(c.private_key_id.is_none());
    assert!(c.private_key.is_none());
    assert!(c.auth_uri.is_none());
    assert!(c.token_uri.is_none());
    assert!(c.project_id.is_none());
    assert!(c.client_secret.is_none());
    assert!(c.client_id.is_none());
    assert!(c.refresh_token.is_none());
    assert!(c.audience.is_none());
    assert!(c.subject_token_type.is_none());
    assert!(c.token_url_external.is_none());
    assert!(c.token_info_url.is_none());
    assert!(c.service_account_impersonation_url.is_none());
    assert!(c.service_account_impersonation.is_none());
    assert!(c.delegates.is_none());
    assert!(c.credential_source.is_none());
    assert!(c.quota_project_id.is_none());
    assert!(c.workforce_pool_user_project.is_none());
}

#[test]
fn service_account_fields_are_read() {
    let c = parse(
        r#"{"type": "service_account", "client_email": "a@b.iam", "private_key_id": "kid",
            "private_key": "pem", "auth_uri": "https://auth", "token_uri": "https://token",
            "project_id": "proj", "quota_project_id": "quota", "unknown": [1, 2]}"#,
    )
    .unwrap();
    assert_eq!(c.client_email.as_deref(), Some("a@b.iam"));
    assert_eq!(c.private_key_id.as_deref(), Some("kid"));
    assert_eq!(c.private_key.as_deref(), Some("pem"));
    assert_eq!(c.auth_uri.as_deref(), Some("https://auth"));
    assert_eq!(c.token_uri.as_deref(), Some("https://token"));
    assert_eq!(c.project_id.as_deref(), Some("proj"));
    assert_eq!(c.quota_project_id.as_deref(), Some("quota"));
}

#[test]
fn user_credential_fields_are_read() {
    let c = parse(
        r#"{"type": "authorized_user", "client_id": "id", "client_secret": "sec",
            "refresh_token": "rt"}"#,
    )
    .unwrap();
    assert_eq!(c.tp, "authorized_user");
    assert_eq!(c.client_id.as_deref(), Some("id"));
    assert_eq!(c.client_secret.as_deref(), Some("sec"));
    assert_eq!(c.refresh_token.as_deref(), Some("rt"));
}

#[test]
fn null_members_read_as_absent() {
    let c = parse(r#"{"type": "x", "project_id": null, "credential_source": null}"#).unwrap();
    assert!(c.project_id.is_none());
    assert!(c.credential_source.is_none());
}

#[test]
fn missing_discriminant_is_malformed() {
    assert!(matches!(parse(r#"{"project_id": "p"}"#), Err(Error::MalformedDocument)));
}

#[test]
fn non_string_discriminant_is_malformed() {
    assert!(matches!(parse(r#"{"type": 7}"#), Err(Error::MalformedDocument)));
    assert!(matches!(parse(r#"{"type": null}"#), Err(Error::MalformedDocument)));
}

#[test]
fn non_json_is_malformed() {
    assert!(matches!(parse("not json"), Err(Error::MalformedDocument)));
    assert!(matches!(parse(""), Err(Error::MalformedDocument)));
}

#[test]
fn non_object_is_malformed() {
    assert!(matches!(parse(r#"["type"]"#), Err(Error::MalformedDocument)));
}

#[test]
fn wrongly_typed_optional_member_is_malformed() {
    assert!(matches!(parse(r#"{"type": "x", "client_email": 3}"#), Err(Error::MalformedDocument)));
    assert!(matches!(parse(r#"{"type": "x", "delegates": ["a", 1]}"#), Err(Error::MalformedDocument)));
}

#[test]
fn external_account_round_trip() {
    let c = parse(
        r#"{"type": "external_account", "audience": "//iam/aud",
            "subject_token_type": "urn:jwt", "token_url": "https://sts/token",
            "service_account_impersonation_url": "https://iam/impersonate",
            "credential_source": {"file": "/var/token"}}"#,
    )
    .unwrap();
    assert_eq!(c.tp, "external_account");
    assert_eq!(c.audience.as_deref(), Some("//iam/aud"));
    assert_eq!(c.subject_token_type.as_deref(), Some("urn:jwt"));
    assert_eq!(c.token_url_external.as_deref(), Some("https://sts/token"));
    assert_eq!(c.service_account_impersonation_url.as_deref(), Some("https://iam/impersonate"));
    let source = c.credential_source.unwrap();
    assert_eq!(source.file.as_deref(), Some("/var/token"));
    assert_eq!(source.kind(), Some(SourceKind::File));
}

#[test]
fn external_account_optional_members() {
    let c = parse(
        r#"{"type": "external_account", "token_info_url": "https://info",
            "service_account_impersonation": {"token_lifetime_seconds": 3600},
            "delegates": ["a@x", "b@x"], "workforce_pool_user_project": "wp",
            "credential_source": {"url": "https://tok", "headers": {"k": "v"}}}"#,
    )
    .unwrap();
    assert_eq!(c.token_info_url.as_deref(), Some("https://info"));
    assert_eq!(c.service_account_impersonation.unwrap().token_lifetime_seconds, 3600);
    assert_eq!(c.delegates.unwrap(), vec!["a@x".to_string(), "b@x".to_string()]);
    assert_eq!(c.workforce_pool_user_project.as_deref(), Some("wp"));
    let source = c.credential_source.unwrap();
    assert_eq!(source.url.as_deref(), Some("https://tok"));
    assert_eq!(source.headers.clone().unwrap(), vec![("k".to_string(), "v".to_string())]);
    assert_eq!(source.kind(), Some(SourceKind::Url));
}

#[test]
fn token_lifetime_outside_i32_is_malformed() {
    let big = r#"{"type": "e", "service_account_impersonation": {"token_lifetime_seconds": 3000000000}}"#;
    assert!(matches!(parse(big), Err(Error::MalformedDocument)));
    let frac = r#"{"type": "e", "service_account_impersonation": {"token_lifetime_seconds": 1.5}}"#;
    assert!(matches!(parse(frac), Err(Error::MalformedDocument)));
    let missing = r#"{"type": "e", "service_account_impersonation": {}}"#;
    assert!(matches!(parse(missing), Err(Error::MalformedDocument)));
}

#[test]
fn token_lifetime_extremes_of_i32() {
    let low = r#"{"type": "e", "service_account_impersonation": {"token_lifetime_seconds": -2147483648}}"#;
    assert_eq!(parse(low).unwrap().service_account_impersonation.unwrap().token_lifetime_seconds, i32::MIN);
    let high = r#"{"type": "e", "service_account_impersonation": {"token_lifetime_seconds": 2147483647}}"#;
    assert_eq!(parse(high).unwrap().service_account_impersonation.unwrap().token_lifetime_seconds, i32::MAX);
}

#[test]
fn executable_source() {
    let c = parse(
        r#"{"type": "external_account", "credential_source": {"executable":
            {"command": "/bin/tok --x", "timeout_millis": 5000, "output_file": "/tmp/out"}}}"#,
    )
    .unwrap();
    let source = c.credential_source.unwrap();
    let exe = source.executable.as_ref().unwrap();
    assert_eq!(exe.command, "/bin/tok --x");
    assert_eq!(exe.timeout_millis, Some(5000));
    assert_eq!(exe.output_file, "/tmp/out");
    assert_eq!(source.kind(), Some(SourceKind::Executable));
}

#[test]
fn executable_without_command_is_malformed() {
    let doc = r#"{"type": "e", "credential_source": {"executable": {"output_file": "/o"}}}"#;
    assert!(matches!(parse(doc), Err(Error::MalformedDocument)));
}

#[test]
fn metadata_source() {
    let c = parse(
        r#"{"type": "external_account", "credential_source": {"environment_id": "aws1",
            "region_url": "http://r", "regional_cred_verification_url": "https://v/{region}",
            "cred_verification_url": "https://v", "imdsv2_session_token_url": "http://s",
            "format": {"type": "json", "subject_token_field_name": "tok"}}}"#,
    )
    .unwrap();
    let source = c.credential_source.unwrap();
    assert_eq!(source.environment_id.as_deref(), Some("aws1"));
    assert_eq!(source.region_url.as_deref(), Some("http://r"));
    assert_eq!(source.regional_cred_verification_url.as_deref(), Some("https://v/{region}"));
    assert_eq!(source.cred_verification_url.as_deref(), Some("https://v"));
    assert_eq!(source.imdsv2_session_token_url.as_deref(), Some("http://s"));
    let format = source.format.as_ref().unwrap();
    assert_eq!(format.tp, "json");
    assert_eq!(format.subject_token_field_name, "tok");
    assert_eq!(source.kind(), Some(SourceKind::Metadata));
}

#[test]
fn ambiguous_or_empty_source_has_no_kind() {
    let both = parse(r#"{"type": "e", "credential_source": {"file": "/f", "url": "https://u"}}"#).unwrap();
    assert_eq!(both.credential_source.unwrap().kind(), None);
    let none = parse(r#"{"type": "e", "credential_source": {}}"#).unwrap();
    assert_eq!(none.credential_source.unwrap().kind(), None);
}

#[test]
fn from_json_reads_a_built_tree() {
    let doc = JsonValue::Object(vec![
        ("type".to_string(), JsonValue::Str("service_account".to_string())),
        ("project_id".to_string(), JsonValue::Str("p".to_string())),
    ]);
    let c = CredentialsFile::from_json(&doc).unwrap();
    assert_eq!(c.tp, "service_account");
    assert_eq!(c.project_id.as_deref(), Some("p"));
    assert!(matches!(CredentialsFile::from_json(&JsonValue::Null), Err(Error::MalformedDocument)));
}

#[test]
fn authorized_user_has_no_private_key() {
    let c = parse(r#"{"type": "authorized_user", "client_id": "id"}"#).unwrap();
    assert!(matches!(c.try_to_private_key(), Err(Error::NoPrivateKeyFound)));
}

#[test]
fn malformed_private_key_is_invalid() {
    let c = parse(r#"{"type": "service_account", "private_key": "not-a-key"}"#).unwrap();
    assert!(matches!(c.try_to_private_key(), Err(Error::InvalidPrivateKey)));
}

#[test]
fn pem_frame_without_rsa_key_is_invalid() {
    let doc = r#"{"type": "service_account", "private_key": "-----BEGIN CERTIFICATE-----\nAAAA\n-----END CERTIFICATE-----\n"}"#;
    let c = parse(doc).unwrap();
    assert!(c.private_key.as_deref().unwrap().starts_with("-----BEGIN CERTIFICATE-----\n"));
    assert!(matches!(c.try_to_private_key(), Err(Error::InvalidPrivateKey)));
}

fn with_private_key(key: String) -> CredentialsFile {
    let doc = JsonValue::Object(vec![
        ("type".to_string(), JsonValue::Str("service_account".to_string())),
        ("private_key".to_string(), JsonValue::Str(key)),
    ]);
    CredentialsFile::from_json(&doc).unwrap()
}

fn der_length(n: usize) -> Vec<u8> {
    if n < 0x80 {
        vec![n as u8]
    } else if n <= 0xff {
        vec![0x81, n as u8]
    } else {
        vec![0x82, (n >> 8) as u8, n as u8]
    }
}

fn pem_of(label: &str, der: &[u8]) -> String {
    let body = base64::engine::general_purpose::STANDARD.encode(der);
    let lines: Vec<&str> = body.as_bytes().chunks(64).map(|c| std::str::from_utf8(c).unwrap()).collect();
    format!("-----BEGIN {}-----\n{}\n-----END {}-----\n", label, lines.join("\n"), label)
}

fn nested_sequences(depth: usize, inner: &[u8]) -> Vec<u8> {
    let mut der: Vec<u8> = inner.to_vec();
    for _ in 0..depth {
        let mut next = vec![0x30];
        next.extend(der_length(der.len()));
        next.extend(der.iter().copied());
        der = next;
    }
    der
}

#[test]
fn deeply_nested_key_is_refused() {
    let c = with_private_key(pem_of("CERTIFICATE", &nested_sequences(3000, &[])));
    assert!(matches!(c.try_to_private_key(), Err(Error::InvalidPrivateKey)));
}

#[test]
fn nesting_at_the_limit_reaches_the_key_reader() {
    let inner = [0x02, 0x01, 0x00];
    let at_limit = with_private_key(pem_of("RSA PRIVATE KEY", &nested_sequences(MAX_DER_DEPTH, &inner)));
    assert!(at_limit.try_to_private_key().is_ok());
    let over = with_private_key(pem_of("RSA PRIVATE KEY", &nested_sequences(MAX_DER_DEPTH + 1, &inner)));
    assert!(matches!(over.try_to_private_key(), Err(Error::InvalidPrivateKey)));
}

#[test]
fn pkcs1_shaped_key_is_accepted() {
    let c = with_private_key(pem_of("RSA PRIVATE KEY", &[0x30, 0x03, 0x02, 0x01, 0x00]));
    assert!(c.try_to_private_key().is_ok());
}

#[test]
fn der_depth_of_concrete_bytes() {
    assert!(der_depth_within(&[], 0));
    assert!(der_depth_within(&[0x02, 0x01, 0x05], 0));
    assert!(!der_depth_within(&[0x30, 0x00], 0));
    assert!(der_depth_within(&[0x30, 0x00], 1));
    assert!(!der_depth_within(&[0x30, 0x02, 0x30, 0x00], 1));
    assert!(der_depth_within(&[0x30, 0x02, 0x30, 0x00], 2));
    assert!(der_depth_within(&[0x30, 0x00, 0x31, 0x00], 1));
    assert!(!der_depth_within(&[0x02, 0x05, 0x00], 4));
    assert!(!der_depth_within(&[0x02], 4));
    assert!(!der_depth_within(&[0x1f, 0x00], 4));
    assert!(der_depth_within(&[0x04, 0x81, 0x01, 0x00], 0));
    assert!(der_depth_within(&[0x04, 0x82, 0x00, 0x01, 0x00], 0));
    assert!(!der_depth_within(&[0xa0, 0x03, 0x02, 0x01, 0x00], 0));
}
