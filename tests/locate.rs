use base64::Engine;
use gcloud_credentials::locate::{choose_inline_document, inline_document, locate, well_known_location};
use gcloud_credentials::{CredentialsFile, DocumentLocation, Error, CREDENTIALS_FILE};

fn encode(bytes: &[u8]) -> Vec<u8> {
    base64::engine::general_purpose::STANDARD.encode(bytes).into_bytes()
}

fn strings(parts: &[&str]) -> Vec<String> {
    parts.iter().map(|s| s.to_string()).collect()
}

#[test]
fn inline_base64_is_decoded() {
    let doc = br#"{"type": "service_account"}"#.to_vec();
    assert_eq!(inline_document(encode(&doc)), doc);
}

#[test]
fn inline_plain_json_passes_through() {
    let doc = br#"{"type": "authorized_user"}"#.to_vec();
    assert_eq!(inline_document(doc.clone()), doc);
}

#[test]
fn inline_empty_value_stays_empty() {
    assert_eq!(inline_document(Vec::new()), Vec::<u8>::new());
}

#[test]
fn choose_inline_prefers_the_decoding() {
    assert_eq!(choose_inline_document(b"raw".to_vec(), Some(b"dec".to_vec())), b"dec".to_vec());
    assert_eq!(choose_inline_document(b"raw".to_vec(), None), b"raw".to_vec());
}

#[test]
fn inline_decoded_document_parses() {
    let bytes = inline_document(encode(br#"{"type": "external_account"}"#));
    assert_eq!(CredentialsFile::from_slice(&bytes).unwrap().tp, "external_account");
}

#[test]
fn inline_variable_wins_over_path_variable() {
    let doc = br#"{"type": "x"}"#.to_vec();
    let r = locate(Some(doc.clone()), Some("/etc/creds.json".to_string()), false, None, None);
    match r {
        Ok(DocumentLocation::Inline(d)) => assert_eq!(d, doc),
        _ => panic!("expected the inline document"),
    }
}

#[test]
fn path_variable_is_used_as_given() {
    let r = locate(None, Some("/does/not/exist.json".to_string()), false, None, Some("/home/u".to_string()));
    match r {
        Ok(DocumentLocation::File(p)) => assert_eq!(p, strings(&["/does/not/exist.json"])),
        _ => panic!("expected the configured path"),
    }
}

#[test]
fn empty_path_variable_does_not_fall_through() {
    let r = locate(None, Some(String::new()), false, None, Some("/home/u".to_string()));
    match r {
        Ok(DocumentLocation::File(p)) => assert_eq!(p, strings(&[""])),
        _ => panic!("expected the configured path"),
    }
}

#[test]
fn well_known_path_on_windows_is_under_app_data() {
    let r = locate(None, None, true, Some("C:\\Users\\u\\AppData".to_string()), None);
    match r {
        Ok(DocumentLocation::File(p)) => {
            assert_eq!(p, strings(&["C:\\Users\\u\\AppData", "gcloud", "application_default_credentials.json"]))
        }
        _ => panic!("expected the well-known path"),
    }
}

#[test]
fn well_known_path_elsewhere_is_under_home() {
    let r = locate(None, None, false, None, Some("/home/u".to_string()));
    match r {
        Ok(DocumentLocation::File(p)) => {
            assert_eq!(p, strings(&["/home/u", ".config", "gcloud", CREDENTIALS_FILE]))
        }
        _ => panic!("expected the well-known path"),
    }
}

#[test]
fn missing_app_data_on_windows_fails() {
    assert!(matches!(
        locate(None, None, true, None, Some("/home/u".to_string())),
        Err(Error::EnvironmentAccessFailure)
    ));
}

#[test]
fn missing_home_fails() {
    assert!(matches!(locate(None, None, false, Some("C:\\a".to_string()), None), Err(Error::NoHomeDirectoryFound)));
    assert!(matches!(well_known_location(false, None, None), Err(Error::NoHomeDirectoryFound)));
}
