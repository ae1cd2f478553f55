use mail_composer::error::ErrorKind;
use mail_composer::settings::{Profile, Settings, Slot};

#[test]
fn api_key_save_get_has() {
    let mut st = Settings::new();
    assert!(!st.has_api_key());
    assert_eq!(st.get_api_key(), Ok(None));
    st.save_api_key("re_123".to_string());
    assert!(st.has_api_key());
    assert_eq!(st.get_api_key(), Ok(Some("re_123".to_string())));
    st.save_api_key("re_456".to_string());
    assert_eq!(st.get_api_key(), Ok(Some("re_456".to_string())));
}

#[test]
fn api_key_absent_after_delete() {
    let mut st = Settings::new();
    st.save_api_key("re_123".to_string());
    assert!(st.delete_api_key());
    assert_eq!(st.get_api_key(), Ok(None));
    assert!(!st.has_api_key());
    assert!(!st.delete_api_key());
}

#[test]
fn api_key_not_a_string_is_type_mismatch() {
    let mut st = Settings::new();
    st.api_key = Slot::Malformed;
    assert!(st.has_api_key());
    assert_eq!(st.get_api_key(), Err(ErrorKind::TypeMismatch));
}

#[test]
fn profile_round_trip() {
    let mut st = Settings::new();
    assert_eq!(st.get_profile(), Ok(None));
    st.save_profile_command(
        "Ada".to_string(),
        "Lovelace".to_string(),
        "ada".to_string(),
        "example.com".to_string(),
    );
    let p = Profile {
        first_name: "Ada".to_string(),
        last_name: "Lovelace".to_string(),
        username: "ada".to_string(),
        domain: "example.com".to_string(),
    };
    assert_eq!(st.get_profile(), Ok(Some(p.clone())));
    let q = Profile { first_name: "B".to_string(), ..p };
    st.save_profile(q.clone());
    assert_eq!(st.get_profile(), Ok(Some(q)));
}

#[test]
fn malformed_profile_is_parse_error() {
    let mut st = Settings::new();
    st.profile = Slot::Malformed;
    assert_eq!(st.get_profile(), Err(ErrorKind::ParseError));
}
