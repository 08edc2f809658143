use mail_common::custom_settings::{CustomSettings, MobileSignatureStatus, PM_SIGNATURE};

#[test]
fn sanitize_mobile_signature_turns_line_breaks_into_html() {
    assert_eq!(
        CustomSettings::sanitize_mobile_signature("greetings from my oxidized mail,\ncheers\n"),
        "greetings from my oxidized mail,<br />cheers"
    );
}

#[test]
fn sanitize_mobile_signature_keeps_digits() {
    assert_eq!(CustomSettings::sanitize_mobile_signature("1234"), "1234");
}

#[test]
fn sanitize_mobile_signature_handles_crlf_and_whitespace() {
    assert_eq!(
        CustomSettings::sanitize_mobile_signature("  a\r\nb\nc\r d \t"),
        "a<br />b<br />c\r d"
    );
    assert_eq!(CustomSettings::sanitize_mobile_signature(" \n\t "), "");
}

#[test]
fn custom_settings_defaults() {
    let s = CustomSettings::default();
    assert!(s.address_signature_enabled());
    assert!(s.mobile_signature_enabled());
    assert!(s.swipe_to_adjacent_conversation());
    assert_eq!(s.mobile_signature(), PM_SIGNATURE);
    let s = s
        .with_mobile_signature_enabled(false)
        .with_address_signature_enabled(false)
        .with_swipe_to_adjacent_conversation(false)
        .with_mobile_signature("sig");
    assert!(!s.address_signature_enabled());
    assert!(!s.mobile_signature_enabled());
    assert!(!s.swipe_to_adjacent_conversation());
    assert_eq!(s.mobile_signature(), "sig");
}

#[test]
fn update_mobile_signature() {
    let mut s = CustomSettings::default();
    assert_eq!(s.mobile_signature, None);
    s.set_mobile_signature(Some("greetings from my oxidized mail,\ncheers\n".to_string()));
    assert_eq!(
        s.mobile_signature,
        Some("greetings from my oxidized mail,<br />cheers".to_string())
    );
}

#[test]
fn update_mobile_signature_with_just_digits() {
    let mut s = CustomSettings::default();
    s.set_mobile_signature(Some("1234".to_string()));
    assert_eq!(s.mobile_signature, Some("1234".to_string()));
}

#[test]
fn update_mobile_signature_enabled() {
    let s = CustomSettings::default();
    assert_eq!(s.mobile_signature, None);
    let s = s.with_mobile_signature_enabled(true);
    assert_eq!(s.mobile_signature_enabled, Some(true));
}

#[test]
fn mobile_signature_status() {
    let s = CustomSettings::default();
    assert_eq!(MobileSignatureStatus::new(false, &s), MobileSignatureStatus::NeedsPaidVersion);
    assert_eq!(MobileSignatureStatus::new(true, &s), MobileSignatureStatus::Enabled);
    let s = s.with_mobile_signature_enabled(false);
    assert_eq!(MobileSignatureStatus::new(true, &s), MobileSignatureStatus::Disabled);
}
