use mail_common::default_location::IncomingDefaultLocation as StoredLocation;
use mail_common::incoming_default::{email_domain, IncomingDefault, IncomingDefaultLocation};

fn email_cases() -> Vec<(&'static str, &'static str)> {
    vec![
        ("", ""),
        ("valid@email.com", "valid@email.com"),
        ("VaLiD@email.com", "valid@email.com"),
        ("999@email.com", "999@email.com"),
        ("test!@email.com", "test!@email.com"),
        ("test#@email.com", "test#@email.com"),
        ("test$@email.com", "test$@email.com"),
        ("test%@email.com", "test%@email.com"),
        ("test&@email.com", "test&@email.com"),
        ("test'@email.com", "test'@email.com"),
        ("test*@email.com", "test*@email.com"),
        ("test+@email.com", "test+@email.com"),
        ("test-@email.com", "test-@email.com"),
        ("test=@email.com", "test=@email.com"),
        ("test?@email.com", "test?@email.com"),
        ("test^@email.com", "test^@email.com"),
        ("test_@email.com", "test_@email.com"),
        ("test`@email.com", "test`@email.com"),
        ("test{@email.com", "test{@email.com"),
        ("test|@email.com", "test|@email.com"),
        ("test}@email.com", "test}@email.com"),
        ("test~@email.com", "test~@email.com"),
        ("test[@email.com", "test[@email.com"),
        ("test]@email.com", "test]@email.com"),
        ("test<>@email.com", "test@email.com"),
        ("test()@email.com", "test@email.com"),
        ("test,@email.com", "test@email.com"),
        ("test;@email.com", "test@email.com"),
        ("test:@email.com", "test@email.com"),
        ("test\"@email.com", "test@email.com"),
        ("test/@email.com", "test@email.com"),
        ("test\\@email.com", "test@email.com"),
        ("test @email.com", "test@email.com"),
        ("test\t@email.com", "test@email.com"),
        ("test\n@email.com", "test@email.com"),
        ("tëst@émàil.com", "tst@mil.com"),
        ("test😀@email.com", "test@email.com"),
        (
            "123!@#$%&*+-=?^_`{|}~[]aBc@domain.com",
            "123!@#$%&*+-=?^_`{|}~[]abc@domain.com",
        ),
    ]
}

fn domain_cases() -> Vec<(&'static str, &'static str)> {
    vec![
        ("", ""),
        ("email.com", "email.com"),
        ("EmAiL.com", "email.com"),
        ("999.com", "999.com"),
        ("!email.com", "!email.com"),
        ("#email.com", "#email.com"),
        ("$email.com", "$email.com"),
        ("%email.com", "%email.com"),
        ("&email.com", "&email.com"),
        ("'email.com", "'email.com"),
        ("*email.com", "*email.com"),
        ("+email.com", "+email.com"),
        ("-email.com", "-email.com"),
        ("=email.com", "=email.com"),
        ("?email.com", "?email.com"),
        ("^email.com", "^email.com"),
        ("_email.com", "_email.com"),
        ("`email.com", "`email.com"),
        ("{email.com", "{email.com"),
        ("|email.com", "|email.com"),
        ("}email.com", "}email.com"),
        ("~email.com", "~email.com"),
        ("[email.com", "[email.com"),
        ("]email.com", "]email.com"),
        ("@email.com", "email.com"),
        ("<>email.com", "email.com"),
        ("()email.com", "email.com"),
        (",email.com", "email.com"),
        (";email.com", "email.com"),
        (":email.com", "email.com"),
        ("\"email.com", "email.com"),
        ("/email.com", "email.com"),
        ("\\email.com", "email.com"),
        (" email.com", "email.com"),
        ("\temail.com", "email.com"),
        ("\nemail.com", "email.com"),
        ("émàil.com", "mil.com"),
        ("😀email.com", "email.com"),
    ]
}

#[test]
fn sanitize_emails() {
    for (input, expected) in email_cases() {
        assert_eq!(IncomingDefault::sanitize_email(input), expected, "input {input:?}");
    }
}

#[test]
fn sanitize_domain() {
    for (input, expected) in domain_cases() {
        assert_eq!(IncomingDefault::sanitize_domain(input), expected, "input {input:?}");
    }
}

#[test]
fn before_save_sanitizes_the_address_only() {
    let mut d = IncomingDefault {
        local_id: Some(3),
        remote_id: None,
        location: IncomingDefaultLocation::Spam,
        email: Some("A (b)@X.org".to_string()),
        domain: Some("KEEP.org".to_string()),
        deleted: false,
    };
    d.before_save();
    assert_eq!(d.email, Some("ab@x.org".to_string()));
    assert_eq!(d.domain, Some("KEEP.org".to_string()));
    assert_eq!(d.location, IncomingDefaultLocation::Spam);
}

#[test]
fn email_domain_is_after_the_first_at() {
    assert_eq!(email_domain("a@b.com"), Some("b.com".to_string()));
    assert_eq!(email_domain("a@b@c"), Some("b@c".to_string()));
    assert_eq!(email_domain("@"), Some(String::new()));
    assert_eq!(email_domain("nobody"), None);
}

#[test]
fn location_repr_round_trip() {
    for l in [
        IncomingDefaultLocation::Inbox,
        IncomingDefaultLocation::Spam,
        IncomingDefaultLocation::Blocked,
    ] {
        assert_eq!(IncomingDefaultLocation::try_from_repr(l.to_repr()), Some(l));
    }
    assert_eq!(IncomingDefaultLocation::Inbox.to_repr(), 0);
    assert_eq!(IncomingDefaultLocation::Spam.to_repr(), 4);
    assert_eq!(IncomingDefaultLocation::Blocked.to_repr(), 14);
    assert_eq!(IncomingDefaultLocation::try_from_repr(1), None);
    assert_eq!(StoredLocation::try_from_repr(14), Ok(StoredLocation::Blocked));
    assert_eq!(StoredLocation::try_from_repr(5), Err(5));
    assert_eq!(StoredLocation::Spam.to_repr(), 4);
}

#[test]
fn remaining_incoming_default_pages() {
    assert_eq!(StoredLocation::remaining_pages(0, 100), 0);
    assert_eq!(StoredLocation::remaining_pages(99, 100), 0);
    assert_eq!(StoredLocation::remaining_pages(100, 100), 0);
    assert_eq!(StoredLocation::remaining_pages(101, 100), 1);
    assert_eq!(StoredLocation::remaining_pages(200, 100), 1);
    assert_eq!(StoredLocation::remaining_pages(201, 100), 2);
}
