use postmark_client::Email;

#[test]
fn empty_string_is_rejected() {
    let email = "";
    assert!(Email::parse(email).is_err());
}

#[test]
fn email_missing_at_symbol_is_rejected() {
    let email = "jimmieomlovelldomain.com";
    assert!(Email::parse(email).is_err());
}

#[test]
fn email_missing_domain_is_rejected() {
    let test_cases = vec!["jimmielovell@domaincom", "jimmielovell"];

    for email in test_cases {
        assert!(Email::parse(email).is_err());
    }
}

#[test]
fn email_missing_subject_is_rejected() {
    let email = "@domains.com";
    assert!(Email::parse(email).is_err());
}

#[test]
fn email_not_starting_with_letter_is_rejected() {
    let test_cases = vec![
        "!jimmielovell@domains.com",
        "@jimmielovell@domains.com",
        "#jimmielovell@domains.com",
        "$jimmielovell@domains.com",
        "%jimmielovell@domains.com",
        "^jimmielovell@domains.com",
        "&jimmielovell@domains.com",
        "*jimmielovell@domains.com",
        "(jimmielovell@domains.com",
        ")jimmielovell@domains.com",
        "_jimmielovell@domains.com",
        "+jimmielovell@domains.com",
        "~jimmielovell@domains.com",
        "`jimmielovell@domains.com",
    ];

    for email in test_cases {
        assert!(Email::parse(email).is_err());
    }
}

#[test]
fn valid_addresses_are_accepted() {
    assert!(Email::parse("jimmielovell@domains.com").is_ok());
    assert!(Email::parse("user.name+tag@example.co.uk").is_ok());
    assert!(Email::parse("0user@domain.com").is_ok());
    assert!(Email::parse("a@b.co").is_ok());
}

#[test]
fn short_domain_is_rejected() {
    assert!(Email::parse("a@b").is_err());
    assert!(Email::parse("a@b.c").is_err());
    assert!(Email::parse("a@.com").is_err());
}

#[test]
fn parse_trims_and_lowercases() {
    let email = Email::parse(" User@Example.COM ").unwrap();
    assert_eq!(email.as_str(), "user@example.com");
}

#[test]
fn each_stage_reports_its_own_reason() {
    assert_eq!(
        Email::parse("   ").unwrap_err().reason(),
        "an email cannot be empty"
    );
    assert_eq!(Email::parse("   ").unwrap_err().0, "an email cannot be empty");
    assert_eq!(
        Email::parse("!a@b.com").unwrap_err().0,
        "an email can only start with a letter or a number"
    );
    assert_eq!(
        Email::parse("a@b").unwrap_err().0,
        "the email does not contain a valid [domain] part"
    );
    assert_eq!(
        Email::parse("a b@domain.com").unwrap_err().0,
        "a b@domain.com is not a valid email"
    );
}

#[test]
fn parse_unsafe_stores_unchanged() {
    let email = Email::parse_unsafe("Already-Validated@Example.COM".to_string());
    assert_eq!(email.as_str(), "Already-Validated@Example.COM");
}

#[test]
fn equal_addresses_compare_equal() {
    let a = Email::parse("USER@example.com").unwrap();
    let b = Email::parse("user@EXAMPLE.com").unwrap();
    assert!(a == b);
}

#[test]
fn hash_is_the_blake3_digest() {
    let email = Email::parse_unsafe("foo".to_string());
    assert_eq!(
        email.hash(),
        "04e0bb39f30b1a3feb89f536c93be15055482df748674b00d26e5a75777702e9"
    );
}
