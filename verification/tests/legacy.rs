use lazy_regex::Regex;
use meo_wifi::session::document::Document;
use meo_wifi::session::legacy::{
    email, password, Legacy, CONTENT_TYPE, IV, LOGOFF_URL, ROOM, ROUNDS, SALT, STATE_URL, TIMEOUT,
    USER_AGENT,
};
use meo_wifi::session::Error;

fn client() -> Legacy {
    Legacy::new("user@example.com", "Passw0rd").expect("the credentials were refused")
}

#[test]
fn email_addresses_are_told_from_other_texts() {
    for text in [
        "user@example.com",
        "a@b.co",
        "first.last+tag%x_y-z@sub-domain.example.org",
        "USER@EXAMPLE.COM",
        "1@2.ab",
        "a@b..cd",
        "a@.b.cd",
        "a@-.cd",
    ] {
        assert!(email(text), "{} is an address", text);
    }
    for text in [
        "",
        "user",
        "@example.com",
        "user@",
        "user@example",
        "user@example.c",
        "user@.com",
        "user@example.c0m",
        "user@example.com ",
        " user@example.com",
        "user@exa mple.com",
        "user@@example.com",
        "user@example@example.com",
        "us er@example.com",
        "user@example.com\n",
        "user@example.cöm",
        "üser@example.com",
        "user@example_x.com",
        "a@b.cd.",
        "a@b.c",
    ] {
        assert!(!email(text), "{} is no address", text);
    }
}

#[test]
fn email_check_agrees_with_the_pattern() {
    let pattern = Regex::new(r"^[a-zA-Z0-9._%+-]+@[a-zA-Z0-9.-]+\.[a-zA-Z]{2,}$").unwrap();
    let pieces = ["", "a", "Z9", ".", "@", "-", "_", "%", "+", " ", "é", "co", "\n", "1"];
    let mut checked = 0;
    for a in pieces {
        for b in pieces {
            for c in pieces {
                for d in pieces {
                    for e in ["", ".", "x", ".io"] {
                        let text = format!("{}{}{}{}{}", a, b, c, d, e);
                        assert_eq!(email(&text), pattern.is_match(&text), "on {:?}", text);
                        checked += 1;
                    }
                }
            }
        }
    }
    assert_eq!(checked, 14 * 14 * 14 * 14 * 4);
}

#[test]
fn passwords_need_length_and_three_kinds_of_characters() {
    assert!(password("Passw0rd"));
    assert!(password("aB3-----"));
    assert!(!password("Passw0r"));
    assert!(!password("password1"));
    assert!(!password("PASSWORD1"));
    assert!(!password("Password"));
    assert!(!password(""));
}

#[test]
fn password_length_is_counted_in_bytes() {
    // Six characters, nine bytes.
    assert!(password("aB3ééé"));
    // Seven characters, seven bytes.
    assert!(!password("aB3defg"));
    // Letters and digits outside ASCII do not count.
    assert!(!password("ÀÉÎÕÜàéîõü١٢٣"));
}

#[test]
fn credentials_are_checked_user_name_first() {
    assert_eq!(Legacy::validate_credentials("user@example.com", "Passw0rd"), Ok(()));
    assert_eq!(Legacy::validate_credentials("user", "Passw0rd"), Err(Error::InvalidEmail));
    assert_eq!(
        Legacy::validate_credentials("user@example.com", "password"),
        Err(Error::InvalidPassword)
    );
    assert_eq!(Legacy::validate_credentials("user", "password"), Err(Error::InvalidEmail));
}

#[test]
fn client_is_made_of_valid_credentials_only() {
    assert!(Legacy::new("user@example.com", "Passw0rd").is_ok());
    assert_eq!(Legacy::new("user", "Passw0rd").err(), Some(Error::InvalidEmail));
    assert_eq!(Legacy::new("user@example.com", "short").err(), Some(Error::InvalidPassword));
    let copy = client().clone();
    assert_eq!(copy.encrypt_password("10.0.0.2"), client().encrypt_password("10.0.0.2"));
}

#[test]
fn password_is_encrypted_under_a_key_made_of_the_address() {
    assert_eq!(
        client().encrypt_password("192.168.1.10"),
        Some("heHUIB98HC+WUdBmDNu2Yw==".to_string())
    );
    let client = Legacy::new("user@example.com", "Str0ngPassw0rdThatIsLong").unwrap();
    assert_eq!(
        client.encrypt_password("10.0.0.2"),
        Some("S2badeItesSBcBpzodTblUea8L157+JII9Qc0ijBn8A=".to_string())
    );
}

#[test]
fn encrypted_password_depends_on_the_address() {
    let here = client().encrypt_password("192.168.1.10");
    let there = client().encrypt_password("192.168.1.11");
    assert!(here.is_some() && there.is_some());
    assert_ne!(here, there);
}

#[test]
fn password_of_forty_eight_bytes_is_too_long_to_encrypt() {
    let longest = format!("aB3{}", "x".repeat(44));
    assert_eq!(longest.len(), 47);
    let client = Legacy::new("user@example.com", &longest).unwrap();
    let encrypted = client.encrypt_password("10.0.0.2").expect("47 bytes fit");
    assert_eq!(encrypted.len(), 64);
    let too_long = format!("aB3{}", "x".repeat(45));
    assert_eq!(too_long.len(), 48);
    let client = Legacy::new("user@example.com", &too_long).unwrap();
    assert_eq!(client.encrypt_password("10.0.0.2"), None);
    assert_eq!(client.login_url("10.0.0.2"), None);
}

#[test]
fn padding_fills_whole_blocks() {
    let one_block = Legacy::new("user@example.com", &format!("aB3{}", "x".repeat(12))).unwrap();
    assert_eq!(one_block.encrypt_password("10.0.0.2").unwrap().len(), 24);
    let two_blocks = Legacy::new("user@example.com", &format!("aB3{}", "x".repeat(13))).unwrap();
    assert_eq!(two_blocks.encrypt_password("10.0.0.2").unwrap().len(), 44);
}

#[test]
fn login_goes_to_an_address_with_encoded_credentials() {
    assert_eq!(
        client().login_url("192.168.1.10"),
        Some(
            "https://servicoswifi.apps.meo.pt/HotspotConnection.svc/Login?username=user%40example.com&password=heHUIB98HC%2BWUdBmDNu2Yw%3D%3D&navigatorLang=en&callback="
                .to_string()
        )
    );
}

#[test]
fn portal_constants_are_what_the_portal_expects() {
    assert_eq!(
        STATE_URL,
        "https://servicoswifi.apps.meo.pt/HotspotConnection.svc/GetState?mobile=false"
    );
    assert_eq!(
        LOGOFF_URL,
        "https://servicoswifi.apps.meo.pt/HotspotConnection.svc/Logoff?callback="
    );
    assert_eq!(USER_AGENT, "Mozilla/5.0 (X11; Linux x86_64)");
    assert_eq!(CONTENT_TYPE, "application/x-www-form-urlencoded");
    assert_eq!(TIMEOUT, 2);
    assert_eq!(ROUNDS, 100);
    assert_eq!(ROOM, 48);
    assert_eq!(&SALT[..], b"w#$ifi124)9meo98WIF");
    assert_eq!(IV.len(), 16);
    assert_eq!(IV[0], 0x72);
    assert_eq!(IV[15], 0xc4);
}

#[test]
fn login_succeeds_where_the_result_is_true() {
    assert_eq!(client().login(r#"{"result":true}"#), Ok(()));
    assert_eq!(client().login(r#"{"result":true,"error":"invalid credentials"}"#), Ok(()));
}

#[test]
fn refused_login_is_explained_by_the_error() {
    let login = |error: &str| client().login(&format!(r#"{{"result":false,"error":"{}"}}"#, error));
    assert_eq!(login("Client is OUT OF REACH"), Err(Error::NetworkUnreachable));
    assert_eq!(login("Invalid Credentials."), Err(Error::CredentialsMismatch));
    assert_eq!(login("The FrammedIP is missing"), Err(Error::InvalidIp));
    assert_eq!(login("User Already Logged in"), Err(Error::AlreadyLoggedIn));
    assert_eq!(login("Something ELSE"), Err(Error::Custom("something else".to_string())));
    assert_eq!(login(""), Err(Error::Custom("".to_string())));
}

#[test]
fn first_known_reason_wins() {
    let reply = r#"{"error":"already logged, invalid credentials, out of reach"}"#;
    assert_eq!(client().login(reply), Err(Error::NetworkUnreachable));
    let reply = r#"{"error":"already logged with frammedip"}"#;
    assert_eq!(client().login(reply), Err(Error::InvalidIp));
}

#[test]
fn refused_login_without_explanation_is_an_unknown_error() {
    let unknown = Err(Error::Custom("Unknown error occurred".to_string()));
    assert_eq!(client().login(r#"{"result":false}"#), unknown);
    assert_eq!(client().login(r#"{}"#), unknown);
    assert_eq!(client().login(r#"{"result":"true"}"#), unknown);
    assert_eq!(client().login(r#"{"result":false,"error":7}"#), unknown);
    assert_eq!(client().login(r#"[true]"#), unknown);
    assert_eq!(client().login(r#"true"#), unknown);
}

#[test]
fn login_reply_that_is_not_json_is_a_failure() {
    assert_eq!(
        client().login("<html>"),
        Err(Error::Custom("Failed to read JSON: expected value at line 1 column 1".to_string()))
    );
    assert!(matches!(client().login(""), Err(Error::Custom(_))));
}

#[test]
fn login_failure_reads_the_explanation_in_lowercase() {
    assert_eq!(Legacy::login_failure(None), Error::Custom("Unknown error occurred".to_string()));
    assert_eq!(
        Legacy::login_failure(Some("INVALID CREDENTIALS".to_string())),
        Error::CredentialsMismatch
    );
    assert_eq!(
        Legacy::login_failure(Some("Quota EXCEEDED".to_string())),
        Error::Custom("quota exceeded".to_string())
    );
}

#[test]
fn login_outcome_goes_by_the_document() {
    let document = Document::parse(r#"{"result":false,"error":"out of reach"}"#).unwrap();
    assert_eq!(Legacy::login_outcome(&document), Err(Error::NetworkUnreachable));
    let document = Document::parse(r#"{"result":true}"#).unwrap();
    assert_eq!(Legacy::login_outcome(&document), Ok(()));
}

#[test]
fn session_is_logged_in_where_the_portal_says_so() {
    assert!(client().is_logged(r#"{"LoggedOn":true}"#));
    assert!(client().is_logged(r#"{"Other":1,"LoggedOn":true,"More":"x"}"#));
    assert!(!client().is_logged(r#"{"LoggedOn":false}"#));
    assert!(!client().is_logged(r#"{"LoggedOn":"true"}"#));
    assert!(!client().is_logged(r#"{"loggedon":true}"#));
    assert!(!client().is_logged(r#"{}"#));
    assert!(!client().is_logged(r#"true"#));
    assert!(!client().is_logged("not json"));
    assert!(!client().is_logged(""));
}

#[test]
fn logout_succeeded_where_the_reply_holds_true() {
    assert_eq!(client().logout("true"), Ok(()));
    assert_eq!(client().logout(r#"callback({"result":true})"#), Ok(()));
    let failed = Err(Error::Custom("failed to logout".to_string()));
    assert_eq!(client().logout("false"), failed);
    assert_eq!(client().logout("TRUE"), failed);
    assert_eq!(client().logout("tru"), failed);
    assert_eq!(client().logout(""), failed);
}

#[test]
fn document_hands_out_its_members() {
    let document = Document::parse(r#"{"a":true,"b":"text","c":3,"d":false,"e":null}"#).unwrap();
    assert_eq!(document.boolean("a"), Some(true));
    assert_eq!(document.boolean("d"), Some(false));
    assert_eq!(document.boolean("b"), None);
    assert_eq!(document.boolean("missing"), None);
    assert_eq!(document.string("b"), Some("text".to_string()));
    assert_eq!(document.string("a"), None);
    assert_eq!(document.string("c"), None);
    assert_eq!(document.string("e"), None);
}

#[test]
fn document_is_parsed_from_json_only() {
    assert!(Document::parse("{}").is_ok());
    assert!(Document::parse("[1, 2]").is_ok());
    assert_eq!(
        Document::parse("{").err(),
        Some("EOF while parsing an object at line 1 column 1".to_string())
    );
    let document = Document::parse("[true]").unwrap();
    assert_eq!(document.boolean("0"), None);
}

#[test]
fn session_failures_show_their_text() {
    assert_eq!(Error::CredentialsMismatch.to_string(), "Credentials do not match.");
    assert_eq!(Error::InvalidIp.to_string(), "Invalid IP address.");
    assert_eq!(Error::InvalidEmail.to_string(), "Invalid email address.");
    assert_eq!(Error::InvalidPassword.to_string(), "Invalid password.");
    assert_eq!(Error::NetworkUnreachable.to_string(), "Network is unreachable.");
    assert_eq!(Error::AlreadyLoggedIn.to_string(), "User is already logged in.");
    assert_eq!(Error::Custom("why".to_string()).to_string(), "Custom error: why");
    assert_eq!(Error::custom("why"), Error::Custom("why".to_string()));
    assert_eq!(Error::InvalidIp.clone(), Error::InvalidIp);
}

#[test]
fn password_check_agrees_with_its_rules_spelled_out() {
    let samples = [
        "", "a", "aB3", "aB3defg", "aB3defgh", "AAAAAAA1", "aaaaaaa1", "aaaaaaaA", "aA1     ",
        "aB3ééé", "ÀÉÎÕÜàéîõü١٢٣", "12345678", "abcdefgh", "ABCDEFGH", "Passw0rd", "P4ssWORD",
        "p4ssword", "x9Yééééééé",
    ];
    for sample in samples {
        let expected = sample.len() >= 8
            && sample.chars().any(|c| c.is_ascii_lowercase())
            && sample.chars().any(|c| c.is_ascii_uppercase())
            && sample.chars().any(|c| c.is_ascii_digit());
        assert_eq!(password(sample), expected, "on {:?}", sample);
    }
}

#[test]
fn login_address_encodes_what_is_reserved() {
    let client = Legacy::new("a+b%c_d-e.f@example.com", "Passw0rd").unwrap();
    let url = client.login_url("192.168.1.10").unwrap();
    assert!(url.contains("username=a%2Bb%25c_d-e.f%40example.com&password="), "{}", url);
    assert!(url.ends_with("&navigatorLang=en&callback="));
}
