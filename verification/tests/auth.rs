use minicycle::auth::{signature_tag, verify_hmac};
use minicycle::cfg::Cfg;

fn config(secret: &str) -> Cfg {
    Cfg::new(secret.to_string(), true, "./reports".to_string(), "./artifacts".to_string())
}

const HELLO_SIGNATURE: &str =
    "sha256=757107ea0eb2509fc211221cce984b8a37570b6d7586c22c46f4379c8b043e17";

#[test]
fn accepts_the_signature_of_the_body() {
    let cfg = config("It's a Secret to Everybody");
    assert!(verify_hmac(&cfg, b"Hello, World!", HELLO_SIGNATURE));
}

#[test]
fn accepts_a_known_hmac_sha256_vector() {
    let cfg = config("Jefe");
    assert!(verify_hmac(
        &cfg,
        b"what do ya want for nothing?",
        "sha256=5bdcc146bf60754e6a042426089575c75a003f089d2739839dec58b964ec3843",
    ));
}

#[test]
fn accepts_upper_case_digits() {
    let cfg = config("It's a Secret to Everybody");
    let upper = format!("sha256={}", HELLO_SIGNATURE[7..].to_uppercase());
    assert_ne!(upper, HELLO_SIGNATURE);
    assert!(verify_hmac(&cfg, b"Hello, World!", &upper));
}

#[test]
fn rejects_another_body() {
    let cfg = config("It's a Secret to Everybody");
    assert!(!verify_hmac(&cfg, b"Hello, World?", HELLO_SIGNATURE));
    assert!(!verify_hmac(&cfg, b"", HELLO_SIGNATURE));
}

#[test]
fn rejects_another_secret() {
    let cfg = config("It's a Secret to Everybody.");
    assert!(!verify_hmac(&cfg, b"Hello, World!", HELLO_SIGNATURE));
}

#[test]
fn rejects_every_changed_digit() {
    let cfg = config("It's a Secret to Everybody");
    for at in 7..HELLO_SIGNATURE.len() {
        let mut bytes = HELLO_SIGNATURE.as_bytes().to_vec();
        bytes[at] = if bytes[at] == b'0' { b'1' } else { b'0' };
        let tampered = String::from_utf8(bytes).unwrap();
        assert!(!verify_hmac(&cfg, b"Hello, World!", &tampered));
    }
}

#[test]
fn rejects_malformed_signatures() {
    let cfg = config("It's a Secret to Everybody");
    let digits = &HELLO_SIGNATURE[7..];
    let body = b"Hello, World!";
    assert!(!verify_hmac(&cfg, body, ""));
    assert!(!verify_hmac(&cfg, body, "sha256="));
    assert!(!verify_hmac(&cfg, body, digits));
    assert!(!verify_hmac(&cfg, body, &format!("sha1={}", digits)));
    assert!(!verify_hmac(&cfg, body, &format!("SHA256={}", digits)));
    assert!(!verify_hmac(&cfg, body, &format!(" sha256={}", digits)));
    assert!(!verify_hmac(&cfg, body, &format!("sha256={}0", digits)));
    assert!(!verify_hmac(&cfg, body, &format!("sha256={}00", digits)));
    assert!(!verify_hmac(&cfg, body, &HELLO_SIGNATURE[..HELLO_SIGNATURE.len() - 2]));
    assert!(!verify_hmac(&cfg, body, "sha256=zz"));
    assert!(!verify_hmac(&cfg, body, "sha256=\u{e9}\u{e9}"));
}

#[test]
fn reads_the_bytes_of_a_signature() {
    assert_eq!(signature_tag("sha256=00ff"), Some(vec![0x00, 0xff]));
    assert_eq!(signature_tag("sha256=0aF3"), Some(vec![0x0a, 0xf3]));
    assert_eq!(signature_tag("sha256=DEADbeef"), Some(vec![0xde, 0xad, 0xbe, 0xef]));
    assert_eq!(signature_tag("sha256="), Some(vec![]));
}

#[test]
fn reads_no_bytes_from_a_malformed_signature() {
    assert_eq!(signature_tag(""), None);
    assert_eq!(signature_tag("00ff"), None);
    assert_eq!(signature_tag("sha256"), None);
    assert_eq!(signature_tag("sha256=0"), None);
    assert_eq!(signature_tag("sha256=0g"), None);
    assert_eq!(signature_tag("sha256=00 "), None);
    assert_eq!(signature_tag("sha256=0x00"), None);
    assert_eq!(signature_tag("sha256=\u{e9}"), None);
    assert_eq!(signature_tag("sha256=a\u{e9}b"), None);
}
