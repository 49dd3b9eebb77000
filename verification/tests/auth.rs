use std::time::{SystemTime, UNIX_EPOCH};
use vulpix::auth::{
    stripped_query, validate_expiration, validate_request, validate_signature, SignedUrl,
};
use vulpix::errors::ImageError;

fn now() -> u64 {
    SystemTime::now().duration_since(UNIX_EPOCH).unwrap().as_secs()
}

#[test]
fn signature_of_the_fixture_validates() {
    // md5("abcd/xyz?foo=1&bar=2")
    let expected = "d4459a3f3836da68fdf27d933a7e7f5d";
    assert_eq!(validate_signature("foo=1&bar=2", "xyz", "abcd", expected), Ok(()));
    assert_eq!(
        format!("{:x}", md5::compute("abcd/xyz?foo=1&bar=2")),
        expected
    );
}

#[test]
fn any_other_signature_fails() {
    for wrong in [
        "",
        "d4459a3f3836da68fdf27d933a7e7f5e",
        "D4459A3F3836DA68FDF27D933A7E7F5D",
        "d4459a3f3836da68fdf27d933a7e7f5",
        "d4459a3f3836da68fdf27d933a7e7f5d0",
        "foo",
    ] {
        assert_eq!(
            validate_signature("foo=1&bar=2", "xyz", "abcd", wrong),
            Err(ImageError::SignatureInvalid)
        );
    }
}

#[test]
fn signature_parameter_is_stripped_wherever_it_stands() {
    let sig = "d4459a3f3836da68fdf27d933a7e7f5d";
    let last = format!("foo=1&bar=2&s={}", sig);
    let first = format!("s={}&foo=1&bar=2", sig);
    let middle = format!("foo=1&s={}&bar=2", sig);
    assert_eq!(validate_signature(&last, "xyz", "abcd", sig), Ok(()));
    assert_eq!(validate_signature(&first, "xyz", "abcd", sig), Ok(()));
    assert_eq!(validate_signature(&middle, "xyz", "abcd", sig), Ok(()));
}

#[test]
fn signature_depends_on_salt_key_and_query() {
    let sig = "d4459a3f3836da68fdf27d933a7e7f5d";
    assert_eq!(
        validate_signature("foo=1&bar=2", "xyz", "abce", sig),
        Err(ImageError::SignatureInvalid)
    );
    assert_eq!(
        validate_signature("foo=1&bar=2", "xyy", "abcd", sig),
        Err(ImageError::SignatureInvalid)
    );
    assert_eq!(
        validate_signature("bar=2&foo=1", "xyz", "abcd", sig),
        Err(ImageError::SignatureInvalid)
    );
}

#[test]
fn signature_over_an_empty_query() {
    // md5("abcd/xyz?")
    let sig = "b7283e115c3251eb3d6619761dcdda9a";
    assert_eq!(validate_signature("", "xyz", "abcd", sig), Ok(()));
    assert_eq!(validate_signature("s=b7283e115c3251eb3d6619761dcdda9a", "xyz", "abcd", sig), Ok(()));
}

#[test]
fn signature_over_text_beyond_ascii() {
    // md5 of the UTF-8 bytes of "abcd/dir/ü.png?w=10"
    let sig = "d276e51664b2dcef51fb4b939957209c";
    assert_eq!(validate_signature("w=10", "dir/ü.png", "abcd", sig), Ok(()));
}

#[test]
fn stripping_keeps_everything_but_the_signature() {
    assert_eq!(stripped_query("foo=1&bar=2"), "foo=1&bar=2");
    assert_eq!(stripped_query("foo=1&bar=2&s=abc"), "foo=1&bar=2");
    assert_eq!(stripped_query("s=abc&foo=1&bar=2"), "foo=1&bar=2");
    assert_eq!(stripped_query("foo=1&s=abc&bar=2"), "foo=1&bar=2");
    assert_eq!(stripped_query("s=abc"), "");
    assert_eq!(stripped_query("s"), "");
    assert_eq!(stripped_query("s&a"), "a");
    assert_eq!(stripped_query(""), "");
    assert_eq!(stripped_query("s=1&s=2&a=3"), "a=3");
}

#[test]
fn stripping_leaves_other_names_alone() {
    assert_eq!(stripped_query("sharpen&size=3"), "sharpen&size=3");
    assert_eq!(stripped_query("xs=1&as=2"), "xs=1&as=2");
    assert_eq!(stripped_query("a=s=1"), "a=s=1");
    assert_eq!(stripped_query("S=1"), "S=1");
    assert_eq!(stripped_query("a&&b"), "a&&b");
    assert_eq!(stripped_query("&a"), "&a");
    assert_eq!(stripped_query("a&"), "a&");
    assert_eq!(stripped_query("&s=1&"), "&");
    assert_eq!(stripped_query("a&s=1"), "a");
}

#[test]
fn expiration_in_the_future_is_valid() {
    let t = now();
    assert_eq!(validate_expiration(t + 1000, t), Ok(()));
}

#[test]
fn expiration_in_the_past_is_expired() {
    let t = now();
    assert_eq!(validate_expiration(t - 1000, t), Err(ImageError::Expired));
}

#[test]
fn expiration_at_the_very_second_is_expired() {
    assert_eq!(validate_expiration(1_700_000_000, 1_700_000_000), Err(ImageError::Expired));
    assert_eq!(validate_expiration(1_700_000_001, 1_700_000_000), Ok(()));
    assert_eq!(validate_expiration(0, 0), Err(ImageError::Expired));
    assert_eq!(validate_expiration(u64::MAX, u64::MAX - 1), Ok(()));
}

#[test]
fn a_request_without_signature_and_time_passes() {
    let signed = SignedUrl { signature: None, expires: None };
    assert_eq!(validate_request("foo=1", "xyz", Some("abcd"), &signed, 100), Ok(()));
    assert_eq!(validate_request("foo=1", "xyz", None, &signed, 100), Ok(()));
}

#[test]
fn a_request_with_both_runs_both_checks() {
    let sig = "d4459a3f3836da68fdf27d933a7e7f5d".to_string();
    let good = SignedUrl { signature: Some(sig.clone()), expires: Some(200) };
    assert_eq!(validate_request("foo=1&bar=2", "xyz", Some("abcd"), &good, 100), Ok(()));
    assert_eq!(
        validate_request("foo=1&bar=2", "xyz", Some("abcd"), &good, 200),
        Err(ImageError::Expired)
    );
    let bad = SignedUrl { signature: Some("nope".to_string()), expires: Some(200) };
    assert_eq!(
        validate_request("foo=1&bar=2", "xyz", Some("abcd"), &bad, 100),
        Err(ImageError::SignatureInvalid)
    );
    // Both fail: the signature is reported.
    assert_eq!(
        validate_request("foo=1&bar=2", "xyz", Some("abcd"), &bad, 300),
        Err(ImageError::SignatureInvalid)
    );
}

#[test]
fn a_request_with_one_runs_that_check() {
    let only_time = SignedUrl { signature: None, expires: Some(200) };
    assert_eq!(validate_request("foo=1", "xyz", Some("abcd"), &only_time, 199), Ok(()));
    assert_eq!(
        validate_request("foo=1", "xyz", Some("abcd"), &only_time, 201),
        Err(ImageError::Expired)
    );
    let only_sig = SignedUrl { signature: Some("nope".to_string()), expires: None };
    assert_eq!(
        validate_request("foo=1", "xyz", Some("abcd"), &only_sig, 0),
        Err(ImageError::SignatureInvalid)
    );
}

#[test]
fn without_a_salt_no_signature_is_checked() {
    let signed = SignedUrl { signature: Some("nope".to_string()), expires: Some(200) };
    assert_eq!(validate_request("foo=1", "xyz", None, &signed, 100), Ok(()));
    assert_eq!(validate_request("foo=1", "xyz", None, &signed, 200), Err(ImageError::Expired));
}
