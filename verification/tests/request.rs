use vulpix::decimal::Decimal;
use vulpix::errors::ImageError;
use vulpix::flow::{FetchAction, FetchPhase, Store};
use vulpix::query::{Param, ParamError};
use vulpix::request::{accept_request, Rejection};
use vulpix::response::AppError;

fn pairs(items: &[(&str, &str)]) -> Vec<(String, String)> {
    items.iter().map(|(k, v)| (k.to_string(), v.to_string())).collect()
}

#[test]
fn a_plain_request_is_accepted_and_begins_with_the_cache() {
    let a = accept_request(&pairs(&[("w", "300")]), "w=300", "cats/tom.jpg", None, 0).unwrap();
    assert_eq!(a.params.w, Some(Decimal { thousandths: 300_000 }));
    assert_eq!(a.first, FetchAction::Read(Store::Cache));
    assert_eq!(a.flow.phase, FetchPhase::CacheLookup);
    assert_eq!(a.flow.params, a.params);
    // md5("w=300000;h=-;format=-;blur=-;sharpen=-;enhance=-;facecrop=-;facepad=-;")
    assert_eq!(
        a.cached_key,
        format!(
            "{:x}/cats/tom.jpg",
            md5::compute("w=300000;h=-;format=-;blur=-;sharpen=-;enhance=-;facecrop=-;facepad=-;")
        )
    );
}

#[test]
fn a_request_without_parameters_is_accepted() {
    let a = accept_request(&pairs(&[]), "", "tom.jpg", Some("salt"), 0).unwrap();
    assert_eq!(a.cached_key, "a73d8798883e2fe4c85eca0a4b8a82bb/tom.jpg");
}

#[test]
fn a_malformed_number_turns_the_request_away() {
    for (name, value, param) in [
        ("w", "wide", Param::W),
        ("w", "0", Param::W),
        ("h", "-3", Param::H),
        ("h", "", Param::H),
        ("facepad", "1e2", Param::Facepad),
        ("expires", "tomorrow", Param::Expires),
    ] {
        let q = pairs(&[("blur", ""), (name, value)]);
        assert_eq!(
            accept_request(&q, "", "tom.jpg", Some("salt"), 0),
            Err(Rejection::Param(ParamError::Invalid(param)))
        );
    }
}

#[test]
fn a_signed_request_is_accepted_with_the_right_signature() {
    // md5("salt/cats/tom.jpg?w=300&expires=2000000000")
    let sig = "ebefb035a0ab18e8d278e95a1359e2f8";
    let raw = format!("w=300&expires=2000000000&s={}", sig);
    let q = pairs(&[("w", "300"), ("expires", "2000000000"), ("s", sig)]);
    let a = accept_request(&q, &raw, "cats/tom.jpg", Some("salt"), 1_900_000_000).unwrap();
    assert_eq!(a.first, FetchAction::Read(Store::Cache));
}

#[test]
fn a_wrong_signature_turns_the_request_away() {
    let sig = "ebefb035a0ab18e8d278e95a1359e2f8";
    let raw = format!("w=301&expires=2000000000&s={}", sig);
    let q = pairs(&[("w", "301"), ("expires", "2000000000"), ("s", sig)]);
    assert_eq!(
        accept_request(&q, &raw, "cats/tom.jpg", Some("salt"), 1_900_000_000),
        Err(Rejection::Auth(ImageError::SignatureInvalid))
    );
}

#[test]
fn an_expired_request_is_turned_away() {
    let sig = "ebefb035a0ab18e8d278e95a1359e2f8";
    let raw = format!("w=300&expires=2000000000&s={}", sig);
    let q = pairs(&[("w", "300"), ("expires", "2000000000"), ("s", sig)]);
    assert_eq!(
        accept_request(&q, &raw, "cats/tom.jpg", Some("salt"), 2_000_000_000),
        Err(Rejection::Auth(ImageError::Expired))
    );
}

#[test]
fn parameters_are_read_before_the_signature_is_checked() {
    let q = pairs(&[("w", "x"), ("s", "wrong")]);
    assert_eq!(
        accept_request(&q, "w=x&s=wrong", "tom.jpg", Some("salt"), 0),
        Err(Rejection::Param(ParamError::Invalid(Param::W)))
    );
}

#[test]
fn rejections_have_their_status_and_text() {
    let bad = Rejection::Param(ParamError::Invalid(Param::W));
    assert_eq!(bad.status_code(), 400);
    assert_eq!(Rejection::Auth(ImageError::Expired).status_code(), 500);
    assert_eq!(Rejection::Auth(ImageError::SignatureInvalid).status_code(), 500);
    assert_eq!(ImageError::TransformFailed("x".to_string()).status_code(), 500);
    assert_eq!(
        ParamError::Invalid(Param::Facepad).message(),
        "invalid value for parameter: facepad"
    );
    assert_eq!(ParamError::Repeated(Param::Signature).message(), "parameter named twice: s");
    assert_eq!(Param::Blur.name(), "blur");
}

#[test]
fn failures_are_answered_with_status_and_texts() {
    let failed = AppError::from_failure(&ImageError::StorageReadError("gone".to_string()));
    assert_eq!(
        failed,
        AppError {
            status: 500,
            err: "an error occured while processing image".to_string(),
            msg: "img read error: gone".to_string(),
        }
    );
    let rejected = AppError::from_rejection(&Rejection::Param(ParamError::Invalid(Param::H)));
    assert_eq!(rejected.status, 400);
    assert_eq!(rejected.err, "an error occured while processing image");
    assert_eq!(rejected.msg, "invalid value for parameter: h");
    let expired = AppError::from_rejection(&Rejection::Auth(ImageError::Expired));
    assert_eq!(expired.status, 500);
    assert_eq!(expired.msg, "url expired");
}
