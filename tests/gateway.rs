use signed_url_gateway::absolute_url::{split_url, url_names_bucket};
use signed_url_gateway::gateway::{
    check_signed_url, handle_signed_url, receive, respond, Action, Reply, SignTarget,
    SignedUrlRequest, SigningError, Status, BUCKET,
};

const SIGNED_Q1: &str = "https://storage.googleapis.com/symposia-dev-bucket/reports/q1.pdf?X-Goog-Algorithm=GOOG4-RSA-SHA256&X-Goog-Signature=0a1b2c";

fn request(object: &str) -> Option<SignedUrlRequest> {
    Some(SignedUrlRequest { object: object.to_string() })
}

fn target_of(body: Option<SignedUrlRequest>) -> SignTarget {
    match receive(body) {
        Action::Sign(t) => t,
        Action::Respond(r) => panic!("expected a signing step, got {:?}", r),
    }
}

#[test]
fn healthy_backend_signs_reports_object() {
    let t = target_of(request("reports/q1.pdf"));
    assert_eq!(t.bucket, "symposia-dev-bucket");
    assert_eq!(t.object, "reports/q1.pdf");
    let reply = handle_signed_url(&t, Ok(SIGNED_Q1.to_string()));
    assert_eq!(reply.status, Status::Success);
    assert_eq!(reply.status.code(), 200);
    let body = reply.body.expect("a success has a body");
    assert_eq!(body.url, SIGNED_Q1);
    assert!(body.url.contains("/symposia-dev-bucket/reports/q1.pdf?"));
}

#[test]
fn failed_signing_gives_500_without_body() {
    let t = target_of(request("missing.txt"));
    assert_eq!(t.object, "missing.txt");
    let reply = handle_signed_url(&t, Err(()));
    assert_eq!(reply.status, Status::InternalServerError);
    assert_eq!(reply.status.code(), 500);
    assert!(reply.body.is_none());
}

#[test]
fn missing_object_gives_400() {
    match receive(None) {
        Action::Respond(reply) => {
            assert_eq!(reply, Reply { status: Status::BadRequest, body: None });
            assert_eq!(reply.status.code(), 400);
        }
        Action::Sign(t) => panic!("no signing call may be made, got {:?}", t),
    }
}

#[test]
fn bucket_is_fixed() {
    assert_eq!(BUCKET, "symposia-dev-bucket");
    let t = target_of(request("a/b/../c"));
    assert_eq!(t.bucket, BUCKET);
    assert_eq!(t.object, "a/b/../c");
}

#[test]
fn success_url_is_non_empty_and_absolute() {
    let t = target_of(request("x.bin"));
    let url = "http://localhost:4443/symposia-dev-bucket/x.bin".to_string();
    let reply = handle_signed_url(&t, Ok(url.clone()));
    let body = reply.body.expect("accepted");
    assert!(!body.url.is_empty());
    assert_eq!(split_url(body.url.as_bytes()), Some((4, 21)));
}

#[test]
fn distinct_requests_get_their_own_urls() {
    let t1 = target_of(request("one.txt"));
    let t2 = target_of(request("two.txt"));
    assert_ne!(t1.object, t2.object);
    let u1 = "https://storage.googleapis.com/symposia-dev-bucket/one.txt?sig=1".to_string();
    let u2 = "https://storage.googleapis.com/symposia-dev-bucket/two.txt?sig=2".to_string();
    let r2 = handle_signed_url(&t2, Ok(u2.clone()));
    let r1 = handle_signed_url(&t1, Ok(u1.clone()));
    assert_eq!(r1.body.unwrap().url, u1);
    assert_eq!(r2.body.unwrap().url, u2);
}

#[test]
fn url_into_another_bucket_is_refused() {
    let t = target_of(request("reports/q1.pdf"));
    let other = "https://storage.googleapis.com/other-bucket/reports/q1.pdf?sig=1".to_string();
    assert_eq!(check_signed_url(&t, Ok(other.clone())), Err(SigningError::UnexpectedUrl));
    let reply = handle_signed_url(&t, Ok(other));
    assert_eq!(reply.status.code(), 500);
    assert!(reply.body.is_none());
}

#[test]
fn bucket_must_be_a_whole_segment() {
    let t = target_of(request("x"));
    let longer = "https://storage.googleapis.com/symposia-dev-bucket-2/x".to_string();
    assert_eq!(check_signed_url(&t, Ok(longer)), Err(SigningError::UnexpectedUrl));
    let bare = "https://storage.googleapis.com/symposia-dev-bucket".to_string();
    assert_eq!(check_signed_url(&t, Ok(bare.clone())), Ok(bare));
    let query = "https://storage.googleapis.com/symposia-dev-bucket?x=1".to_string();
    assert_eq!(check_signed_url(&t, Ok(query.clone())), Ok(query));
}

#[test]
fn backend_failure_is_one_error() {
    let t = target_of(request("x"));
    assert_eq!(check_signed_url(&t, Err(())), Err(SigningError::Backend));
}

#[test]
fn malformed_urls_are_refused() {
    let t = target_of(request("x"));
    for bad in [
        "",
        "not a url",
        "/symposia-dev-bucket/x",
        "https:///symposia-dev-bucket/x",
        "1https://host/symposia-dev-bucket/x",
        "https:/host/symposia-dev-bucket/x",
        "https://host",
        "https://host/",
    ] {
        assert_eq!(
            check_signed_url(&t, Ok(bad.to_string())),
            Err(SigningError::UnexpectedUrl),
            "{}",
            bad
        );
    }
}

#[test]
fn respond_maps_each_outcome() {
    let ok = respond(Ok("https://h/symposia-dev-bucket/o".to_string()));
    assert_eq!(ok.status, Status::Success);
    assert_eq!(ok.body.unwrap().url, "https://h/symposia-dev-bucket/o");
    let e1 = respond(Err(SigningError::Backend));
    let e2 = respond(Err(SigningError::UnexpectedUrl));
    assert_eq!(e1, e2);
    assert_eq!(e1.status.code(), 500);
}

#[test]
fn split_url_finds_scheme_and_authority() {
    assert_eq!(split_url(b"https://a.b/c"), Some((5, 11)));
    assert_eq!(split_url(b"svn+ssh://h"), Some((7, 11)));
    assert_eq!(split_url(b"https://a.b?q#f"), Some((5, 11)));
    assert_eq!(split_url(b"https://"), None);
    assert_eq!(split_url(b"://h"), None);
}

#[test]
fn url_names_bucket_checks_first_segment() {
    assert!(url_names_bucket("https://h/b/o", "b"));
    assert!(url_names_bucket("https://h/b#f", "b"));
    assert!(!url_names_bucket("https://h/o/b", "b"));
    assert!(!url_names_bucket("https://h/bb/o", "b"));
    assert!(!url_names_bucket("h/b/o", "b"));
}
