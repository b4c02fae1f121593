//! What holds of every request handled by the decisions in `gateway`.
use vstd::prelude::*;
use vstd::utf8::encode_utf8;
use crate::absolute_url::{is_absolute_url, names_bucket};
use crate::gateway::{
    bucket_name, server_error, signed_reply, targets, SignedUrlRequest, SignTarget, Status,
};

verus! {

/// A reply with status 200 holds a URL that is non-empty and absolute.
pub proof fn lemma_success_url_is_absolute(bucket: Seq<char>, backend: Result<String, ()>)
    ensures
        signed_reply(bucket, backend).status == Status::Success ==> (signed_reply(
            bucket,
            backend,
        ).body matches Some(resp) && resp.url@.len() > 0 && is_absolute_url(
            encode_utf8(resp.url@),
        )),
{
    if let Ok(u) = backend {
        let s = encode_utf8(u@);
        if names_bucket(s, encode_utf8(bucket)) {
            let (k, j) = choose|k: int, j: int|
                crate::absolute_url::splits_at(s, k, j)
                    && crate::absolute_url::path_starts_with_segment(s, j, encode_utf8(bucket));
            assert(crate::absolute_url::splits_at(s, k, j));
            if u@.len() == 0 {
                assert(s == Seq::<u8>::empty());
            }
        }
    }
}

/// A reply with status 200 to a request holds exactly the URL that the
/// backend returned for the signing call made for that request's object in the
/// configured bucket, and that URL's path starts with the bucket.
pub proof fn lemma_success_url_is_for_request(
    req: SignedUrlRequest,
    t: SignTarget,
    backend: Result<String, ()>,
)
    requires
        targets(t, req),
    ensures
        t.bucket@ == bucket_name(),
        t.object == req.object,
        signed_reply(t.bucket@, backend).status == Status::Success ==> (signed_reply(
            t.bucket@,
            backend,
        ).body matches Some(resp) && backend == Ok::<String, ()>(resp.url) && names_bucket(
            encode_utf8(resp.url@),
            encode_utf8(bucket_name()),
        )),
{
}

/// A failed signing call gives status 500 with no body; every reply is either
/// a success with a URL or that same bodiless error.
pub proof fn lemma_failure_is_opaque_server_error(bucket: Seq<char>, backend: Result<String, ()>)
    ensures
        signed_reply(bucket, Err(())) == server_error(),
        signed_reply(bucket, backend).status == Status::Success || signed_reply(bucket, backend)
            == server_error(),
        signed_reply(bucket, backend).status == Status::Success <==> signed_reply(
            bucket,
            backend,
        ).body is Some,
{
}

/// Requests for distinct objects are signed as distinct targets in the same
/// bucket, and the reply to each depends on its own signing call alone.
pub proof fn lemma_requests_do_not_interfere(
    req1: SignedUrlRequest,
    t1: SignTarget,
    backend1: Result<String, ()>,
    req2: SignedUrlRequest,
    t2: SignTarget,
    backend2: Result<String, ()>,
)
    requires
        targets(t1, req1),
        targets(t2, req2),
        req1.object@ != req2.object@,
    ensures
        t1.object@ != t2.object@,
        t1.bucket@ == t2.bucket@,
        signed_reply(t1.bucket@, backend1) == signed_reply(t2.bucket@, backend1),
        signed_reply(t2.bucket@, backend2) == signed_reply(t1.bucket@, backend2),
{
}

} // verus!
