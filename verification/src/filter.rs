//! The composed request predicate: request method `POST`, content type
//! `application/x-www-form-urlencoded`, and a first form field `_method`
//! whose value names the caller's target method.

use vstd::prelude::*;

use crate::inspect::parse_method_in_first_field;
use crate::inspect::spec_first_field_token;
use crate::method::Method;
use crate::method::name_post;

verus! {

/// The ASCII-lowercase image of `b`.
pub open spec fn lower(b: u8) -> u8 {
    if ('A' as u8) <= b && b <= ('Z' as u8) {
        (b + 32) as u8
    } else {
        b
    }
}

/// Whether `a` and `b` are equal up to ASCII case.
pub open spec fn ascii_eq_ignore_case(a: Seq<u8>, b: Seq<u8>) -> bool {
    a.len() == b.len() && forall|i: int| 0 <= i < a.len() ==> lower(a[i]) == lower(b[i])
}

/// The bytes that spell the content type `application/x-www-form-urlencoded`.
pub open spec fn form_content_type() -> Seq<u8> {
    seq![
        ('a' as u8), ('p' as u8), ('p' as u8), ('l' as u8), ('i' as u8), ('c' as u8), ('a' as u8), ('t' as u8), ('i' as u8), ('o' as u8), ('n' as u8), ('/' as u8), ('x' as u8), ('-' as u8), ('w' as u8),
        ('w' as u8), ('w' as u8), ('-' as u8), ('f' as u8), ('o' as u8), ('r' as u8), ('m' as u8), ('-' as u8), ('u' as u8), ('r' as u8), ('l' as u8), ('e' as u8), ('n' as u8), ('c' as u8), ('o' as u8),
        ('d' as u8), ('e' as u8), ('d' as u8),
    ]
}

/// The view of an optional header value.
pub open spec fn opt_bytes_view(o: Option<&[u8]>) -> Option<Seq<u8>> {
    match o {
        Some(h) => Some(h@),
        None => None,
    }
}

/// Whether a request matches the method-override filter for `target`: its
/// method is `POST`, its content type is `application/x-www-form-urlencoded`
/// up to ASCII case, and the first field of its body is `_method` with
/// `target`'s token as the value.
pub open spec fn spec_form_method_applies(
    target: Method,
    req_method: Method,
    content_type: Option<Seq<u8>>,
    body: Seq<u8>,
) -> bool {
    &&& req_method@ == name_post()
    &&& (content_type matches Some(h) && ascii_eq_ignore_case(h, form_content_type()))
    &&& spec_first_field_token(body) == Some(target@)
}

/// Even when the body's first field names a valid method, the composed
/// predicate fails whenever that method differs from the filter's target.
pub proof fn lemma_other_method_never_applies(
    target: Method,
    req_method: Method,
    content_type: Option<Seq<u8>>,
    body: Seq<u8>,
)
    requires
        spec_first_field_token(body) matches Some(v) && v != target@,
    ensures
        !spec_form_method_applies(target, req_method, content_type, body),
{
}

/// With the content-type header absent, or present with any value other
/// than `application/x-www-form-urlencoded`, the composed predicate fails,
/// whatever the body holds.
pub proof fn lemma_wrong_content_type_never_applies(
    target: Method,
    req_method: Method,
    content_type: Option<Seq<u8>>,
    body: Seq<u8>,
)
    requires
        match content_type {
            Some(h) => !ascii_eq_ignore_case(h, form_content_type()),
            None => true,
        },
    ensures
        !spec_form_method_applies(target, req_method, content_type, body),
{
}

/// A request whose method is not `POST` never passes the composed
/// predicate, whatever its headers and body hold.
pub proof fn lemma_not_post_never_applies(
    target: Method,
    req_method: Method,
    content_type: Option<Seq<u8>>,
    body: Seq<u8>,
)
    requires
        req_method@ != name_post(),
    ensures
        !spec_form_method_applies(target, req_method, content_type, body),
{
}

/// Whether `h` spells `application/x-www-form-urlencoded` up to ASCII case.
pub fn is_form_content_type(h: &[u8]) -> (r: bool)
    ensures
        r == ascii_eq_ignore_case(h@, form_content_type()),
{
    let expected: Vec<u8> = vec![
        ('a' as u8), ('p' as u8), ('p' as u8), ('l' as u8), ('i' as u8), ('c' as u8), ('a' as u8), ('t' as u8), ('i' as u8), ('o' as u8), ('n' as u8), ('/' as u8), ('x' as u8), ('-' as u8), ('w' as u8),
        ('w' as u8), ('w' as u8), ('-' as u8), ('f' as u8), ('o' as u8), ('r' as u8), ('m' as u8), ('-' as u8), ('u' as u8), ('r' as u8), ('l' as u8), ('e' as u8), ('n' as u8), ('c' as u8), ('o' as u8),
        ('d' as u8), ('e' as u8), ('d' as u8),
    ];
    proof {
        assert(expected@ =~= form_content_type());
    }
    if h.len() != expected.len() {
        return false;
    }
    let n = h.len();
    let mut i: usize = 0;
    while i < n
        invariant
            i <= n,
            n == h@.len() == expected@.len(),
            expected@ == form_content_type(),
            forall|k: int| 0 <= k < i ==> lower(h@[k]) == lower(expected@[k]),
        decreases n - i,
    {
        if lower_byte(h[i]) != lower_byte(expected[i]) {
            return false;
        }
        i += 1;
    }
    true
}

/// Evaluates the composed predicate on one request, short-circuiting in the
/// original guard order: request method first, then content type, and the
/// body only when both gates hold. Returns exactly
/// `spec_form_method_applies` of the request.
pub fn form_method_applies(
    target: &Method,
    req_method: &Method,
    content_type: Option<&[u8]>,
    body: &[u8],
) -> (r: bool)
    ensures
        r == spec_form_method_applies(*target, *req_method, opt_bytes_view(content_type), body@),
{
    let post = Method::Post;
    if !req_method.token_eq(&post) {
        return false;
    }
    let content_type_ok = match content_type {
        Some(h) => is_form_content_type(h),
        None => false,
    };
    if !content_type_ok {
        return false;
    }
    match parse_method_in_first_field(body) {
        Some(m) => m.token_eq(target),
        None => false,
    }
}

/// The ASCII-lowercase image of `b`.
fn lower_byte(b: u8) -> (r: u8)
    ensures
        r == lower(b),
{
    if ('A' as u8) <= b && b <= ('Z' as u8) {
        b + 32
    } else {
        b
    }
}

} // verus!
