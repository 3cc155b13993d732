//! The first-field inspector: decides from a bounded prefix of a form body
//! whether its first field is named `_method` and carries a valid HTTP
//! method token.

use vstd::prelude::*;

use crate::method::Method;
use crate::method::is_token;
use crate::utf8::is_valid_utf8;
use crate::utf8::is_utf8;

verus! {

/// The length of the shortest body a `_method` field can head: `_method=GET`.
pub const MIN_LEN: usize = 11;

/// The length of the longest body prefix the inspector ever reads:
/// `_method=DELETE`.
pub const MAX_LEN: usize = 14;

/// Whether `b` separates fields or names from values in a URL-encoded form
/// body: `=` or `&`.
pub open spec fn is_delim(b: u8) -> bool {
    b == ('=' as u8) || b == ('&' as u8)
}

/// The bytes that spell the field name `_method`.
pub open spec fn field_name() -> Seq<u8> {
    seq![('_' as u8), ('m' as u8), ('e' as u8), ('t' as u8), ('h' as u8), ('o' as u8), ('d' as u8)]
}

/// The index of the first delimiter in `s` at or after `from`, or `s.len()`
/// when there is none.
pub open spec fn spec_find_delim(s: Seq<u8>, from: int) -> int
    decreases s.len() - from,
{
    if from >= s.len() {
        s.len() as int
    } else if is_delim(s[from]) {
        from
    } else {
        spec_find_delim(s, from + 1)
    }
}

/// `spec_find_delim` returns the first delimiter position: it lies between
/// `from` and `s.len()`, nothing before it is a delimiter, and it points at
/// a delimiter unless it is `s.len()`.
pub proof fn lemma_find_delim(s: Seq<u8>, from: int)
    requires
        0 <= from <= s.len(),
    ensures
        from <= spec_find_delim(s, from) <= s.len(),
        forall|k: int| from <= k < spec_find_delim(s, from) ==> !is_delim(s[k]),
        spec_find_delim(s, from) < s.len() ==> is_delim(s[spec_find_delim(s, from)]),
    decreases s.len() - from,
{
    if from < s.len() && !is_delim(s[from]) {
        lemma_find_delim(s, from + 1);
    }
}

/// The prefix of `body` that the inspector reads: the whole body when it is
/// no longer than `MAX_LEN`, and its first `MAX_LEN` bytes otherwise.
pub open spec fn spec_peek(body: Seq<u8>) -> Seq<u8> {
    if body.len() <= MAX_LEN {
        body
    } else {
        body.take(MAX_LEN as int)
    }
}

/// The token of the method named by the body's first form field, or `None`
/// when the first field is not `_method=<valid method token>`.
///
/// This is the inspection's meaning: a body shorter than `MIN_LEN` never
/// matches; only the `spec_peek` prefix is consulted; the prefix must be
/// valid UTF-8; the name before the first `=`/`&` must be `_method`; and
/// the value up to the next delimiter (or the prefix's end) must be a valid
/// HTTP method token.
pub open spec fn spec_first_field_token(body: Seq<u8>) -> Option<Seq<u8>> {
    if body.len() < MIN_LEN {
        None
    } else {
        let peek = spec_peek(body);
        if !is_valid_utf8(peek) {
            None
        } else {
            let i = spec_find_delim(peek, 0);
            if i == peek.len() {
                None
            } else if peek.subrange(0, i) != field_name() {
                None
            } else {
                let j = spec_find_delim(peek, i + 1);
                let value = peek.subrange(i + 1, j);
                if is_token(value) {
                    Some(value)
                } else {
                    None
                }
            }
        }
    }
}

/// `spec_find_delim` is pinned by its characterisation: when nothing in
/// `from..k` is a delimiter and `k` is either a delimiter position or the
/// sequence's end, the first delimiter search from `from` lands on `k`.
pub proof fn lemma_find_delim_at(s: Seq<u8>, from: int, k: int)
    requires
        0 <= from <= k <= s.len(),
        forall|j: int| from <= j < k ==> !is_delim(s[j]),
        k < s.len() ==> is_delim(s[k]),
    ensures
        spec_find_delim(s, from) == k,
    decreases k - from,
{
    if from < k {
        lemma_find_delim_at(s, from + 1, k);
    }
}

/// A body shorter than `MIN_LEN` bytes never matches, whatever it holds.
pub proof fn lemma_short_body_never_matches(body: Seq<u8>)
    requires
        body.len() < MIN_LEN,
    ensures
        spec_first_field_token(body) is None,
{
}

/// A body whose first field is exactly `_method=<m>` for a standard verb
/// `<m>` short enough to fit the inspected prefix, with the field closed by
/// `&` or by the body's end, matches with exactly that verb — provided the
/// inspected prefix is valid UTF-8.
pub proof fn lemma_first_field_method_matches(m: Seq<u8>, body: Seq<u8>)
    requires
        crate::method::is_standard_name(m),
        m.len() + 8 <= MAX_LEN,
        body.len() >= m.len() + 8,
        body.subrange(0, 7) == field_name(),
        body[7] == ('=' as u8),
        body.subrange(8, m.len() + 8 as int) == m,
        body.len() == m.len() + 8 || body[m.len() + 8 as int] == ('&' as u8),
        is_valid_utf8(spec_peek(body)),
    ensures
        spec_first_field_token(body) == Some(m),
{
    crate::method::lemma_standard_name_bytes(m);
    let peek = spec_peek(body);
    let e = m.len() + 8;
    assert(body.len() >= MIN_LEN);
    assert(peek.len() >= e);
    assert forall|k: int| 0 <= k < peek.len() implies peek[k] == body[k] by {}
    assert forall|j: int| 0 <= j < 7 implies peek[j] == field_name()[j] by {
        assert(body.subrange(0, 7)[j] == body[j]);
    }
    assert forall|j: int| 0 <= j < 7 implies !is_delim(peek[j]) by {
        assert(!is_delim(field_name()[j]));
    }
    assert(is_delim(peek[7]));
    lemma_find_delim_at(peek, 0, 7);
    assert(peek.subrange(0, 7) =~= field_name());
    assert forall|j: int| 8 <= j < e implies peek[j] == m[j - 8] by {
        assert(body.subrange(8, e as int)[j - 8] == body[j]);
    }
    assert forall|j: int| 8 <= j < e implies !is_delim(peek[j]) by {
        assert(('A' as u8) <= m[j - 8] <= ('Z' as u8));
    }
    if e < peek.len() {
        assert(peek[e as int] == body[e as int]);
        assert(is_delim(peek[e as int]));
    }
    lemma_find_delim_at(peek, 8, e as int);
    assert(peek.subrange(8, e as int) =~= m);
}

/// A body whose first field is not named `_method` never matches: the
/// name before the first delimiter of the inspected prefix decides, so a
/// `_method` field anywhere later in the body is never detected.
pub proof fn lemma_method_not_first_field(body: Seq<u8>)
    requires
        ({
            let peek = spec_peek(body);
            peek.subrange(0, spec_find_delim(peek, 0)) != field_name()
        }),
    ensures
        spec_first_field_token(body) is None,
{
    let peek = spec_peek(body);
    lemma_find_delim(peek, 0);
    if body.len() >= MIN_LEN && is_valid_utf8(peek) && spec_find_delim(peek, 0) == peek.len() {
        assert(peek.subrange(0, spec_find_delim(peek, 0)) != field_name());
    }
}

/// The inspection is a pure function of the body's byte content: two bodies
/// holding the same bytes are inspected to the same outcome.
pub proof fn lemma_inspection_deterministic(body_a: Seq<u8>, body_b: Seq<u8>)
    requires
        body_a == body_b,
    ensures
        spec_first_field_token(body_a) == spec_first_field_token(body_b),
{
}

/// A body no longer than `MAX_LEN` is inspected whole: nothing of it is
/// truncated away.
pub proof fn lemma_body_within_bound_read_whole(body: Seq<u8>)
    requires
        body.len() <= MAX_LEN,
    ensures
        spec_peek(body) == body,
{
}

/// A prefix that is not valid UTF-8 never matches.
pub proof fn lemma_invalid_utf8_never_matches(body: Seq<u8>)
    requires
        !is_valid_utf8(spec_peek(body)),
    ensures
        spec_first_field_token(body) is None,
{
}

/// Inspecting just the `spec_peek` prefix of a body decides exactly as
/// inspecting the whole body: a caller holding a streaming body need only
/// hand over `peek_len` of its bytes.
pub proof fn lemma_prefix_suffices(body: Seq<u8>)
    ensures
        spec_first_field_token(spec_peek(body)) == spec_first_field_token(body),
{
    let p = spec_peek(body);
    assert(p.len() == if body.len() <= MAX_LEN {
        body.len() as int
    } else {
        MAX_LEN as int
    });
    assert(spec_peek(p) == p);
}

/// How many bytes the inspector needs from a body of `remaining` unread
/// bytes: all of them, capped at `MAX_LEN`.
pub fn peek_len(remaining: usize) -> (r: usize)
    ensures
        r == if remaining <= MAX_LEN {
            remaining as int
        } else {
            MAX_LEN as int
        },
{
    if remaining <= MAX_LEN {
        remaining
    } else {
        MAX_LEN
    }
}

/// The index of the first `=` or `&` in `s` at or after `from`, or `s.len()`
/// when there is none.
fn find_delim(s: &[u8], from: usize) -> (r: usize)
    requires
        from <= s@.len(),
    ensures
        r == spec_find_delim(s@, from as int),
        from <= r <= s@.len(),
{
    let n = s.len();
    let mut i: usize = from;
    while i < n
        invariant
            from <= i <= n,
            n == s@.len(),
            spec_find_delim(s@, from as int) == spec_find_delim(s@, i as int),
        decreases n - i,
    {
        let b = s[i];
        if b == ('=' as u8) || b == ('&' as u8) {
            return i;
        }
        i += 1;
    }
    i
}

/// Reads a bounded prefix of `body` and returns the method named by its
/// first form field: `Some(m)` exactly when the first `=`/`&`-delimited
/// field of the body is named `_method` and its value is a valid HTTP
/// method token, per `spec_first_field_token`.
///
/// At most `MAX_LEN` bytes of `body` are ever inspected, however long the
/// body is; a body shorter than `MIN_LEN` is rejected outright.
pub fn parse_method_in_first_field(body: &[u8]) -> (r: Option<Method>)
    ensures
        r is Some <==> spec_first_field_token(body@) is Some,
        r matches Some(m) ==> m.wf() && Some(m@) == spec_first_field_token(body@),
{
    if body.len() < MIN_LEN {
        return None;
    }
    let peek_len = if body.len() < MAX_LEN {
        body.len()
    } else {
        MAX_LEN
    };
    let mut peek: Vec<u8> = Vec::new();
    let mut i: usize = 0;
    while i < peek_len
        invariant
            i <= peek_len <= body@.len(),
            peek@ == body@.take(i as int),
        decreases peek_len - i,
    {
        peek.push(body[i]);
        proof {
            assert(peek@ =~= body@.take(i + 1));
        }
        i += 1;
    }
    proof {
        assert(peek@ =~= spec_peek(body@));
    }
    if !is_utf8(peek.as_slice()) {
        return None;
    }
    let d1 = find_delim(peek.as_slice(), 0);
    if d1 == peek.len() {
        return None;
    }
    if d1 != 7 || !(peek[0] == ('_' as u8) && peek[1] == ('m' as u8) && peek[2] == ('e' as u8) && peek[3] == ('t' as u8)
        && peek[4] == ('h' as u8) && peek[5] == ('o' as u8) && peek[6] == ('d' as u8)) {
        proof {
            let name = peek@.subrange(0, d1 as int);
            if d1 == 7 {
                assert(name.len() == 7);
                assert(name[0] == peek@[0] && name[1] == peek@[1] && name[2] == peek@[2] && name[3]
                    == peek@[3] && name[4] == peek@[4] && name[5] == peek@[5] && name[6]
                    == peek@[6]);
                assert(name != field_name());
            } else {
                assert(name.len() != 7);
                assert(name != field_name());
            }
        }
        return None;
    }
    proof {
        assert(peek@.subrange(0, d1 as int) =~= field_name());
    }
    let d2 = find_delim(peek.as_slice(), d1 + 1);
    let value = &peek.as_slice()[d1 + 1..d2];
    proof {
        lemma_find_delim(peek@, d1 + 1);
        assert(value@ == peek@.subrange(d1 + 1, d2 as int));
    }
    Method::parse(value)
}

} // verus!
