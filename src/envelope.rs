use vstd::prelude::*;

verus! {

/// The HTTP status of a response: success unless execution failed at the top
/// level. Errors of single fields do not count.
pub open spec fn status_code(top_level_ok: bool) -> u16 {
    if top_level_ok {
        200
    } else {
        400
    }
}

/// Relies on `http::StatusCode::OK`, whose code is 200.
#[verifier::external_body]
fn status_ok() -> (r: u16)
    ensures
        r == 200,
{
    http::StatusCode::OK.as_u16()
}

/// Relies on `http::StatusCode::BAD_REQUEST`, whose code is 400.
#[verifier::external_body]
fn status_bad_request() -> (r: u16)
    ensures
        r == 400,
{
    http::StatusCode::BAD_REQUEST.as_u16()
}

/// The HTTP status for an execution outcome.
pub fn http_status(top_level_ok: bool) -> (r: u16)
    ensures
        r == status_code(top_level_ok),
{
    if top_level_ok {
        status_ok()
    } else {
        status_bad_request()
    }
}

/// Why a result could not be put in an envelope.
#[derive(Debug, PartialEq, Eq, Structural)]
pub enum EnvelopeError {
    /// The serialised result is not framed as a JSON object.
    NotAnObject,
}

/// The bytes `"status":`.
pub open spec fn status_key() -> Seq<u8> {
    seq![34u8, 115u8, 116u8, 97u8, 116u8, 117u8, 115u8, 34u8, 58u8]
}

/// Whether the bytes are framed as a JSON object: `{`, then anything, then `}`.
pub open spec fn is_object(b: Seq<u8>) -> bool {
    b.len() >= 2 && b[0] == 123u8 && b.last() == 125u8
}

/// The three decimal digits of a status code.
pub open spec fn status_digits(code: u16) -> Seq<u8> {
    seq![(48 + code / 100) as u8, (48 + (code / 10) % 10) as u8, (48 + code % 10) as u8]
}

/// The status member and the closing brace: `"status":NNN}`.
pub open spec fn status_tail(code: u16) -> Seq<u8> {
    status_key() + status_digits(code) + seq![125u8]
}

/// The envelope: the result object with a `status` member added last.
pub open spec fn envelope(body: Seq<u8>, code: u16) -> Seq<u8> {
    if body.len() == 2 {
        seq![123u8] + status_tail(code)
    } else {
        body.take(body.len() - 1) + seq![44u8] + status_tail(code)
    }
}

/// Whether a byte is a decimal digit.
pub open spec fn is_digit(c: u8) -> bool {
    48 <= c <= 57
}

/// The status code that the last thirteen bytes of `e` spell, if they are a
/// status member with a three-digit code followed by the closing brace.
pub open spec fn tail_code(e: Seq<u8>) -> Option<u16> {
    let n = e.len();
    if n >= 13 && e.subrange(n - 13, n - 4) == status_key() && e[n - 1] == 125u8
        && is_digit(e[n - 4]) && e[n - 4] != 48u8 && is_digit(e[n - 3]) && is_digit(e[n - 2]) {
        Some(((e[n - 4] - 48) * 100 + (e[n - 3] - 48) * 10 + (e[n - 2] - 48)) as u16)
    } else {
        None
    }
}

/// What an envelope holds: the result object and the status, or nothing when
/// the bytes are not an envelope.
pub open spec fn open_envelope(e: Seq<u8>) -> Option<(Seq<u8>, u16)> {
    match tail_code(e) {
        Some(code) => {
            let pre = e.take(e.len() - 13);
            if pre == seq![123u8] {
                Some((seq![123u8, 125u8], code))
            } else if pre.len() >= 3 && pre[0] == 123u8 && pre.last() == 44u8 {
                Some((pre.drop_last().push(125u8), code))
            } else {
                None
            }
        },
        None => None,
    }
}

fn status_key_bytes() -> (r: Vec<u8>)
    ensures
        r@ == status_key(),
{
    let r = vec![34u8, 115u8, 116u8, 97u8, 116u8, 117u8, 115u8, 34u8, 58u8];
    assert(r@ =~= status_key());
    r
}

/// Puts a serialised result object in the envelope, with the status that the
/// execution outcome gives.
pub fn encode_envelope(body: &Vec<u8>, top_level_ok: bool) -> (r: Result<Vec<u8>, EnvelopeError>)
    ensures
        r is Err <==> !is_object(body@),
        r is Ok ==> r->Ok_0@ == envelope(body@, status_code(top_level_ok)),
{
    let n = body.len();
    if n < 2 || body[0] != 123u8 || body[n - 1] != 125u8 {
        return Err(EnvelopeError::NotAnObject);
    }
    let code = http_status(top_level_ok);
    let mut out: Vec<u8> = Vec::new();
    let mut i: usize = 0;
    while i < n - 1
        invariant
            n == body@.len(),
            n >= 2,
            0 <= i <= n - 1,
            out@ == body@.take(i as int),
        decreases n - 1 - i,
    {
        out.push(body[i]);
        i = i + 1;
        assert(out@ =~= body@.take(i as int));
    }
    if n > 2 {
        out.push(44u8);
    }
    let key = status_key_bytes();
    let mut j: usize = 0;
    let ghost head = out@;
    while j < key.len()
        invariant
            out@ == head + key@.take(j as int),
            key@ == status_key(),
            0 <= j <= key@.len(),
        decreases key@.len() - j,
    {
        out.push(key[j]);
        j = j + 1;
        assert(out@ =~= head + key@.take(j as int));
    }
    out.push((48 + code / 100) as u8);
    out.push((48 + (code / 10) % 10) as u8);
    out.push((48 + code % 10) as u8);
    out.push(125u8);
    assert(key@.take(9) =~= key@);
    assert(out@ =~= envelope(body@, code));
    Ok(out)
}

/// Takes an envelope apart into the result object and the status.
pub fn decode_envelope(e: &Vec<u8>) -> (r: Option<(Vec<u8>, u16)>)
    ensures
        r is None <==> open_envelope(e@) is None,
        r is Some ==> open_envelope(e@) == Some((r->Some_0.0@, r->Some_0.1)),
{
    let n = e.len();
    if n < 14 {
        proof {
            if n == 13 {
                assert(e@.take(0) =~= Seq::<u8>::empty());
            }
        }
        return None;
    }
    let key = status_key_bytes();
    let mut j: usize = 0;
    while j < 9
        invariant
            n == e@.len(),
            n >= 14,
            key@ == status_key(),
            0 <= j <= 9,
            forall|k: int| 0 <= k < j ==> e@[n - 13 + k] == key@[k],
        decreases 9 - j,
    {
        if e[n - 13 + j] != key[j] {
            assert(e@.subrange(n - 13, n - 4)[j as int] != status_key()[j as int]);
            return None;
        }
        j = j + 1;
    }
    assert(e@.subrange(n - 13, n - 4) =~= status_key());
    let d0 = e[n - 4];
    let d1 = e[n - 3];
    let d2 = e[n - 2];
    if e[n - 1] != 125u8 || d0 < 49u8 || d0 > 57u8 || d1 < 48u8 || d1 > 57u8 || d2 < 48u8 || d2 > 57u8 {
        return None;
    }
    let code: u16 = ((d0 - 48) as u16) * 100 + ((d1 - 48) as u16) * 10 + ((d2 - 48) as u16);
    let m = n - 13;
    let ghost pre = e@.take(m as int);
    if m == 1 && e[0] == 123u8 {
        assert(pre =~= seq![123u8]);
        let mut out: Vec<u8> = Vec::new();
        out.push(123u8);
        out.push(125u8);
        assert(out@ =~= seq![123u8, 125u8]);
        return Some((out, code));
    }
    assert(pre != seq![123u8]) by {
        if m == 1 {
            assert(pre[0] == e@[0]);
        } else {
            assert(pre.len() != 1);
        }
    }
    if m < 3 || e[0] != 123u8 || e[m - 1] != 44u8 {
        return None;
    }
    let mut out: Vec<u8> = Vec::new();
    let mut i: usize = 0;
    while i < m - 1
        invariant
            m == pre.len(),
            pre == e@.take(m as int),
            m <= e@.len(),
            m >= 3,
            0 <= i <= m - 1,
            out@ == pre.take(i as int),
        decreases m - 1 - i,
    {
        out.push(e[i]);
        i = i + 1;
        assert(out@ =~= pre.take(i as int));
    }
    out.push(125u8);
    assert(out@ =~= pre.drop_last().push(125u8));
    Some((out, code))
}

/// A response ready to send: its HTTP status and the envelope.
pub struct GraphQLResponse {
    pub status: u16,
    pub body: Vec<u8>,
}

/// The response to an executed request, from the serialised result object
/// and whether execution completed at the top level.
pub fn respond(result: &Vec<u8>, top_level_ok: bool) -> (r: Result<GraphQLResponse, EnvelopeError>)
    ensures
        r is Err <==> !is_object(result@),
        r is Ok ==> r->Ok_0.status == status_code(top_level_ok),
        r is Ok ==> r->Ok_0.body@ == envelope(result@, status_code(top_level_ok)),
{
    let body = encode_envelope(result, top_level_ok)?;
    Ok(GraphQLResponse { status: http_status(top_level_ok), body })
}

/// Putting a result object in the envelope and taking the envelope apart
/// gives back the result object and the status of its execution outcome:
/// 200 exactly when execution did not fail at the top level.
pub proof fn envelope_round_trip(body: Seq<u8>, top_level_ok: bool)
    requires
        is_object(body),
    ensures
        open_envelope(envelope(body, status_code(top_level_ok)))
            == Some((body, status_code(top_level_ok))),
        status_code(top_level_ok) == 200 <==> top_level_ok,
{
    let code = status_code(top_level_ok);
    let e = envelope(body, code);
    let n = e.len() as int;
    assert(e.subrange(n - 13, n) =~= status_tail(code));
    assert(e.subrange(n - 13, n - 4) =~= status_key());
    assert(tail_code(e) == Some(code));
    let pre = e.take(n - 13);
    if body.len() == 2 {
        assert(pre =~= seq![123u8]);
        assert(body =~= seq![123u8, 125u8]);
    } else {
        assert(pre =~= body.take(body.len() - 1) + seq![44u8]);
        assert(pre != seq![123u8]);
        assert(pre.drop_last().push(125u8) =~= body);
    }
}

} // verus!
