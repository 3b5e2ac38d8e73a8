//! What becomes of a failed dispatch.
//!
//! Only a service error, which carries the raw HTTP response, is captured: as
//! a file named after the UTC time and the request kind, holding the status
//! line, the headers, a blank line and the body. Every other outcome is only
//! reported.
use vstd::prelude::*;

use crate::dispatch::{lossy_text, lossy_utf8, push_all};
use crate::record::RequestKind;

verus! {

/// The raw HTTP response of a service error.
#[derive(Debug, PartialEq, Eq)]
pub struct RawResponse {
    pub status: u16,
    /// Header names and values, in response order.
    pub headers: Vec<(Vec<u8>, Vec<u8>)>,
    /// The body, where the response had one.
    pub body: Option<Vec<u8>>,
}

/// A response as mathematics.
pub struct ResponseView {
    pub status: u16,
    pub headers: Seq<(Seq<u8>, Seq<u8>)>,
    pub body: Option<Seq<u8>>,
}

impl View for RawResponse {
    type V = ResponseView;

    open spec fn view(&self) -> ResponseView {
        ResponseView {
            status: self.status,
            headers: self.headers@.map_values(|h: (Vec<u8>, Vec<u8>)| (h.0@, h.1@)),
            body: match self.body {
                Some(b) => Some(b@),
                None => None,
            },
        }
    }
}

/// How one downstream send ended.
#[derive(Debug, PartialEq, Eq)]
pub enum DispatchOutcome {
    /// Accepted, with one status code per destination.
    Delivered(Vec<Vec<u8>>),
    /// The service answered with an HTTP-level error.
    ServiceError(RawResponse),
    TimeoutError,
    TransportFailure,
    Unknown,
}

/// A diagnostic file to write: its name and its contents.
#[derive(Debug, PartialEq, Eq)]
pub struct Capture {
    pub file_name: Vec<u8>,
    pub contents: Vec<u8>,
}

/// What chrono prints for the UTC instant `millis` milliseconds after the
/// epoch, in the form `%Y%m%d%H%M%S%.3f`; `None` where chrono has no such
/// instant.
pub uninterp spec fn utc_stamp_of(millis: i64) -> Option<Seq<u8>>;

/// Relies on chrono's `DateTime::<Utc>::from_timestamp_millis`, `None` out of
/// its range, and `DateTime::format` with `%Y%m%d%H%M%S%.3f`: the text depends
/// on `millis` alone.
#[verifier::external_body]
fn utc_stamp(millis: i64) -> (r: Option<Vec<u8>>)
    ensures
        match r {
            Some(v) => utc_stamp_of(millis) == Some(v@),
            None => utc_stamp_of(millis) is None,
        },
{
    match chrono::DateTime::<chrono::Utc>::from_timestamp_millis(millis) {
        Some(t) => Some(t.format("%Y%m%d%H%M%S%.3f").to_string().into_bytes()),
        None => None,
    }
}

/// The decimal digits of `n`, without leading zeros.
pub open spec fn decimal(n: nat) -> Seq<u8>
    decreases n,
{
    if n < 10 {
        seq![(48 + n) as u8]
    } else {
        decimal(n / 10) + seq![(48 + n % 10) as u8]
    }
}

/// `Name: Value` and a newline for each header, in order.
pub open spec fn headers_text(h: Seq<(Seq<u8>, Seq<u8>)>) -> Seq<u8>
    decreases h.len(),
{
    if h.len() == 0 {
        Seq::empty()
    } else {
        headers_text(h.drop_last()) + h.last().0 + seq![58u8, 32] + h.last().1 + seq![10u8]
    }
}

/// `HTTP/1.1 `
pub open spec fn status_prefix() -> Seq<u8> {
    seq![72u8, 84, 84, 80, 47, 49, 46, 49, 32]
}

/// `Empty body.` and a newline.
pub open spec fn empty_body_marker() -> Seq<u8> {
    seq![69u8, 109, 112, 116, 121, 32, 98, 111, 100, 121, 46, 10]
}

/// The diagnostic file's contents: status line, headers, a blank line, then
/// the body as text or the empty-body marker.
pub open spec fn contents_of(r: ResponseView) -> Seq<u8> {
    status_prefix() + decimal(r.status as nat) + seq![10u8] + headers_text(r.headers) + seq![10u8]
        + match r.body {
        Some(b) => lossy_utf8(b),
        None => empty_body_marker(),
    }
}

/// `ses_<stamp>_<kind index>.http`
pub open spec fn file_name_of(stamp: Seq<u8>, k: RequestKind) -> Seq<u8> {
    seq![115u8, 101, 115, 95] + stamp + seq![95u8] + decimal(k.index_spec() as nat) + seq![
        46u8,
        104,
        116,
        116,
        112,
    ]
}

/// The capture that an outcome of a send of kind `k` at `millis` calls for.
pub open spec fn capture_of(o: DispatchOutcome, millis: i64, k: RequestKind) -> Option<
    (Seq<u8>, Seq<u8>),
> {
    match o {
        DispatchOutcome::ServiceError(resp) => match utc_stamp_of(millis) {
            Some(stamp) => Some((file_name_of(stamp, k), contents_of(resp@))),
            None => None,
        },
        _ => None,
    }
}

fn push_decimal(out: &mut Vec<u8>, n: u16)
    ensures
        final(out)@ == old(out)@ + decimal(n as nat),
    decreases n,
{
    if n >= 10 {
        push_decimal(out, n / 10);
    }
    out.push(48 + (n % 10) as u8);
    assert(out@ =~= old(out)@ + decimal(n as nat));
}

/// The name of the diagnostic file for a send of kind `k`, given the
/// formatted UTC time.
pub fn capture_file_name(stamp: &Vec<u8>, k: RequestKind) -> (r: Vec<u8>)
    ensures
        r@ == file_name_of(stamp@, k),
{
    let mut out: Vec<u8> = Vec::new();
    push_all(&mut out, &[115u8, 101, 115, 95]);
    push_all(&mut out, stamp.as_slice());
    out.push(95);
    push_decimal(&mut out, k.index() as u16);
    push_all(&mut out, &[46u8, 104, 116, 116, 112]);
    assert(out@ =~= file_name_of(stamp@, k));
    out
}

/// The contents of the diagnostic file for a raw response.
pub fn capture_contents(resp: &RawResponse) -> (r: Vec<u8>)
    ensures
        r@ == contents_of(resp@),
{
    let mut out: Vec<u8> = Vec::new();
    push_all(&mut out, &[72u8, 84, 84, 80, 47, 49, 46, 49, 32]);
    push_decimal(&mut out, resp.status);
    out.push(10);
    let ghost start = out@;
    let mut i: usize = 0;
    while i < resp.headers.len()
        invariant
            i <= resp@.headers.len(),
            resp@.headers.len() == resp.headers@.len(),
            out@ == start + headers_text(resp@.headers.subrange(0, i as int)),
        decreases resp.headers@.len() - i,
    {
        let h = &resp.headers[i];
        push_all(&mut out, h.0.as_slice());
        push_all(&mut out, &[58u8, 32]);
        push_all(&mut out, h.1.as_slice());
        out.push(10);
        let ghost hs = resp@.headers.subrange(0, i + 1);
        assert(hs.drop_last() =~= resp@.headers.subrange(0, i as int));
        assert(hs.last() == (h.0@, h.1@));
        i = i + 1;
        assert(out@ =~= start + headers_text(resp@.headers.subrange(0, i as int)));
    }
    assert(resp@.headers.subrange(0, i as int) =~= resp@.headers);
    out.push(10);
    match &resp.body {
        Some(b) => {
            let text = lossy_text(b);
            push_all(&mut out, text.as_slice());
        },
        None => {
            push_all(&mut out, &[69u8, 109, 112, 116, 121, 32, 98, 111, 100, 121, 46, 10]);
        },
    }
    assert(out@ =~= contents_of(resp@));
    out
}

/// The capture that the outcome of a send of kind `k` calls for, at the UTC
/// instant `millis` milliseconds after the epoch: one for a service error,
/// none for any other outcome.
pub fn capture_plan(outcome: &DispatchOutcome, millis: i64, k: RequestKind) -> (r: Option<
    Capture,
>)
    ensures
        match r {
            Some(c) => capture_of(*outcome, millis, k) == Some((c.file_name@, c.contents@)),
            None => capture_of(*outcome, millis, k) is None,
        },
{
    match outcome {
        DispatchOutcome::ServiceError(resp) => match utc_stamp(millis) {
            Some(stamp) => Some(
                Capture {
                    file_name: capture_file_name(&stamp, k),
                    contents: capture_contents(resp),
                },
            ),
            None => None,
        },
        _ => None,
    }
}

} // verus!
