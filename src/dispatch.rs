//! Turning batches into bulk-send descriptions.
//!
//! A flush builds one [`BulkSend`] for each non-empty batch, in kind order, and
//! empties both batches whatever becomes of the sends. Template data is JSON
//! written as bytes: field values are first made valid text, then escaped.
use vstd::prelude::*;

use crate::parser::Parser;
use crate::record::{records_view, Record, RequestKind};

verus! {

/// What `String::from_utf8_lossy` makes of a byte sequence, as UTF-8 bytes.
pub uninterp spec fn lossy_utf8(b: Seq<u8>) -> Seq<u8>;

/// Relies on `String::from_utf8_lossy`: the bytes as text, with each invalid
/// sequence replaced by U+FFFD; the result depends on the bytes alone.
#[verifier::external_body]
pub(crate) fn lossy_text(b: &Vec<u8>) -> (r: Vec<u8>)
    ensures
        r@ == lossy_utf8(b@),
{
    String::from_utf8_lossy(b).into_owned().into_bytes()
}

/// The lowercase hexadecimal digit of `d` (below 16).
pub open spec fn hex_digit(d: u8) -> u8 {
    if d < 10 {
        (48 + d) as u8
    } else {
        (87 + d) as u8
    }
}

/// One byte as it stands inside a JSON string: quote and backslash are
/// escaped by a backslash, control bytes as `\u00XX`, all others kept.
pub open spec fn escape_byte(c: u8) -> Seq<u8> {
    if c == 34 || c == 92 {
        seq![92u8, c]
    } else if c < 32 {
        seq![92u8, 117u8, 48u8, 48u8, hex_digit(c / 16), hex_digit(c % 16)]
    } else {
        seq![c]
    }
}

/// The bytes of `s` escaped for a JSON string.
pub open spec fn escaped(s: Seq<u8>) -> Seq<u8>
    decreases s.len(),
{
    if s.len() == 0 {
        Seq::empty()
    } else {
        escaped(s.drop_last()) + escape_byte(s.last())
    }
}

/// `{"login":"`
pub open spec fn login_open() -> Seq<u8> {
    seq![123u8, 34, 108, 111, 103, 105, 110, 34, 58, 34]
}

/// `","secret":"`
pub open spec fn secret_open() -> Seq<u8> {
    seq![34u8, 44, 34, 115, 101, 99, 114, 101, 116, 34, 58, 34]
}

/// `","code":"`
pub open spec fn code_open() -> Seq<u8> {
    seq![34u8, 44, 34, 99, 111, 100, 101, 34, 58, 34]
}

/// `"}`
pub open spec fn object_close() -> Seq<u8> {
    seq![34u8, 125]
}

/// A field value as a JSON string body: made valid text, then escaped.
pub open spec fn json_text(f: Seq<u8>) -> Seq<u8> {
    escaped(lossy_utf8(f))
}

/// The per-destination template data of a record with fields `f`:
/// `{"login":…,"secret":…}` for activation, with `"code":…` added for
/// password recovery.
pub open spec fn template_data_of(k: RequestKind, f: Seq<Seq<u8>>) -> Seq<u8> {
    match k {
        RequestKind::Activation => login_open() + json_text(f[1]) + secret_open() + json_text(f[2])
            + object_close(),
        RequestKind::PasswordRecovery => login_open() + json_text(f[1]) + secret_open()
            + json_text(f[2]) + code_open() + json_text(f[3]) + object_close(),
    }
}

/// The fallback template data of a kind: every value empty.
pub open spec fn default_template_data_of(k: RequestKind) -> Seq<u8> {
    match k {
        RequestKind::Activation => login_open() + secret_open() + object_close(),
        RequestKind::PasswordRecovery => login_open() + secret_open() + code_open()
            + object_close(),
    }
}

/// The template that a kind is sent with.
pub open spec fn template_name_of(k: RequestKind) -> Seq<char> {
    match k {
        RequestKind::Activation => "activationv1"@,
        RequestKind::PasswordRecovery => "passwordrecoveryv1"@,
    }
}

/// One destination of a bulk send: the address and its template data.
#[derive(Debug, PartialEq, Eq)]
pub struct Destination {
    pub to_address: Vec<u8>,
    pub template_data: Vec<u8>,
}

impl View for Destination {
    type V = (Seq<u8>, Seq<u8>);

    open spec fn view(&self) -> (Seq<u8>, Seq<u8>) {
        (self.to_address@, self.template_data@)
    }
}

/// The destination that a record of kind `k` with fields `f` becomes.
pub open spec fn destination_of(k: RequestKind, f: Seq<Seq<u8>>) -> (Seq<u8>, Seq<u8>) {
    (lossy_utf8(f[0]), template_data_of(k, f))
}

/// The destinations of a batch, in batch order.
pub open spec fn destinations_of(k: RequestKind, b: Seq<Seq<Seq<u8>>>) -> Seq<(Seq<u8>, Seq<u8>)> {
    b.map_values(|f: Seq<Seq<u8>>| destination_of(k, f))
}

/// One bulk send: a batch of one kind, ready to hand downstream.
#[derive(Debug, PartialEq, Eq)]
pub struct BulkSend {
    pub kind: RequestKind,
    pub destinations: Vec<Destination>,
}

impl View for BulkSend {
    type V = (RequestKind, Seq<(Seq<u8>, Seq<u8>)>);

    open spec fn view(&self) -> (RequestKind, Seq<(Seq<u8>, Seq<u8>)>) {
        (self.kind, self.destinations@.map_values(|d: Destination| d@))
    }
}

/// The sends of a batch: one if it holds records, none if it is empty.
pub open spec fn sends_of_batch(k: RequestKind, b: Seq<Seq<Seq<u8>>>) -> Seq<
    (RequestKind, Seq<(Seq<u8>, Seq<u8>)>),
> {
    if b.len() == 0 {
        Seq::empty()
    } else {
        seq![(k, destinations_of(k, b))]
    }
}

/// The sends of a flush: activation first, then password recovery.
pub open spec fn sends_of(
    activation: Seq<Seq<Seq<u8>>>,
    recovery: Seq<Seq<Seq<u8>>>,
) -> Seq<(RequestKind, Seq<(Seq<u8>, Seq<u8>)>)> {
    sends_of_batch(RequestKind::Activation, activation) + sends_of_batch(
        RequestKind::PasswordRecovery,
        recovery,
    )
}

/// The views of a sequence of sends.
pub open spec fn sends_view(v: Seq<BulkSend>) -> Seq<(RequestKind, Seq<(Seq<u8>, Seq<u8>)>)> {
    v.map_values(|s: BulkSend| s@)
}

/// Appends the bytes of `piece`.
pub(crate) fn push_all(out: &mut Vec<u8>, piece: &[u8])
    ensures
        final(out)@ == old(out)@ + piece@,
{
    let mut i: usize = 0;
    while i < piece.len()
        invariant
            i <= piece@.len(),
            out@ == old(out)@ + piece@.subrange(0, i as int),
        decreases piece@.len() - i,
    {
        out.push(piece[i]);
        i = i + 1;
        assert(out@ =~= old(out)@ + piece@.subrange(0, i as int));
    }
    assert(piece@.subrange(0, i as int) =~= piece@);
}

fn hex_digit_exec(d: u8) -> (r: u8)
    requires
        d < 16,
    ensures
        r == hex_digit(d),
{
    if d < 10 {
        48 + d
    } else {
        87 + d
    }
}

/// The bytes of `s` escaped for the inside of a JSON string.
pub fn escape_json(s: &Vec<u8>) -> (out: Vec<u8>)
    ensures
        out@ == escaped(s@),
{
    let mut out: Vec<u8> = Vec::new();
    let mut i: usize = 0;
    while i < s.len()
        invariant
            i <= s@.len(),
            out@ == escaped(s@.subrange(0, i as int)),
        decreases s@.len() - i,
    {
        let c = s[i];
        let ghost before = out@;
        if c == 34 || c == 92 {
            out.push(92);
            out.push(c);
        } else if c < 32 {
            out.push(92);
            out.push(117);
            out.push(48);
            out.push(48);
            out.push(hex_digit_exec(c / 16));
            out.push(hex_digit_exec(c % 16));
        } else {
            out.push(c);
        }
        assert(out@ =~= before + escape_byte(c));
        assert(s@.subrange(0, i + 1).drop_last() =~= s@.subrange(0, i as int));
        i = i + 1;
    }
    assert(s@.subrange(0, i as int) =~= s@);
    out
}

/// Appends a field value as a JSON string body.
fn push_json_text(out: &mut Vec<u8>, f: &Vec<u8>)
    ensures
        final(out)@ == old(out)@ + json_text(f@),
{
    let text = lossy_text(f);
    let body = escape_json(&text);
    push_all(out, body.as_slice());
}

/// The template name of a kind.
pub fn template_name(k: RequestKind) -> (r: &'static str)
    ensures
        r@ == template_name_of(k),
{
    match k {
        RequestKind::Activation => "activationv1",
        RequestKind::PasswordRecovery => "passwordrecoveryv1",
    }
}

/// The fallback template data of a kind, with every value empty.
pub fn default_template_data(k: RequestKind) -> (r: Vec<u8>)
    ensures
        r@ == default_template_data_of(k),
{
    let mut out: Vec<u8> = Vec::new();
    push_all(&mut out, &[123u8, 34, 108, 111, 103, 105, 110, 34, 58, 34]);
    push_all(&mut out, &[34u8, 44, 34, 115, 101, 99, 114, 101, 116, 34, 58, 34]);
    if let RequestKind::PasswordRecovery = k {
        push_all(&mut out, &[34u8, 44, 34, 99, 111, 100, 101, 34, 58, 34]);
    }
    push_all(&mut out, &[34u8, 125]);
    assert(out@ =~= default_template_data_of(k));
    out
}

/// The template data of one record of kind `k`.
pub fn template_data(k: RequestKind, r: &Record) -> (out: Vec<u8>)
    ensures
        out@ == template_data_of(k, r@),
{
    let mut out: Vec<u8> = Vec::new();
    push_all(&mut out, &[123u8, 34, 108, 111, 103, 105, 110, 34, 58, 34]);
    push_json_text(&mut out, &r.login);
    push_all(&mut out, &[34u8, 44, 34, 115, 101, 99, 114, 101, 116, 34, 58, 34]);
    push_json_text(&mut out, &r.secret);
    if let RequestKind::PasswordRecovery = k {
        push_all(&mut out, &[34u8, 44, 34, 99, 111, 100, 101, 34, 58, 34]);
        push_json_text(&mut out, &r.code);
    }
    push_all(&mut out, &[34u8, 125]);
    assert(out@ =~= template_data_of(k, r@));
    out
}

/// The destinations of a batch of kind `k`, in batch order.
pub fn destinations(k: RequestKind, batch: &Vec<Record>) -> (r: Vec<Destination>)
    ensures
        r@.map_values(|d: Destination| d@) == destinations_of(k, records_view(batch@)),
{
    let mut out: Vec<Destination> = Vec::new();
    let mut i: usize = 0;
    while i < batch.len()
        invariant
            i <= batch@.len(),
            out@.len() == i,
            forall|j: int| 0 <= j < i ==> #[trigger] out@[j]@ == destination_of(k, batch@[j]@),
        decreases batch@.len() - i,
    {
        let r = &batch[i];
        let to_address = lossy_text(&r.to_address);
        let template_data = template_data(k, r);
        out.push(Destination { to_address, template_data });
        i = i + 1;
    }
    assert(out@.map_values(|d: Destination| d@) =~= destinations_of(k, records_view(batch@)));
    out
}

impl Parser {
    /// One flush cycle: a send for each non-empty batch, activation first;
    /// both batches are empty afterwards, whatever becomes of the sends.
    pub fn flush(&mut self) -> (r: Vec<BulkSend>)
        requires
            old(self).wf(),
        ensures
            final(self).wf(),
            sends_view(r@) == sends_of(old(self)@.activation, old(self)@.recovery),
            final(self)@ == old(self)@.with_batch(RequestKind::Activation, Seq::empty()).with_batch(
                RequestKind::PasswordRecovery,
                Seq::empty(),
            ),
    {
        let mut sends: Vec<BulkSend> = Vec::new();
        let a = self.take_batch(RequestKind::Activation);
        if a.len() > 0 {
            let d = destinations(RequestKind::Activation, &a);
            sends.push(BulkSend { kind: RequestKind::Activation, destinations: d });
        }
        let p = self.take_batch(RequestKind::PasswordRecovery);
        if p.len() > 0 {
            let d = destinations(RequestKind::PasswordRecovery, &p);
            sends.push(BulkSend { kind: RequestKind::PasswordRecovery, destinations: d });
        }
        assert(sends_view(sends@) =~= sends_of(old(self)@.activation, old(self)@.recovery));
        sends
    }
}

/// Flushing never asks for a send with no destinations, so a flush of two
/// empty batches sends nothing; there is one send per non-empty batch.
pub proof fn lemma_flush_sends_only_nonempty(
    activation: Seq<Seq<Seq<u8>>>,
    recovery: Seq<Seq<Seq<u8>>>,
)
    ensures
        sends_of(activation, recovery).len() == (if activation.len() > 0 { 1int } else { 0 }) + (
        if recovery.len() > 0 { 1int } else { 0 }),
        forall|i: int|
            0 <= i < sends_of(activation, recovery).len() ==> #[trigger] sends_of(
                activation,
                recovery,
            )[i].1.len() > 0,
        activation.len() == 0 && recovery.len() == 0 ==> sends_of(activation, recovery).len()
            == 0,
{
}

} // verus!
