//! The byte-at-a-time record decoder and the batches that it fills.
use vstd::prelude::*;

use crate::record::{
    is_delimiter, kind_of_token, records_view, valid_fields, Record, RequestKind, COMMA,
    MAX_FIELD_LEN, MAX_ROWS, NEWLINE, NUM_FIELDS,
};

verus! {

/// Why a byte could not be decoded.
#[derive(Clone, Copy, Debug, PartialEq, Eq, Structural)]
pub enum ParseError {
    /// The byte at the kind position is not `1` or `2`, is a second byte of a
    /// kind token, or the record has no kind byte before its first delimiter.
    InvalidKindToken(u8),
    /// A field would grow past `MAX_FIELD_LEN` bytes.
    FieldTooLong,
    /// The record's batch already holds `MAX_ROWS` records.
    BatchCapacityExceeded,
}

/// The decoder's state as mathematics: both batches and the record being read.
pub struct ParserState {
    pub activation: Seq<Seq<Seq<u8>>>,
    pub recovery: Seq<Seq<Seq<u8>>>,
    /// The kind of the record being read, once its token was seen.
    pub kind: Option<RequestKind>,
    /// 0 while awaiting the kind token, else the data field being written.
    pub field_index: nat,
    /// The data fields of the record that are already closed.
    pub closed: Seq<Seq<u8>>,
    /// The bytes of the field being written.
    pub current: Seq<u8>,
}

impl ParserState {
    pub open spec fn batch(self, k: RequestKind) -> Seq<Seq<Seq<u8>>> {
        match k {
            RequestKind::Activation => self.activation,
            RequestKind::PasswordRecovery => self.recovery,
        }
    }

    pub open spec fn with_batch(self, k: RequestKind, b: Seq<Seq<Seq<u8>>>) -> ParserState {
        match k {
            RequestKind::Activation => ParserState { activation: b, ..self },
            RequestKind::PasswordRecovery => ParserState { recovery: b, ..self },
        }
    }

    /// Between records: no kind seen, no field open.
    pub open spec fn at_rest(self) -> bool {
        &&& self.kind is None
        &&& self.field_index == 0
        &&& self.closed.len() == 0
        &&& self.current.len() == 0
    }

    pub open spec fn wf(self) -> bool {
        &&& self.activation.len() <= MAX_ROWS
        &&& self.recovery.len() <= MAX_ROWS
        &&& forall|i: int| 0 <= i < self.activation.len() ==> valid_fields(#[trigger] self.activation[i])
        &&& forall|i: int| 0 <= i < self.recovery.len() ==> valid_fields(#[trigger] self.recovery[i])
        &&& self.field_index <= NUM_FIELDS
        &&& self.current.len() <= MAX_FIELD_LEN
        &&& forall|i: int| 0 <= i < self.closed.len() ==> #[trigger] self.closed[i].len() <= MAX_FIELD_LEN
        &&& self.field_index == 0 ==> self.closed.len() == 0 && self.current.len() == 0
        &&& self.field_index > 0 ==> self.kind is Some && self.closed.len() == self.field_index - 1
    }

    /// Closes the open field, if any, and opens the next one.
    pub open spec fn open_next_field(self) -> ParserState {
        ParserState {
            field_index: self.field_index + 1,
            closed: if self.field_index == 0 { self.closed } else { self.closed.push(self.current) },
            current: Seq::empty(),
            ..self
        }
    }

    /// Files the record just completed into the batch of kind `k`.
    pub open spec fn finish_record(self, k: RequestKind) -> ParserState {
        ParserState {
            kind: None,
            field_index: 0,
            closed: Seq::empty(),
            current: Seq::empty(),
            ..self.with_batch(k, self.batch(k).push(self.closed.push(self.current)))
        }
    }
}

/// One decoding step: the next state and whether a line was completed, or
/// the error that the byte causes.
pub open spec fn step(s: ParserState, c: u8) -> Result<(ParserState, bool), ParseError> {
    if is_delimiter(c) {
        if s.field_index == 0 && s.kind is None {
            Err(ParseError::InvalidKindToken(c))
        } else if s.field_index < NUM_FIELDS {
            Ok((s.open_next_field(), c == NEWLINE))
        } else if s.batch(s.kind.unwrap()).len() >= MAX_ROWS {
            Err(ParseError::BatchCapacityExceeded)
        } else {
            Ok((s.finish_record(s.kind.unwrap()), c == NEWLINE))
        }
    } else if s.field_index == 0 {
        if s.kind is Some {
            Err(ParseError::InvalidKindToken(c))
        } else {
            match kind_of_token(c) {
                Some(k) => Ok((ParserState { kind: Some(k), ..s }, false)),
                None => Err(ParseError::InvalidKindToken(c)),
            }
        }
    } else if s.current.len() >= MAX_FIELD_LEN {
        Err(ParseError::FieldTooLong)
    } else {
        Ok((ParserState { current: s.current.push(c), ..s }, false))
    }
}

/// Decodes a byte sequence from state `s`: the final state and the number of
/// completed lines, or the first error.
pub open spec fn run(s: ParserState, bytes: Seq<u8>) -> Result<(ParserState, nat), ParseError>
    decreases bytes.len(),
{
    if bytes.len() == 0 {
        Ok((s, 0))
    } else {
        match step(s, bytes[0]) {
            Err(e) => Err(e),
            Ok((s1, line_done)) => match run(s1, bytes.drop_first()) {
                Err(e) => Err(e),
                Ok((s2, n)) => Ok((s2, n + if line_done { 1nat } else { 0nat })),
            },
        }
    }
}

/// No byte of `f` is a comma or a newline.
pub open spec fn no_delimiter(f: Seq<u8>) -> bool {
    forall|i: int| 0 <= i < f.len() ==> !is_delimiter(#[trigger] f[i])
}

/// Fields that a well-formed line can carry.
pub open spec fn line_fields(f: Seq<Seq<u8>>) -> bool {
    &&& valid_fields(f)
    &&& forall|i: int| 0 <= i < f.len() ==> no_delimiter(#[trigger] f[i])
}

/// The line `K,F1,F2,F3,F4\n`.
pub open spec fn line_of(token: u8, f: Seq<Seq<u8>>) -> Seq<u8> {
    seq![token, COMMA] + f[0] + seq![COMMA] + f[1] + seq![COMMA] + f[2] + seq![COMMA] + f[3]
        + seq![NEWLINE]
}

/// Number of newline bytes in `b`.
pub open spec fn count_newlines(b: Seq<u8>) -> nat
    decreases b.len(),
{
    if b.len() == 0 {
        0
    } else {
        count_newlines(b.drop_first()) + if b[0] == NEWLINE { 1nat } else { 0nat }
    }
}

proof fn lemma_run_cons(s: ParserState, c: u8, rest: Seq<u8>)
    ensures
        run(s, seq![c] + rest) == match step(s, c) {
            Err(e) => Err(e),
            Ok((s1, line_done)) => match run(s1, rest) {
                Err(e) => Err(e),
                Ok((s2, n)) => Ok((s2, n + if line_done { 1nat } else { 0nat })),
            },
        },
{
    let b = seq![c] + rest;
    assert(b[0] == c);
    assert(b.drop_first() =~= rest);
}

proof fn lemma_run_comma(s: ParserState, s1: ParserState, rest: Seq<u8>)
    requires
        step(s, COMMA) == Ok::<(ParserState, bool), ParseError>((s1, false)),
    ensures
        run(s, seq![COMMA] + rest) == run(s1, rest),
{
    lemma_run_cons(s, COMMA, rest);
}

/// Writing the bytes of `f` into the open field, then going on with `rest`.
proof fn lemma_run_field(s: ParserState, f: Seq<u8>, rest: Seq<u8>)
    requires
        s.field_index > 0,
        s.current.len() <= MAX_FIELD_LEN,
        no_delimiter(f),
    ensures
        s.current.len() + f.len() <= MAX_FIELD_LEN ==> run(s, f + rest) == run(
            ParserState { current: s.current + f, ..s },
            rest,
        ),
        s.current.len() + f.len() > MAX_FIELD_LEN ==> run(s, f + rest) == Err::<
            (ParserState, nat),
            ParseError,
        >(ParseError::FieldTooLong),
    decreases f.len(),
{
    let b = f + rest;
    if f.len() == 0 {
        assert(b =~= rest);
        assert(s.current + f =~= s.current);
        assert(ParserState { current: s.current + f, ..s } == s);
    } else {
        let c = f[0];
        assert(b[0] == c);
        assert(b.drop_first() =~= f.drop_first() + rest);
        assert(!is_delimiter(c));
        if s.current.len() < MAX_FIELD_LEN {
            let s1 = ParserState { current: s.current.push(c), ..s };
            assert(no_delimiter(f.drop_first())) by {
                assert forall|i: int| 0 <= i < f.drop_first().len() implies !is_delimiter(
                    #[trigger] f.drop_first()[i],
                ) by {
                    assert(f.drop_first()[i] == f[i + 1]);
                }
            }
            lemma_run_field(s1, f.drop_first(), rest);
            assert(s1.current + f.drop_first() =~= s.current + f);
        }
    }
}

/// Decoding a well-formed line from rest: the record joins its batch, or the
/// line fails on its final newline when that batch is full.
proof fn lemma_run_line(s: ParserState, token: u8, f: Seq<Seq<u8>>)
    requires
        s.at_rest(),
        kind_of_token(token) is Some,
        line_fields(f),
    ensures
        ({
            let k = kind_of_token(token).unwrap();
            if s.batch(k).len() < MAX_ROWS {
                run(s, line_of(token, f)) == Ok::<(ParserState, nat), ParseError>(
                    (s.with_batch(k, s.batch(k).push(f)), 1nat),
                )
            } else {
                run(s, line_of(token, f)) == Err::<(ParserState, nat), ParseError>(
                    ParseError::BatchCapacityExceeded,
                )
            }
        }),
{
    let k = kind_of_token(token).unwrap();
    let (f0, f1, f2, f3) = (f[0], f[1], f[2], f[3]);
    let nl = seq![NEWLINE];
    let r3 = f3 + nl;
    let r2 = f2 + (seq![COMMA] + r3);
    let r1 = f1 + (seq![COMMA] + r2);
    let r0 = f0 + (seq![COMMA] + r1);
    assert(line_of(token, f) =~= seq![token] + (seq![COMMA] + r0));
    assert(no_delimiter(f0) && no_delimiter(f1) && no_delimiter(f2) && no_delimiter(f3)) by {
        assert(no_delimiter(f[0]));
        assert(no_delimiter(f[1]));
        assert(no_delimiter(f[2]));
        assert(no_delimiter(f[3]));
    }
    assert(f0.len() <= MAX_FIELD_LEN && f1.len() <= MAX_FIELD_LEN);
    assert(f2.len() <= MAX_FIELD_LEN && f3.len() <= MAX_FIELD_LEN);
    let s1 = ParserState { kind: Some(k), ..s };
    let s2 = s1.open_next_field();
    let s3 = ParserState { current: f0, ..s2 };
    let s4 = s3.open_next_field();
    let s5 = ParserState { current: f1, ..s4 };
    let s6 = s5.open_next_field();
    let s7 = ParserState { current: f2, ..s6 };
    let s8 = s7.open_next_field();
    let s9 = ParserState { current: f3, ..s8 };
    lemma_run_cons(s, token, seq![COMMA] + r0);
    lemma_run_comma(s1, s2, r0);
    lemma_run_field(s2, f0, seq![COMMA] + r1);
    assert(s2.current + f0 =~= f0);
    lemma_run_comma(s3, s4, r1);
    lemma_run_field(s4, f1, seq![COMMA] + r2);
    assert(s4.current + f1 =~= f1);
    lemma_run_comma(s5, s6, r2);
    lemma_run_field(s6, f2, seq![COMMA] + r3);
    assert(s6.current + f2 =~= f2);
    lemma_run_comma(s7, s8, r3);
    lemma_run_field(s8, f3, nl);
    assert(s8.current + f3 =~= f3);
    lemma_run_cons(s9, NEWLINE, Seq::empty());
    assert(nl =~= seq![NEWLINE] + Seq::<u8>::empty());
    assert(s9.closed.push(s9.current) =~= f);
    if s.batch(k).len() < MAX_ROWS {
        let done = s9.finish_record(k);
        assert(done.closed =~= s.closed);
        assert(done.current =~= s.current);
        assert(done == s.with_batch(k, s.batch(k).push(f)));
    }
}

/// A well-formed line `K,F1,F2,F3,F4\n` decoded from rest yields exactly one
/// record, of the kind that `K` names and with the fields `F1..F4`, appended
/// to that kind's batch; the other batch is unchanged, the decoder is at rest
/// again and one line completion is reported.
pub proof fn lemma_line_decodes(s: ParserState, token: u8, f: Seq<Seq<u8>>)
    requires
        s.at_rest(),
        kind_of_token(token) is Some,
        line_fields(f),
        s.batch(kind_of_token(token).unwrap()).len() < MAX_ROWS,
    ensures
        ({
            let k = kind_of_token(token).unwrap();
            run(s, line_of(token, f)) == Ok::<(ParserState, nat), ParseError>(
                (s.with_batch(k, s.batch(k).push(f)), 1nat),
            )
        }),
{
    lemma_run_line(s, token, f);
}

/// A well-formed line for a kind whose batch already holds `MAX_ROWS` records
/// fails with `BatchCapacityExceeded`: no earlier record is overwritten.
pub proof fn lemma_full_batch_rejected(s: ParserState, token: u8, f: Seq<Seq<u8>>)
    requires
        s.at_rest(),
        kind_of_token(token) is Some,
        line_fields(f),
        s.batch(kind_of_token(token).unwrap()).len() >= MAX_ROWS,
    ensures
        run(s, line_of(token, f)) == Err::<(ParserState, nat), ParseError>(
            ParseError::BatchCapacityExceeded,
        ),
{
    lemma_run_line(s, token, f);
}

/// A line whose first byte is not `1` or `2` fails on that byte with
/// `InvalidKindToken`, before any batch could change.
pub proof fn lemma_bad_kind_rejected(s: ParserState, line: Seq<u8>)
    requires
        s.at_rest(),
        line.len() > 0,
        line[0] != 49,
        line[0] != 50,
    ensures
        step(s, line[0]) == Err::<(ParserState, bool), ParseError>(
            ParseError::InvalidKindToken(line[0]),
        ),
        run(s, line) == Err::<(ParserState, nat), ParseError>(
            ParseError::InvalidKindToken(line[0]),
        ),
{
}

/// A field that grows past `MAX_FIELD_LEN` bytes fails with `FieldTooLong`,
/// whatever follows it.
pub proof fn lemma_long_field_rejected(s: ParserState, f: Seq<u8>, rest: Seq<u8>)
    requires
        s.wf(),
        s.field_index > 0,
        no_delimiter(f),
        s.current.len() + f.len() > MAX_FIELD_LEN,
    ensures
        run(s, f + rest) == Err::<(ParserState, nat), ParseError>(ParseError::FieldTooLong),
{
    lemma_run_field(s, f, rest);
}

/// Decoding reports one line completion per newline byte consumed.
pub proof fn lemma_line_completions_counted(s: ParserState, bytes: Seq<u8>)
    ensures
        match run(s, bytes) {
            Ok((_, n)) => n == count_newlines(bytes),
            Err(_) => true,
        },
    decreases bytes.len(),
{
    if bytes.len() > 0 {
        match step(s, bytes[0]) {
            Ok((s1, _)) => lemma_line_completions_counted(s1, bytes.drop_first()),
            Err(_) => {},
        }
    }
}

/// The decoder, with one batch per request kind.
pub struct Parser {
    activation: Vec<Record>,
    recovery: Vec<Record>,
    kind: Option<RequestKind>,
    field_index: usize,
    closed: Vec<Vec<u8>>,
    current: Vec<u8>,
}

impl View for Parser {
    type V = ParserState;

    closed spec fn view(&self) -> ParserState {
        ParserState {
            activation: records_view(self.activation@),
            recovery: records_view(self.recovery@),
            kind: self.kind,
            field_index: self.field_index as nat,
            closed: self.closed@.map_values(|f: Vec<u8>| f@),
            current: self.current@,
        }
    }
}

impl Parser {
    pub open spec fn wf(&self) -> bool {
        self@.wf()
    }

    /// A decoder at rest with both batches empty.
    pub fn new() -> (r: Parser)
        ensures
            r.wf(),
            r@.at_rest(),
            r@.activation.len() == 0,
            r@.recovery.len() == 0,
    {
        let r = Parser {
            activation: Vec::new(),
            recovery: Vec::new(),
            kind: None,
            field_index: 0,
            closed: Vec::new(),
            current: Vec::new(),
        };
        assert(r@.closed =~= Seq::<Seq<u8>>::empty());
        assert(r@.activation =~= Seq::<Seq<Seq<u8>>>::empty());
        assert(r@.recovery =~= Seq::<Seq<Seq<u8>>>::empty());
        r
    }

    /// Decodes one byte. `Ok(true)` reports a completed line; on an error
    /// nothing changes.
    pub fn consume(&mut self, c: u8) -> (r: Result<bool, ParseError>)
        requires
            old(self).wf(),
        ensures
            final(self).wf(),
            match step(old(self)@, c) {
                Ok((s, line_done)) => r == Ok::<bool, ParseError>(line_done) && final(self)@ == s,
                Err(e) => r == Err::<bool, ParseError>(e) && final(self)@ == old(self)@,
            },
    {
        if c == COMMA || c == NEWLINE {
            if self.field_index == 0 && self.kind.is_none() {
                return Err(ParseError::InvalidKindToken(c));
            } else if self.field_index == 0 {
                self.field_index = 1;
                assert(self@.current =~= Seq::<u8>::empty());
                assert(self@ == old(self)@.open_next_field());
            } else if self.field_index < NUM_FIELDS {
                let mut f: Vec<u8> = Vec::new();
                std::mem::swap(&mut f, &mut self.current);
                self.closed.push(f);
                self.field_index = self.field_index + 1;
                assert(self@.closed =~= old(self)@.open_next_field().closed);
                assert(self@.current =~= Seq::<u8>::empty());
                assert(self@ == old(self)@.open_next_field());
            } else {
                let k = self.kind.unwrap();
                if self.batch_len(k) >= MAX_ROWS {
                    return Err(ParseError::BatchCapacityExceeded);
                }
                let mut code: Vec<u8> = Vec::new();
                std::mem::swap(&mut code, &mut self.current);
                let secret = self.closed.pop().unwrap();
                let login = self.closed.pop().unwrap();
                let to_address = self.closed.pop().unwrap();
                let rec = Record { to_address, login, secret, code };
                assert(rec@ =~= old(self)@.closed.push(old(self)@.current));
                assert(self@.closed =~= Seq::<Seq<u8>>::empty());
                match k {
                    RequestKind::Activation => {
                        self.activation.push(rec);
                        assert(records_view(self.activation@) =~= records_view(
                            old(self).activation@,
                        ).push(rec@));
                    },
                    RequestKind::PasswordRecovery => {
                        self.recovery.push(rec);
                        assert(records_view(self.recovery@) =~= records_view(
                            old(self).recovery@,
                        ).push(rec@));
                    },
                }
                self.kind = None;
                self.field_index = 0;
                assert(self@ =~= old(self)@.finish_record(k));
            }
            Ok(c == NEWLINE)
        } else if self.field_index == 0 {
            if self.kind.is_some() {
                return Err(ParseError::InvalidKindToken(c));
            }
            match RequestKind::from_token(c) {
                Some(k) => {
                    self.kind = Some(k);
                    Ok(false)
                },
                None => Err(ParseError::InvalidKindToken(c)),
            }
        } else if self.current.len() >= MAX_FIELD_LEN {
            Err(ParseError::FieldTooLong)
        } else {
            self.current.push(c);
            Ok(false)
        }
    }

    /// Number of records waiting in the batch of kind `k`.
    pub fn batch_len(&self, k: RequestKind) -> (r: usize)
        ensures
            r == self@.batch(k).len(),
    {
        match k {
            RequestKind::Activation => self.activation.len(),
            RequestKind::PasswordRecovery => self.recovery.len(),
        }
    }
    /// Takes the whole batch of kind `k` out of the decoder, leaving it empty.
    pub fn take_batch(&mut self, k: RequestKind) -> (r: Vec<Record>)
        requires
            old(self).wf(),
        ensures
            final(self).wf(),
            records_view(r@) == old(self)@.batch(k),
            final(self)@ == old(self)@.with_batch(k, Seq::empty()),
    {
        let mut taken: Vec<Record> = Vec::new();
        match k {
            RequestKind::Activation => std::mem::swap(&mut taken, &mut self.activation),
            RequestKind::PasswordRecovery => std::mem::swap(&mut taken, &mut self.recovery),
        }
        assert(records_view(Seq::<Record>::empty()) =~= Seq::<Seq<Seq<u8>>>::empty());
        assert(self@ == old(self)@.with_batch(k, Seq::empty()));
        taken
    }

    /// Reports how many records each batch holds, activation first, and
    /// empties both.
    pub fn drain_counts(&mut self) -> (r: (usize, usize))
        requires
            old(self).wf(),
        ensures
            final(self).wf(),
            r == (old(self)@.activation.len() as usize, old(self)@.recovery.len() as usize),
            final(self)@ == old(self)@.with_batch(RequestKind::Activation, Seq::empty()).with_batch(
                RequestKind::PasswordRecovery,
                Seq::empty(),
            ),
    {
        let a = self.take_batch(RequestKind::Activation);
        let p = self.take_batch(RequestKind::PasswordRecovery);
        (a.len(), p.len())
    }
}

} // verus!
