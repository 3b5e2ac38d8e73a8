//! Request kinds, decoded records and the wire tokens that select them.
use vstd::prelude::*;

verus! {

/// Longest field value, in bytes.
pub const MAX_FIELD_LEN: usize = 254;

/// Records that one batch holds before it must be flushed.
pub const MAX_ROWS: usize = 10;

/// Data fields of every record.
pub const NUM_FIELDS: usize = 4;

/// The byte that separates fields.
pub const COMMA: u8 = 44;

/// The byte that ends a line.
pub const NEWLINE: u8 = 10;

/// The two kinds of notification request.
#[derive(Clone, Copy, Debug, PartialEq, Eq, Structural)]
pub enum RequestKind {
    /// Wire token `1`.
    Activation,
    /// Wire token `2`.
    PasswordRecovery,
}

/// The kind that a kind-token byte selects, if any.
pub open spec fn kind_of_token(c: u8) -> Option<RequestKind> {
    if c == 49 {
        Some(RequestKind::Activation)
    } else if c == 50 {
        Some(RequestKind::PasswordRecovery)
    } else {
        None
    }
}

/// A field separator or a line end.
pub open spec fn is_delimiter(c: u8) -> bool {
    c == COMMA || c == NEWLINE
}

impl RequestKind {
    /// Position of the kind among the batches: 0 for activation, 1 for
    /// password recovery.
    pub open spec fn index_spec(self) -> usize {
        match self {
            RequestKind::Activation => 0,
            RequestKind::PasswordRecovery => 1,
        }
    }

    pub fn index(self) -> (r: usize)
        ensures
            r == self.index_spec(),
    {
        match self {
            RequestKind::Activation => 0,
            RequestKind::PasswordRecovery => 1,
        }
    }

    /// Decodes a kind token: `1` is activation, `2` password recovery.
    pub fn from_token(c: u8) -> (r: Option<RequestKind>)
        ensures
            r == kind_of_token(c),
    {
        if c == 49 {
            Some(RequestKind::Activation)
        } else if c == 50 {
            Some(RequestKind::PasswordRecovery)
        } else {
            None
        }
    }
}

/// One decoded line: four byte fields, whatever the kind uses.
#[derive(Debug, PartialEq, Eq)]
pub struct Record {
    pub to_address: Vec<u8>,
    pub login: Vec<u8>,
    pub secret: Vec<u8>,
    pub code: Vec<u8>,
}

impl View for Record {
    type V = Seq<Seq<u8>>;

    /// The four fields, in wire order.
    open spec fn view(&self) -> Seq<Seq<u8>> {
        seq![self.to_address@, self.login@, self.secret@, self.code@]
    }
}

/// Fields that a record can hold: four, none longer than the limit.
pub open spec fn valid_fields(f: Seq<Seq<u8>>) -> bool {
    &&& f.len() == NUM_FIELDS
    &&& forall|i: int| 0 <= i < f.len() ==> #[trigger] f[i].len() <= MAX_FIELD_LEN
}

/// The views of a sequence of records.
pub open spec fn records_view(v: Seq<Record>) -> Seq<Seq<Seq<u8>>> {
    v.map_values(|r: Record| r@)
}

} // verus!
