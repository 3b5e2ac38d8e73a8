use sendmail::parser::{ParseError, Parser};
use sendmail::record::RequestKind;

fn feed(p: &mut Parser, bytes: &[u8]) -> Result<usize, ParseError> {
    let mut lines = 0;
    for &b in bytes {
        if p.consume(b)? {
            lines += 1;
        }
    }
    Ok(lines)
}

#[test]
fn well_formed_line_decodes_one_record() {
    let mut p = Parser::new();
    let line = b"2,b@x.com,bob,pw,123456\n";
    for (i, &b) in line.iter().enumerate() {
        let r = p.consume(b);
        assert_eq!(r, Ok(i == line.len() - 1));
    }
    let sends = p.flush();
    assert_eq!(sends.len(), 1);
    assert_eq!(sends[0].kind, RequestKind::PasswordRecovery);
    assert_eq!(sends[0].destinations.len(), 1);
    assert_eq!(sends[0].destinations[0].to_address, b"b@x.com".to_vec());
}

#[test]
fn empty_fields_are_valid() {
    let mut p = Parser::new();
    assert_eq!(feed(&mut p, b"1,,,,\n"), Ok(1));
    assert_eq!(p.drain_counts(), (1, 0));
}

#[test]
fn kind_token_nine_is_rejected_before_any_batch_change() {
    let mut p = Parser::new();
    assert_eq!(p.consume(b'9'), Err(ParseError::InvalidKindToken(b'9')));
    assert_eq!(p.drain_counts(), (0, 0));
}

#[test]
fn whole_line_with_bad_kind_fails_on_first_byte() {
    let mut p = Parser::new();
    assert_eq!(feed(&mut p, b"9,a,b,c,d\n"), Err(ParseError::InvalidKindToken(b'9')));
    assert_eq!(p.flush().len(), 0);
}

#[test]
fn missing_kind_token_is_rejected() {
    let mut p = Parser::new();
    assert_eq!(p.consume(b','), Err(ParseError::InvalidKindToken(b',')));
    assert_eq!(p.consume(b'\n'), Err(ParseError::InvalidKindToken(b'\n')));
}

#[test]
fn two_byte_kind_token_is_rejected() {
    let mut p = Parser::new();
    assert_eq!(p.consume(b'1'), Ok(false));
    assert_eq!(p.consume(b'2'), Err(ParseError::InvalidKindToken(b'2')));
}

#[test]
fn error_leaves_decoder_unchanged() {
    let mut p = Parser::new();
    assert_eq!(p.consume(b'1'), Ok(false));
    assert_eq!(p.consume(b'x'), Err(ParseError::InvalidKindToken(b'x')));
    assert_eq!(feed(&mut p, b",a,b,c,d\n"), Ok(1));
    assert_eq!(p.drain_counts(), (1, 0));
}

#[test]
fn field_of_254_bytes_is_accepted() {
    let mut p = Parser::new();
    let mut line = b"1,".to_vec();
    line.extend(std::iter::repeat(b'a').take(254));
    line.extend_from_slice(b",b,c,d\n");
    assert_eq!(feed(&mut p, &line), Ok(1));
    let sends = p.flush();
    assert_eq!(sends[0].destinations[0].to_address.len(), 254);
}

#[test]
fn field_of_255_bytes_fails() {
    let mut p = Parser::new();
    assert_eq!(feed(&mut p, b"1,a,"), Ok(0));
    for _ in 0..254 {
        assert_eq!(p.consume(b'z'), Ok(false));
    }
    assert_eq!(p.consume(b'z'), Err(ParseError::FieldTooLong));
}

#[test]
fn eleventh_record_exceeds_batch_capacity() {
    let mut p = Parser::new();
    for _ in 0..10 {
        assert_eq!(feed(&mut p, b"1,a,b,c,d\n"), Ok(1));
    }
    assert_eq!(feed(&mut p, b"1,a,b,c,d"), Ok(0));
    assert_eq!(p.consume(b'\n'), Err(ParseError::BatchCapacityExceeded));
    assert_eq!(p.consume(b'\n'), Err(ParseError::BatchCapacityExceeded));
    let sends = p.flush();
    assert_eq!(sends.len(), 1);
    assert_eq!(sends[0].destinations.len(), 10);
    assert_eq!(p.consume(b'\n'), Ok(true));
    assert_eq!(p.drain_counts(), (1, 0));
}

#[test]
fn one_completion_per_newline() {
    let mut p = Parser::new();
    assert_eq!(feed(&mut p, b"1,a,b,c,d\n2,e,f,g,h\n1,i,j,k,l\n"), Ok(3));
    assert_eq!(feed(&mut p, b"1,a,b"), Ok(0));
    assert_eq!(p.drain_counts(), (2, 1));
}

#[test]
fn drain_counts_empties_batches() {
    let mut p = Parser::new();
    assert_eq!(feed(&mut p, b"2,a,b,c,d\n"), Ok(1));
    assert_eq!(p.drain_counts(), (0, 1));
    assert_eq!(p.drain_counts(), (0, 0));
}

#[test]
fn batch_len_counts_each_kind() {
    let mut p = Parser::new();
    assert_eq!(feed(&mut p, b"2,a,b,c,d\n2,a,b,c,d\n1,a,b,c,d\n"), Ok(3));
    assert_eq!(p.batch_len(RequestKind::Activation), 1);
    assert_eq!(p.batch_len(RequestKind::PasswordRecovery), 2);
}

#[test]
fn kind_tokens_and_indices() {
    assert_eq!(RequestKind::from_token(b'1'), Some(RequestKind::Activation));
    assert_eq!(RequestKind::from_token(b'2'), Some(RequestKind::PasswordRecovery));
    assert_eq!(RequestKind::from_token(b'3'), None);
    assert_eq!(RequestKind::Activation.index(), 0);
    assert_eq!(RequestKind::PasswordRecovery.index(), 1);
}
