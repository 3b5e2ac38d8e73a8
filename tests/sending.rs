use sendmail::dispatch::{
    default_template_data, escape_json, template_data, template_name, Destination,
};
use sendmail::parser::Parser;
use sendmail::record::{Record, RequestKind};

fn feed(p: &mut Parser, bytes: &[u8]) -> usize {
    let mut lines = 0;
    for &b in bytes {
        if p.consume(b).unwrap() {
            lines += 1;
        }
    }
    lines
}

#[test]
fn activation_line_yields_one_activation_send() {
    let mut p = Parser::new();
    assert_eq!(feed(&mut p, b"1,a@x.com,alice,topsecret,\n"), 1);
    let sends = p.flush();
    assert_eq!(sends.len(), 1);
    assert_eq!(sends[0].kind, RequestKind::Activation);
    assert_eq!(
        sends[0].destinations,
        vec![Destination {
            to_address: b"a@x.com".to_vec(),
            template_data: br#"{"login":"alice","secret":"topsecret"}"#.to_vec(),
        }]
    );
    assert_eq!(template_name(sends[0].kind), "activationv1");
}

#[test]
fn recovery_line_yields_one_recovery_send() {
    let mut p = Parser::new();
    assert_eq!(feed(&mut p, b"2,b@x.com,bob,pw,123456\n"), 1);
    let sends = p.flush();
    assert_eq!(sends.len(), 1);
    assert_eq!(sends[0].kind, RequestKind::PasswordRecovery);
    assert_eq!(
        sends[0].destinations,
        vec![Destination {
            to_address: b"b@x.com".to_vec(),
            template_data: br#"{"login":"bob","secret":"pw","code":"123456"}"#.to_vec(),
        }]
    );
    assert_eq!(template_name(sends[0].kind), "passwordrecoveryv1");
}

#[test]
fn flush_empties_both_batches() {
    let mut p = Parser::new();
    assert_eq!(feed(&mut p, b"1,a,b,c,d\n2,e,f,g,h\n1,i,j,k,l\n"), 3);
    let sends = p.flush();
    assert_eq!(sends.len(), 2);
    assert_eq!(sends[0].kind, RequestKind::Activation);
    assert_eq!(sends[0].destinations.len(), 2);
    assert_eq!(sends[0].destinations[1].to_address, b"i".to_vec());
    assert_eq!(sends[1].kind, RequestKind::PasswordRecovery);
    assert_eq!(sends[1].destinations.len(), 1);
    assert_eq!(p.drain_counts(), (0, 0));
}

#[test]
fn flushing_empty_batches_sends_nothing() {
    let mut p = Parser::new();
    assert!(p.flush().is_empty());
    assert_eq!(feed(&mut p, b"2,a,b,c,d\n"), 1);
    assert_eq!(p.flush().len(), 1);
    assert!(p.flush().is_empty());
}

#[test]
fn only_the_non_empty_batch_is_sent() {
    let mut p = Parser::new();
    assert_eq!(feed(&mut p, b"2,a,b,c,d\n"), 1);
    let sends = p.flush();
    assert_eq!(sends.len(), 1);
    assert_eq!(sends[0].kind, RequestKind::PasswordRecovery);
}

#[test]
fn default_template_data_per_kind() {
    assert_eq!(
        default_template_data(RequestKind::Activation),
        br#"{"login":"","secret":""}"#.to_vec()
    );
    assert_eq!(
        default_template_data(RequestKind::PasswordRecovery),
        br#"{"login":"","secret":"","code":""}"#.to_vec()
    );
}

#[test]
fn quotes_backslashes_and_control_bytes_are_escaped() {
    let r = Record {
        to_address: b"x".to_vec(),
        login: b"a\"b\\c".to_vec(),
        secret: vec![b's', 1, b'\t'],
        code: b"ignored".to_vec(),
    };
    assert_eq!(
        template_data(RequestKind::Activation, &r),
        br#"{"login":"a\"b\\c","secret":"s\u0001\u0009"}"#.to_vec()
    );
}

#[test]
fn invalid_text_is_replaced() {
    let r = Record {
        to_address: vec![b'a', 0xff],
        login: vec![0xc3, 0xa9],
        secret: vec![0xfe],
        code: b"1".to_vec(),
    };
    let mut expected = br#"{"login":""#.to_vec();
    expected.extend_from_slice(&[0xc3, 0xa9]);
    expected.extend_from_slice(br#"","secret":""#);
    expected.extend_from_slice(&[0xef, 0xbf, 0xbd]);
    expected.extend_from_slice(br#"","code":"1"}"#);
    assert_eq!(template_data(RequestKind::PasswordRecovery, &r), expected);

    let mut p = Parser::new();
    assert_eq!(feed(&mut p, &[b'1', b',', b'a', 0xff, b',', b'l', b',', b's', b',', b'\n']), 1);
    let sends = p.flush();
    assert_eq!(sends[0].destinations[0].to_address, vec![b'a', 0xef, 0xbf, 0xbd]);
}

#[test]
fn escape_json_exact_bytes() {
    assert_eq!(escape_json(&b"plain".to_vec()), b"plain".to_vec());
    assert_eq!(escape_json(&b"\"\\".to_vec()), b"\\\"\\\\".to_vec());
    assert_eq!(escape_json(&vec![0x1f, b'\n', 0xc3]), b"\\u001f\\u000a\xc3".to_vec());
    assert_eq!(escape_json(&vec![]), Vec::<u8>::new());
}
