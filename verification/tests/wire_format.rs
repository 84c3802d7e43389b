use patine::command::smtp_command::SmtpCommand;
use patine::io::client::CodecError;
use patine::io::codec_state::CodecState;
use patine::io::smtp_codec::SmtpCodec;
use patine::io::smtp_response::SmtpResponse;

fn server_codec() -> SmtpCodec<SmtpCommand, SmtpResponse> {
    SmtpCodec::new()
}

fn client_codec() -> SmtpCodec<SmtpResponse, SmtpCommand> {
    SmtpCodec::new()
}

#[test]
fn new_codec_reads_command_lines() {
    assert_eq!(server_codec().codec_state, CodecState::Regular);
}

#[test]
fn server_decodes_one_line_at_a_time() {
    let mut codec = server_codec();
    let buf = b"EHLO a.example\r\nNOOP\r\n";
    let (n, c) = codec.decode(buf).unwrap();
    assert_eq!(n, 16);
    assert_eq!(c, SmtpCommand::Ehlo("a.example".to_string()));
    let (m, c2) = codec.decode(&buf[n..]).unwrap();
    assert_eq!(m, 6);
    assert_eq!(c2, SmtpCommand::Noop);
}

#[test]
fn server_waits_for_a_whole_line() {
    let mut codec = server_codec();
    assert!(codec.decode(b"EHLO a.exa").is_none());
    assert!(codec.decode(b"").is_none());
    assert_eq!(codec.codec_state, CodecState::Regular);
}

#[test]
fn data_switches_to_mail_data_and_back() {
    let mut codec = server_codec();
    let (n, c) = codec.decode(b"DATA\r\n").unwrap();
    assert_eq!((n, c), (6, SmtpCommand::Data));
    assert_eq!(codec.codec_state, CodecState::Data);
    assert!(codec.decode(b"Subject: hi\r\n\r\nbody").is_none());
    let (m, body) = codec.decode(b"Subject: hi\r\n\r\nbody\r\n.\r\nQUIT\r\n").unwrap();
    assert_eq!(m, 24);
    assert_eq!(body, SmtpCommand::DataEnd(b"Subject: hi\r\n\r\nbody".to_vec()));
    assert_eq!(codec.codec_state, CodecState::Regular);
}

#[test]
fn invalid_utf8_in_a_command_line_is_replaced() {
    let mut codec = server_codec();
    let (n, c) = codec.decode(b"NOOP\xff\r\n").unwrap();
    assert_eq!(n, 7);
    assert_eq!(c, SmtpCommand::Noop);
    let (_, h) = codec.decode(b"HELO a\xffb\r\n").unwrap();
    assert_eq!(h, SmtpCommand::Helo("a\u{FFFD}b".to_string()));
}

#[test]
fn server_encodes_replies() {
    let mut codec = server_codec();
    let mut out = Vec::new();
    codec.encode(SmtpResponse::SingleLine(250, "OK".to_string()), &mut out);
    assert_eq!(out, b"250 OK\r\n".to_vec());
    codec.encode(
        SmtpResponse::Multiline(250, vec!["Welcome!".to_string(), "SMTPUTF8".to_string()]),
        &mut out,
    );
    assert_eq!(out, b"250 OK\r\n250-Welcome!\r\n250 SMTPUTF8\r\n".to_vec());
}

#[test]
fn empty_multiline_reply_encodes_to_nothing() {
    let mut codec = server_codec();
    let mut out = Vec::new();
    codec.encode(SmtpResponse::Multiline(250, vec![]), &mut out);
    assert!(out.is_empty());
}

#[test]
fn client_decodes_single_line_reply() {
    let mut codec = client_codec();
    let r = codec.decode(b"220 mx.example ready\r\n");
    assert_eq!(r, Some(Ok(Some((22, SmtpResponse::SingleLine(220, "mx.example ready".to_string()))))));
}

#[test]
fn client_decodes_multiline_reply() {
    let mut codec = client_codec();
    let r = codec.decode(b"250-mx.example\r\n250-SIZE 100\r\n250 STARTTLS\r\nrest");
    assert_eq!(
        r,
        Some(Ok(Some((
            44,
            SmtpResponse::Multiline(
                250,
                vec!["mx.example".to_string(), "SIZE 100".to_string(), "STARTTLS".to_string()],
            ),
        ))))
    );
}

#[test]
fn client_waits_for_the_last_line() {
    let mut codec = client_codec();
    assert_eq!(codec.decode(b"250-mx.example\r\n250 STAR"), Some(Ok(None)));
    assert_eq!(codec.decode(b""), Some(Ok(None)));
}

#[test]
fn client_rejects_bad_codes_and_separators() {
    let mut codec = client_codec();
    assert_eq!(codec.decode(b"abc hello\r\n"), Some(Err(CodecError::InvalidStatusCode)));
    assert_eq!(codec.decode(b"250-a\r\n251 b\r\n"), Some(Err(CodecError::InconsistentStatusCodes)));
    assert_eq!(codec.decode(b"250xa\r\n"), Some(Err(CodecError::MalformedSeparator)));
}

#[test]
fn client_gives_up_on_a_line_without_separator() {
    let mut codec = client_codec();
    assert_eq!(codec.decode(b"250\r\n"), None);
}

#[test]
fn client_encodes_commands() {
    let mut codec = client_codec();
    let mut out = Vec::new();
    assert_eq!(codec.encode(SmtpCommand::Ehlo("me.example".to_string()), &mut out), Ok(()));
    assert_eq!(codec.encode(SmtpCommand::Mail("a@b.example".to_string()), &mut out), Ok(()));
    assert_eq!(codec.encode(SmtpCommand::Rcpt("c@d.example".to_string()), &mut out), Ok(()));
    assert_eq!(codec.encode(SmtpCommand::Data, &mut out), Ok(()));
    assert_eq!(codec.encode(SmtpCommand::DataEnd(b"hi".to_vec()), &mut out), Ok(()));
    assert_eq!(codec.encode(SmtpCommand::Quit, &mut out), Ok(()));
    assert_eq!(
        out,
        b"EHLO me.example\r\nMAIL FROM:<a@b.example>\r\nRCPT TO:<c@d.example>\r\nDATA\r\nhi\r\n.\r\nQUIT\r\n".to_vec()
    );
}

#[test]
fn client_encodes_the_remaining_commands() {
    let mut codec = client_codec();
    let mut out = Vec::new();
    codec.encode(SmtpCommand::Helo("h".to_string()), &mut out).unwrap();
    codec.encode(SmtpCommand::Noop, &mut out).unwrap();
    codec.encode(SmtpCommand::Rset, &mut out).unwrap();
    codec.encode(SmtpCommand::Vrfy("bob".to_string()), &mut out).unwrap();
    codec.encode(SmtpCommand::Starttls, &mut out).unwrap();
    codec.encode(SmtpCommand::Auth("PLAIN x".to_string()), &mut out).unwrap();
    assert_eq!(out, b"HELO h\r\nNOOP\r\nRSET\r\nVRFY bob\r\nSTARTTLS\r\nAUTH PLAIN x\r\n".to_vec());
}

#[test]
fn unknown_command_cannot_be_sent() {
    let mut codec = client_codec();
    let mut out = vec![1u8];
    assert_eq!(codec.encode(SmtpCommand::Unknown, &mut out), Err(CodecError::InvalidCommand));
    assert_eq!(out, vec![1u8]);
}

#[test]
fn codec_error_messages() {
    assert_eq!(CodecError::InvalidStatusCode.message(), "Invalid status code");
    assert_eq!(CodecError::InconsistentStatusCodes.message(), "Inconsistent multiline status codes");
    assert_eq!(CodecError::MalformedSeparator.message(), "Malformed response separator");
    assert_eq!(CodecError::InvalidCommand.message(), "Invalid SMTP command");
}

#[test]
fn encoded_reply_decodes_to_itself() {
    let mut server = server_codec();
    let mut client = client_codec();
    let reply = SmtpResponse::Multiline(250, vec!["a".to_string(), "b c".to_string()]);
    let mut out = Vec::new();
    server.encode(SmtpResponse::Multiline(250, vec!["a".to_string(), "b c".to_string()]), &mut out);
    let n = out.len();
    out.extend_from_slice(b"221 bye\r\n");
    assert_eq!(client.decode(&out), Some(Ok(Some((n, reply)))));
}

#[test]
fn sent_mail_data_decodes_to_itself() {
    let mut server = server_codec();
    let mut client = client_codec();
    let mut out = Vec::new();
    client.encode(SmtpCommand::DataEnd(b"line one\r\nline two".to_vec()), &mut out).unwrap();
    server.codec_state = CodecState::Data;
    let (n, c) = server.decode(&out).unwrap();
    assert_eq!(n, out.len());
    assert_eq!(c, SmtpCommand::DataEnd(b"line one\r\nline two".to_vec()));
}

#[test]
fn sent_commands_decode_to_themselves() {
    let make = || vec![
        SmtpCommand::Helo("a.example".to_string()),
        SmtpCommand::Ehlo("b.example".to_string()),
        SmtpCommand::Vrfy("bob".to_string()),
        SmtpCommand::Auth("PLAIN AGJvYgBodWpnbnVq".to_string()),
        SmtpCommand::Noop,
        SmtpCommand::Quit,
        SmtpCommand::Rset,
        SmtpCommand::Starttls,
        SmtpCommand::Data,
    ];
    for (command, copy) in make().into_iter().zip(make()) {
        let mut client = client_codec();
        let mut server = server_codec();
        let mut out = Vec::new();
        client.encode(copy, &mut out).unwrap();
        let n = out.len();
        out.extend_from_slice(b"NOOP\r\n");
        let (m, back) = server.decode(&out).unwrap();
        assert_eq!(m, n);
        let expected_state = if back == SmtpCommand::Data { CodecState::Data } else { CodecState::Regular };
        assert_eq!(back, command);
        assert_eq!(server.codec_state, expected_state);
    }
}
