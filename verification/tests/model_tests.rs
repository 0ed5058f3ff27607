//! The session and the IDLE handle driven end to end, and the edges of
//! the error taxonomy, on directly constructed response records.

use imap_demux::error::Error;
use imap_demux::idle::Handle;
use imap_demux::parse::parse_ids;
use imap_demux::response::{
    MailboxDatum, ReplyStatus, RequestId, Response, ResponseData, UnsolicitedResponse,
};
use imap_demux::session::Session;
use imap_demux::stream::{ResponseStream, Sink};
use imap_demux::types::{Capabilities, Flag};

fn rd(response: Response) -> ResponseData {
    ResponseData::new(Vec::new(), response)
}

fn done_ok(tag: &str) -> ResponseData {
    rd(Response::Done {
        tag: RequestId::new(tag.to_string()),
        status: ReplyStatus::Okay,
        code: None,
        information: None,
    })
}

#[test]
fn tag_minting() {
    let mut s = Session::new(ResponseStream::new(Vec::new()));
    let t1 = s.run_command("NOOP");
    assert_eq!(t1, RequestId::new("A0001".to_string()));
    let t2 = s.run_command("NOOP");
    assert_eq!(t2.text.as_str(), "A0002");
    assert_eq!(
        s.wire,
        vec!["A0001 NOOP\r\n".to_string(), "A0002 NOOP\r\n".to_string()]
    );
}

#[test]
fn tag_minting_wide() {
    let mut s = Session::new(ResponseStream::new(Vec::new()));
    s.next_tag = 123456;
    let t = s.run_command("NOOP");
    assert_eq!(t.text.as_str(), "A123456");
    s.next_tag = 1000;
    let t = s.run_command("NOOP");
    assert_eq!(t.text.as_str(), "A1000");
    s.next_tag = 999;
    let t = s.run_command("NOOP");
    assert_eq!(t.text.as_str(), "A0999");
}

#[test]
fn idle_happy_path() {
    let records = vec![
        rd(Response::Continue { information: Some("idling".to_string()) }),
        rd(Response::MailboxData(MailboxDatum::Exists(2))),
        done_ok("A0001"),
    ];
    let session = Session::new(ResponseStream::new(records));
    let mut handle = Handle::new(session);
    handle.init().unwrap();

    let mut listening = handle.stream();
    let pushed = listening.next_response().unwrap();
    assert!(matches!(
        pushed.parsed(),
        Response::MailboxData(MailboxDatum::Exists(2))
    ));

    let handle = listening.into_handle();
    let session = handle.done().unwrap();
    assert!(session.stream.is_empty());
    assert!(session.sink.is_empty());
    assert_eq!(session.next_tag, 2);
    assert_eq!(
        session.wire,
        vec!["A0001 IDLE\r\n".to_string(), "DONE\r\n".to_string()]
    );
}

#[test]
fn idle_round_trip_restores_session() {
    // entering and leaving IDLE with no intervening events leaves the
    // session as it was, one tag further on
    let records = vec![
        rd(Response::Continue { information: None }),
        done_ok("A0001"),
        rd(Response::MailboxData(MailboxDatum::Recent(3))),
    ];
    let session = Session::new(ResponseStream::new(records));
    let mut handle = Handle::new(session);
    handle.init().unwrap();
    let session = handle.done().unwrap();

    // the one unread record is still there for the next command
    assert_eq!(session.stream.len(), 1);
    assert!(session.sink.is_empty());
    assert_eq!(session.next_tag, 2);
}

#[test]
fn idle_init_ignores_other_records() {
    // records before the continuation request are ignored, not routed
    let records = vec![
        rd(Response::MailboxData(MailboxDatum::Exists(5))),
        rd(Response::Continue { information: None }),
        done_ok("A0001"),
    ];
    let session = Session::new(ResponseStream::new(records));
    let mut handle = Handle::new(session);
    handle.init().unwrap();
    let session = handle.done().unwrap();
    assert!(session.sink.is_empty());
    assert!(session.stream.is_empty());
}

#[test]
fn idle_init_refused_on_end_of_stream() {
    let records = vec![rd(Response::MailboxData(MailboxDatum::Exists(5)))];
    let session = Session::new(ResponseStream::new(records));
    let mut handle = Handle::new(session);
    let r = handle.init();
    assert!(matches!(r, Err(Error::ConnectionRefused)));
}

#[test]
fn check_ok_empty_stream_is_io_error() {
    let mut s = Session::new(ResponseStream::new(Vec::new()));
    let tag = s.run_command("NOOP");
    let r = s.check_ok(&tag);
    assert!(matches!(r, Err(Error::Io)));
}

#[test]
fn check_ok_routes_unilateral_and_succeeds() {
    let records = vec![
        rd(Response::MailboxData(MailboxDatum::Recent(1))),
        done_ok("A0001"),
    ];
    let mut s = Session::new(ResponseStream::new(records));
    let tag = s.run_command("NOOP");
    s.check_ok(&tag).unwrap();
    assert_eq!(s.sink.recv(), Some(UnsolicitedResponse::Recent(1)));
}

#[test]
fn check_ok_bad_reply() {
    let records = vec![rd(Response::Done {
        tag: RequestId::new("A0001".to_string()),
        status: ReplyStatus::Bad,
        code: None,
        information: Some("unknown command".to_string()),
    })];
    let mut s = Session::new(ResponseStream::new(records));
    let tag = s.run_command("NOOP");
    match s.check_ok(&tag) {
        Err(Error::Bad(info)) => assert_eq!(info.as_deref(), Some("unknown command")),
        other => panic!("expected a BAD error, got {:?}", other),
    }
}

#[test]
fn search_ids_merge_and_collapse() {
    // overlapping SEARCH lines union with duplicates collapsed,
    // whichever order they arrive in
    let forward = vec![
        rd(Response::Ids(vec![1, 2, 3])),
        rd(Response::Ids(vec![3, 4])),
        done_ok("A0001"),
    ];
    let backward = vec![
        rd(Response::Ids(vec![3, 4])),
        rd(Response::Ids(vec![1, 2, 3])),
        done_ok("A0001"),
    ];
    let mut sink = Sink::new();
    let mut stream = ResponseStream::new(forward);
    let a = parse_ids(&mut stream, &mut sink, RequestId::new("A0001".to_string())).unwrap();
    let mut stream = ResponseStream::new(backward);
    let b = parse_ids(&mut stream, &mut sink, RequestId::new("A0001".to_string())).unwrap();
    assert_eq!(a, b);
    assert_eq!(a, [1, 2, 3, 4].iter().cloned().collect());
}

#[test]
fn capabilities_case_insensitive_membership() {
    let mut caps = Capabilities::new();
    caps.insert_token("IMAP4rev1".to_string());
    caps.insert_token("STARTTLS".to_string());
    // an exact duplicate adds nothing
    caps.insert_token("IMAP4rev1".to_string());
    assert_eq!(caps.len(), 2);
    assert!(caps.has_str("imap4rev1"));
    assert!(caps.has_str("IMAP4REV1"));
    assert!(caps.has_str("starttls"));
    assert!(!caps.has_str("LOGINDISABLED"));
}

#[test]
fn flag_spellings() {
    assert_eq!(Flag::from_text("\\Seen".to_string()), Flag::Seen);
    assert_eq!(Flag::from_text("\\Answered".to_string()), Flag::Answered);
    assert_eq!(Flag::from_text("\\*".to_string()), Flag::MayCreate);
    assert_eq!(
        Flag::from_text("$Forwarded".to_string()),
        Flag::Custom("$Forwarded".to_string())
    );
}

#[test]
fn raw_bytes_kept_verbatim() {
    let line = b"* 1 RECENT\r\n".to_vec();
    let record = ResponseData::new(line.clone(), Response::MailboxData(MailboxDatum::Recent(1)));
    assert_eq!(record.raw_bytes(), &line);
}
