//! The demultiplexers driven by real server lines: each input line is
//! parsed by imap-proto and converted into the library's response model.

use std::collections::HashSet;

use imap_demux::parse::{
    parse_capabilities, parse_expunge, parse_fetches, parse_ids, parse_names, parse_noop,
};
use imap_demux::response::{
    FetchAttr, MailboxDatum, ReplyStatus, RequestId, RespCode, Response, ResponseData,
    StatusAttribute,
};
use imap_demux::stream::{ResponseStream, Sink};
use imap_demux::types::Flag;
use imap_demux::response::UnsolicitedResponse;

fn conv_status(s: &imap_proto::Status) -> ReplyStatus {
    match s {
        imap_proto::Status::Ok => ReplyStatus::Okay,
        imap_proto::Status::No => ReplyStatus::No,
        imap_proto::Status::Bad => ReplyStatus::Bad,
        imap_proto::Status::PreAuth => ReplyStatus::PreAuth,
        imap_proto::Status::Bye => ReplyStatus::Bye,
    }
}

fn conv_code(c: &imap_proto::ResponseCode<'_>) -> RespCode {
    match c {
        imap_proto::ResponseCode::Alert => RespCode::Alert,
        imap_proto::ResponseCode::PermanentFlags(fs) => {
            RespCode::PermanentFlags(fs.iter().map(|s| s.to_string()).collect())
        }
        imap_proto::ResponseCode::ReadOnly => RespCode::ReadOnly,
        imap_proto::ResponseCode::ReadWrite => RespCode::ReadWrite,
        imap_proto::ResponseCode::TryCreate => RespCode::TryCreate,
        imap_proto::ResponseCode::UidNext(v) => RespCode::UidNext(*v),
        imap_proto::ResponseCode::UidValidity(v) => RespCode::UidValidity(*v),
        imap_proto::ResponseCode::Unseen(v) => RespCode::Unseen(*v),
        _ => RespCode::OtherCode,
    }
}

fn conv_capability(c: &imap_proto::Capability<'_>) -> String {
    match c {
        imap_proto::Capability::Imap4rev1 => "IMAP4rev1".to_string(),
        imap_proto::Capability::Auth(s) => format!("AUTH={}", s),
        imap_proto::Capability::Atom(s) => s.to_string(),
    }
}

fn conv_name_attribute(a: &imap_proto::NameAttribute<'_>) -> String {
    match a {
        imap_proto::NameAttribute::NoInferiors => "\\Noinferiors".to_string(),
        imap_proto::NameAttribute::NoSelect => "\\Noselect".to_string(),
        imap_proto::NameAttribute::Marked => "\\Marked".to_string(),
        imap_proto::NameAttribute::Unmarked => "\\Unmarked".to_string(),
        imap_proto::NameAttribute::All => "\\All".to_string(),
        imap_proto::NameAttribute::Archive => "\\Archive".to_string(),
        imap_proto::NameAttribute::Drafts => "\\Drafts".to_string(),
        imap_proto::NameAttribute::Flagged => "\\Flagged".to_string(),
        imap_proto::NameAttribute::Junk => "\\Junk".to_string(),
        imap_proto::NameAttribute::Sent => "\\Sent".to_string(),
        imap_proto::NameAttribute::Trash => "\\Trash".to_string(),
        imap_proto::NameAttribute::Extension(s) => s.to_string(),
        _ => String::new(),
    }
}

fn conv_status_attribute(a: &imap_proto::StatusAttribute) -> Option<StatusAttribute> {
    match a {
        imap_proto::StatusAttribute::HighestModSeq(v) => Some(StatusAttribute::HighestModSeq(*v)),
        imap_proto::StatusAttribute::Messages(v) => Some(StatusAttribute::Messages(*v)),
        imap_proto::StatusAttribute::Recent(v) => Some(StatusAttribute::Recent(*v)),
        imap_proto::StatusAttribute::UidNext(v) => Some(StatusAttribute::UidNext(*v)),
        imap_proto::StatusAttribute::UidValidity(v) => Some(StatusAttribute::UidValidity(*v)),
        imap_proto::StatusAttribute::Unseen(v) => Some(StatusAttribute::Unseen(*v)),
        _ => None,
    }
}

fn conv_fetch_attr(a: &imap_proto::AttributeValue<'_>) -> FetchAttr {
    match a {
        imap_proto::AttributeValue::Flags(fs) => {
            FetchAttr::Flags(fs.iter().map(|s| s.to_string()).collect())
        }
        imap_proto::AttributeValue::Uid(n) => FetchAttr::Uid(*n),
        imap_proto::AttributeValue::Rfc822(b) => {
            FetchAttr::Rfc822(b.as_ref().map(|c| c.to_vec()))
        }
        imap_proto::AttributeValue::Rfc822Header(b) => {
            FetchAttr::Rfc822Header(b.as_ref().map(|c| c.to_vec()))
        }
        _ => FetchAttr::OtherAttr,
    }
}

fn conv_datum(d: &imap_proto::MailboxDatum<'_>) -> MailboxDatum {
    match d {
        imap_proto::MailboxDatum::Exists(n) => MailboxDatum::Exists(*n),
        imap_proto::MailboxDatum::Recent(n) => MailboxDatum::Recent(*n),
        imap_proto::MailboxDatum::Flags(fs) => {
            MailboxDatum::Flags(fs.iter().map(|s| s.to_string()).collect())
        }
        imap_proto::MailboxDatum::List(data) => MailboxDatum::List {
            flags: data.name_attributes.iter().map(conv_name_attribute).collect(),
            delimiter: data.delimiter.as_ref().map(|s| s.to_string()),
            name: data.name.to_string(),
        },
        imap_proto::MailboxDatum::Status { mailbox, status } => MailboxDatum::Status {
            mailbox: mailbox.to_string(),
            attributes: status.iter().filter_map(conv_status_attribute).collect(),
        },
        _ => MailboxDatum::OtherDatum,
    }
}

fn conv_response(r: &imap_proto::Response<'_>) -> Response {
    match r {
        imap_proto::Response::Capabilities(cs) => {
            Response::Capabilities(cs.iter().map(conv_capability).collect())
        }
        imap_proto::Response::Continue(outcome) => Response::Continue {
            information: outcome.information.as_ref().map(|s| s.to_string()),
        },
        imap_proto::Response::Done { tag, status, outcome } => Response::Done {
            tag: RequestId::new(tag.0.clone()),
            status: conv_status(status),
            code: outcome.code.as_ref().map(conv_code),
            information: outcome.information.as_ref().map(|s| s.to_string()),
        },
        imap_proto::Response::Data { status, outcome } => Response::Data {
            status: conv_status(status),
            code: outcome.code.as_ref().map(conv_code),
            information: outcome.information.as_ref().map(|s| s.to_string()),
        },
        imap_proto::Response::Expunge(n) => Response::Expunge(*n),
        imap_proto::Response::Fetch(n, attrs) => {
            Response::Fetch(*n, attrs.iter().map(conv_fetch_attr).collect())
        }
        imap_proto::Response::MailboxData(imap_proto::MailboxDatum::Search(ids)) => {
            Response::Ids(ids.clone())
        }
        imap_proto::Response::MailboxData(d) => Response::MailboxData(conv_datum(d)),
        _ => Response::OtherResponse,
    }
}

fn input_stream(data: &[&str]) -> Vec<ResponseData> {
    data.iter()
        .map(|line| match imap_proto::Response::parse(line.as_bytes()) {
            Ok((remaining, response)) => {
                assert_eq!(remaining.len(), 0);
                ResponseData::new(line.as_bytes().to_vec(), conv_response(&response))
            }
            Err(err) => panic!("invalid input: {:?}", err),
        })
        .collect()
}

#[test]
fn parse_capability_test() {
    let expected_capabilities = vec!["IMAP4rev1", "STARTTLS", "AUTH=GSSAPI", "LOGINDISABLED"];
    let responses = input_stream(&[
        "* CAPABILITY IMAP4rev1 STARTTLS AUTH=GSSAPI LOGINDISABLED\r\n",
    ]);

    let mut stream = ResponseStream::new(responses);
    let mut sink = Sink::new();
    let id = RequestId::new("A0001".into());
    let capabilities = parse_capabilities(&mut stream, &mut sink, id).unwrap();
    // shouldn't be any unexpected responses parsed
    assert!(sink.is_empty());
    assert_eq!(capabilities.len(), 4);
    for e in expected_capabilities {
        assert!(capabilities.has_str(e));
    }
}

#[test]
fn parse_capability_case_insensitive_test() {
    // Test that "IMAP4REV1" (instead of "IMAP4rev1") is accepted
    let expected_capabilities = vec!["IMAP4rev1", "STARTTLS"];
    let responses = input_stream(&["* CAPABILITY IMAP4REV1 STARTTLS\r\n"]);
    let mut stream = ResponseStream::new(responses);

    let mut sink = Sink::new();
    let id = RequestId::new("A0001".into());
    let capabilities = parse_capabilities(&mut stream, &mut sink, id).unwrap();

    // shouldn't be any unexpected responses parsed
    assert!(sink.is_empty());
    assert_eq!(capabilities.len(), 2);
    for e in expected_capabilities {
        assert!(capabilities.has_str(e));
    }
}

#[test]
#[should_panic]
fn parse_capability_invalid_test() {
    let mut sink = Sink::new();
    let responses = input_stream(&[
        "* JUNK IMAP4rev1 STARTTLS AUTH=GSSAPI LOGINDISABLED\r\n",
    ]);
    let mut stream = ResponseStream::new(responses);

    let id = RequestId::new("A0001".into());
    parse_capabilities(&mut stream, &mut sink, id).unwrap();
    assert!(sink.is_empty());
}

#[test]
fn parse_names_test() {
    let mut sink = Sink::new();
    let responses = input_stream(&["* LIST (\\HasNoChildren) \".\" \"INBOX\"\r\n"]);
    let mut stream = ResponseStream::new(responses);

    let id = RequestId::new("A0001".into());
    let names = parse_names(&mut stream, &mut sink, id).unwrap();
    assert!(sink.is_empty());
    assert_eq!(names.len(), 1);
    assert_eq!(names[0].attributes(), &vec!["\\HasNoChildren".to_string()]);
    assert_eq!(names[0].delimiter(), &Some(".".to_string()));
    assert_eq!(names[0].name().as_str(), "INBOX");
}

#[test]
fn parse_fetches_empty() {
    let mut sink = Sink::new();
    let responses = input_stream(&[]);
    let mut stream = ResponseStream::new(responses);
    let id = RequestId::new("a".into());

    let fetches = parse_fetches(&mut stream, &mut sink, id).unwrap();
    assert!(sink.is_empty());
    assert!(fetches.is_empty());
}

#[test]
fn parse_fetches_test() {
    let mut sink = Sink::new();
    let responses = input_stream(&[
        "* 24 FETCH (FLAGS (\\Seen) UID 4827943)\r\n",
        "* 25 FETCH (FLAGS (\\Seen))\r\n",
    ]);
    let mut stream = ResponseStream::new(responses);
    let id = RequestId::new("a".into());

    let fetches = parse_fetches(&mut stream, &mut sink, id).unwrap();
    assert!(sink.is_empty());

    assert_eq!(fetches.len(), 2);
    assert_eq!(fetches[0].message, 24);
    assert_eq!(fetches[0].flags(), &vec![Flag::Seen]);
    assert_eq!(fetches[0].uid, Some(4827943));
    assert_eq!(fetches[0].body(), None);
    assert_eq!(fetches[0].header(), None);
    assert_eq!(fetches[1].message, 25);
    assert_eq!(fetches[1].flags(), &vec![Flag::Seen]);
    assert_eq!(fetches[1].uid, None);
    assert_eq!(fetches[1].body(), None);
    assert_eq!(fetches[1].header(), None);
}

#[test]
fn parse_fetches_w_unilateral() {
    let mut sink = Sink::new();
    let responses = input_stream(&["* 37 FETCH (UID 74)\r\n", "* 1 RECENT\r\n"]);
    let mut stream = ResponseStream::new(responses);
    let id = RequestId::new("a".into());

    let fetches = parse_fetches(&mut stream, &mut sink, id).unwrap();
    assert_eq!(sink.recv(), Some(UnsolicitedResponse::Recent(1)));

    assert_eq!(fetches.len(), 1);
    assert_eq!(fetches[0].message, 37);
    assert_eq!(fetches[0].uid, Some(74));
}

#[test]
fn parse_names_w_unilateral() {
    let mut sink = Sink::new();
    let responses = input_stream(&[
        "* LIST (\\HasNoChildren) \".\" \"INBOX\"\r\n",
        "* 4 EXPUNGE\r\n",
    ]);
    let mut stream = ResponseStream::new(responses);

    let id = RequestId::new("A0001".into());
    let names = parse_names(&mut stream, &mut sink, id).unwrap();

    assert_eq!(sink.recv(), Some(UnsolicitedResponse::Expunge(4)));

    assert_eq!(names.len(), 1);
    assert_eq!(names[0].attributes(), &vec!["\\HasNoChildren".to_string()]);
    assert_eq!(names[0].delimiter(), &Some(".".to_string()));
    assert_eq!(names[0].name().as_str(), "INBOX");
}

#[test]
fn parse_capabilities_w_unilateral() {
    let mut sink = Sink::new();
    let responses = input_stream(&[
        "* CAPABILITY IMAP4rev1 STARTTLS AUTH=GSSAPI LOGINDISABLED\r\n",
        "* STATUS dev.github (MESSAGES 10 UIDNEXT 11 UIDVALIDITY 1408806928 UNSEEN 0)\r\n",
        "* 4 EXISTS\r\n",
    ]);
    let mut stream = ResponseStream::new(responses);

    let expected_capabilities = vec!["IMAP4rev1", "STARTTLS", "AUTH=GSSAPI", "LOGINDISABLED"];

    let id = RequestId::new("A0001".into());
    let capabilities = parse_capabilities(&mut stream, &mut sink, id).unwrap();

    assert_eq!(capabilities.len(), 4);
    for e in expected_capabilities {
        assert!(capabilities.has_str(e));
    }

    assert_eq!(
        sink.recv().unwrap(),
        UnsolicitedResponse::Status {
            mailbox: "dev.github".to_string(),
            attributes: vec![
                StatusAttribute::Messages(10),
                StatusAttribute::UidNext(11),
                StatusAttribute::UidValidity(1408806928),
                StatusAttribute::Unseen(0)
            ]
        }
    );
    assert_eq!(sink.recv().unwrap(), UnsolicitedResponse::Exists(4));
}

#[test]
fn parse_ids_w_unilateral() {
    let mut sink = Sink::new();
    let responses = input_stream(&[
        "* SEARCH 23 42 4711\r\n",
        "* 1 RECENT\r\n",
        "* STATUS INBOX (MESSAGES 10 UIDNEXT 11 UIDVALIDITY 1408806928 UNSEEN 0)\r\n",
    ]);
    let mut stream = ResponseStream::new(responses);

    let id = RequestId::new("A0001".into());
    let ids = parse_ids(&mut stream, &mut sink, id).unwrap();

    assert_eq!(ids, [23, 42, 4711].iter().cloned().collect());

    assert_eq!(sink.recv().unwrap(), UnsolicitedResponse::Recent(1));
    assert_eq!(
        sink.recv().unwrap(),
        UnsolicitedResponse::Status {
            mailbox: "INBOX".to_string(),
            attributes: vec![
                StatusAttribute::Messages(10),
                StatusAttribute::UidNext(11),
                StatusAttribute::UidValidity(1408806928),
                StatusAttribute::Unseen(0)
            ]
        }
    );
}

#[test]
fn parse_ids_test() {
    let mut sink = Sink::new();
    let responses = input_stream(&[
            "* SEARCH 1600 1698 1739 1781 1795 1885 1891 1892 1893 1898 1899 1901 1911 1926 1932 1933 1993 1994 2007 2032 2033 2041 2053 2062 2063 2065 2066 2072 2078 2079 2082 2084 2095 2100 2101 2102 2103 2104 2107 2116 2120 2135 2138 2154 2163 2168 2172 2189 2193 2198 2199 2205 2212 2213 2221 2227 2267 2275 2276 2295 2300 2328 2330 2332 2333 2334\r\n",
            "* SEARCH 2335 2336 2337 2338 2339 2341 2342 2347 2349 2350 2358 2359 2362 2369 2371 2372 2373 2374 2375 2376 2377 2378 2379 2380 2381 2382 2383 2384 2385 2386 2390 2392 2397 2400 2401 2403 2405 2409 2411 2414 2417 2419 2420 2424 2426 2428 2439 2454 2456 2467 2468 2469 2490 2515 2519 2520 2521\r\n",
        ]);
    let mut stream = ResponseStream::new(responses);

    let id = RequestId::new("A0001".into());
    let ids = parse_ids(&mut stream, &mut sink, id).unwrap();

    assert!(sink.is_empty());
    let ids: HashSet<u32> = ids.iter().cloned().collect();
    assert_eq!(
        ids,
        [
            1600, 1698, 1739, 1781, 1795, 1885, 1891, 1892, 1893, 1898, 1899, 1901, 1911, 1926,
            1932, 1933, 1993, 1994, 2007, 2032, 2033, 2041, 2053, 2062, 2063, 2065, 2066, 2072,
            2078, 2079, 2082, 2084, 2095, 2100, 2101, 2102, 2103, 2104, 2107, 2116, 2120, 2135,
            2138, 2154, 2163, 2168, 2172, 2189, 2193, 2198, 2199, 2205, 2212, 2213, 2221, 2227,
            2267, 2275, 2276, 2295, 2300, 2328, 2330, 2332, 2333, 2334, 2335, 2336, 2337, 2338,
            2339, 2341, 2342, 2347, 2349, 2350, 2358, 2359, 2362, 2369, 2371, 2372, 2373, 2374,
            2375, 2376, 2377, 2378, 2379, 2380, 2381, 2382, 2383, 2384, 2385, 2386, 2390, 2392,
            2397, 2400, 2401, 2403, 2405, 2409, 2411, 2414, 2417, 2419, 2420, 2424, 2426, 2428,
            2439, 2454, 2456, 2467, 2468, 2469, 2490, 2515, 2519, 2520, 2521
        ]
        .iter()
        .cloned()
        .collect()
    );
}

#[test]
fn parse_ids_search() {
    let mut sink = Sink::new();
    let responses = input_stream(&["* SEARCH\r\n"]);
    let mut stream = ResponseStream::new(responses);

    let id = RequestId::new("A0001".into());
    let ids = parse_ids(&mut stream, &mut sink, id).unwrap();

    assert!(sink.is_empty());
    let ids: HashSet<u32> = ids.iter().cloned().collect();
    assert_eq!(ids, HashSet::<u32>::new());
}

#[test]
fn parse_expunge_yields_ids() {
    let mut sink = Sink::new();
    let responses = input_stream(&[
        "* 3 EXPUNGE\r\n",
        "* 1 RECENT\r\n",
        "* 5 EXPUNGE\r\n",
        "A0001 OK EXPUNGE completed\r\n",
    ]);
    let mut stream = ResponseStream::new(responses);

    let id = RequestId::new("A0001".into());
    let ids = parse_expunge(&mut stream, &mut sink, id).unwrap();

    assert_eq!(ids, vec![3, 5]);
    assert_eq!(sink.recv(), Some(UnsolicitedResponse::Recent(1)));
    assert!(sink.is_empty());
}

#[test]
fn parse_noop_routes_everything() {
    let mut sink = Sink::new();
    let responses = input_stream(&[
        "* 2 EXISTS\r\n",
        "* 1 RECENT\r\n",
        "A0001 OK NOOP completed\r\n",
        "* 9 EXISTS\r\n",
    ]);
    let mut stream = ResponseStream::new(responses);

    let id = RequestId::new("A0001".into());
    parse_noop(&mut stream, &mut sink, id).unwrap();

    assert_eq!(sink.recv(), Some(UnsolicitedResponse::Exists(2)));
    assert_eq!(sink.recv(), Some(UnsolicitedResponse::Recent(1)));
    assert!(sink.is_empty());
    // nothing beyond the completion reply is consumed
    assert_eq!(stream.len(), 1);
}

#[test]
fn parse_noop_rejects_junk() {
    let mut sink = Sink::new();
    let responses = input_stream(&[
        "* CAPABILITY IMAP4rev1\r\n",
        "A0001 OK NOOP completed\r\n",
    ]);
    let mut stream = ResponseStream::new(responses);

    let id = RequestId::new("A0001".into());
    let r = parse_noop(&mut stream, &mut sink, id);
    assert!(matches!(
        r,
        Err(imap_demux::error::Error::Protocol(Response::Capabilities(_)))
    ));
    assert!(sink.is_empty());
}

#[test]
fn parse_capabilities_no_reply() {
    // a tagged NO completion surfaces as Error::No with its text
    let mut sink = Sink::new();
    let responses = input_stream(&["A0001 NO CAPABILITY not allowed now\r\n"]);
    let mut stream = ResponseStream::new(responses);

    let id = RequestId::new("A0001".into());
    let r = parse_capabilities(&mut stream, &mut sink, id);
    match r {
        Err(imap_demux::error::Error::No(info)) => {
            assert_eq!(info.as_deref(), Some("CAPABILITY not allowed now"));
        }
        other => panic!("expected a NO error, got {:?}", other),
    }
}

#[test]
fn parse_mailbox_accumulates() {
    let mut sink = Sink::new();
    let responses = input_stream(&[
        "* 23 EXISTS\r\n",
        "* 1 RECENT\r\n",
        "* FLAGS (\\Answered \\Flagged \\Deleted \\Seen \\Draft)\r\n",
        "* OK [UNSEEN 12] Message 12 is first unseen\r\n",
        "* OK [UIDVALIDITY 3857529045] UIDs valid\r\n",
        "* OK [UIDNEXT 4392] Predicted next UID\r\n",
        "* OK [PERMANENTFLAGS (\\Deleted \\Seen \\*)] Limited\r\n",
        "A0001 OK [READ-WRITE] SELECT completed\r\n",
    ]);
    let mut stream = ResponseStream::new(responses);

    let id = RequestId::new("A0001".into());
    let mailbox = imap_demux::parse::parse_mailbox(&mut stream, &mut sink, id).unwrap();

    assert_eq!(mailbox.exists, 23);
    assert_eq!(mailbox.recent, 1);
    assert_eq!(mailbox.unseen, Some(12));
    assert_eq!(mailbox.uid_validity, Some(3857529045));
    assert_eq!(mailbox.uid_next, Some(4392));
    assert_eq!(
        mailbox.flags,
        vec![Flag::Answered, Flag::Flagged, Flag::Deleted, Flag::Seen, Flag::Draft]
    );
    assert_eq!(
        mailbox.permanent_flags,
        vec![Flag::Deleted, Flag::Seen, Flag::MayCreate]
    );
    assert!(sink.is_empty());
    assert!(stream.is_empty());
}

#[test]
fn idle_over_parsed_lines() {
    // enter IDLE, observe one pushed EXISTS through the stream, leave
    let responses = input_stream(&[
        "+ idling\r\n",
        "* 2 EXISTS\r\n",
        "A0001 OK IDLE terminated\r\n",
    ]);
    let session = imap_demux::session::Session::new(ResponseStream::new(responses));
    let mut handle = imap_demux::idle::Handle::new(session);
    handle.init().unwrap();

    let mut listening = handle.stream();
    let pushed = listening.next_response().unwrap();
    assert!(matches!(
        pushed.parsed(),
        Response::MailboxData(MailboxDatum::Exists(2))
    ));

    let session = listening.into_handle().done().unwrap();
    assert!(session.stream.is_empty());
    assert_eq!(
        session.wire,
        vec!["A0001 IDLE\r\n".to_string(), "DONE\r\n".to_string()]
    );
}

#[test]
fn parse_mailbox_routes_status_and_expunge() {
    let mut sink = Sink::new();
    let responses = input_stream(&[
        "* STATUS INBOX (MESSAGES 10)\r\n",
        "* 4 EXPUNGE\r\n",
        "* 7 EXISTS\r\n",
        "A0001 OK STATUS completed\r\n",
    ]);
    let mut stream = ResponseStream::new(responses);

    let id = RequestId::new("A0001".into());
    let mailbox = imap_demux::parse::parse_mailbox(&mut stream, &mut sink, id).unwrap();

    assert_eq!(mailbox.exists, 7);
    assert_eq!(
        sink.recv().unwrap(),
        UnsolicitedResponse::Status {
            mailbox: "INBOX".to_string(),
            attributes: vec![StatusAttribute::Messages(10)],
        }
    );
    assert_eq!(sink.recv(), Some(UnsolicitedResponse::Expunge(4)));
    assert!(sink.is_empty());
}
