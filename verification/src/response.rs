//! The parsed shape of one server line, held as plain values.
//!
//! A server line is parsed (outside this library) into a tagged union over
//! the IMAP reply shapes; the demultiplexers and the IDLE handle work on
//! that union alone.  Every exec type here has a spec-level mirror whose
//! leaves are `Seq<char>`, `Seq<u8>` and fixed-width integers, and a view
//! that maps onto it; all contracts are stated over the mirrors.

use vstd::prelude::*;

verus! {

/// Status word of a `Done` or `Data` reply.
#[derive(Clone, Copy, PartialEq, Eq, Structural, Debug)]
pub enum ReplyStatus {
    Okay,
    No,
    Bad,
    PreAuth,
    Bye,
}

/// Response code carried in brackets by a `Done` or `Data` reply.
/// Only the codes the mailbox accumulator reads are kept apart; the
/// rest collapse into `OtherCode`.
#[derive(Clone, PartialEq, Eq, Debug)]
pub enum RespCode {
    Alert,
    PermanentFlags(Vec<String>),
    ReadOnly,
    ReadWrite,
    TryCreate,
    UidNext(u32),
    UidValidity(u32),
    Unseen(u32),
    OtherCode,
}

/// Spec mirror of [`RespCode`].
pub enum SpecRespCode {
    Alert,
    PermanentFlags(Seq<Seq<char>>),
    ReadOnly,
    ReadWrite,
    TryCreate,
    UidNext(u32),
    UidValidity(u32),
    Unseen(u32),
    OtherCode,
}

impl View for RespCode {
    type V = SpecRespCode;

    open spec fn view(&self) -> SpecRespCode {
        match self {
            RespCode::Alert => SpecRespCode::Alert,
            RespCode::PermanentFlags(fs) => SpecRespCode::PermanentFlags(fs.deep_view()),
            RespCode::ReadOnly => SpecRespCode::ReadOnly,
            RespCode::ReadWrite => SpecRespCode::ReadWrite,
            RespCode::TryCreate => SpecRespCode::TryCreate,
            RespCode::UidNext(n) => SpecRespCode::UidNext(*n),
            RespCode::UidValidity(n) => SpecRespCode::UidValidity(*n),
            RespCode::Unseen(n) => SpecRespCode::Unseen(*n),
            RespCode::OtherCode => SpecRespCode::OtherCode,
        }
    }
}

impl DeepView for RespCode {
    type V = SpecRespCode;

    open spec fn deep_view(&self) -> SpecRespCode {
        self.view()
    }
}

/// One attribute of a `STATUS` mailbox datum.
#[derive(Clone, Copy, PartialEq, Eq, Structural, Debug)]
pub enum StatusAttribute {
    HighestModSeq(u64),
    Messages(u32),
    Recent(u32),
    UidNext(u32),
    UidValidity(u32),
    Unseen(u32),
}

/// Mailbox-related data line (`* FLAGS ...`, `* LIST ...`, `* 3 EXISTS`, ...).
#[derive(Clone, PartialEq, Eq, Debug)]
pub enum MailboxDatum {
    Exists(u32),
    Flags(Vec<String>),
    List { flags: Vec<String>, delimiter: Option<String>, name: String },
    Status { mailbox: String, attributes: Vec<StatusAttribute> },
    Recent(u32),
    OtherDatum,
}

/// Spec mirror of [`MailboxDatum`].
pub enum SpecMailboxDatum {
    Exists(u32),
    Flags(Seq<Seq<char>>),
    List { flags: Seq<Seq<char>>, delimiter: Option<Seq<char>>, name: Seq<char> },
    Status { mailbox: Seq<char>, attributes: Seq<StatusAttribute> },
    Recent(u32),
    OtherDatum,
}

impl View for MailboxDatum {
    type V = SpecMailboxDatum;

    open spec fn view(&self) -> SpecMailboxDatum {
        match self {
            MailboxDatum::Exists(n) => SpecMailboxDatum::Exists(*n),
            MailboxDatum::Flags(fs) => SpecMailboxDatum::Flags(fs.deep_view()),
            MailboxDatum::List { flags, delimiter, name } => SpecMailboxDatum::List {
                flags: flags.deep_view(),
                delimiter: delimiter.deep_view(),
                name: name@,
            },
            MailboxDatum::Status { mailbox, attributes } => SpecMailboxDatum::Status {
                mailbox: mailbox@,
                attributes: attributes@,
            },
            MailboxDatum::Recent(n) => SpecMailboxDatum::Recent(*n),
            MailboxDatum::OtherDatum => SpecMailboxDatum::OtherDatum,
        }
    }
}

impl DeepView for MailboxDatum {
    type V = SpecMailboxDatum;

    open spec fn deep_view(&self) -> SpecMailboxDatum {
        self.view()
    }
}

/// One attribute inside a `FETCH` reply.  Attributes the typed `Fetch`
/// result does not read collapse into `OtherAttr`.
#[derive(Clone, PartialEq, Eq, Debug)]
pub enum FetchAttr {
    Flags(Vec<String>),
    Uid(u32),
    Rfc822(Option<Vec<u8>>),
    Rfc822Header(Option<Vec<u8>>),
    OtherAttr,
}

/// Spec mirror of [`FetchAttr`].
pub enum SpecFetchAttr {
    Flags(Seq<Seq<char>>),
    Uid(u32),
    Rfc822(Option<Seq<u8>>),
    Rfc822Header(Option<Seq<u8>>),
    OtherAttr,
}

impl View for FetchAttr {
    type V = SpecFetchAttr;

    open spec fn view(&self) -> SpecFetchAttr {
        match self {
            FetchAttr::Flags(fs) => SpecFetchAttr::Flags(fs.deep_view()),
            FetchAttr::Uid(n) => SpecFetchAttr::Uid(*n),
            FetchAttr::Rfc822(b) => SpecFetchAttr::Rfc822(b.deep_view()),
            FetchAttr::Rfc822Header(b) => SpecFetchAttr::Rfc822Header(b.deep_view()),
            FetchAttr::OtherAttr => SpecFetchAttr::OtherAttr,
        }
    }
}

impl DeepView for FetchAttr {
    type V = SpecFetchAttr;

    open spec fn deep_view(&self) -> SpecFetchAttr {
        self.view()
    }
}

/// The tag minted when a command is dispatched and echoed by the server
/// on the matching `Done` line.
#[derive(Clone, PartialEq, Eq, Debug)]
pub struct RequestId {
    pub text: String,
}

impl RequestId {
    pub fn new(text: String) -> (r: RequestId)
        ensures
            r@ == text@,
    {
        RequestId { text }
    }
}

impl View for RequestId {
    type V = Seq<char>;

    open spec fn view(&self) -> Seq<char> {
        self.text@
    }
}

impl DeepView for RequestId {
    type V = Seq<char>;

    open spec fn deep_view(&self) -> Seq<char> {
        self.text@
    }
}

/// Parsed view of one server line.
#[derive(Clone, PartialEq, Eq, Debug)]
pub enum Response {
    Continue { information: Option<String> },
    Done { tag: RequestId, status: ReplyStatus, code: Option<RespCode>, information: Option<String> },
    Data { status: ReplyStatus, code: Option<RespCode>, information: Option<String> },
    Expunge(u32),
    Fetch(u32, Vec<FetchAttr>),
    MailboxData(MailboxDatum),
    Capabilities(Vec<String>),
    Ids(Vec<u32>),
    OtherResponse,
}

/// Spec mirror of [`Response`].
pub enum SpecResponse {
    Continue { information: Option<Seq<char>> },
    Done { tag: Seq<char>, status: ReplyStatus, code: Option<SpecRespCode>, information: Option<Seq<char>> },
    Data { status: ReplyStatus, code: Option<SpecRespCode>, information: Option<Seq<char>> },
    Expunge(u32),
    Fetch(u32, Seq<SpecFetchAttr>),
    MailboxData(SpecMailboxDatum),
    Capabilities(Seq<Seq<char>>),
    Ids(Seq<u32>),
    OtherResponse,
}

impl View for Response {
    type V = SpecResponse;

    open spec fn view(&self) -> SpecResponse {
        match self {
            Response::Continue { information } => SpecResponse::Continue {
                information: information.deep_view(),
            },
            Response::Done { tag, status, code, information } => SpecResponse::Done {
                tag: tag@,
                status: *status,
                code: code.deep_view(),
                information: information.deep_view(),
            },
            Response::Data { status, code, information } => SpecResponse::Data {
                status: *status,
                code: code.deep_view(),
                information: information.deep_view(),
            },
            Response::Expunge(n) => SpecResponse::Expunge(*n),
            Response::Fetch(n, attrs) => SpecResponse::Fetch(*n, attrs.deep_view()),
            Response::MailboxData(d) => SpecResponse::MailboxData(d@),
            Response::Capabilities(cs) => SpecResponse::Capabilities(cs.deep_view()),
            Response::Ids(ids) => SpecResponse::Ids(ids@),
            Response::OtherResponse => SpecResponse::OtherResponse,
        }
    }
}

impl DeepView for Response {
    type V = SpecResponse;

    open spec fn deep_view(&self) -> SpecResponse {
        self.view()
    }
}

/// One record of the response stream: the raw line together with its
/// parsed view.  The raw bytes are carried unchanged so that callers can
/// reproduce server traffic byte for byte.
#[derive(Clone, PartialEq, Eq, Debug)]
pub struct ResponseData {
    pub raw: Vec<u8>,
    pub response: Response,
}

/// Spec mirror of [`ResponseData`].
pub struct SpecResponseData {
    pub raw: Seq<u8>,
    pub parsed: SpecResponse,
}

impl ResponseData {
    pub fn new(raw: Vec<u8>, response: Response) -> (r: ResponseData)
        ensures
            r@.raw == raw@,
            r@.parsed == response@,
    {
        ResponseData { raw, response }
    }

    /// The raw bytes of the line, byte-exact.
    pub fn raw_bytes(&self) -> (r: &Vec<u8>)
        ensures
            r@ == self@.raw,
    {
        &self.raw
    }

    /// The parsed view of the line.
    pub fn parsed(&self) -> (r: &Response)
        ensures
            r@ == self@.parsed,
    {
        &self.response
    }
}

impl View for ResponseData {
    type V = SpecResponseData;

    open spec fn view(&self) -> SpecResponseData {
        SpecResponseData { raw: self.raw@, parsed: self.response@ }
    }
}

impl DeepView for ResponseData {
    type V = SpecResponseData;

    open spec fn deep_view(&self) -> SpecResponseData {
        self.view()
    }
}

/// A server-pushed mailbox event, fanned out to the unsolicited sink.
#[derive(Clone, PartialEq, Eq, Debug)]
pub enum UnsolicitedResponse {
    Status { mailbox: String, attributes: Vec<StatusAttribute> },
    Recent(u32),
    Exists(u32),
    Expunge(u32),
}

/// Spec mirror of [`UnsolicitedResponse`].
pub enum SpecUnsolicited {
    Status { mailbox: Seq<char>, attributes: Seq<StatusAttribute> },
    Recent(u32),
    Exists(u32),
    Expunge(u32),
}

impl View for UnsolicitedResponse {
    type V = SpecUnsolicited;

    open spec fn view(&self) -> SpecUnsolicited {
        match self {
            UnsolicitedResponse::Status { mailbox, attributes } => SpecUnsolicited::Status {
                mailbox: mailbox@,
                attributes: attributes@,
            },
            UnsolicitedResponse::Recent(n) => SpecUnsolicited::Recent(*n),
            UnsolicitedResponse::Exists(n) => SpecUnsolicited::Exists(*n),
            UnsolicitedResponse::Expunge(n) => SpecUnsolicited::Expunge(*n),
        }
    }
}

impl DeepView for UnsolicitedResponse {
    type V = SpecUnsolicited;

    open spec fn deep_view(&self) -> SpecUnsolicited {
        self.view()
    }
}

} // verus!
