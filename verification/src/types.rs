//! The typed results the demultiplexers produce: message flags, mailbox
//! names, fetched messages, the mailbox accumulator, and the capability
//! set, each with the spec-level fold that pins down how it is built
//! from the records a command keeps.

use vstd::prelude::*;

use crate::response::FetchAttr;
use crate::response::SpecFetchAttr;
use crate::response::ReplyStatus;
use crate::response::SpecMailboxDatum;
use crate::response::SpecRespCode;
use crate::response::SpecResponse;
use crate::text::ci_equal;
use crate::text::str_eq;
use crate::text::str_eq_ci;

verus! {

/// A message flag (RFC 3501 section 2.3.2).  The seven standard spellings
/// get their own variants; anything else is kept verbatim.
#[derive(Clone, PartialEq, Eq, Debug)]
pub enum Flag {
    Seen,
    Answered,
    Flagged,
    Deleted,
    Draft,
    Recent,
    MayCreate,
    Custom(String),
}

/// Spec mirror of [`Flag`].
pub enum SpecFlag {
    Seen,
    Answered,
    Flagged,
    Deleted,
    Draft,
    Recent,
    MayCreate,
    Custom(Seq<char>),
}

impl View for Flag {
    type V = SpecFlag;

    open spec fn view(&self) -> SpecFlag {
        match self {
            Flag::Seen => SpecFlag::Seen,
            Flag::Answered => SpecFlag::Answered,
            Flag::Flagged => SpecFlag::Flagged,
            Flag::Deleted => SpecFlag::Deleted,
            Flag::Draft => SpecFlag::Draft,
            Flag::Recent => SpecFlag::Recent,
            Flag::MayCreate => SpecFlag::MayCreate,
            Flag::Custom(s) => SpecFlag::Custom(s@),
        }
    }
}

impl DeepView for Flag {
    type V = SpecFlag;

    open spec fn deep_view(&self) -> SpecFlag {
        self.view()
    }
}

/// The flag a spelling stands for.
pub open spec fn spec_flag(s: Seq<char>) -> SpecFlag {
    if s == "\\Seen"@ {
        SpecFlag::Seen
    } else if s == "\\Answered"@ {
        SpecFlag::Answered
    } else if s == "\\Flagged"@ {
        SpecFlag::Flagged
    } else if s == "\\Deleted"@ {
        SpecFlag::Deleted
    } else if s == "\\Draft"@ {
        SpecFlag::Draft
    } else if s == "\\Recent"@ {
        SpecFlag::Recent
    } else if s == "\\*"@ {
        SpecFlag::MayCreate
    } else {
        SpecFlag::Custom(s)
    }
}

/// The flags a sequence of spellings stands for, in order.
pub open spec fn spec_flags(ss: Seq<Seq<char>>) -> Seq<SpecFlag> {
    ss.map_values(|s: Seq<char>| spec_flag(s))
}

impl Flag {
    /// Reads one flag from its spelling.
    pub fn from_text(s: String) -> (r: Flag)
        ensures
            r@ == spec_flag(s@),
    {
        if str_eq(s.as_str(), "\\Seen") {
            Flag::Seen
        } else if str_eq(s.as_str(), "\\Answered") {
            Flag::Answered
        } else if str_eq(s.as_str(), "\\Flagged") {
            Flag::Flagged
        } else if str_eq(s.as_str(), "\\Deleted") {
            Flag::Deleted
        } else if str_eq(s.as_str(), "\\Draft") {
            Flag::Draft
        } else if str_eq(s.as_str(), "\\Recent") {
            Flag::Recent
        } else if str_eq(s.as_str(), "\\*") {
            Flag::MayCreate
        } else {
            Flag::Custom(s)
        }
    }
}

/// Reads a list of flags from their spellings, keeping the order.
pub fn flags_from(texts: Vec<String>) -> (r: Vec<Flag>)
    ensures
        r.deep_view() == spec_flags(texts.deep_view()),
{
    let ghost all: Seq<Seq<char>> = texts.deep_view();
    let mut rest = texts;
    let mut r: Vec<Flag> = Vec::new();
    proof {
        assert(r.deep_view() =~= Seq::<SpecFlag>::empty());
    }
    while rest.len() > 0
        invariant
            spec_flags(all) == r.deep_view() + spec_flags(rest.deep_view()),
        decreases rest.len(),
    {
        let ghost pre: Seq<Seq<char>> = rest.deep_view();
        let t = rest.remove(0);
        proof {
            assert(rest.deep_view() =~= pre.drop_first());
            assert(spec_flags(pre) =~= seq![spec_flag(pre[0])] + spec_flags(pre.drop_first()));
        }
        let ghost r_pre: Seq<SpecFlag> = r.deep_view();
        let f = Flag::from_text(t);
        r.push(f);
        proof {
            assert(r.deep_view() =~= r_pre.push(spec_flag(pre[0])));
            assert(r_pre.push(spec_flag(pre[0])) + spec_flags(pre.drop_first()) =~= r_pre + spec_flags(pre));
        }
    }
    proof {
        assert(spec_flags(rest.deep_view()) =~= Seq::<SpecFlag>::empty());
        assert(r.deep_view() =~= r.deep_view() + spec_flags(rest.deep_view()));
    }
    r
}

/// One mailbox name a LIST-family command yields.
#[derive(Clone, PartialEq, Eq, Debug)]
pub struct Name {
    pub attributes: Vec<String>,
    pub delimiter: Option<String>,
    pub name: String,
}

/// Spec mirror of [`Name`].
#[verifier::ext_equal]
pub struct SpecName {
    pub attributes: Seq<Seq<char>>,
    pub delimiter: Option<Seq<char>>,
    pub name: Seq<char>,
}

impl View for Name {
    type V = SpecName;

    open spec fn view(&self) -> SpecName {
        SpecName {
            attributes: self.attributes.deep_view(),
            delimiter: self.delimiter.deep_view(),
            name: self.name@,
        }
    }
}

impl DeepView for Name {
    type V = SpecName;

    open spec fn deep_view(&self) -> SpecName {
        self.view()
    }
}

impl Name {
    /// The name attributes of the LIST line, verbatim.
    pub fn attributes(&self) -> (r: &Vec<String>)
        ensures
            r.deep_view() == self@.attributes,
    {
        &self.attributes
    }

    /// The hierarchy delimiter, if the server gave one.
    pub fn delimiter(&self) -> (r: &Option<String>)
        ensures
            r.deep_view() == self@.delimiter,
    {
        &self.delimiter
    }

    /// The mailbox name itself.
    pub fn name(&self) -> (r: &String)
        ensures
            r@ == self@.name,
    {
        &self.name
    }
}

/// The names the kept records of a LIST-family command yield, in order:
/// one per `List` mailbox datum, carrying its fields verbatim.
pub open spec fn names_fold(acc: Seq<SpecName>, rs: Seq<SpecResponse>) -> Seq<SpecName>
    decreases rs.len(),
{
    if rs.len() == 0 {
        acc
    } else {
        let next = match rs[0] {
            SpecResponse::MailboxData(SpecMailboxDatum::List { flags, delimiter, name }) => acc.push(
                SpecName { attributes: flags, delimiter, name },
            ),
            _ => acc,
        };
        names_fold(next, rs.drop_first())
    }
}

/// The names a record sequence yields.
pub open spec fn names_of(rs: Seq<SpecResponse>) -> Seq<SpecName> {
    names_fold(Seq::empty(), rs)
}

/// One fetched message: its sequence number and the attributes the
/// server reported, decoded into plain values.
#[derive(Clone, PartialEq, Eq, Debug)]
pub struct Fetch {
    /// The message sequence number of the FETCH line.
    pub message: u32,
    /// The unique identifier, when a `UID` attribute was present.
    pub uid: Option<u32>,
    flags: Vec<Flag>,
    body: Option<Vec<u8>>,
    header: Option<Vec<u8>>,
}

/// Spec mirror of [`Fetch`].
#[verifier::ext_equal]
pub struct SpecFetch {
    pub message: u32,
    pub uid: Option<u32>,
    pub flags: Seq<SpecFlag>,
    pub body: Option<Seq<u8>>,
    pub header: Option<Seq<u8>>,
}

impl View for Fetch {
    type V = SpecFetch;

    closed spec fn view(&self) -> SpecFetch {
        SpecFetch {
            message: self.message,
            uid: self.uid,
            flags: self.flags.deep_view(),
            body: self.body.deep_view(),
            header: self.header.deep_view(),
        }
    }
}

impl DeepView for Fetch {
    type V = SpecFetch;

    open spec fn deep_view(&self) -> SpecFetch {
        self.view()
    }
}

/// The fetch before any attribute is folded in.
pub open spec fn empty_fetch(message: u32) -> SpecFetch {
    SpecFetch { message, uid: None, flags: Seq::empty(), body: None, header: None }
}

/// Folds one attribute into the fetch: flag lists accumulate in order;
/// of the single-valued attributes the first occurrence wins.
pub open spec fn fetch_apply(f: SpecFetch, a: SpecFetchAttr) -> SpecFetch {
    match a {
        SpecFetchAttr::Flags(fs) => SpecFetch { flags: f.flags + spec_flags(fs), ..f },
        SpecFetchAttr::Uid(n) => if f.uid is None {
            SpecFetch { uid: Some(n), ..f }
        } else {
            f
        },
        SpecFetchAttr::Rfc822(b) => if f.body is None {
            SpecFetch { body: b, ..f }
        } else {
            f
        },
        SpecFetchAttr::Rfc822Header(b) => if f.header is None {
            SpecFetch { header: b, ..f }
        } else {
            f
        },
        SpecFetchAttr::OtherAttr => f,
    }
}

pub open spec fn fetch_fold(f: SpecFetch, attrs: Seq<SpecFetchAttr>) -> SpecFetch
    decreases attrs.len(),
{
    if attrs.len() == 0 {
        f
    } else {
        fetch_fold(fetch_apply(f, attrs[0]), attrs.drop_first())
    }
}

/// The fetch a FETCH record with number `message` and attribute list
/// `attrs` decodes to.
pub open spec fn spec_fetch(message: u32, attrs: Seq<SpecFetchAttr>) -> SpecFetch {
    fetch_fold(empty_fetch(message), attrs)
}

impl Fetch {
    /// Decodes a FETCH record's attribute list.
    pub fn new(message: u32, attrs: Vec<FetchAttr>) -> (r: Fetch)
        ensures
            r@ == spec_fetch(message, attrs.deep_view()),
    {
        let ghost all: Seq<SpecFetchAttr> = attrs.deep_view();
        let mut rest = attrs;
        let mut f = Fetch { message, uid: None, flags: Vec::new(), body: None, header: None };
        proof {
            assert(f@ =~= empty_fetch(message));
        }
        while rest.len() > 0
            invariant
                spec_fetch(message, all) == fetch_fold(f@, rest.deep_view()),
            decreases rest.len(),
        {
            let ghost pre: Seq<SpecFetchAttr> = rest.deep_view();
            let ghost f_pre: SpecFetch = f@;
            let a = rest.remove(0);
            proof {
                assert(rest.deep_view() =~= pre.drop_first());
            }
            match a {
                FetchAttr::Flags(fs) => {
                    let mut more = flags_from(fs);
                    let ghost flags_pre: Seq<SpecFlag> = f.flags.deep_view();
                    f.flags.append(&mut more);
                    proof {
                        assert(f.flags.deep_view() =~= f_pre.flags + spec_flags(pre[0]->Flags_0));
                        assert(f@ =~= fetch_apply(f_pre, pre[0]));
                    }
                }
                FetchAttr::Uid(n) => {
                    if f.uid.is_none() {
                        f.uid = Some(n);
                    }
                    proof {
                        assert(f@ =~= fetch_apply(f_pre, pre[0]));
                    }
                }
                FetchAttr::Rfc822(b) => {
                    if f.body.is_none() {
                        f.body = b;
                    }
                    proof {
                        assert(f@ =~= fetch_apply(f_pre, pre[0]));
                    }
                }
                FetchAttr::Rfc822Header(b) => {
                    if f.header.is_none() {
                        f.header = b;
                    }
                    proof {
                        assert(f@ =~= fetch_apply(f_pre, pre[0]));
                    }
                }
                FetchAttr::OtherAttr => {
                    proof {
                        assert(f@ =~= fetch_apply(f_pre, pre[0]));
                    }
                }
            }
        }
        proof {
            assert(fetch_fold(f@, rest.deep_view()) == f@);
        }
        f
    }

    /// The flags the FETCH line reported, in order of arrival.
    pub fn flags(&self) -> (r: &Vec<Flag>)
        ensures
            r.deep_view() == self@.flags,
    {
        &self.flags
    }

    /// The full message body, when an `RFC822` attribute carried one.
    pub fn body(&self) -> (r: Option<&Vec<u8>>)
        ensures
            match r {
                Some(b) => self@.body == Some(b@),
                None => self@.body is None,
            },
    {
        self.body.as_ref()
    }

    /// The message header, when an `RFC822.HEADER` attribute carried one.
    pub fn header(&self) -> (r: Option<&Vec<u8>>)
        ensures
            match r {
                Some(b) => self@.header == Some(b@),
                None => self@.header is None,
            },
    {
        self.header.as_ref()
    }
}

/// The state a SELECT / EXAMINE / STATUS command accumulates, field by
/// field, as mailbox data arrives.
#[derive(Clone, PartialEq, Eq, Debug)]
pub struct Mailbox {
    pub flags: Vec<Flag>,
    pub exists: u32,
    pub recent: u32,
    pub unseen: Option<u32>,
    pub permanent_flags: Vec<Flag>,
    pub uid_next: Option<u32>,
    pub uid_validity: Option<u32>,
}

/// Spec mirror of [`Mailbox`].
#[verifier::ext_equal]
pub struct SpecMailbox {
    pub flags: Seq<SpecFlag>,
    pub exists: u32,
    pub recent: u32,
    pub unseen: Option<u32>,
    pub permanent_flags: Seq<SpecFlag>,
    pub uid_next: Option<u32>,
    pub uid_validity: Option<u32>,
}

impl View for Mailbox {
    type V = SpecMailbox;

    open spec fn view(&self) -> SpecMailbox {
        SpecMailbox {
            flags: self.flags.deep_view(),
            exists: self.exists,
            recent: self.recent,
            unseen: self.unseen,
            permanent_flags: self.permanent_flags.deep_view(),
            uid_next: self.uid_next,
            uid_validity: self.uid_validity,
        }
    }
}

impl DeepView for Mailbox {
    type V = SpecMailbox;

    open spec fn deep_view(&self) -> SpecMailbox {
        self.view()
    }
}

/// The mailbox before any record is folded in.
pub open spec fn empty_mailbox() -> SpecMailbox {
    SpecMailbox {
        flags: Seq::empty(),
        exists: 0,
        recent: 0,
        unseen: None,
        permanent_flags: Seq::empty(),
        uid_next: None,
        uid_validity: None,
    }
}

impl Default for Mailbox {
    /// The empty accumulator.
    fn default() -> (r: Mailbox)
        ensures
            r@ == empty_mailbox(),
    {
        let r = Mailbox {
            flags: Vec::new(),
            exists: 0,
            recent: 0,
            unseen: None,
            permanent_flags: Vec::new(),
            uid_next: None,
            uid_validity: None,
        };
        proof {
            assert(r@ =~= empty_mailbox());
        }
        r
    }
}

/// Folds one kept record into the mailbox: the bracketed codes of `OK`
/// data lines set the UID fields, `EXISTS` and `RECENT` overwrite the
/// counters, and flag lists extend in arrival order.  Every other kept
/// record leaves the mailbox as it is.
pub open spec fn mailbox_apply(m: SpecMailbox, r: SpecResponse) -> SpecMailbox {
    match r {
        SpecResponse::Data { status: ReplyStatus::Okay, code: Some(c), .. } => match c {
            SpecRespCode::UidValidity(v) => SpecMailbox { uid_validity: Some(v), ..m },
            SpecRespCode::UidNext(v) => SpecMailbox { uid_next: Some(v), ..m },
            SpecRespCode::Unseen(v) => SpecMailbox { unseen: Some(v), ..m },
            SpecRespCode::PermanentFlags(fs) => SpecMailbox {
                permanent_flags: m.permanent_flags + spec_flags(fs),
                ..m
            },
            _ => m,
        },
        SpecResponse::MailboxData(d) => match d {
            SpecMailboxDatum::Exists(n) => SpecMailbox { exists: n, ..m },
            SpecMailboxDatum::Recent(n) => SpecMailbox { recent: n, ..m },
            SpecMailboxDatum::Flags(fs) => SpecMailbox { flags: m.flags + spec_flags(fs), ..m },
            _ => m,
        },
        _ => m,
    }
}

pub open spec fn mailbox_fold(m: SpecMailbox, rs: Seq<SpecResponse>) -> SpecMailbox
    decreases rs.len(),
{
    if rs.len() == 0 {
        m
    } else {
        mailbox_fold(mailbox_apply(m, rs[0]), rs.drop_first())
    }
}

/// The mailbox a record sequence accumulates to.
pub open spec fn mailbox_of(rs: Seq<SpecResponse>) -> SpecMailbox {
    mailbox_fold(empty_mailbox(), rs)
}

/// The capability set of the server: the tokens of the `CAPABILITY`
/// lines seen, in first-arrival order, with exact duplicates dropped.
/// Membership tests are ASCII-case-insensitive.
#[derive(Clone, PartialEq, Eq, Debug)]
pub struct Capabilities {
    tokens: Vec<String>,
}

/// No token occurs twice (with identical spelling).
pub open spec fn caps_wf(toks: Seq<Seq<char>>) -> bool {
    forall|i: int, j: int| 0 <= i < j < toks.len() ==> toks[i] != toks[j]
}

/// Appends a token unless that exact spelling is already present.
pub open spec fn cap_insert(acc: Seq<Seq<char>>, t: Seq<char>) -> Seq<Seq<char>> {
    if acc.contains(t) {
        acc
    } else {
        acc.push(t)
    }
}

pub open spec fn caps_tokens_fold(acc: Seq<Seq<char>>, toks: Seq<Seq<char>>) -> Seq<Seq<char>>
    decreases toks.len(),
{
    if toks.len() == 0 {
        acc
    } else {
        caps_tokens_fold(cap_insert(acc, toks[0]), toks.drop_first())
    }
}

pub open spec fn caps_fold(acc: Seq<Seq<char>>, rs: Seq<SpecResponse>) -> Seq<Seq<char>>
    decreases rs.len(),
{
    if rs.len() == 0 {
        acc
    } else {
        let next = match rs[0] {
            SpecResponse::Capabilities(cs) => caps_tokens_fold(acc, cs),
            _ => acc,
        };
        caps_fold(next, rs.drop_first())
    }
}

/// The capability tokens a record sequence merges to.
pub open spec fn caps_of(rs: Seq<SpecResponse>) -> Seq<Seq<char>> {
    caps_fold(Seq::empty(), rs)
}

/// Whether some stored token equals `s` ASCII-case-insensitively.
pub open spec fn caps_has_ci(toks: Seq<Seq<char>>, s: Seq<char>) -> bool {
    exists|i: int| 0 <= i < toks.len() && ci_equal(toks[i], s)
}

impl View for Capabilities {
    type V = Seq<Seq<char>>;

    closed spec fn view(&self) -> Seq<Seq<char>> {
        self.tokens.deep_view()
    }
}

impl Capabilities {
    /// Whether the stored tokens hold no duplicate spelling, so that
    /// `len` counts distinct capabilities.
    pub open spec fn wf(&self) -> bool {
        caps_wf(self@)
    }

    /// The empty set.
    pub fn new() -> (r: Capabilities)
        ensures
            r@ == Seq::<Seq<char>>::empty(),
            r.wf(),
    {
        let r = Capabilities { tokens: Vec::new() };
        proof {
            assert(r@ =~= Seq::<Seq<char>>::empty());
        }
        r
    }

    /// Whether `s`, spelled exactly so, is stored.
    fn contains_exact(&self, s: &str) -> (b: bool)
        ensures
            b == self@.contains(s@),
    {
        let mut i: usize = 0;
        while i < self.tokens.len()
            invariant
                i <= self@.len(),
                self@.len() == self.tokens.len(),
                self@ == self.tokens.deep_view(),
                forall|j: int| 0 <= j < i ==> self@[j] != s@,
            decreases self@.len() - i,
        {
            if str_eq(self.tokens[i].as_str(), s) {
                proof {
                    assert(self@[i as int] == s@);
                }
                return true;
            }
            i += 1;
        }
        false
    }

    /// Adds one token unless that exact spelling is already present.
    pub fn insert_token(&mut self, t: String)
        ensures
            final(self)@ == cap_insert(old(self)@, t@),
            old(self).wf() ==> final(self).wf(),
    {
        if !self.contains_exact(t.as_str()) {
            let ghost pre: Seq<Seq<char>> = self@;
            self.tokens.push(t);
            proof {
                assert(self@ =~= pre.push(t@));
                if caps_wf(pre) {
                    assert forall|i: int, j: int| 0 <= i < j < self@.len() implies self@[i]
                        != self@[j] by {
                        if j < pre.len() {
                        } else {
                            assert(!pre.contains(t@));
                            assert(self@[j] == t@);
                        }
                    }
                }
            }
        }
    }

    /// How many distinct capabilities are stored.
    pub fn len(&self) -> (r: usize)
        ensures
            r == self@.len(),
    {
        self.tokens.len()
    }

    /// The stored tokens, in first-arrival order.
    pub fn tokens(&self) -> (r: &Vec<String>)
        ensures
            r.deep_view() == self@,
    {
        &self.tokens
    }

    /// Whether the set holds `s`, compared ASCII-case-insensitively, so
    /// that the canonical `IMAP4rev1` also matches a server's
    /// `IMAP4REV1`.
    pub fn has_str(&self, s: &str) -> (b: bool)
        ensures
            b == caps_has_ci(self@, s@),
    {
        let mut i: usize = 0;
        while i < self.tokens.len()
            invariant
                i <= self@.len(),
                self@.len() == self.tokens.len(),
                self@ == self.tokens.deep_view(),
                forall|j: int| 0 <= j < i ==> !ci_equal(self@[j], s@),
            decreases self@.len() - i,
        {
            if str_eq_ci(self.tokens[i].as_str(), s) {
                proof {
                    assert(ci_equal(self@[i as int], s@));
                }
                return true;
            }
            i += 1;
        }
        false
    }
}

/// Inserts every id of one `SEARCH` line into the set.
pub open spec fn ids_insert_all(acc: Set<u32>, l: Seq<u32>) -> Set<u32>
    decreases l.len(),
{
    if l.len() == 0 {
        acc
    } else {
        ids_insert_all(acc.insert(l[0]), l.drop_first())
    }
}

pub open spec fn ids_fold(acc: Set<u32>, rs: Seq<SpecResponse>) -> Set<u32>
    decreases rs.len(),
{
    if rs.len() == 0 {
        acc
    } else {
        let next = match rs[0] {
            SpecResponse::Ids(l) => ids_insert_all(acc, l),
            _ => acc,
        };
        ids_fold(next, rs.drop_first())
    }
}

/// The id set a record sequence unions to.
pub open spec fn ids_of(rs: Seq<SpecResponse>) -> Set<u32> {
    ids_fold(Set::empty(), rs)
}

/// The fetches the kept records of a FETCH-family command decode to, in
/// order: one per `Fetch` record.
pub open spec fn fetches_fold(acc: Seq<SpecFetch>, rs: Seq<SpecResponse>) -> Seq<SpecFetch>
    decreases rs.len(),
{
    if rs.len() == 0 {
        acc
    } else {
        let next = match rs[0] {
            SpecResponse::Fetch(n, attrs) => acc.push(spec_fetch(n, attrs)),
            _ => acc,
        };
        fetches_fold(next, rs.drop_first())
    }
}

/// The fetches a record sequence decodes to.
pub open spec fn fetches_of(rs: Seq<SpecResponse>) -> Seq<SpecFetch> {
    fetches_fold(Seq::empty(), rs)
}

/// The message sequence numbers the kept records of an EXPUNGE command
/// yield, in order.
pub open spec fn expunges_fold(acc: Seq<u32>, rs: Seq<SpecResponse>) -> Seq<u32>
    decreases rs.len(),
{
    if rs.len() == 0 {
        acc
    } else {
        let next = match rs[0] {
            SpecResponse::Expunge(n) => acc.push(n),
            _ => acc,
        };
        expunges_fold(next, rs.drop_first())
    }
}

/// The expunged sequence numbers a record sequence yields.
pub open spec fn expunges_of(rs: Seq<SpecResponse>) -> Seq<u32> {
    expunges_fold(Seq::empty(), rs)
}

} // verus!
