//! MIME → MML message interpretation: renders a raw message as a header
//! block followed by its text body.

use vstd::prelude::*;

use crate::text::{
    escape_mml, escape_mml_spec, normalize_newlines, normalize_newlines_spec, opt_string_view,
    push_char, trim, trim_end, trim_end_spec, trim_spec,
};

verus! {

/// Errors of the interpreter.
#[derive(Debug, PartialEq, Eq, Structural)]
pub enum InterpreterError {
    /// The bytes do not parse as a message.
    ParseRawEmailError,
}

/// Which headers an interpreted message shows.
#[derive(Debug, PartialEq, Eq)]
pub enum FilterHeaders {
    /// Every header, in message order.
    All,
    /// The given headers, in the given order.
    Include(Vec<String>),
    /// Every header but the given ones, in message order.
    Exclude(Vec<String>),
}

/// The mathematical value of a [`FilterHeaders`].
pub ghost enum FilterView {
    All,
    Include(Seq<Seq<char>>),
    Exclude(Seq<Seq<char>>),
}

/// The views of a list of strings.
pub open spec fn strings_view(v: Seq<String>) -> Seq<Seq<char>> {
    v.map_values(|s: String| s@)
}

impl View for FilterHeaders {
    type V = FilterView;

    open spec fn view(&self) -> FilterView {
        match self {
            FilterHeaders::All => FilterView::All,
            FilterHeaders::Include(v) => FilterView::Include(strings_view(v@)),
            FilterHeaders::Exclude(v) => FilterView::Exclude(strings_view(v@)),
        }
    }
}

/// Whether the filter "contains" header `h`: never for all headers, when
/// listed for an include list, when not listed for an exclude list.
pub open spec fn filter_contains(f: FilterView, h: Seq<char>) -> bool {
    match f {
        FilterView::All => false,
        FilterView::Include(v) => v.contains(h),
        FilterView::Exclude(v) => !v.contains(h),
    }
}

pub(crate) fn contains_string(v: &Vec<String>, s: &String) -> (r: bool)
    ensures
        r == strings_view(v@).contains(s@),
{
    let mut i: usize = 0;
    while i < v.len()
        invariant
            0 <= i <= v.len(),
            forall|k: int| 0 <= k < i ==> v@[k]@ != s@,
        decreases v.len() - i,
    {
        if v[i] == *s {
            assert(strings_view(v@)[i as int] == s@);
            return true;
        }
        i = i + 1;
    }
    assert(!strings_view(v@).contains(s@)) by {
        if strings_view(v@).contains(s@) {
            let k = choose|k: int| 0 <= k < strings_view(v@).len() && strings_view(v@)[k] == s@;
            assert(v@[k]@ == s@);
        }
    }
    false
}

impl FilterHeaders {
    /// Whether the filter "contains" `header`.
    pub fn contains(&self, header: &String) -> (r: bool)
        ensures
            r == filter_contains(self@, header@),
    {
        match self {
            FilterHeaders::All => false,
            FilterHeaders::Include(v) => contains_string(v, header),
            FilterHeaders::Exclude(v) => !contains_string(v, header),
        }
    }
}

/// `s` with every repeat of an earlier element left out.
pub open spec fn dedup(s: Seq<Seq<char>>) -> Seq<Seq<char>>
    decreases s.len(),
{
    if s.len() == 0 {
        s
    } else {
        let d = dedup(s.drop_last());
        if d.contains(s.last()) {
            d
        } else {
            d.push(s.last())
        }
    }
}

/// `s` with every repeat of an earlier element, and every element the
/// filter contains, left out.
pub open spec fn fresh_headers(s: Seq<Seq<char>>, f: FilterView) -> Seq<Seq<char>>
    decreases s.len(),
{
    if s.len() == 0 {
        s
    } else {
        let d = fresh_headers(s.drop_last(), f);
        if d.contains(s.last()) || filter_contains(f, s.last()) {
            d
        } else {
            d.push(s.last())
        }
    }
}

/// The filter once `extra` headers are shown too.
pub open spec fn with_additional(f: FilterView, extra: Seq<Seq<char>>) -> FilterView {
    let next = fresh_headers(extra, f);
    match f {
        FilterView::All => FilterView::Include(next),
        FilterView::Include(v) => FilterView::Include(v + next),
        FilterView::Exclude(v) => FilterView::Exclude(v + next),
    }
}

fn fresh_header_list(headers: Vec<String>, f: &FilterHeaders) -> (r: Vec<String>)
    ensures
        strings_view(r@) == fresh_headers(strings_view(headers@), f@),
{
    let mut r: Vec<String> = Vec::new();
    let mut i: usize = 0;
    while i < headers.len()
        invariant
            0 <= i <= headers.len(),
            strings_view(r@) == fresh_headers(strings_view(headers@.take(i as int)), f@),
        decreases headers.len() - i,
    {
        let h = &headers[i];
        let ghost r0 = r@;
        let skip = contains_string(&r, h) || f.contains(h);
        if !skip {
            r.push(h.clone());
            assert(strings_view(r@) =~= strings_view(r0).push(h@));
        }
        assert(strings_view(headers@.take(i + 1)).drop_last() =~= strings_view(headers@.take(i as int)));
        assert(strings_view(headers@.take(i + 1)).last() == h@);
        i = i + 1;
    }
    assert(headers@.take(i as int) =~= headers@);
    r
}

/// Which parts of a message body are shown.
#[derive(Debug, PartialEq, Eq)]
pub enum FilterParts {
    /// Every part.
    All,
    /// Only parts of the given MIME type.
    Only(String),
    /// Parts of the given MIME types.
    Include(Vec<String>),
    /// Parts of all but the given MIME types.
    Exclude(Vec<String>),
}

/// The options of the body rendering.
#[derive(Debug, PartialEq, Eq)]
pub struct MimeBodyInterpreter {
    pub show_multiparts: bool,
    pub filter_parts: FilterParts,
    pub show_plain_texts_signature: bool,
    pub show_attachments: bool,
    pub show_inline_attachments: bool,
    pub save_attachments: bool,
    /// Where attachments are saved; none means the system's temporary
    /// directory.
    pub save_attachments_dir: Option<String>,
}

impl MimeBodyInterpreter {
    /// The default options: multipart structure hidden, every part,
    /// signatures and attachments shown, attachments not saved, saved to
    /// the system's temporary directory if they are.
    pub fn new() -> (r: Self)
        ensures
            r == (MimeBodyInterpreter {
                show_multiparts: false,
                filter_parts: FilterParts::All,
                show_plain_texts_signature: true,
                show_attachments: true,
                show_inline_attachments: true,
                save_attachments: false,
                save_attachments_dir: None,
            }),
    {
        MimeBodyInterpreter {
            show_multiparts: false,
            filter_parts: FilterParts::All,
            show_plain_texts_signature: true,
            show_attachments: true,
            show_inline_attachments: true,
            save_attachments: false,
            save_attachments_dir: None,
        }
    }
}

/// The MIME → MML interpreter builder.
#[derive(Debug)]
pub struct MimeInterpreterBuilder {
    /// Which headers are shown.
    pub show_headers: FilterHeaders,
    /// How the body is rendered.
    pub mime_body_interpreter: MimeBodyInterpreter,
}

impl MimeInterpreterBuilder {
    /// A builder with the default options: all headers shown, and the
    /// default body options.
    pub fn new() -> (r: Self)
        ensures
            r.show_headers@ == FilterView::All,
            r.show_headers == FilterHeaders::All,
            r.mime_body_interpreter == (MimeBodyInterpreter {
                show_multiparts: false,
                filter_parts: FilterParts::All,
                show_plain_texts_signature: true,
                show_attachments: true,
                show_inline_attachments: true,
                save_attachments: false,
                save_attachments_dir: None,
            }),
    {
        MimeInterpreterBuilder {
            show_headers: FilterHeaders::All,
            mime_body_interpreter: MimeBodyInterpreter::new(),
        }
    }

    /// Shows headers according to `s`.
    pub fn with_show_headers(self, s: FilterHeaders) -> (r: Self)
        ensures
            r.show_headers == s,
            r.mime_body_interpreter == self.mime_body_interpreter,
    {
        MimeInterpreterBuilder { show_headers: s, ..self }
    }

    /// Shows every header.
    pub fn with_show_all_headers(self) -> (r: Self)
        ensures
            r.show_headers == FilterHeaders::All,
            r.show_headers@ == FilterView::All,
            r.mime_body_interpreter == self.mime_body_interpreter,
    {
        MimeInterpreterBuilder { show_headers: FilterHeaders::All, ..self }
    }

    /// Shows only `headers`, in their order, repeats left out.
    pub fn with_show_only_headers(self, headers: Vec<String>) -> (r: Self)
        ensures
            r.show_headers@ == FilterView::Include(dedup(strings_view(headers@))),
            r.show_headers is Include,
            r.mime_body_interpreter == self.mime_body_interpreter,
    {
        let all = FilterHeaders::All;
        let v = fresh_header_list(headers, &all);
        proof {
            lemma_fresh_all_is_dedup(strings_view(headers@));
        }
        MimeInterpreterBuilder { show_headers: FilterHeaders::Include(v), ..self }
    }

    /// Shows `headers` too: those not yet shown are appended to the
    /// include or exclude list; after showing all headers, only they are
    /// shown.
    pub fn with_show_additional_headers(self, headers: Vec<String>) -> (r: Self)
        ensures
            r.show_headers@ == with_additional(self.show_headers@, strings_view(headers@)),
            r.mime_body_interpreter == self.mime_body_interpreter,
    {
        let next = fresh_header_list(headers, &self.show_headers);
        let show = match self.show_headers {
            FilterHeaders::All => FilterHeaders::Include(next),
            FilterHeaders::Include(mut v) => {
                let ghost v0 = v@;
                let mut n = next;
                v.append(&mut n);
                assert(strings_view(v@) =~= strings_view(v0) + strings_view(next@));
                FilterHeaders::Include(v)
            },
            FilterHeaders::Exclude(mut v) => {
                let ghost v0 = v@;
                let mut n = next;
                v.append(&mut n);
                assert(strings_view(v@) =~= strings_view(v0) + strings_view(next@));
                FilterHeaders::Exclude(v)
            },
        };
        MimeInterpreterBuilder { show_headers: show, mime_body_interpreter: self.mime_body_interpreter }
    }

    /// Shows no header.
    pub fn with_hide_all_headers(self) -> (r: Self)
        ensures
            r.show_headers@ == FilterView::Include(Seq::<Seq<char>>::empty()),
            r.show_headers is Include && r.show_headers->Include_0@.len() == 0,
            r.mime_body_interpreter == self.mime_body_interpreter,
    {
        let r = MimeInterpreterBuilder { show_headers: FilterHeaders::Include(Vec::new()), ..self };
        assert(strings_view(Seq::<String>::empty()) =~= Seq::<Seq<char>>::empty());
        r
    }

    /// Whether multipart structure is shown.
    pub fn with_show_multiparts(self, v: bool) -> (r: Self)
        ensures
            r.show_headers == self.show_headers,
            r.mime_body_interpreter == (MimeBodyInterpreter { show_multiparts: v, ..self.mime_body_interpreter }),
    {
        MimeInterpreterBuilder {
            mime_body_interpreter: MimeBodyInterpreter { show_multiparts: v, ..self.mime_body_interpreter },
            ..self
        }
    }

    /// Which parts are shown.
    pub fn with_filter_parts(self, v: FilterParts) -> (r: Self)
        ensures
            r.show_headers == self.show_headers,
            r.mime_body_interpreter == (MimeBodyInterpreter { filter_parts: v, ..self.mime_body_interpreter }),
    {
        MimeInterpreterBuilder {
            mime_body_interpreter: MimeBodyInterpreter { filter_parts: v, ..self.mime_body_interpreter },
            ..self
        }
    }

    /// Whether signatures of plain text parts are shown.
    pub fn with_show_plain_texts_signature(self, v: bool) -> (r: Self)
        ensures
            r.show_headers == self.show_headers,
            r.mime_body_interpreter == (MimeBodyInterpreter { show_plain_texts_signature: v, ..self.mime_body_interpreter }),
    {
        MimeInterpreterBuilder {
            mime_body_interpreter: MimeBodyInterpreter { show_plain_texts_signature: v, ..self.mime_body_interpreter },
            ..self
        }
    }

    /// Whether attachments are shown.
    pub fn with_show_attachments(self, v: bool) -> (r: Self)
        ensures
            r.show_headers == self.show_headers,
            r.mime_body_interpreter == (MimeBodyInterpreter { show_attachments: v, ..self.mime_body_interpreter }),
    {
        MimeInterpreterBuilder {
            mime_body_interpreter: MimeBodyInterpreter { show_attachments: v, ..self.mime_body_interpreter },
            ..self
        }
    }

    /// Whether inline attachments are shown.
    pub fn with_show_inline_attachments(self, v: bool) -> (r: Self)
        ensures
            r.show_headers == self.show_headers,
            r.mime_body_interpreter == (MimeBodyInterpreter { show_inline_attachments: v, ..self.mime_body_interpreter }),
    {
        MimeInterpreterBuilder {
            mime_body_interpreter: MimeBodyInterpreter { show_inline_attachments: v, ..self.mime_body_interpreter },
            ..self
        }
    }

    /// Whether attachments are saved.
    pub fn with_save_attachments(self, v: bool) -> (r: Self)
        ensures
            r.show_headers == self.show_headers,
            r.mime_body_interpreter == (MimeBodyInterpreter { save_attachments: v, ..self.mime_body_interpreter }),
    {
        MimeInterpreterBuilder {
            mime_body_interpreter: MimeBodyInterpreter { save_attachments: v, ..self.mime_body_interpreter },
            ..self
        }
    }

    /// Saves attachments under `dir`.
    pub fn with_save_attachments_dir(self, dir: String) -> (r: Self)
        ensures
            r.show_headers == self.show_headers,
            r.mime_body_interpreter == (MimeBodyInterpreter {
                save_attachments_dir: Some(dir),
                ..self.mime_body_interpreter
            }),
    {
        self.with_save_some_attachments_dir(Some(dir))
    }

    /// Saves attachments under `dir`, or the system's temporary directory
    /// when none is given.
    pub fn with_save_some_attachments_dir(self, dir: Option<String>) -> (r: Self)
        ensures
            r.show_headers == self.show_headers,
            r.mime_body_interpreter == (MimeBodyInterpreter {
                save_attachments_dir: dir,
                ..self.mime_body_interpreter
            }),
    {
        MimeInterpreterBuilder {
            mime_body_interpreter: MimeBodyInterpreter {
                save_attachments_dir: dir,
                ..self.mime_body_interpreter
            },
            ..self
        }
    }

    /// The interpreter, with every option of the builder.
    pub fn build(self) -> (r: MimeInterpreter)
        ensures
            r.show_headers == self.show_headers,
            r.mime_body_interpreter == self.mime_body_interpreter,
    {
        MimeInterpreter {
            show_headers: self.show_headers,
            mime_body_interpreter: self.mime_body_interpreter,
        }
    }
}

proof fn lemma_fresh_all_is_dedup(s: Seq<Seq<char>>)
    ensures
        fresh_headers(s, FilterView::All) == dedup(s),
    decreases s.len(),
{
    if s.len() > 0 {
        lemma_fresh_all_is_dedup(s.drop_last());
    }
}

/// The MIME → MML interpreter. It renders the header block and the first
/// text body part; the body options are kept for the renderings of
/// multipart structure and attachments.
#[derive(Debug)]
pub struct MimeInterpreter {
    pub show_headers: FilterHeaders,
    pub mime_body_interpreter: MimeBodyInterpreter,
}

/// An address of an address header.
#[derive(Debug)]
pub struct MailAddress {
    pub name: Option<String>,
    pub address: Option<String>,
}

/// A header of a parsed message.
#[derive(Debug)]
pub struct MimeHeader {
    pub name: String,
    /// The value as it stands in the message.
    pub raw_value: String,
    /// The addresses, for an address header.
    pub addresses: Option<Vec<MailAddress>>,
}

/// The mathematical value of a [`MimeHeader`].
pub ghost struct MimeHeaderView {
    pub name: Seq<char>,
    pub raw_value: Seq<char>,
    pub addresses: Option<Seq<(Option<Seq<char>>, Option<Seq<char>>)>>,
}

impl View for MailAddress {
    type V = (Option<Seq<char>>, Option<Seq<char>>);

    open spec fn view(&self) -> (Option<Seq<char>>, Option<Seq<char>>) {
        (opt_string_view(self.name), opt_string_view(self.address))
    }
}

/// The views of a list of addresses.
pub open spec fn addresses_view(v: Seq<MailAddress>) -> Seq<(Option<Seq<char>>, Option<Seq<char>>)> {
    v.map_values(|a: MailAddress| a@)
}

impl View for MimeHeader {
    type V = MimeHeaderView;

    open spec fn view(&self) -> MimeHeaderView {
        MimeHeaderView {
            name: self.name@,
            raw_value: self.raw_value@,
            addresses: match self.addresses {
                Some(v) => Some(addresses_view(v@)),
                None => None,
            },
        }
    }
}

/// The views of a list of headers.
pub open spec fn headers_view(v: Seq<MimeHeader>) -> Seq<MimeHeaderView> {
    v.map_values(|h: MimeHeader| h@)
}

/// The headers of the top-level part of the message `raw`, in order; none
/// when `raw` does not parse as a message.
pub uninterp spec fn mime_headers_of(raw: Seq<u8>) -> Option<Seq<MimeHeaderView>>;

/// The first text body part of the message `raw`, decoded; none when there
/// is none or `raw` does not parse.
pub uninterp spec fn mime_text_of(raw: Seq<u8>) -> Option<Seq<char>>;

/// Relies on mail_parser's `MessageParser::parse`: the headers of the
/// top-level part in order, each with its name, its raw value text, and
/// for address headers the addresses as parsed.
#[verifier::external_body]
pub(crate) fn parse_mime_headers(raw: &[u8]) -> (r: Option<Vec<MimeHeader>>)
    ensures
        match r {
            Some(v) => mime_headers_of(raw@) == Some(headers_view(v@)),
            None => mime_headers_of(raw@) is None,
        },
{
    let msg = mail_parser::MessageParser::new().parse(raw)?;
    Some(msg.headers().iter().map(|h| MimeHeader {
        name: h.name.as_str().to_string(),
        raw_value: String::from_utf8_lossy(raw.get(h.offset_start..h.offset_end).unwrap_or_default())
            .into_owned(),
        addresses: match &h.value {
            mail_parser::HeaderValue::Address(a) => Some(a.iter().map(|x| MailAddress {
                name: x.name.as_ref().map(|n| n.to_string()),
                address: x.address.as_ref().map(|n| n.to_string()),
            }).collect()),
            _ => None,
        },
    }).collect())
}

/// Relies on mail_parser's `MessageParser::parse` and `Message::body_text`:
/// the first text body part, decoded.
#[verifier::external_body]
fn parse_mime_text(raw: &[u8]) -> (r: Option<String>)
    ensures
        opt_string_view(r) == mime_text_of(raw@),
{
    mail_parser::MessageParser::new().parse(raw)?.body_text(0).map(|t| t.into_owned())
}

/// How an address displays: its name if any, else its address.
pub open spec fn display_address(a: (Option<Seq<char>>, Option<Seq<char>>)) -> Seq<char> {
    match a.0 {
        Some(n) => n,
        None => match a.1 {
            Some(x) => x,
            None => seq![],
        },
    }
}

/// The addresses displayed one after the other, separated by ", ".
pub open spec fn join_addresses(s: Seq<(Option<Seq<char>>, Option<Seq<char>>)>) -> Seq<char>
    decreases s.len(),
{
    if s.len() == 0 {
        seq![]
    } else if s.len() == 1 {
        display_address(s[0])
    } else {
        join_addresses(s.drop_last()) + seq![',', ' '] + display_address(s.last())
    }
}

/// How a header value displays: its addresses for an address header,
/// else its raw value without surrounding whitespace.
pub open spec fn display_value(h: MimeHeaderView) -> Seq<char> {
    match h.addresses {
        Some(a) => join_addresses(a),
        None => trim_spec(h.raw_value),
    }
}

/// One line of the header block.
pub open spec fn header_line(name: Seq<char>, value: Seq<char>) -> Seq<char> {
    name + seq![':', ' '] + value + seq!['\n']
}

/// One line for each header of `hs` whose name is not in `excluded`, in
/// message order.
pub open spec fn lines_except(hs: Seq<MimeHeaderView>, excluded: Seq<Seq<char>>) -> Seq<char>
    decreases hs.len(),
{
    if hs.len() == 0 {
        seq![]
    } else {
        let h = hs.last();
        lines_except(hs.drop_last(), excluded) + if excluded.contains(h.name) {
            seq![]
        } else {
            header_line(h.name, display_value(h))
        }
    }
}

/// The first header of `hs` named `k`, if any.
pub open spec fn first_header(hs: Seq<MimeHeaderView>, k: Seq<char>) -> Option<MimeHeaderView>
    decreases hs.len(),
{
    if hs.len() == 0 {
        None
    } else {
        match first_header(hs.drop_last(), k) {
            Some(h) => Some(h),
            None => if hs.last().name == k {
                Some(hs.last())
            } else {
                None
            },
        }
    }
}

/// One line for each key that names a header of `hs` (its first one), in
/// key order.
pub open spec fn lines_included(hs: Seq<MimeHeaderView>, keys: Seq<Seq<char>>) -> Seq<char>
    decreases keys.len(),
{
    if keys.len() == 0 {
        seq![]
    } else {
        let k = keys.last();
        lines_included(hs, keys.drop_last()) + match first_header(hs, k) {
            Some(h) => header_line(k, display_value(h)),
            None => seq![],
        }
    }
}

/// The header block of a message with headers `hs` under filter `f`.
pub open spec fn header_block(f: FilterView, hs: Seq<MimeHeaderView>) -> Seq<char> {
    match f {
        FilterView::All => lines_except(hs, seq![]),
        FilterView::Include(keys) => lines_included(hs, keys),
        FilterView::Exclude(keys) => lines_except(hs, keys),
    }
}

/// The MML of a message: the header block, a blank line when the block
/// is not empty, then the body with CRLF turned into LF, MML markup
/// escaped and trailing whitespace removed, then exactly one newline.
pub open spec fn mml_of(f: FilterView, hs: Seq<MimeHeaderView>, body: Seq<char>) -> Seq<char> {
    let block = header_block(f, hs);
    let head = if block.len() > 0 {
        block + seq!['\n']
    } else {
        block
    };
    head + trim_end_spec(escape_mml_spec(normalize_newlines_spec(body))) + seq!['\n']
}

fn append_string(s: &mut String, t: &String)
    ensures
        final(s)@ == old(s)@ + t@,
{
    s.append(t.as_str());
}

fn append_header_line(out: &mut String, name: &String, value: &String)
    ensures
        final(out)@ == old(out)@ + header_line(name@, value@),
{
    append_string(out, name);
    push_char(out, ':');
    push_char(out, ' ');
    append_string(out, value);
    push_char(out, '\n');
    assert(final(out)@ =~= old(out)@ + header_line(name@, value@));
}

fn display_address_exec(a: &MailAddress) -> (r: String)
    ensures
        r@ == display_address(a@),
{
    match &a.name {
        Some(n) => n.clone(),
        None => match &a.address {
            Some(x) => x.clone(),
            None => String::new(),
        },
    }
}

/// How a header value displays.
pub fn display_header_value(h: &MimeHeader) -> (r: String)
    ensures
        r@ == display_value(h@),
{
    match &h.addresses {
        Some(list) => {
            let mut r = String::new();
            let mut i: usize = 0;
            while i < list.len()
                invariant
                    0 <= i <= list.len(),
                    r@ == join_addresses(addresses_view(list@.take(i as int))),
                decreases list.len() - i,
            {
                let d = display_address_exec(&list[i]);
                let ghost s1 = addresses_view(list@.take(i + 1));
                assert(s1.drop_last() =~= addresses_view(list@.take(i as int)));
                assert(s1.last() == list@[i as int]@);
                if i > 0 {
                    push_char(&mut r, ',');
                    push_char(&mut r, ' ');
                }
                append_string(&mut r, &d);
                assert(i == 0 ==> s1 =~= seq![list@[0]@]);
                assert(r@ =~= join_addresses(s1));
                i = i + 1;
            }
            assert(list@.take(i as int) =~= list@);
            r
        },
        None => trim(h.raw_value.as_str()),
    }
}

fn lines_except_exec(headers: &Vec<MimeHeader>, excluded: &Vec<String>) -> (r: String)
    ensures
        r@ == lines_except(headers_view(headers@), strings_view(excluded@)),
{
    let mut r = String::new();
    let mut i: usize = 0;
    while i < headers.len()
        invariant
            0 <= i <= headers.len(),
            r@ == lines_except(headers_view(headers@.take(i as int)), strings_view(excluded@)),
        decreases headers.len() - i,
    {
        let h = &headers[i];
        let ghost s1 = headers_view(headers@.take(i + 1));
        assert(s1.drop_last() =~= headers_view(headers@.take(i as int)));
        assert(s1.last() == h@);
        if !contains_string(excluded, &h.name) {
            let v = display_header_value(h);
            append_header_line(&mut r, &h.name, &v);
        } else {
            assert(r@ =~= r@ + Seq::<char>::empty());
        }
        i = i + 1;
    }
    assert(headers@.take(i as int) =~= headers@);
    r
}

fn first_header_exec<'a>(headers: &'a Vec<MimeHeader>, k: &String) -> (r: Option<&'a MimeHeader>)
    ensures
        match r {
            Some(h) => first_header(headers_view(headers@), k@) == Some(h@),
            None => first_header(headers_view(headers@), k@) is None,
        },
{
    let mut i: usize = 0;
    while i < headers.len()
        invariant
            0 <= i <= headers.len(),
            first_header(headers_view(headers@.take(i as int)), k@) is None,
        decreases headers.len() - i,
    {
        let ghost s1 = headers_view(headers@.take(i + 1));
        assert(s1.drop_last() =~= headers_view(headers@.take(i as int)));
        assert(s1.last() == headers@[i as int]@);
        if headers[i].name == *k {
            proof {
                assert(first_header(s1, k@) == Some(headers@[i as int]@));
                assert(headers_view(headers@).take(i + 1) =~= s1);
                lemma_first_header_extend(headers_view(headers@), k@, i + 1);
            }
            return Some(&headers[i]);
        }
        i = i + 1;
    }
    assert(headers@.take(i as int) =~= headers@);
    None
}

/// Once the first `n` headers hold one named `k`, the later ones do not
/// change which header comes first.
proof fn lemma_first_header_extend(hs: Seq<MimeHeaderView>, k: Seq<char>, n: int)
    requires
        0 <= n <= hs.len(),
        first_header(hs.take(n), k) is Some,
    ensures
        first_header(hs, k) == first_header(hs.take(n), k),
    decreases hs.len() - n,
{
    if n < hs.len() {
        assert(hs.take(n + 1).drop_last() =~= hs.take(n));
        lemma_first_header_extend(hs, k, n + 1);
    } else {
        assert(hs.take(n) =~= hs);
    }
}

fn lines_included_exec(headers: &Vec<MimeHeader>, keys: &Vec<String>) -> (r: String)
    ensures
        r@ == lines_included(headers_view(headers@), strings_view(keys@)),
{
    let mut r = String::new();
    let mut i: usize = 0;
    while i < keys.len()
        invariant
            0 <= i <= keys.len(),
            r@ == lines_included(headers_view(headers@), strings_view(keys@.take(i as int))),
        decreases keys.len() - i,
    {
        let k = &keys[i];
        let ghost s1 = strings_view(keys@.take(i + 1));
        assert(s1.drop_last() =~= strings_view(keys@.take(i as int)));
        assert(s1.last() == k@);
        match first_header_exec(headers, k) {
            Some(h) => {
                let v = display_header_value(h);
                append_header_line(&mut r, k, &v);
            },
            None => {
                assert(r@ =~= r@ + Seq::<char>::empty());
            },
        }
        i = i + 1;
    }
    assert(keys@.take(i as int) =~= keys@);
    r
}

/// The MML of a message with headers `headers` and text body `body`,
/// under the header filter `show`.
pub fn render_mml(show: &FilterHeaders, headers: &Vec<MimeHeader>, body: &String) -> (r: String)
    ensures
        r@ == mml_of(show@, headers_view(headers@), body@),
{
    let mut r = match show {
        FilterHeaders::All => {
            let none: Vec<String> = Vec::new();
            let r = lines_except_exec(headers, &none);
            assert(strings_view(none@) =~= Seq::<Seq<char>>::empty());
            r
        },
        FilterHeaders::Include(keys) => lines_included_exec(headers, keys),
        FilterHeaders::Exclude(keys) => lines_except_exec(headers, keys),
    };
    if r.unicode_len() > 0 {
        push_char(&mut r, '\n');
    }
    let normalized = normalize_newlines(body.as_str());
    let escaped = escape_mml(normalized.as_str());
    let trimmed = trim_end(escaped.as_str());
    append_string(&mut r, &trimmed);
    push_char(&mut r, '\n');
    r
}

impl MimeInterpreter {
    /// Interprets the raw message `bytes` as MML: an error when they do
    /// not parse as a message, else the MML of its headers and first text
    /// body part (empty when it has none).
    pub fn from_bytes(&self, bytes: &[u8]) -> (r: Result<String, InterpreterError>)
        ensures
            match mime_headers_of(bytes@) {
                None => r == Err::<String, InterpreterError>(InterpreterError::ParseRawEmailError),
                Some(hs) => r is Ok && r->Ok_0@ == mml_of(
                    self.show_headers@,
                    hs,
                    match mime_text_of(bytes@) {
                        Some(t) => t,
                        None => seq![],
                    },
                ),
            },
    {
        match parse_mime_headers(bytes) {
            None => Err(InterpreterError::ParseRawEmailError),
            Some(headers) => {
                let body = match parse_mime_text(bytes) {
                    Some(t) => t,
                    None => String::new(),
                };
                Ok(render_mml(&self.show_headers, &headers, &body))
            },
        }
    }
}

} // verus!
