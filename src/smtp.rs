//! The SMTP envelope of a message: who sends it and who receives it.

use vstd::prelude::*;

use crate::interpreter::{
    contains_string, headers_view, mime_headers_of, parse_mime_headers, strings_view, MimeHeader,
    MimeHeaderView,
};
use crate::text::same_str;

verus! {

/// Errors met while preparing a message for sending.
#[derive(Clone, Copy, Debug, PartialEq, Eq, Structural)]
pub enum SmtpError {
    /// No From header holds an address.
    SendEmailMissingSenderError,
    /// No To, Cc or Bcc header holds an address.
    SendEmailMissingRecipientError,
}

/// The sender and the recipients of a message.
#[derive(Debug, PartialEq, Eq)]
pub struct SmtpEnvelope {
    pub mail_from: String,
    /// Distinct, in order of first appearance.
    pub rcpt_to: Vec<String>,
}

/// The address of the first address of an address header, if any.
pub open spec fn first_address(h: MimeHeaderView) -> Option<Seq<char>> {
    match h.addresses {
        Some(a) => if a.len() > 0 {
            a[0].1
        } else {
            None
        },
        None => None,
    }
}

/// Whether the header names recipients.
pub open spec fn is_recipient_header(name: Seq<char>) -> bool {
    name == "To"@ || name == "Cc"@ || name == "Bcc"@
}

/// The sender of a message with headers `hs`: the first address of the
/// last From header that holds one.
pub open spec fn sender_of(hs: Seq<MimeHeaderView>) -> Option<Seq<char>>
    decreases hs.len(),
{
    if hs.len() == 0 {
        None
    } else if hs.last().name == "From"@ && first_address(hs.last()) is Some {
        first_address(hs.last())
    } else {
        sender_of(hs.drop_last())
    }
}

/// The recipients of a message with headers `hs`: the first address of
/// each To, Cc and Bcc header, each once, in order of first appearance.
pub open spec fn recipients_of(hs: Seq<MimeHeaderView>) -> Seq<Seq<char>>
    decreases hs.len(),
{
    if hs.len() == 0 {
        seq![]
    } else {
        let r = recipients_of(hs.drop_last());
        let h = hs.last();
        match first_address(h) {
            Some(a) => if is_recipient_header(h.name) && !r.contains(a) {
                r.push(a)
            } else {
                r
            },
            None => r,
        }
    }
}

fn first_address_exec(h: &MimeHeader) -> (r: Option<String>)
    ensures
        match r {
            Some(a) => first_address(h@) == Some(a@),
            None => first_address(h@) is None,
        },
{
    match &h.addresses {
        Some(list) => if list.len() > 0 {
            match &list[0].address {
                Some(a) => Some(a.clone()),
                None => None,
            }
        } else {
            None
        },
        None => None,
    }
}

/// The SMTP envelope of a message with headers `headers`: an error when
/// no recipient is found, else when no sender is found.
pub fn envelope_of_headers(headers: &Vec<MimeHeader>) -> (r: Result<SmtpEnvelope, SmtpError>)
    ensures
        ({
            let hs = headers_view(headers@);
            if recipients_of(hs).len() == 0 {
                r == Err::<SmtpEnvelope, SmtpError>(SmtpError::SendEmailMissingRecipientError)
            } else {
                match sender_of(hs) {
                    None => r == Err::<SmtpEnvelope, SmtpError>(
                        SmtpError::SendEmailMissingSenderError,
                    ),
                    Some(s) => r is Ok && r->Ok_0.mail_from@ == s
                        && strings_view(r->Ok_0.rcpt_to@) == recipients_of(hs),
                }
            }
        }),
{
    let mut mail_from: Option<String> = None;
    let mut rcpt_to: Vec<String> = Vec::new();
    let mut i: usize = 0;
    while i < headers.len()
        invariant
            0 <= i <= headers.len(),
            match mail_from {
                Some(a) => sender_of(headers_view(headers@.take(i as int))) == Some(a@),
                None => sender_of(headers_view(headers@.take(i as int))) is None,
            },
            strings_view(rcpt_to@) == recipients_of(
                headers_view(headers@.take(i as int)),
            ),
        decreases headers.len() - i,
    {
        let h = &headers[i];
        let ghost s1 = headers_view(headers@.take(i + 1));
        assert(s1.drop_last() =~= headers_view(headers@.take(i as int)));
        assert(s1.last() == h@);
        let ghost r0 = rcpt_to@;
        match first_address_exec(h) {
            Some(a) => {
                if same_str(h.name.as_str(), "From") {
                    mail_from = Some(a.clone());
                }
                let recipient = same_str(h.name.as_str(), "To") || same_str(h.name.as_str(), "Cc")
                    || same_str(h.name.as_str(), "Bcc");
                if recipient && !contains_string(&rcpt_to, &a) {
                    rcpt_to.push(a);
                    assert(strings_view(rcpt_to@) =~= strings_view(r0).push(
                        s1.last().addresses->Some_0[0].1->Some_0,
                    ));
                }
            },
            None => {},
        }
        i = i + 1;
    }
    assert(headers@.take(i as int) =~= headers@);
    if rcpt_to.len() == 0 {
        return Err(SmtpError::SendEmailMissingRecipientError);
    }
    match mail_from {
        Some(s) => Ok(SmtpEnvelope { mail_from: s, rcpt_to }),
        None => Err(SmtpError::SendEmailMissingSenderError),
    }
}

/// The SMTP envelope of the raw message `raw`; a message that does not
/// parse has no header, hence no recipient.
pub fn envelope_of_message(raw: &[u8]) -> (r: Result<SmtpEnvelope, SmtpError>)
    ensures
        ({
            let hs = match mime_headers_of(raw@) {
                Some(hs) => hs,
                None => Seq::<MimeHeaderView>::empty(),
            };
            if recipients_of(hs).len() == 0 {
                r == Err::<SmtpEnvelope, SmtpError>(SmtpError::SendEmailMissingRecipientError)
            } else {
                match sender_of(hs) {
                    None => r == Err::<SmtpEnvelope, SmtpError>(
                        SmtpError::SendEmailMissingSenderError,
                    ),
                    Some(s) => r is Ok && r->Ok_0.mail_from@ == s
                        && strings_view(r->Ok_0.rcpt_to@) == recipients_of(hs),
                }
            }
        }),
{
    let headers = match parse_mime_headers(raw) {
        Some(h) => h,
        None => Vec::new(),
    };
    proof {
        if mime_headers_of(raw@) is None {
            assert(headers_view(headers@) =~= Seq::<MimeHeaderView>::empty());
        }
    }
    envelope_of_headers(&headers)
}

/// How an account authenticates to its SMTP server.
#[derive(Clone, Copy, Debug, PartialEq, Eq, Structural)]
pub enum SmtpAuthKind {
    Passwd,
    OAuth2,
}

/// What an attempt to connect or send gave.
#[derive(Clone, Copy, Debug, PartialEq, Eq, Structural)]
pub enum SendOutcome {
    Sent,
    /// The server refused the credentials.
    AuthenticationFailed,
    /// Any other failure.
    Failed,
}

/// What to do after an attempt.
#[derive(Clone, Copy, Debug, PartialEq, Eq, Structural)]
pub enum SendStep {
    Done,
    /// Surface the failure.
    Fail,
    /// Refresh the OAuth 2.0 access token, reconnect and try again.
    RefreshThenRetry,
}

/// The step after an attempt: an authentication failure under OAuth 2.0
/// is retried once after refreshing the access token; any other failure,
/// or a second one, is surfaced.
pub fn next_send_step(auth: SmtpAuthKind, retried: bool, outcome: SendOutcome) -> (r: SendStep)
    ensures
        outcome == SendOutcome::Sent ==> r == SendStep::Done,
        outcome == SendOutcome::Failed ==> r == SendStep::Fail,
        outcome == SendOutcome::AuthenticationFailed ==> r == if auth == SmtpAuthKind::OAuth2
            && !retried {
            SendStep::RefreshThenRetry
        } else {
            SendStep::Fail
        },
{
    match outcome {
        SendOutcome::Sent => SendStep::Done,
        SendOutcome::Failed => SendStep::Fail,
        SendOutcome::AuthenticationFailed => match auth {
            SmtpAuthKind::OAuth2 => if retried {
                SendStep::Fail
            } else {
                SendStep::RefreshThenRetry
            },
            SmtpAuthKind::Passwd => SendStep::Fail,
        },
    }
}

} // verus!
