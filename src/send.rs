//! The dispatcher of send requests.
//!
//! A request is checked field by field before any provider is touched. A
//! request that names the mock provider is answered at once; one that names
//! another configured provider is handed over for one delivery attempt, and
//! the outcome of that attempt is turned into the answer by `finish`.
use vstd::prelude::*;

use crate::error::{ApplicationError, ProviderError};
use crate::providers::{
    copy_strings, kind_of, mock_message_id, provider_kind, MockProvider, ProviderKind,
};
use crate::validate::{email_address, email_address_spec};

verus! {

/// A send request as it was read: a field is `None` where it was absent or
/// not of its type.
#[derive(Debug, PartialEq, Eq)]
pub struct RawRequest {
    pub to: Option<String>,
    pub cc: Option<Vec<String>>,
    pub subject: Option<String>,
    pub body_text: Option<String>,
    pub body_html: Option<String>,
    pub provider: Option<String>,
}

/// A send request whose fields all passed their checks.
#[derive(Debug, PartialEq, Eq)]
pub struct SendRequest {
    pub to: String,
    pub cc: Vec<String>,
    pub subject: String,
    pub body_text: String,
    pub body_html: Option<String>,
    pub provider: ProviderKind,
}

/// Every address of `cc` is an email address.
pub open spec fn all_addresses(cc: Seq<String>) -> bool {
    forall|i: int| 0 <= i < cc.len() ==> email_address_spec(#[trigger] cc[i]@)
}

/// The carbon copies of a raw request: none where the field is absent.
pub open spec fn cc_of(raw: &RawRequest) -> Seq<String> {
    match raw.cc {
        Some(c) => c@,
        None => Seq::empty(),
    }
}

/// A raw request is well formed and passes validation.
pub open spec fn request_ok(raw: &RawRequest) -> bool {
    &&& raw.to matches Some(t) && email_address_spec(t@)
    &&& all_addresses(cc_of(raw))
    &&& raw.subject matches Some(s) && s@.len() > 0
    &&& raw.body_text matches Some(b) && b@.len() > 0
    &&& raw.provider matches Some(p) && kind_of(p@) is Some
}

/// The variant that a valid raw request names.
pub open spec fn named_kind(raw: &RawRequest) -> ProviderKind {
    kind_of(raw.provider->0@)->0
}

/// `q` holds the fields of `raw`.
pub open spec fn carries(q: &SendRequest, raw: &RawRequest) -> bool {
    &&& q.to@ == raw.to->0@
    &&& q.cc@ == cc_of(raw)
    &&& q.subject@ == raw.subject->0@
    &&& q.body_text@ == raw.body_text->0@
    &&& q.body_html@ == raw.body_html@
    &&& q.provider == named_kind(raw)
}

/// Checks a raw request; a request that fails is a bad request, whichever
/// field failed.
pub fn check_request(raw: &RawRequest) -> (r: Result<SendRequest, ApplicationError>)
    ensures
        r is Ok <==> request_ok(raw),
        r matches Ok(q) ==> carries(&q, raw),
        r matches Err(e) ==> e.is_bad_request(),
{
    let to = match &raw.to {
        Some(t) => t,
        None => return Err(ApplicationError::bad_request()),
    };
    let subject = match &raw.subject {
        Some(s) => s,
        None => return Err(ApplicationError::bad_request()),
    };
    let body_text = match &raw.body_text {
        Some(b) => b,
        None => return Err(ApplicationError::bad_request()),
    };
    let name = match &raw.provider {
        Some(p) => p,
        None => return Err(ApplicationError::bad_request()),
    };
    if !email_address(to.as_str()) || subject.as_str().unicode_len() == 0
        || body_text.as_str().unicode_len() == 0 {
        return Err(ApplicationError::bad_request());
    }
    let kind = match provider_kind(name.as_str()) {
        Some(k) => k,
        None => return Err(ApplicationError::bad_request()),
    };
    let cc = match &raw.cc {
        Some(c) => copy_strings(c),
        None => Vec::new(),
    };
    let mut i: usize = 0;
    while i < cc.len()
        invariant
            cc@ == cc_of(raw),
            i <= cc@.len(),
            forall|k: int| 0 <= k < i ==> email_address_spec(#[trigger] cc@[k]@),
        decreases cc@.len() - i,
    {
        if !email_address(cc[i].as_str()) {
            return Err(ApplicationError::bad_request());
        }
        i = i + 1;
    }
    let body_html = match &raw.body_html {
        Some(h) => Some(h.clone()),
        None => None,
    };
    Ok(
        SendRequest {
            to: to.clone(),
            cc,
            subject: subject.clone(),
            body_text: body_text.clone(),
            body_html,
            provider: kind,
        },
    )
}

/// What the dispatcher does with a request.
#[derive(Debug)]
pub enum Step {
    /// Answer now, with a message id or an error.
    Reply(Result<String, ApplicationError>),
    /// Hand the request to its provider for one delivery attempt.
    Deliver(SendRequest),
}

/// What becomes of a request, given the variants that are configured.
#[derive(Debug, PartialEq, Eq)]
pub enum Decision {
    BadRequest,
    MockReply,
    Deliver(ProviderKind),
}

pub open spec fn decide(raw: &RawRequest, configured: Seq<ProviderKind>) -> Decision {
    if !request_ok(raw) || !configured.contains(named_kind(raw)) {
        Decision::BadRequest
    } else if named_kind(raw) == ProviderKind::Mock {
        Decision::MockReply
    } else {
        Decision::Deliver(named_kind(raw))
    }
}

/// Whether `configured` holds `kind`.
fn is_configured(configured: &Vec<ProviderKind>, kind: ProviderKind) -> (r: bool)
    ensures
        r == configured@.contains(kind),
{
    let mut i: usize = 0;
    while i < configured.len()
        invariant
            i <= configured@.len(),
            forall|k: int| 0 <= k < i ==> configured@[k] != kind,
        decreases configured@.len() - i,
    {
        if configured[i] == kind {
            return true;
        }
        i = i + 1;
    }
    false
}

/// Validates a request and resolves its provider among the configured ones.
pub fn handle(raw: &RawRequest, configured: &Vec<ProviderKind>) -> (r: Step)
    ensures
        decide(raw, configured@) is BadRequest ==> (r matches Step::Reply(Err(e))
            && e.is_bad_request()),
        decide(raw, configured@) is MockReply ==> (r matches Step::Reply(Ok(id)) && id@
            == mock_message_id()),
        decide(raw, configured@) is Deliver ==> (r matches Step::Deliver(q) && carries(&q, raw)),
{
    let q = match check_request(raw) {
        Ok(q) => q,
        Err(e) => return Step::Reply(Err(e)),
    };
    if !is_configured(configured, q.provider) {
        return Step::Reply(Err(ApplicationError::bad_request()));
    }
    match q.provider {
        ProviderKind::Mock => {
            let body_html = match &q.body_html {
                Some(h) => Some(h.as_str()),
                None => None,
            };
            let sent = MockProvider.send(
                q.to.as_str(),
                &q.cc,
                q.subject.as_str(),
                q.body_text.as_str(),
                body_html,
            );
            finish(sent)
        },
        _ => Step::Deliver(q),
    }
}

/// The answer to a delivery attempt: the message id, or a server error that
/// says nothing of the provider's description.
pub fn finish(outcome: Result<String, ProviderError>) -> (r: Step)
    ensures
        outcome matches Ok(id) ==> (r matches Step::Reply(Ok(t)) && t == id),
        outcome is Err ==> (r matches Step::Reply(Err(e)) && e.is_internal_server_error()),
{
    match outcome {
        Ok(id) => Step::Reply(Ok(id)),
        Err(_) => Step::Reply(Err(ApplicationError::internal_server_error())),
    }
}

/// A request that is malformed or fails validation is a bad request, whichever
/// provider it names and whichever providers are configured: no provider is
/// reached.
pub proof fn lemma_invalid_request_rejected(raw: &RawRequest, configured: Seq<ProviderKind>)
    requires
        !request_ok(raw),
    ensures
        decide(raw, configured) is BadRequest,
{
}

/// Every valid request that names the configured mock provider is answered
/// with the one fixed id, so repeating it repeats the answer; a valid request
/// that names a configured live provider is handed over for a delivery attempt
/// each time it is made.
pub proof fn lemma_mock_fixed_live_delivered(raw: &RawRequest, configured: Seq<ProviderKind>)
    requires
        request_ok(raw),
        configured.contains(named_kind(raw)),
    ensures
        named_kind(raw) == ProviderKind::Mock ==> decide(raw, configured) is MockReply,
        named_kind(raw) != ProviderKind::Mock ==> decide(raw, configured) == Decision::Deliver(
            named_kind(raw),
        ),
{
}

} // verus!
