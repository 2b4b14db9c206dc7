//! The providers that deliver a message, and what each one decides without
//! leaving the process.
//!
//! A provider answers a send with a message id tagged by its own name, or with
//! a `ProviderError`. The mock provider answers at once. The cloud mail
//! provider describes the request that its client sends, and turns what the
//! client answered into the provider's outcome.
use vstd::prelude::*;

use crate::error::ProviderError;
use crate::settings::{AwsKeys, Settings, SettingsError};
use crate::text::same_text;
use crate::validate::{aws_region, aws_region_spec};

verus! {

/// The provider variants of a deployment.
#[derive(Clone, Copy, Debug, PartialEq, Eq, Structural)]
pub enum ProviderKind {
    Mock,
    Ses,
    Smtp,
}

/// The variant that a validated provider name stands for.
pub open spec fn kind_of(name: Seq<char>) -> Option<ProviderKind> {
    if name == "mock"@ {
        Some(ProviderKind::Mock)
    } else if name == "ses"@ {
        Some(ProviderKind::Ses)
    } else if name == "smtp"@ {
        Some(ProviderKind::Smtp)
    } else {
        None
    }
}

/// The variant named by `name`, if it names one.
pub fn provider_kind(name: &str) -> (r: Option<ProviderKind>)
    ensures
        r == kind_of(name@),
{
    if same_text(name, "mock") {
        Some(ProviderKind::Mock)
    } else if same_text(name, "ses") {
        Some(ProviderKind::Ses)
    } else if same_text(name, "smtp") {
        Some(ProviderKind::Smtp)
    } else {
        None
    }
}

/// A copy of `v`, element by element.
pub fn copy_strings(v: &Vec<String>) -> (r: Vec<String>)
    ensures
        r@ == v@,
{
    let mut r: Vec<String> = Vec::new();
    let mut i: usize = 0;
    while i < v.len()
        invariant
            i <= v@.len(),
            r@ == v@.subrange(0, i as int),
        decreases v@.len() - i,
    {
        r.push(v[i].clone());
        i = i + 1;
    }
    assert(r@ =~= v@);
    r
}

/// The text of an optional borrowed string, owned.
pub fn own_optional(s: Option<&str>) -> (r: Option<String>)
    ensures
        r is Some <==> s is Some,
        r is Some ==> r->0@ == s->0@,
{
    match s {
        Some(t) => Some(String::from_str(t)),
        None => None,
    }
}

pub open spec fn mock_message_id() -> Seq<char> {
    "mock:deadbeef"@
}

/// The test double: it delivers nothing and always answers the same id.
#[derive(Clone, Copy, Debug, PartialEq, Eq)]
pub struct MockProvider;

impl MockProvider {
    pub fn send(
        &self,
        to: &str,
        cc: &Vec<String>,
        subject: &str,
        body_text: &str,
        body_html: Option<&str>,
    ) -> (r: Result<String, ProviderError>)
        ensures
            r matches Ok(id) && id@ == mock_message_id(),
    {
        Ok(String::from_str("mock:deadbeef"))
    }
}

/// The tag that the cloud mail provider puts before the ids it answers.
pub open spec fn ses_tag() -> Seq<char> {
    "ses:"@
}

/// A send request of the cloud mail API, as its client takes it.
#[derive(Debug, PartialEq, Eq)]
pub struct SesMessage {
    pub source: String,
    pub to_addresses: Vec<String>,
    pub cc_addresses: Option<Vec<String>>,
    pub subject: String,
    pub text: String,
    pub html: Option<String>,
}

/// The cloud mail provider: its region, its credentials, and the address
/// that it sends from.
#[derive(Debug, PartialEq, Eq)]
pub struct SesProvider {
    pub region: String,
    pub keys: Option<AwsKeys>,
    pub sender: String,
}

impl SesProvider {
    /// Builds the provider from settings whose region is supported.
    pub fn new(settings: &Settings) -> (r: SesProvider)
        requires
            aws_region_spec(settings.ses.region@),
        ensures
            r.region@ == settings.ses.region@,
            r.keys == settings.ses.keys,
            r.sender@ == settings.sender.address@,
    {
        let keys = match &settings.ses.keys {
            Some(k) => Some(AwsKeys { access: k.access.clone(), secret: k.secret.clone() }),
            None => None,
        };
        SesProvider {
            region: settings.ses.region.clone(),
            keys,
            sender: settings.sender.address.clone(),
        }
    }

    /// Builds the provider where the region of `settings` is supported, and
    /// refuses the settings otherwise.
    pub fn from_settings(settings: &Settings) -> (r: Result<SesProvider, SettingsError>)
        ensures
            r is Ok <==> aws_region_spec(settings.ses.region@),
            r matches Ok(p) ==> p.region@ == settings.ses.region@ && p.keys == settings.ses.keys
                && p.sender@ == settings.sender.address@,
            r matches Err(e) ==> e.description@ == "invalid region"@,
    {
        if aws_region(settings.ses.region.as_str()) {
            Ok(SesProvider::new(settings))
        } else {
            Err(SettingsError { description: String::from_str("invalid region") })
        }
    }

    /// The request that one send makes: the recipient, the carbon copies only
    /// where there are some, the text, and the HTML only where it was given.
    pub fn message(
        &self,
        to: &str,
        cc: &Vec<String>,
        subject: &str,
        body_text: &str,
        body_html: Option<&str>,
    ) -> (r: SesMessage)
        ensures
            r.source@ == self.sender@,
            r.to_addresses@.len() == 1,
            r.to_addresses@[0]@ == to@,
            cc@.len() == 0 ==> r.cc_addresses is None,
            cc@.len() > 0 ==> (r.cc_addresses matches Some(c) && c@ == cc@),
            r.subject@ == subject@,
            r.text@ == body_text@,
            r.html is Some <==> body_html is Some,
            r.html is Some ==> r.html->0@ == body_html->0@,
    {
        let mut to_addresses: Vec<String> = Vec::new();
        to_addresses.push(String::from_str(to));
        let cc_addresses = if cc.len() > 0 {
            let copied = copy_strings(cc);
            assert(copied@ =~= cc@);
            Some(copied)
        } else {
            None
        };
        SesMessage {
            source: self.sender.clone(),
            to_addresses,
            cc_addresses,
            subject: String::from_str(subject),
            text: String::from_str(body_text),
            html: own_optional(body_html),
        }
    }

    /// The outcome of one send, from what the client answered: its message id
    /// tagged as this provider's, or its error text as the description.
    pub fn outcome(answer: Result<String, String>) -> (r: Result<String, ProviderError>)
        ensures
            answer matches Ok(id) ==> (r matches Ok(t) && t@ == ses_tag() + id@),
            answer matches Err(e) ==> (r matches Err(p) && p.description@ == e@),
    {
        match answer {
            Ok(id) => {
                let tagged = String::from_str("ses:").concat(id.as_str());
                Ok(tagged)
            },
            Err(e) => Err(ProviderError { description: e }),
        }
    }
}

} // verus!
