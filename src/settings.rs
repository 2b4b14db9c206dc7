//! The settings the service starts with, and the rule that they must satisfy
//! before any provider is built from them.
use vstd::prelude::*;

use crate::validate::{
    aws_access, aws_access_spec, aws_region, aws_region_spec, aws_secret, aws_secret_spec,
    base_uri, base_uri_spec, email_address, email_address_spec, host, host_spec, provider,
    provider_spec, sender_name, sender_name_spec, sendgrid_api_key, sendgrid_api_key_spec,
};

verus! {

#[derive(Debug, PartialEq, Eq)]
pub struct AuthDb {
    pub baseuri: String,
}

#[derive(Debug, PartialEq, Eq)]
pub struct BounceLimits {
    pub enabled: bool,
}

/// The address and display name that every message is sent from.
#[derive(Debug, PartialEq, Eq)]
pub struct Sender {
    pub address: String,
    pub name: String,
}

#[derive(Debug, PartialEq, Eq)]
pub struct Sendgrid {
    pub key: String,
}

/// A static credential pair for the cloud mail API.
#[derive(Debug, PartialEq, Eq)]
pub struct AwsKeys {
    pub access: String,
    pub secret: String,
}

/// The cloud mail API: a region, and a credential pair or none (then the
/// credentials come from the environment the process runs in).
#[derive(Debug, PartialEq, Eq)]
pub struct Ses {
    pub region: String,
    pub keys: Option<AwsKeys>,
}

#[derive(Debug, PartialEq, Eq)]
pub struct Smtp {
    pub host: String,
    pub port: u16,
    pub user: Option<String>,
    pub password: Option<String>,
}

#[derive(Debug, PartialEq, Eq)]
pub struct Settings {
    pub authdb: AuthDb,
    pub bouncelimits: BounceLimits,
    pub provider: String,
    pub sender: Sender,
    pub sendgrid: Option<Sendgrid>,
    pub ses: Ses,
    pub smtp: Smtp,
}

/// Settings that fail the rules: the process must not start with them.
#[derive(Debug, PartialEq, Eq)]
pub struct SettingsError {
    pub description: String,
}

pub open spec fn configuration_error_message() -> Seq<char> {
    "configuration error"@
}

impl Settings {
    /// Every text field satisfies the predicate of its kind.
    pub open spec fn valid(&self) -> bool {
        &&& base_uri_spec(self.authdb.baseuri@)
        &&& provider_spec(self.provider@)
        &&& email_address_spec(self.sender.address@)
        &&& sender_name_spec(self.sender.name@)
        &&& (self.sendgrid matches Some(g) ==> sendgrid_api_key_spec(g.key@))
        &&& aws_region_spec(self.ses.region@)
        &&& (self.ses.keys matches Some(k) ==> aws_access_spec(k.access@) && aws_secret_spec(
            k.secret@,
        ))
        &&& host_spec(self.smtp.host@)
    }

    /// Checks the settings against the rules of their fields.
    pub fn check(&self) -> (r: Result<(), SettingsError>)
        ensures
            r is Ok <==> self.valid(),
            r matches Err(e) ==> e.description@ == configuration_error_message(),
    {
        let sendgrid_ok = match &self.sendgrid {
            Some(g) => sendgrid_api_key(g.key.as_str()),
            None => true,
        };
        let keys_ok = match &self.ses.keys {
            Some(k) => aws_access(k.access.as_str()) && aws_secret(k.secret.as_str()),
            None => true,
        };
        if base_uri(self.authdb.baseuri.as_str()) && provider(self.provider.as_str())
            && email_address(self.sender.address.as_str()) && sender_name(
            self.sender.name.as_str(),
        ) && sendgrid_ok && aws_region(self.ses.region.as_str()) && keys_ok && host(
            self.smtp.host.as_str(),
        ) {
            Ok(())
        } else {
            Err(SettingsError { description: String::from_str("configuration error") })
        }
    }
}

} // verus!
