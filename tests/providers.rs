use fxa_email_service::error::{ApplicationError, ProviderError};
use fxa_email_service::providers::{provider_kind, MockProvider, ProviderKind, SesProvider};
use fxa_email_service::send::{finish, Step};
use fxa_email_service::settings::{
    AuthDb, AwsKeys, BounceLimits, Sender, Ses, Settings, Smtp,
};

fn settings(keys: Option<AwsKeys>) -> Settings {
    Settings {
        authdb: AuthDb { baseuri: String::from("http://127.0.0.1:8000/") },
        bouncelimits: BounceLimits { enabled: true },
        provider: String::from("ses"),
        sender: Sender {
            address: String::from("accounts@firefox.com"),
            name: String::from("Firefox Accounts"),
        },
        sendgrid: None,
        ses: Ses { region: String::from("us-east-1"), keys },
        smtp: Smtp { host: String::from("127.0.0.1"), port: 25, user: None, password: None },
    }
}

#[test]
fn provider_names() {
    assert_eq!(provider_kind("mock"), Some(ProviderKind::Mock));
    assert_eq!(provider_kind("ses"), Some(ProviderKind::Ses));
    assert_eq!(provider_kind("smtp"), Some(ProviderKind::Smtp));
    assert_eq!(provider_kind("sendgrid"), None);
    assert_eq!(provider_kind("Mock"), None);
}

#[test]
fn mock_provider_answers_fixed_id() {
    let cc = vec![String::from("bar@example.com")];
    let sent = MockProvider.send("foo@example.com", &cc, "bar", "baz", Some("<a>qux</a>"));
    assert_eq!(sent, Ok(String::from("mock:deadbeef")));
    let again = MockProvider.send("foo@example.com", &vec![], "bar", "baz", None);
    assert_eq!(again, Ok(String::from("mock:deadbeef")));
}

#[test]
fn ses_provider_from_settings() {
    let keys = AwsKeys { access: String::from("A0"), secret: String::from("s3cr+t==") };
    let provider = SesProvider::new(&settings(Some(keys)));
    assert_eq!(provider.region, "us-east-1");
    assert_eq!(provider.sender, "accounts@firefox.com");
    let kept = provider.keys.unwrap();
    assert_eq!(kept.access, "A0");
    assert_eq!(kept.secret, "s3cr+t==");
    assert!(SesProvider::new(&settings(None)).keys.is_none());
}

#[test]
fn ses_message_with_all_parts() {
    let provider = SesProvider::new(&settings(None));
    let cc = vec![String::from("bar@example.com"), String::from("baz@example.com")];
    let message = provider.message("foo@example.com", &cc, "subject", "text", Some("<p>html</p>"));
    assert_eq!(message.source, "accounts@firefox.com");
    assert_eq!(message.to_addresses, vec![String::from("foo@example.com")]);
    assert_eq!(message.cc_addresses, Some(cc));
    assert_eq!(message.subject, "subject");
    assert_eq!(message.text, "text");
    assert_eq!(message.html, Some(String::from("<p>html</p>")));
}

#[test]
fn ses_message_leaves_out_empty_parts() {
    let provider = SesProvider::new(&settings(None));
    let message = provider.message("foo@example.com", &vec![], "subject", "text", None);
    assert_eq!(message.cc_addresses, None);
    assert_eq!(message.html, None);
}

#[test]
fn ses_outcome_is_tagged() {
    assert_eq!(
        SesProvider::outcome(Ok(String::from("0102abc"))),
        Ok(String::from("ses:0102abc"))
    );
    assert_eq!(
        SesProvider::outcome(Err(String::from("throttled"))),
        Err(ProviderError { description: String::from("throttled") })
    );
}

#[test]
fn delivery_outcome_becomes_answer() {
    match finish(Ok(String::from("ses:0102abc"))) {
        Step::Reply(Ok(id)) => assert_eq!(id, "ses:0102abc"),
        other => panic!("unexpected {:?}", other),
    }
    match finish(Err(ProviderError { description: String::from("message rejected") })) {
        Step::Reply(Err(error)) => {
            assert_eq!(error, ApplicationError::new(500, "Internal Server Error"));
            assert!(!error.message.contains("rejected"));
        }
        other => panic!("unexpected {:?}", other),
    }
}

#[test]
fn ses_provider_refuses_unsupported_regions() {
    for region in ["us-east-3", "us-east-1a", "eu-east-1", " us-east-1", "us-east-1 "] {
        let mut s = settings(None);
        s.ses.region = String::from(region);
        match SesProvider::from_settings(&s) {
            Err(error) => assert_eq!(error.description, "invalid region"),
            Ok(_) => panic!("{:?} should have been refused", region),
        }
    }
    let provider = SesProvider::from_settings(&settings(None)).unwrap();
    assert_eq!(provider.region, "us-east-1");
}
