use mongod::bson::{Bson, Document};
use mongod::client::{self, Uri};
use mongod::options::{
    Acknowledgment, AuthMechanism, ReadConcern, ReadConcernLevel, ReadPreference,
    ReadPreferenceOptions, SelectionCriteria, Tls, TlsOptions, WriteConcern,
};
use mongod::parse::{self, IntFailure};
use mongod::{Client, ClientBuilder, ErrorKind};

fn build(uri: &str) -> Result<Client, mongod::Error> {
    ClientBuilder::new().uri(uri).build()
}

fn refusal(uri: &str) -> String {
    let e = build(uri).err().unwrap();
    assert_eq!(*e.kind(), ErrorKind::Builder);
    e.to_string()
}

#[test]
fn defaults_are_used_where_nothing_is_set() {
    let c = Client::builder().build().unwrap();
    assert_eq!(c.database(), "db");
    let o = c.options();
    assert_eq!(o.host.host, "127.0.0.1");
    assert_eq!(o.host.port, Some(27017));
    assert_eq!(o.app_name, None);
    assert_eq!(o.connect_timeout, None);
    assert_eq!(o.write_concern, None);
    assert_eq!(o.selection_criteria, None);
    assert_eq!(o.credential, None);
    assert_eq!(o.tls, None);
    let c = ClientBuilder::default().database("foo").build().unwrap();
    assert_eq!(c.database(), "foo");
    let c = mongod::blocking::ClientBuilder::new()
        .database("bar")
        .uri("mongodb://example.com")
        .build()
        .unwrap();
    assert_eq!(c.database(), "bar");
    assert_eq!(c.options().host.host, "example.com");
    assert_eq!(c.options().host.port, None);
}

#[test]
fn a_string_that_is_no_url_is_refused() {
    let e = build("not a url").err().unwrap();
    assert_eq!(*e.kind(), ErrorKind::Builder);
    assert_eq!(e.to_string(), "builder error: relative URL without a base");
}

#[test]
fn options_that_stand_for_themselves_are_read() {
    let c = build(
        "mongodb://h:1234/?appName=app&connectTimeoutMS=1000&directConnection=true\
         &heartbeatFrequencyMS=2000&localThresholdMS=15&maxIdleTimeMS=3000&maxPoolSize=10\
         &minPoolSize=2&readConcernLevel=majority&replicaSet=rs0&retryReads=false\
         &retryWrites=true&serverSelectionTimeoutMS=4000&compressors=zlib&unknown=1",
    )
    .unwrap();
    let o = c.options();
    assert_eq!(o.host.host, "h");
    assert_eq!(o.host.port, Some(1234));
    assert_eq!(o.app_name, Some("app".to_owned()));
    assert_eq!(o.connect_timeout, Some(1000));
    assert_eq!(o.direct_connection, Some(true));
    assert_eq!(o.heartbeat_freq, Some(2000));
    assert_eq!(o.local_threshold, Some(15));
    assert_eq!(o.max_idle_time, Some(3000));
    assert_eq!(o.max_pool_size, Some(10));
    assert_eq!(o.min_pool_size, Some(2));
    assert_eq!(
        o.read_concern,
        Some(ReadConcern {
            level: ReadConcernLevel::Majority
        })
    );
    assert_eq!(o.repl_set_name, Some("rs0".to_owned()));
    assert_eq!(o.retry_reads, Some(false));
    assert_eq!(o.retry_writes, Some(true));
    assert_eq!(o.server_selection_timeout, Some(4000));
    let c = build("mongodb://h/?readConcernLevel=snapshotty").unwrap();
    assert_eq!(
        c.options().read_concern,
        Some(ReadConcern {
            level: ReadConcernLevel::Custom("snapshotty".to_owned())
        })
    );
}

#[test]
fn the_last_of_repeated_options_counts() {
    let c = build("mongodb://h/?appName=a&appName=b&maxPoolSize=x&maxPoolSize=3").unwrap();
    assert_eq!(c.options().app_name, Some("b".to_owned()));
    assert_eq!(c.options().max_pool_size, Some(3));
}

#[test]
fn the_first_option_that_cannot_be_read_is_reported() {
    assert_eq!(
        refusal("mongodb://h/?connectTimeoutMS=soon"),
        "builder error: invalid digit found in string"
    );
    assert_eq!(
        refusal("mongodb://h/?connectTimeoutMS="),
        "builder error: cannot parse integer from empty string"
    );
    assert_eq!(
        refusal("mongodb://h/?maxPoolSize=4294967296"),
        "builder error: number too large to fit in target type"
    );
    assert_eq!(
        refusal("mongodb://h/?retryWrites=yes&connectTimeoutMS=-1"),
        "builder error: invalid digit found in string"
    );
    assert_eq!(
        refusal("mongodb://h/?retryWrites=yes"),
        "builder error: provided string was not `true` or `false`"
    );
    assert_eq!(
        refusal("mongodb://h/?tls=maybe&journal=1"),
        "builder error: provided string was not `true` or `false`"
    );
    assert_eq!(
        refusal("mongodb://h/?readPreference=anywhere"),
        "builder error: unknown read preference 'anywhere'"
    );
    assert_eq!(
        refusal("mongodb://h/?readPreferenceTags=a:b:c"),
        "builder error: tags must be kv pairs"
    );
    assert_eq!(
        refusal("mongodb://h/?authMechanismProperties=a"),
        "builder error: properties must be kv pairs"
    );
    assert!(refusal("mongodb://h/?authMechanism=NOPE").contains("invalid mechanism string: NOPE"));
    assert_eq!(
        refusal("mongodb://h/?tlsInsecure=0"),
        "builder error: provided string was not `true` or `false`"
    );
}

#[test]
fn write_concern_is_read() {
    let c = build("mongodb://h/?journal=true&w=2&wTimeoutMS=500").unwrap();
    assert_eq!(
        c.options().write_concern,
        Some(WriteConcern {
            w: Some(Acknowledgment::Nodes(2)),
            w_timeout: Some(500),
            journal: Some(true),
        })
    );
    let c = build("mongodb://h/?w=majority").unwrap();
    assert_eq!(
        c.options().write_concern,
        Some(WriteConcern {
            w: Some(Acknowledgment::Majority),
            w_timeout: None,
            journal: None,
        })
    );
    let c = build("mongodb://h/?w=dc1").unwrap();
    assert_eq!(
        c.options().write_concern.as_ref().unwrap().w,
        Some(Acknowledgment::Custom("dc1".to_owned()))
    );
    let c = build("mongodb://h/?w=99999999999").unwrap();
    assert_eq!(
        c.options().write_concern.as_ref().unwrap().w,
        Some(Acknowledgment::Custom("99999999999".to_owned()))
    );
}

#[test]
fn read_preference_is_read() {
    let c = build(
        "mongodb://h/?readPreference=secondary&maxStalenessSeconds=90&readPreferenceTags=dc:ny,rack:1",
    )
    .unwrap();
    assert_eq!(
        c.options().selection_criteria,
        Some(SelectionCriteria::ReadPreference(ReadPreference::Secondary {
            options: ReadPreferenceOptions {
                tag_sets: Some(vec![vec![
                    ("dc".to_owned(), "ny".to_owned()),
                    ("rack".to_owned(), "1".to_owned())
                ]]),
                max_staleness: Some(90),
            }
        }))
    );
    let c = build("mongodb://h/?readPreference=primary&maxStalenessSeconds=90").unwrap();
    assert_eq!(
        c.options().selection_criteria,
        Some(SelectionCriteria::ReadPreference(ReadPreference::Primary))
    );
    let c = build("mongodb://h/?readPreference=nearest").unwrap();
    assert_eq!(
        c.options().selection_criteria,
        Some(SelectionCriteria::ReadPreference(ReadPreference::Nearest {
            options: ReadPreferenceOptions {
                tag_sets: None,
                max_staleness: None
            }
        }))
    );
    // Without a preference nothing is selected, but what is there is read.
    let c = build("mongodb://h/?maxStalenessSeconds=90").unwrap();
    assert_eq!(c.options().selection_criteria, None);
    assert_eq!(
        refusal("mongodb://h/?maxStalenessSeconds=x"),
        "builder error: invalid digit found in string"
    );
}

#[test]
fn credentials_are_made_from_builder_and_string() {
    let c = build("mongodb://user:pass@h/?authSource=admin&authMechanism=SCRAM-SHA-256").unwrap();
    let cred = c.options().credential.as_ref().unwrap();
    assert_eq!(cred.username, Some("user".to_owned()));
    assert_eq!(cred.password, Some("pass".to_owned()));
    assert_eq!(cred.source, Some("admin".to_owned()));
    assert_eq!(cred.mechanism, Some(AuthMechanism::ScramSha256));
    assert_eq!(cred.mechanism_properties, None);
    let c = ClientBuilder::new()
        .uri("mongodb://user:pass@h")
        .auth("foo", Some("bar"))
        .build()
        .unwrap();
    let cred = c.options().credential.as_ref().unwrap();
    assert_eq!(cred.username, Some("foo".to_owned()));
    assert_eq!(cred.password, Some("bar".to_owned()));
    let c = ClientBuilder::new()
        .uri("mongodb://user:pass@h")
        .auth("foo", None)
        .build()
        .unwrap();
    let cred = c.options().credential.as_ref().unwrap();
    assert_eq!(cred.username, Some("foo".to_owned()));
    assert_eq!(cred.password, Some("pass".to_owned()));
    let c = build("mongodb://h/?authMechanismProperties=a:1,b:2,a:3").unwrap();
    let cred = c.options().credential.as_ref().unwrap();
    assert_eq!(cred.username, None);
    assert_eq!(cred.password, None);
    let mut doc = Document::new();
    doc.insert("a".to_owned(), Bson::String("3".to_owned()));
    doc.insert("b".to_owned(), Bson::String("2".to_owned()));
    assert_eq!(cred.mechanism_properties, Some(doc));
    for (name, mechanism) in [
        ("SCRAM-SHA-1", AuthMechanism::ScramSha1),
        ("MONGODB-CR", AuthMechanism::MongoDbCr),
        ("MONGODB-X509", AuthMechanism::MongoDbX509),
        ("GSSAPI", AuthMechanism::Gssapi),
        ("PLAIN", AuthMechanism::Plain),
    ] {
        let c = build(&format!("mongodb://h/?authMechanism={}", name)).unwrap();
        assert_eq!(
            c.options().credential.as_ref().unwrap().mechanism,
            Some(mechanism)
        );
    }
}

#[test]
fn tls_is_decided_from_builder_and_string() {
    let c = build("mongodb://h/?tls=true&tlsCAFile=ca.pem&tlsInsecure=true").unwrap();
    assert_eq!(
        c.options().tls,
        Some(Tls::Enabled(TlsOptions {
            allow_invalid_certificates: Some(true),
            ca_file_path: Some("ca.pem".to_owned()),
            cert_key_file_path: None,
        }))
    );
    let c = ClientBuilder::new()
        .uri("mongodb://h/?tlsCAFile=ca.pem&tlsCertificateKeyFile=key.pem")
        .ca("./certs/foo.pem")
        .cert_key("./certs/bar.pem")
        .build()
        .unwrap();
    assert_eq!(
        c.options().tls,
        Some(Tls::Enabled(TlsOptions {
            allow_invalid_certificates: None,
            ca_file_path: Some("./certs/foo.pem".to_owned()),
            cert_key_file_path: Some("./certs/bar.pem".to_owned()),
        }))
    );
    let c = build("mongodb://h/?tlsAllowInvalidCertificates=false&tlsInsecure=nonsense").unwrap();
    assert_eq!(
        c.options().tls,
        Some(Tls::Enabled(TlsOptions {
            allow_invalid_certificates: Some(false),
            ca_file_path: None,
            cert_key_file_path: None,
        }))
    );
    // Turned off, nothing else is read.
    let c = build("mongodb://h/?tls=false&tlsInsecure=nonsense").unwrap();
    assert_eq!(c.options().tls, Some(Tls::Disabled));
}

#[test]
fn configuring_from_parts_needs_no_string() {
    let uri = Uri {
        host: None,
        port: None,
        username: String::new(),
        password: Some("ignored".to_owned()),
        query: vec![
            ("w".to_owned(), "1".to_owned()),
            ("appName".to_owned(), "x".to_owned()),
        ],
    };
    let c = ClientBuilder::new().configure(uri).unwrap();
    assert_eq!(c.options().host.host, "127.0.0.1");
    assert_eq!(c.options().host.port, None);
    assert_eq!(c.options().app_name, Some("x".to_owned()));
    assert_eq!(c.options().credential, None);
    assert_eq!(
        c.options().write_concern.as_ref().unwrap().w,
        Some(Acknowledgment::Nodes(1))
    );
    assert_eq!(
        client::get(
            &vec![
                ("a".to_owned(), "1".to_owned()),
                ("b".to_owned(), "2".to_owned()),
                ("a".to_owned(), "3".to_owned())
            ],
            "a"
        ),
        Some("3".to_owned())
    );
}

#[test]
fn numbers_are_read_from_decimal_text() {
    assert_eq!(parse::parse_unsigned("0", u64::MAX), Ok(0));
    assert_eq!(parse::parse_unsigned("007", u64::MAX), Ok(7));
    assert_eq!(parse::parse_unsigned("+42", u64::MAX), Ok(42));
    assert_eq!(
        parse::parse_unsigned("18446744073709551615", u64::MAX),
        Ok(u64::MAX)
    );
    assert_eq!(
        parse::parse_unsigned("18446744073709551616", u64::MAX),
        Err(IntFailure::PosOverflow)
    );
    assert_eq!(parse::parse_unsigned("256", 255), Err(IntFailure::PosOverflow));
    assert_eq!(parse::parse_unsigned("255", 255), Ok(255));
    assert_eq!(parse::parse_unsigned("", 255), Err(IntFailure::Empty));
    assert_eq!(parse::parse_unsigned("+", 255), Err(IntFailure::InvalidDigit));
    assert_eq!(parse::parse_unsigned("-", 255), Err(IntFailure::InvalidDigit));
    assert_eq!(parse::parse_unsigned("-1", 255), Err(IntFailure::InvalidDigit));
    assert_eq!(parse::parse_unsigned("1 ", 255), Err(IntFailure::InvalidDigit));
    assert_eq!(parse::parse_unsigned("1_0", 255), Err(IntFailure::InvalidDigit));
    assert_eq!(parse::parse_unsigned("++1", 255), Err(IntFailure::InvalidDigit));
    assert_eq!(parse::parse_unsigned("٣", 255), Err(IntFailure::InvalidDigit));
    for text in ["0", "12", "+5", "", "x", "99999999999999999999", "4294967295", "4294967296"] {
        assert_eq!(
            parse::parse_unsigned(text, u32::MAX as u64).ok(),
            text.parse::<u32>().ok().map(|v| v as u64)
        );
        assert_eq!(
            parse::parse_unsigned(text, u64::MAX).ok(),
            text.parse::<u64>().ok()
        );
    }
    assert_eq!(parse::parse_bool("true"), Some(true));
    assert_eq!(parse::parse_bool("false"), Some(false));
    assert_eq!(parse::parse_bool("True"), None);
    assert_eq!(parse::parse_bool(""), None);
}

#[test]
fn text_is_split_at_each_separator() {
    assert_eq!(parse::split("a,b,,c", ','), vec!["a", "b", "", "c"]);
    assert_eq!(parse::split("", ','), vec![""]);
    assert_eq!(parse::split(",", ','), vec!["", ""]);
    assert_eq!(parse::split("abc", ','), vec!["abc"]);
    assert_eq!(parse::split("é:ü", ':'), vec!["é", "ü"]);
    for text in ["a,b", "", ",,", "x", "a,", ",a"] {
        let expected: Vec<String> = text.split(',').map(|s| s.to_owned()).collect();
        assert_eq!(parse::split(text, ','), expected);
    }
    assert_eq!(
        client::pairs("a:1,b:2"),
        Some(vec![
            ("a".to_owned(), "1".to_owned()),
            ("b".to_owned(), "2".to_owned())
        ])
    );
    assert_eq!(client::pairs("a:1,b"), None);
    assert_eq!(client::pairs(""), None);
    assert_eq!(client::pairs(":"), Some(vec![(String::new(), String::new())]));
}
