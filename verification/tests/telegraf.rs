use slog_telegraf::{carrier_for_scheme, Carrier, Endpoint, Error};

fn carrier_of(address: &str) -> Result<Carrier, Error> {
    Endpoint::parse(address)?.carrier()
}

#[test]
fn test_connection_new() {
    assert!(carrier_of("udp://127.0.0.1:12345").is_ok());

    assert!(carrier_of("127.0.0.1:12345").is_err());
    assert!(carrier_of("http://127.0.0.1:12345").is_err());
}

#[test]
fn scheme_picks_the_carrier() {
    assert_eq!(carrier_of("tcp://127.0.0.1:8094").unwrap(), Carrier::Tcp);
    assert_eq!(carrier_of("udp://127.0.0.1:8094").unwrap(), Carrier::Udp);
    assert_eq!(carrier_of("UDP://localhost:1").unwrap(), Carrier::Udp);
}

#[test]
fn other_scheme_is_a_configuration_error() {
    match carrier_of("http://127.0.0.1:12345") {
        Err(Error::Custom(msg)) => assert_eq!(msg, "Only 'tcp' and 'udp' is currently supported"),
        other => panic!("unexpected: {:?}", other),
    }
    match carrier_for_scheme("tcps") {
        Err(Error::Custom(msg)) => assert_eq!(msg, "Only 'tcp' and 'udp' is currently supported"),
        other => panic!("unexpected: {:?}", other),
    }
}

#[test]
fn empty_scheme_is_a_configuration_error() {
    match carrier_for_scheme("") {
        Err(Error::Custom(msg)) => assert_eq!(msg, "Please specify the protocol 'tcp' or 'udp'"),
        other => panic!("unexpected: {:?}", other),
    }
}

#[test]
fn address_without_scheme_is_no_url() {
    match Endpoint::parse("127.0.0.1:12345") {
        Err(Error::UrlParsing(_)) => {}
        other => panic!("unexpected: {:?}", other.map(|e| e.scheme_text().to_string())),
    }
    assert!(matches!(Endpoint::parse(""), Err(Error::UrlParsing(_))));
}

#[test]
fn endpoint_keeps_scheme_and_url() {
    let endpoint = Endpoint::parse("udp://127.0.0.1:12345").unwrap();
    assert_eq!(endpoint.scheme_text(), "udp");
    assert_eq!(endpoint.url().port(), Some(12345));
    assert_eq!(endpoint.url().host_str(), Some("127.0.0.1"));
    let endpoint = Endpoint::parse("HTTP://example.net/").unwrap();
    assert_eq!(endpoint.scheme_text(), "http");
}

#[test]
fn schemes_by_name() {
    assert_eq!(carrier_for_scheme("tcp").unwrap(), Carrier::Tcp);
    assert_eq!(carrier_for_scheme("udp").unwrap(), Carrier::Udp);
    assert!(carrier_for_scheme("TCP").is_err());
    assert!(carrier_for_scheme("tcp ").is_err());
}

#[test]
fn error_messages() {
    assert_eq!(Error::Custom("text".to_string()).message(), "text");
    let err = Endpoint::parse("127.0.0.1:12345").err().unwrap();
    assert_eq!(err.message(), "relative URL without a base");
    let err = Error::from(std::io::Error::new(std::io::ErrorKind::Other, "gone"));
    assert!(matches!(err, Error::Io(_)));
    assert_eq!(err.message(), "gone");
}

#[test]
fn outside_errors_keep_their_variant() {
    let err = Error::from(url::ParseError::EmptyHost);
    assert!(matches!(err, Error::UrlParsing(url::ParseError::EmptyHost)));
    assert_eq!(err.message(), "empty host");
    let err = Error::from(std::io::Error::from(std::io::ErrorKind::WouldBlock));
    assert!(matches!(err, Error::Io(ref e) if e.kind() == std::io::ErrorKind::WouldBlock));
}
