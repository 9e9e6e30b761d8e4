use dyndns::address::{IpAddress, IpParam, IpVersion, Ipv4Address, Ipv6Address};
use dyndns::config::{Config, DomainConfig, ProviderType, User, Zone};
use dyndns::providers::{MockProvider, ProviderError, Providers};
use dyndns::http::{Method, Status};
use dyndns::server::{
    get_domain_config, get_user, rejection, respond, rocket, update, RequestError,
};

fn config() -> Config {
    Config {
        users: vec![User {
            name: "test".to_string(),
            password: "testpassword".to_string(),
            domains: vec![DomainConfig {
                provider: ProviderType::MockProvider,
                apitoken: "testtoken".to_string(),
                host: "example.com".to_string(),
                zone: Zone { id: "testzoneid".to_string(), name: "testzone".to_string() },
            }],
        }],
    }
}

fn construct(mock_provider: Option<MockProvider>) -> (Config, Providers<MockProvider>) {
    (config(), Providers { hetzner_provider: None, mock_provider })
}

/// Stands in for the parser of the request layer: the addresses that these
/// tests send, with their canonical text.
fn parse_ipv4(text: &str) -> Option<Ipv4Address> {
    match text {
        "192.0.2.0" => Some(Ipv4Address::new("192.0.2.0".to_string())),
        _ => None,
    }
}

fn parse_ipv6(text: &str) -> Option<Ipv6Address> {
    match text {
        "2001:0db8:85a3:0000:0000:8a2e:0370:7334" => {
            Some(Ipv6Address::new("2001:db8:85a3::8a2e:370:7334".to_string()))
        }
        "2001:db8::1" => Some(Ipv6Address::new("2001:db8::1".to_string())),
        _ => None,
    }
}

fn ipv4(raw: Option<&str>) -> IpParam<Ipv4Address> {
    IpParam::from_query(raw, raw.and_then(parse_ipv4))
}

fn ipv6(raw: Option<&str>) -> IpParam<Ipv6Address> {
    IpParam::from_query(raw, raw.and_then(parse_ipv6))
}

fn calls(providers: &Providers<MockProvider>) -> usize {
    providers.mock_provider.as_ref().unwrap().call_count()
}

fn remaining(providers: &Providers<MockProvider>) -> usize {
    providers.mock_provider.as_ref().unwrap().remaining()
}

#[test]
fn unauthorized() {
    let (config, mut providers) = construct(Some(MockProvider::default()));
    let (status, body) = update(
        "wronguser",
        "wrongpassword",
        "example.com",
        ipv4(None),
        ipv6(None),
        &config,
        &mut providers,
    );
    assert_eq!(status, Status::Unauthorized);
    assert_eq!(status.code(), 401);
    assert_eq!(body, "Invalid user");
    assert_eq!(calls(&providers), 0);
}

#[test]
fn empty_update() {
    let (config, mut providers) = construct(Some(MockProvider::default()));
    let (status, body) = update(
        "test",
        "testpassword",
        "example.com",
        ipv4(None),
        ipv6(None),
        &config,
        &mut providers,
    );
    assert_eq!(status, Status::Success);
    assert_eq!(status.code(), 200);
    assert_eq!(body, "No IP address specified");
    assert_eq!(calls(&providers), 0);
}

#[test]
fn update_ipv4_only() {
    let mut mock = MockProvider::default();
    mock.expect_update_ip(Ok(true));

    let (config, mut providers) = construct(Some(mock));
    let (status, body) = update(
        "test",
        "testpassword",
        "example.com",
        ipv4(Some("192.0.2.0")),
        ipv6(None),
        &config,
        &mut providers,
    );
    assert_eq!(status, Status::Success);
    assert_eq!(body, "Updated IPv4 successfully\n");
    assert_eq!(calls(&providers), 1);
    assert_eq!(remaining(&providers), 0);
}

#[test]
fn update_ipv6_only() {
    let mut mock = MockProvider::default();
    mock.expect_update_ip(Ok(true));

    let (config, mut providers) = construct(Some(mock));
    let (status, body) = update(
        "test",
        "testpassword",
        "example.com",
        ipv4(None),
        ipv6(Some("2001:0db8:85a3:0000:0000:8a2e:0370:7334")),
        &config,
        &mut providers,
    );
    assert_eq!(status, Status::Success);
    assert_eq!(body, "Updated IPv6 successfully\n");
    assert_eq!(calls(&providers), 1);
    assert_eq!(remaining(&providers), 0);
}

#[test]
fn update_ipv4_ipv6() {
    let mut mock = MockProvider::default();
    mock.expect_update_ip(Ok(true));
    mock.expect_update_ip(Ok(true));

    let (config, mut providers) = construct(Some(mock));
    let (status, body) = update(
        "test",
        "testpassword",
        "example.com",
        ipv4(Some("192.0.2.0")),
        ipv6(Some("2001:0db8:85a3:0000:0000:8a2e:0370:7334")),
        &config,
        &mut providers,
    );
    assert_eq!(status, Status::Success);
    assert_eq!(body, "Updated IPv4 successfully\nUpdated IPv6 successfully\n");
    assert_eq!(calls(&providers), 2);
    assert_eq!(remaining(&providers), 0);
}

#[test]
fn update_ipv4_only_twice() {
    let mut mock = MockProvider::default();
    mock.expect_update_ip(Ok(true));
    // The second time, the IP address will already be set correctly
    mock.expect_update_ip(Ok(false));

    let (config, mut providers) = construct(Some(mock));
    let (status, body) = update(
        "test",
        "testpassword",
        "example.com",
        ipv4(Some("192.0.2.0")),
        ipv6(None),
        &config,
        &mut providers,
    );
    assert_eq!(status, Status::Success);
    assert_eq!(body, "Updated IPv4 successfully\n");

    let (status, body) = update(
        "test",
        "testpassword",
        "example.com",
        ipv4(Some("192.0.2.0")),
        ipv6(None),
        &config,
        &mut providers,
    );
    assert_eq!(status, Status::Success);
    assert_eq!(body, "IPv4 already set correctly\n");
    assert_eq!(calls(&providers), 2);
    assert_eq!(remaining(&providers), 0);
}

#[test]
fn calls_carry_the_domain_and_an_address_of_the_right_version() {
    let mut mock = MockProvider::default();
    mock.expect_update_ip(Ok(true));
    mock.expect_update_ip(Ok(false));

    let (config, mut providers) = construct(Some(mock));
    let (status, body) = update(
        "test",
        "testpassword",
        "example.com",
        ipv4(Some("192.0.2.0")),
        ipv6(Some("2001:0db8:85a3:0000:0000:8a2e:0370:7334")),
        &config,
        &mut providers,
    );
    assert_eq!(status, Status::Success);
    assert_eq!(body, "Updated IPv4 successfully\nIPv6 already set correctly\n");

    let mock = providers.mock_provider.unwrap();
    assert_eq!(mock.calls.len(), 2);
    assert_eq!(mock.calls[0].domain_config.host, "example.com");
    assert_eq!(mock.calls[0].domain_config.zone.id, "testzoneid");
    assert_eq!(mock.calls[0].new_ip.version(), IpVersion::V4);
    assert!(mock.calls[0].new_ip.is_ipv4());
    assert_eq!(mock.calls[0].new_ip.text(), "192.0.2.0");
    assert_eq!(mock.calls[1].new_ip.version(), IpVersion::V6);
    assert!(mock.calls[1].new_ip.is_ipv6());
    assert_eq!(mock.calls[1].new_ip.text(), "2001:db8:85a3::8a2e:370:7334");
}

#[test]
fn wrong_password_is_unauthorized_and_calls_nothing() {
    let mut mock = MockProvider::default();
    mock.expect_update_ip(Ok(true));
    let (config, mut providers) = construct(Some(mock));
    let (status, body) = update(
        "test",
        "wrongpassword",
        "example.com",
        ipv4(Some("192.0.2.0")),
        ipv6(None),
        &config,
        &mut providers,
    );
    assert_eq!(status, Status::Unauthorized);
    assert_eq!(body, "Invalid user");
    assert_eq!(calls(&providers), 0);
    assert_eq!(remaining(&providers), 1);
}

#[test]
fn unknown_domain_is_rejected_and_calls_nothing() {
    let mut mock = MockProvider::default();
    mock.expect_update_ip(Ok(true));
    let (config, mut providers) = construct(Some(mock));
    let (status, body) = update(
        "test",
        "testpassword",
        "other.example.com",
        ipv4(Some("192.0.2.0")),
        ipv6(None),
        &config,
        &mut providers,
    );
    assert_eq!(status, Status::BadRequest);
    assert_eq!(status.code(), 400);
    assert_eq!(body, "Invalid domain");
    assert_eq!(calls(&providers), 0);
}

#[test]
fn empty_parameters_count_as_absent() {
    let (config, mut providers) = construct(Some(MockProvider::default()));
    let (status, body) = update(
        "test",
        "testpassword",
        "example.com",
        ipv4(Some("")),
        ipv6(Some("")),
        &config,
        &mut providers,
    );
    assert_eq!(status, Status::Success);
    assert_eq!(body, "No IP address specified");
    assert_eq!(calls(&providers), 0);
}

#[test]
fn invalid_ipv4_is_a_bad_request() {
    let (config, mut providers) = construct(Some(MockProvider::default()));
    let (status, body) = update(
        "test",
        "testpassword",
        "example.com",
        ipv4(Some("192.0.2.256")),
        ipv6(Some("2001:db8::1")),
        &config,
        &mut providers,
    );
    assert_eq!(status, Status::BadRequest);
    assert_eq!(body, "Invalid IPv4 address");
    assert_eq!(calls(&providers), 0);
}

#[test]
fn invalid_ipv6_is_a_bad_request() {
    let (config, mut providers) = construct(Some(MockProvider::default()));
    let (status, body) = update(
        "test",
        "testpassword",
        "example.com",
        ipv4(Some("192.0.2.0")),
        ipv6(Some("2001:db8:::1")),
        &config,
        &mut providers,
    );
    assert_eq!(status, Status::BadRequest);
    assert_eq!(body, "Invalid IPv6 address");
    assert_eq!(calls(&providers), 0);
}

#[test]
fn rejections_come_in_order() {
    let (config, mut providers) = construct(Some(MockProvider::default()));
    // Authentication is checked before the host, the host before the addresses,
    // the IPv4 address before the IPv6 address.
    let (status, _) = update(
        "nobody",
        "testpassword",
        "unknown.example.com",
        ipv4(Some("bad")),
        ipv6(Some("bad")),
        &config,
        &mut providers,
    );
    assert_eq!(status, Status::Unauthorized);
    let (status, body) = update(
        "test",
        "testpassword",
        "unknown.example.com",
        ipv4(Some("bad")),
        ipv6(Some("bad")),
        &config,
        &mut providers,
    );
    assert_eq!((status, body.as_str()), (Status::BadRequest, "Invalid domain"));
    let (status, body) = update(
        "test",
        "testpassword",
        "example.com",
        ipv4(Some("bad")),
        ipv6(Some("bad")),
        &config,
        &mut providers,
    );
    assert_eq!((status, body.as_str()), (Status::BadRequest, "Invalid IPv4 address"));
    assert_eq!(calls(&providers), 0);
}

#[test]
fn provider_failure_is_a_server_error() {
    let mut mock = MockProvider::default();
    mock.expect_update_ip(Err(ProviderError::RecordNotFound));
    mock.expect_update_ip(Ok(true));
    let (config, mut providers) = construct(Some(mock));
    let (status, body) = update(
        "test",
        "testpassword",
        "example.com",
        ipv4(Some("192.0.2.0")),
        ipv6(Some("2001:db8::1")),
        &config,
        &mut providers,
    );
    assert_eq!(status, Status::InternalServerError);
    assert_eq!(status.code(), 500);
    assert_eq!(body, "Error: Record not found\nUpdated IPv6 successfully\n");
    assert_eq!(calls(&providers), 2);
}

#[test]
fn host_outside_zone_is_a_bad_request() {
    let mut mock = MockProvider::default();
    mock.expect_update_ip(Err(ProviderError::HostZoneMismatch));
    let (config, mut providers) = construct(Some(mock));
    let (status, body) = update(
        "test",
        "testpassword",
        "example.com",
        ipv4(Some("192.0.2.0")),
        ipv6(None),
        &config,
        &mut providers,
    );
    assert_eq!(status, Status::BadRequest);
    assert_eq!(body, "Error: Host does not belong to zone\n");
}

#[test]
fn missing_adapter_is_a_server_error() {
    let (config, mut providers) = construct(None);
    let (status, body) = update(
        "test",
        "testpassword",
        "example.com",
        ipv4(Some("192.0.2.0")),
        ipv6(None),
        &config,
        &mut providers,
    );
    assert_eq!(status, Status::InternalServerError);
    assert_eq!(body, "Error: Provider not configured\n");

    // Without an address no adapter is needed.
    let (status, body) = update(
        "test",
        "testpassword",
        "example.com",
        ipv4(None),
        ipv6(None),
        &config,
        &mut providers,
    );
    assert_eq!(status, Status::Success);
    assert_eq!(body, "No IP address specified");
}

#[test]
fn respond_takes_the_gravest_status() {
    let transport = || Some(Err(ProviderError::Transport("connection refused".to_string())));
    let mismatch = || Some(Err(ProviderError::HostZoneMismatch));

    let (status, body) = respond(&None, &None);
    assert_eq!((status, body.as_str()), (Status::Success, "No IP address specified"));

    let (status, body) = respond(&Some(Ok(false)), &None);
    assert_eq!((status, body.as_str()), (Status::Success, "IPv4 already set correctly\n"));

    let (status, body) = respond(&None, &Some(Ok(false)));
    assert_eq!((status, body.as_str()), (Status::Success, "IPv6 already set correctly\n"));

    let (status, body) = respond(&mismatch(), &transport());
    assert_eq!(status, Status::InternalServerError);
    assert_eq!(body, "Error: Host does not belong to zone\nError: connection refused\n");

    let (status, _) = respond(&transport(), &mismatch());
    assert_eq!(status, Status::InternalServerError);

    let (status, _) = respond(&mismatch(), &Some(Ok(true)));
    assert_eq!(status, Status::BadRequest);

    let (status, _) = respond(&Some(Ok(true)), &mismatch());
    assert_eq!(status, Status::BadRequest);

    let (status, body) =
        respond(&Some(Err(ProviderError::Update("rejected".to_string()))), &None);
    assert_eq!((status, body.as_str()), (Status::InternalServerError, "Error: rejected\n"));
}

#[test]
fn rejection_texts() {
    assert_eq!(rejection(RequestError::AuthError), (Status::Unauthorized, "Invalid user".to_string()));
    assert_eq!(
        rejection(RequestError::DomainNotFound),
        (Status::BadRequest, "Invalid domain".to_string())
    );
    assert_eq!(
        rejection(RequestError::InvalidIpFormat(IpVersion::V4)),
        (Status::BadRequest, "Invalid IPv4 address".to_string())
    );
    assert_eq!(
        rejection(RequestError::InvalidIpFormat(IpVersion::V6)),
        (Status::BadRequest, "Invalid IPv6 address".to_string())
    );
}

#[test]
fn get_user_takes_the_first_user_of_that_name() {
    let mut config = config();
    config.users.push(User {
        name: "test".to_string(),
        password: "second".to_string(),
        domains: vec![],
    });
    config.users.push(User {
        name: "other".to_string(),
        password: "otherpassword".to_string(),
        domains: vec![],
    });

    let user = get_user(&config, "test", "testpassword").unwrap();
    assert_eq!(user.domains.len(), 1);
    // The second user of that name is never reached.
    assert_eq!(get_user(&config, "test", "second").unwrap_err(), RequestError::AuthError);
    assert_eq!(get_user(&config, "other", "otherpassword").unwrap().name, "other");
    assert_eq!(get_user(&config, "other", "testpassword").unwrap_err(), RequestError::AuthError);
    assert_eq!(get_user(&config, "nobody", "testpassword").unwrap_err(), RequestError::AuthError);
    assert_eq!(get_user(&config, "", "").unwrap_err(), RequestError::AuthError);
    assert_eq!(
        get_user(&Config { users: vec![] }, "test", "testpassword").unwrap_err(),
        RequestError::AuthError
    );
}

#[test]
fn get_domain_config_takes_the_first_domain_of_that_host() {
    let mut config = config();
    config.users[0].domains.push(DomainConfig {
        provider: ProviderType::HetznerProvider,
        apitoken: "secondtoken".to_string(),
        host: "example.com".to_string(),
        zone: Zone { id: "second".to_string(), name: "example.com".to_string() },
    });
    config.users[0].domains.push(DomainConfig {
        provider: ProviderType::HetznerProvider,
        apitoken: "thirdtoken".to_string(),
        host: "home.example.com".to_string(),
        zone: Zone { id: "third".to_string(), name: "example.com".to_string() },
    });
    let user = &config.users[0];

    assert_eq!(get_domain_config(user, "example.com").unwrap().apitoken, "testtoken");
    assert_eq!(get_domain_config(user, "home.example.com").unwrap().zone.id, "third");
    assert_eq!(
        get_domain_config(user, "example.org").unwrap_err(),
        RequestError::DomainNotFound
    );
    assert_eq!(get_domain_config(user, "").unwrap_err(), RequestError::DomainNotFound);
}

#[test]
fn from_query_classifies_parameters() {
    let address = || Some(Ipv4Address::new("192.0.2.0".to_string()));
    assert!(matches!(IpParam::from_query(None, None::<Ipv4Address>), IpParam::Absent));
    assert!(matches!(IpParam::from_query(None, address()), IpParam::Absent));
    assert!(matches!(IpParam::from_query(Some(""), address()), IpParam::Absent));
    assert!(matches!(IpParam::from_query(Some("x"), None::<Ipv4Address>), IpParam::Invalid));
    match IpParam::from_query(Some("192.0.2.0"), address()) {
        IpParam::Valid(found) => assert_eq!(found.text, "192.0.2.0"),
        _ => panic!("a parsed address is valid"),
    }
}

#[test]
fn addresses_know_their_version() {
    let v4 = IpAddress::V4(Ipv4Address::new("192.0.2.0".to_string()));
    let v6 = IpAddress::V6(Ipv6Address::new("2001:db8::1".to_string()));
    assert_eq!(v4.version(), IpVersion::V4);
    assert!(v4.is_ipv4() && !v4.is_ipv6());
    assert_eq!(v4.text(), "192.0.2.0");
    assert_eq!(v6.version(), IpVersion::V6);
    assert!(v6.is_ipv6() && !v6.is_ipv4());
    assert_eq!(v6.clone().text(), "2001:db8::1");
}

#[test]
fn the_service_is_one_endpoint() {
    let endpoint = rocket();
    assert_eq!(endpoint.method, Method::Get);
    assert_eq!(endpoint.base, "/");
    assert_eq!(endpoint.path, "/update");
    assert_eq!(endpoint.parameters, vec!["user", "password", "host", "ip", "ip6"]);
    assert_eq!(endpoint.pattern(), "/update?<user>&<password>&<host>&<ip>&<ip6>");
}

#[test]
fn patterns_follow_the_parameters() {
    let mut endpoint = rocket();
    endpoint.parameters.truncate(1);
    assert_eq!(endpoint.pattern(), "/update?<user>");
    endpoint.parameters.clear();
    assert_eq!(endpoint.pattern(), "/update");
    endpoint.path = "/".to_string();
    endpoint.parameters = vec!["a".to_string(), "b".to_string()];
    assert_eq!(endpoint.pattern(), "/?<a>&<b>");
}
