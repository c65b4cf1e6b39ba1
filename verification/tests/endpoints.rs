use stassh::endpoints::parse_endpoints;

#[test]
fn parse_endpoints_defaults_missing_ports_to_22() {
    let endpoints = parse_endpoints("host-a, host-b\nhost-c").unwrap();
    assert_eq!(endpoints.len(), 3);
    assert_eq!(endpoints[0].host, "host-a");
    assert_eq!(endpoints[0].port, 22);
    assert_eq!(endpoints[1].host, "host-b");
    assert_eq!(endpoints[1].port, 22);
    assert_eq!(endpoints[2].host, "host-c");
    assert_eq!(endpoints[2].port, 22);
}

#[test]
fn parse_endpoints_supports_mixed_explicit_and_default_ports() {
    let endpoints = parse_endpoints("host-a:2200, host-b").unwrap();
    assert_eq!(endpoints.len(), 2);
    assert_eq!(endpoints[0].host, "host-a");
    assert_eq!(endpoints[0].port, 2200);
    assert_eq!(endpoints[1].host, "host-b");
    assert_eq!(endpoints[1].port, 22);
}

#[test]
fn parse_endpoints_rejects_invalid_ports() {
    let err = parse_endpoints("host-a:abc").unwrap_err();
    assert!(err.contains("invalid port"));
}

#[test]
fn parse_endpoints_error_names_the_item() {
    let err = parse_endpoints("ok-host, bad:70000").unwrap_err();
    assert_eq!(err, "Endpoint 'bad:70000' has invalid port");
    let err = parse_endpoints(" :22 ").unwrap_err();
    assert_eq!(err, "Endpoint ':22' has an empty host");
    let err = parse_endpoints("h:0").unwrap_err();
    assert_eq!(err, "Endpoint 'h:0' has invalid port");
}

#[test]
fn parse_endpoints_skips_blank_items_and_trims() {
    let endpoints = parse_endpoints(" a.example :+2222 ,\r\n\n, b: \tc:").unwrap();
    assert_eq!(endpoints.len(), 2);
    assert_eq!(endpoints[0].host, "a.example");
    assert_eq!(endpoints[0].port, 2222);
    assert_eq!(endpoints[1].host, "b: \tc");
    assert_eq!(endpoints[1].port, 22);
    assert!(parse_endpoints("").unwrap().is_empty());
    let v6 = parse_endpoints("::1:2022").unwrap();
    assert_eq!(v6[0].host, "::1");
    assert_eq!(v6[0].port, 2022);
}
