use tavern_supervisor::port::{determine_port, fallback_ports, parse_port, select_env_port, silly_env_port};

#[test]
fn parse_port_accepts_valid_numbers() {
    assert_eq!(parse_port("8080"), Some(8080));
    assert_eq!(parse_port(" 443 "), Some(443));
    assert_eq!(parse_port("+123"), Some(123));
    assert_eq!(parse_port("080"), Some(80));
    assert_eq!(parse_port("65535"), Some(65535));
}

#[test]
fn parse_port_rejects_zero_and_junk() {
    assert_eq!(parse_port("0"), None);
    assert_eq!(parse_port("000"), None);
    assert_eq!(parse_port(""), None);
    assert_eq!(parse_port("   "), None);
    assert_eq!(parse_port("65536"), None);
    assert_eq!(parse_port("99999999999999999999"), None);
    assert_eq!(parse_port("-1"), None);
    assert_eq!(parse_port("80a"), None);
    assert_eq!(parse_port("8 0"), None);
    assert_eq!(parse_port("+"), None);
}

#[test]
fn env_entries_prefer_port_over_alias() {
    let entries = vec![
        (String::from("ST_PORT"), String::from("9000")),
        (String::from("PORT"), String::from("8123")),
    ];
    assert_eq!(select_env_port(&entries), Some(8123));
}

#[test]
fn env_entries_fall_back_to_alias_and_skip_invalid() {
    let entries = vec![
        (String::from("PORT"), String::from("0")),
        (String::from("PORT"), String::from("nonsense")),
        (String::from("ST_PORT"), String::from("9000")),
        (String::from("OTHER"), String::from("7000")),
    ];
    assert_eq!(select_env_port(&entries), Some(9000));
    assert_eq!(select_env_port(&Vec::new()), None);
}

#[test]
fn env_entries_last_valid_declaration_wins() {
    let entries = vec![
        (String::from("PORT"), String::from("8001")),
        (String::from("PORT"), String::from("8002")),
        (String::from("PORT"), String::from("not a port")),
    ];
    assert_eq!(select_env_port(&entries), Some(8002));
}

#[test]
fn env_file_bytes_are_parsed_for_ports() {
    let bytes: Vec<u8> = b"# comment\nPORT=8123\nST_PORT=9000\n".to_vec();
    assert_eq!(silly_env_port(Some(&bytes), "/srv/.env"), Ok(Some(8123)));
    assert_eq!(silly_env_port(None, "/srv/.env"), Ok(None));
    let no_ports: Vec<u8> = b"HOST=localhost\n".to_vec();
    assert_eq!(silly_env_port(Some(&no_ports), "/srv/.env"), Ok(None));
}

#[test]
fn unreadable_env_file_is_a_named_error() {
    let bad: Vec<u8> = b"NOT A VALID LINE ###\n".to_vec();
    let r = silly_env_port(Some(&bad), "/srv/.env");
    let err = r.expect_err("a malformed env file must be reported");
    assert!(err.starts_with("Failed to parse /srv/.env: "));
}

#[test]
fn port_precedence_env_then_override_then_probe() {
    let candidates = fallback_ports();
    let avail = vec![true, true, true, true];
    assert_eq!(
        determine_port(Some(4000), Some(5000), &candidates, &avail),
        Ok(4000)
    );
    assert_eq!(determine_port(None, Some(5000), &candidates, &avail), Ok(5000));
    assert_eq!(determine_port(None, None, &candidates, &avail), Ok(8000));
}

#[test]
fn probe_skips_ports_reported_bound() {
    let candidates = fallback_ports();
    // The first two candidates were reported bound by the probe.
    let avail = vec![false, false, true, true];
    assert_eq!(determine_port(None, None, &candidates, &avail), Ok(3000));
    let only_last = vec![false, false, false, true];
    assert_eq!(determine_port(None, None, &candidates, &only_last), Ok(5173));
}

#[test]
fn exhausted_probes_are_an_error() {
    let candidates = fallback_ports();
    let avail = vec![false, false, false, false];
    assert_eq!(
        determine_port(None, None, &candidates, &avail),
        Err(String::from("Unable to determine an available server port."))
    );
}

#[test]
fn fallback_list_is_ordered_and_distinct() {
    let ports = fallback_ports();
    assert_eq!(ports, vec![8000, 8080, 3000, 5173]);
}
