use vlottoidx::{default_port_for_file, parse_config, ChainConfig, RpcError};

#[test]
fn parses_user_password_and_loopback_host() {
    let c = parse_config("rpcuser=alice\nrpcpassword=secret\nrpcport=1234\n", "VRSC.conf").unwrap();
    assert_eq!(c.username, "alice");
    assert_eq!(c.password, "secret");
    assert_eq!(c.host, "127.0.0.1");
    assert_eq!(c.port, 1234);
}

#[test]
fn missing_user_is_a_configuration_failure() {
    match parse_config("rpcpassword=secret\n", "VRSC.conf") {
        Err(RpcError::Configuration(m)) => assert_eq!(m, "rpcuser not found in config file"),
        other => panic!("unexpected {:?}", other),
    }
}

#[test]
fn missing_password_is_a_configuration_failure() {
    match parse_config("rpcuser=alice\n# rpcpassword=secret\n", "VRSC.conf") {
        Err(RpcError::Configuration(m)) => assert_eq!(m, "rpcpassword not found in config file"),
        other => panic!("unexpected {:?}", other),
    }
}

#[test]
fn empty_file_lacks_the_user() {
    match parse_config("", "x.conf") {
        Err(RpcError::Configuration(m)) => assert_eq!(m, "rpcuser not found in config file"),
        other => panic!("unexpected {:?}", other),
    }
}

#[test]
fn default_ports_follow_the_file_name() {
    let text = "rpcuser=u\nrpcpassword=p\n";
    assert_eq!(parse_config(text, "VRSC.conf").unwrap().port, 27486);
    assert_eq!(parse_config(text, "vrsctest.conf").unwrap().port, 18843);
    assert_eq!(
        parse_config(text, "e9e10955b7d16031e3d6f55d9c908a038e3ae47d.conf").unwrap().port,
        27486
    );
    assert_eq!(default_port_for_file("vrsctest.conf"), 18843);
    assert_eq!(default_port_for_file("VRSC.conf"), 27486);
    assert_eq!(default_port_for_file("other.conf"), 27486);
}

#[test]
fn default_port_by_chain_name() {
    assert_eq!(ChainConfig::default_port("vrsc"), 27486);
    assert_eq!(ChainConfig::default_port("vrsctest"), 18843);
    assert_eq!(ChainConfig::default_port("f315367528394674d45277e369629605a1c3ce9f"), 27486);
}

#[test]
fn lines_are_trimmed_and_the_last_setting_wins() {
    let text = "  rpcuser=first \r\nrpcuser=second\r\n\trpcpassword= pw \r\n";
    let c = parse_config(text, "VRSC.conf").unwrap();
    assert_eq!(c.username, "second");
    assert_eq!(c.password, " pw");
}

#[test]
fn empty_values_count_as_present() {
    let c = parse_config("rpcuser=\nrpcpassword=", "VRSC.conf").unwrap();
    assert_eq!(c.username, "");
    assert_eq!(c.password, "");
}

#[test]
fn an_invalid_port_keeps_the_earlier_one() {
    let text = "rpcport=+8000\nrpcuser=u\nrpcpassword=p\nrpcport=70000\nrpcport=abc\nrpcport=\n";
    assert_eq!(parse_config(text, "vrsctest.conf").unwrap().port, 8000);
    let only_bad = "rpcuser=u\nrpcpassword=p\nrpcport=-1\nrpcport=65536\n";
    assert_eq!(parse_config(only_bad, "vrsctest.conf").unwrap().port, 18843);
    let leading_zeros = "rpcuser=u\nrpcpassword=p\nrpcport=000065535\n";
    assert_eq!(parse_config(leading_zeros, "VRSC.conf").unwrap().port, 65535);
}

#[test]
fn keys_must_start_the_line() {
    match parse_config("# rpcuser=u\nxrpcpassword=p\n", "VRSC.conf") {
        Err(RpcError::Configuration(m)) => assert_eq!(m, "rpcuser not found in config file"),
        other => panic!("unexpected {:?}", other),
    }
}

#[test]
fn unicode_white_space_is_trimmed() {
    let c = parse_config("\u{3000}rpcuser=ü\u{a0}\nrpcpassword=p\u{2029}", "VRSC.conf").unwrap();
    assert_eq!(c.username, "ü");
    assert_eq!(c.password, "p");
}
