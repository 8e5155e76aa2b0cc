use vlottoidx::{
    apply_fallback_names, apply_names, config_file_name, get_fallback_display_name,
    sibling_chains, BaseDir, ChainConfig, ChainDiscovery, CurrencyEntry, DiscoveryScan,
    ConnectRefusal, PathResolver, Platform, RpcCredentials, RpcError, SiblingConfig,
};

const VARRR: &str = "e9e10955b7d16031e3d6f55d9c908a038e3ae47d";
const OTHER: &str = "0123456789abcdef0123456789abcdef01234567";

fn sibling(dir: &str, content: &str) -> SiblingConfig {
    SiblingConfig { dir_name: dir.to_string(), content: content.to_string() }
}

fn entry(hex: Option<&str>, name: Option<&str>) -> CurrencyEntry {
    CurrencyEntry { currencyidhex: hex.map(|s| s.to_string()), name: name.map(|s| s.to_string()) }
}

fn full_scan() -> DiscoveryScan {
    DiscoveryScan {
        main: Some("rpcuser=alice\nrpcpassword=secret\n".to_string()),
        test: Some("rpcuser=t\nrpcpassword=tp\nrpcport=18000\n".to_string()),
        siblings: vec![
            sibling(VARRR, "rpcuser=v\nrpcpassword=vp\nrpcport=20000\n"),
            sibling("broken", "rpcuser=only\n"),
            sibling(OTHER, "rpcuser=o\nrpcpassword=op\n"),
        ],
    }
}

#[test]
fn primary_config_alone_gives_one_descriptor() {
    let scan = DiscoveryScan {
        main: Some("rpcuser=alice\nrpcpassword=secret\n".to_string()),
        test: None,
        siblings: vec![],
    };
    let draft = ChainDiscovery::scan(&scan);
    let creds = ChainDiscovery::naming_credentials(&draft);
    assert!(creds.is_some());
    let mut d = ChainDiscovery::new();
    let chains = d.discover_chains(draft, None);
    assert_eq!(chains.len(), 1);
    let c = &chains[0];
    assert_eq!(c.name, "vrsc");
    assert_eq!(c.display_name, "VRSC");
    assert_eq!(c.credentials.host, "127.0.0.1");
    assert_eq!(c.credentials.port, 27486);
    assert_eq!(c.credentials.username, "alice");
    assert_eq!(c.credentials.password, "secret");
    assert!(!c.is_active);
    assert_eq!(d.discovered_chains.len(), 1);
    assert!(d.get_active_chains().is_empty());
}

#[test]
fn scan_orders_main_test_then_siblings_and_skips_bad_files() {
    let draft = ChainDiscovery::scan(&full_scan());
    let names: Vec<&str> = draft.main_chains.iter().map(|c| c.name.as_str()).collect();
    assert_eq!(names, vec!["vrsc", "vrsctest"]);
    assert_eq!(draft.main_chains[1].display_name, "VRSCTEST");
    assert_eq!(draft.main_chains[1].credentials.port, 18000);
    let sibs: Vec<&str> = draft.sibling_chains.iter().map(|c| c.name.as_str()).collect();
    assert_eq!(sibs, vec![VARRR, OTHER]);
    assert_eq!(draft.sibling_chains[1].display_name, OTHER);
    assert_eq!(draft.sibling_chains[1].credentials.port, 27486);
}

#[test]
fn sibling_names_come_from_the_listing_then_the_table() {
    let listing = vec![
        entry(Some(OTHER), Some("First")),
        entry(Some(OTHER), None),
        entry(None, Some("Nobody")),
        entry(Some(OTHER), Some("Renamed")),
    ];
    let mut d = ChainDiscovery::new();
    let chains = d.discover_chains(ChainDiscovery::scan(&full_scan()), Some(&listing));
    let shown: Vec<&str> = chains.iter().map(|c| c.display_name.as_str()).collect();
    assert_eq!(shown, vec!["VRSC", "VRSCTEST", "VARRR", "Renamed"]);
}

#[test]
fn without_a_listing_the_table_or_the_id_is_shown() {
    let mut d = ChainDiscovery::new();
    let chains = d.discover_chains(ChainDiscovery::scan(&full_scan()), None);
    let shown: Vec<&str> = chains.iter().map(|c| c.display_name.as_str()).collect();
    assert_eq!(shown, vec!["VRSC", "VRSCTEST", "VARRR", OTHER]);
}

#[test]
fn discovery_is_repeatable() {
    let mut d = ChainDiscovery::new();
    let first = d.discover_chains(ChainDiscovery::scan(&full_scan()), None);
    d.record_connectivity(&vec![true, false, true, true]);
    let listing = vec![entry(Some(OTHER), Some("Named"))];
    let second = d.discover_chains(ChainDiscovery::scan(&full_scan()), Some(&listing));
    assert_eq!(first.len(), second.len());
    for (a, b) in first.iter().zip(second.iter()) {
        assert_eq!(a.name, b.name);
        assert_eq!(a.credentials.username, b.credentials.username);
        assert_eq!(a.credentials.port, b.credentials.port);
        assert!(!b.is_active);
    }
    assert_eq!(d.discovered_chains.len(), 4);
}

#[test]
fn naming_credentials_need_the_main_chain() {
    let scan = DiscoveryScan { main: None, test: full_scan().test, siblings: vec![] };
    assert!(ChainDiscovery::naming_credentials(&ChainDiscovery::scan(&scan)).is_none());
    let c = ChainDiscovery::naming_credentials(&ChainDiscovery::scan(&full_scan())).unwrap();
    assert_eq!(c.username, "alice");
}

#[test]
fn vrsc_credentials_come_from_the_held_list() {
    let mut d = ChainDiscovery::new();
    match d.get_vrsc_credentials() {
        Err(RpcError::Configuration(m)) => assert_eq!(m, "VRSC mainnet not found"),
        other => panic!("unexpected {:?}", other),
    }
    d.discover_chains(ChainDiscovery::scan(&full_scan()), None);
    assert_eq!(d.get_vrsc_credentials().unwrap().password, "secret");
}

#[test]
fn probes_set_the_active_flags() {
    let mut d = ChainDiscovery::new();
    d.discover_chains(ChainDiscovery::scan(&full_scan()), None);
    d.record_connectivity(&vec![false, true, true]);
    let active: Vec<&str> = d.get_active_chains().iter().map(|c| c.name.as_str()).collect();
    assert_eq!(active, vec!["vrsctest", VARRR]);
    assert!(!d.discovered_chains[3].is_active);
}

#[test]
fn fallback_table() {
    assert_eq!(get_fallback_display_name(VARRR), Some("VARRR"));
    assert_eq!(get_fallback_display_name("53fe39eea8c06bba32f1a4e20db67e5524f0309d"), Some("VDEX"));
    assert_eq!(get_fallback_display_name("f315367528394674d45277e369629605a1c3ce9f"), Some("CHIPS"));
    assert_eq!(get_fallback_display_name(OTHER), None);
    assert_eq!(get_fallback_display_name("E9E10955B7D16031E3D6F55D9C908A038E3AE47D"), None);
}

fn chain(name: &str) -> ChainConfig {
    ChainConfig {
        name: name.to_string(),
        display_name: name.to_string(),
        credentials: RpcCredentials {
            username: "u".to_string(),
            password: "p".to_string(),
            host: "127.0.0.1".to_string(),
            port: 1,
        },
        is_active: false,
    }
}

#[test]
fn applying_names_in_place() {
    let mut chains = vec![chain(VARRR), chain(OTHER)];
    apply_fallback_names(&mut chains);
    assert_eq!(chains[0].display_name, "VARRR");
    assert_eq!(chains[1].display_name, OTHER);
    let listing = vec![entry(Some(VARRR), Some("Listed"))];
    apply_names(&mut chains, Some(&listing));
    assert_eq!(chains[0].display_name, "Listed");
    assert_eq!(chains[1].display_name, OTHER);
}

#[test]
fn sibling_files_are_named_after_their_directory() {
    assert_eq!(config_file_name(OTHER), format!("{}.conf", OTHER));
    let chains = sibling_chains(&vec![sibling("abc", "rpcuser=a\nrpcpassword=b\nrpcport=99\n")]);
    assert_eq!(chains.len(), 1);
    assert_eq!(chains[0].credentials.port, 99);
}

#[test]
fn roots_per_platform() {
    let linux = PathResolver::new(Platform::Linux);
    let main = linux.main_chain_root().unwrap();
    assert_eq!(main.base, BaseDir::Home);
    assert_eq!(main.segments, vec![".komodo".to_string()]);
    let sib = linux.sibling_chain_root().unwrap();
    assert_eq!(sib.segments, vec![".verus".to_string(), "pbaas".to_string()]);
    let mac = PathResolver::new(Platform::MacOs).main_chain_root().unwrap();
    assert_eq!(mac.segments, vec!["Library", "Application Support", "Komodo"]);
    let win = PathResolver::new(Platform::Windows).sibling_chain_root().unwrap();
    assert_eq!(win.base, BaseDir::Data);
    assert_eq!(win.segments, vec!["Verus", "pbaas"]);
    match PathResolver::new(Platform::Unsupported).main_chain_root() {
        Err(RpcError::Configuration(m)) => assert_eq!(m, "Unsupported operating system"),
        other => panic!("unexpected {:?}", other),
    }
    match PathResolver::new(Platform::Linux).missing_base_error() {
        RpcError::Configuration(m) => assert_eq!(m, "Could not determine Linux home directory"),
        other => panic!("unexpected {:?}", other),
    }
}

#[test]
fn config_directories() {
    let d = ChainConfig::config_directory("vrsc", Platform::Linux).unwrap();
    assert_eq!(d.segments, vec![".komodo", "VRSC"]);
    let t = ChainConfig::config_directory("vrsctest", Platform::Windows).unwrap();
    assert_eq!(t.segments, vec!["Komodo", "vrsctest"]);
    let s = ChainConfig::config_directory(OTHER, Platform::Linux).unwrap();
    assert_eq!(s.segments, vec![".verus", "pbaas", OTHER]);
    assert!(ChainConfig::config_directory("vrsc", Platform::Unsupported).is_err());
}

#[test]
fn expected_paths_text() {
    assert_eq!(
        ChainConfig::get_expected_paths(Platform::Linux),
        "~/.komodo/VRSC/VRSC.conf\n~/.komodo/vrsctest/vrsctest.conf\n~/.verus/pbaas/{currencyidhex}/{currencyidhex}.conf"
    );
    assert_eq!(
        ChainConfig::get_expected_paths(Platform::MacOs),
        "~/Library/Application Support/Komodo/VRSC/VRSC.conf\n~/Library/Application Support/Komodo/vrsctest/vrsctest.conf\n~/Library/Application Support/Verus/pbaas/{currencyidhex}/{currencyidhex}.conf"
    );
    assert_eq!(
        ChainConfig::get_expected_paths(Platform::Windows),
        "%AppData%\\Komodo\\VRSC\\VRSC.conf\n%AppData%\\Komodo\\vrsctest\\vrsctest.conf\n%AppData%\\Verus\\pbaas\\{currencyidhex}\\{currencyidhex}.conf"
    );
    assert_eq!(ChainConfig::get_expected_paths(Platform::Unsupported), "Unsupported operating system");
}

#[test]
fn selecting_a_chain_ignores_case_and_needs_a_reachable_one() {
    let mut d = ChainDiscovery::new();
    d.discover_chains(ChainDiscovery::scan(&full_scan()), None);
    d.record_connectivity(&vec![true, false]);
    assert_eq!(d.select_chain("VRSC").unwrap(), 0);
    assert_eq!(d.select_chain_lowered("vrsc").unwrap(), 0);
    assert!(matches!(d.select_chain_lowered("VRSC"), Err(ConnectRefusal::NotFound(_))));
    assert!(matches!(d.select_chain("VrscTest"), Err(ConnectRefusal::NotActive)));
    match d.select_chain("nope") {
        Err(ConnectRefusal::NotFound(names)) => {
            assert_eq!(names, vec!["vrsc".to_string(), "vrsctest".to_string(), VARRR.to_string(), OTHER.to_string()])
        }
        other => panic!("unexpected {:?}", other),
    }
}
