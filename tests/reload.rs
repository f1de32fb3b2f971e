use hot_reload::{
    default_gas_price, handle_config_reload, BotConfig, Config, ConfigStore, ReloadCoordinator,
    ReloadError, ReloadTrigger, DEFAULT_GAS_PRICE,
};

fn config(name: &str, rpc: Option<&str>, gas: Option<u64>) -> Config {
    Config::from_fields(name.to_string(), rpc.map(|s| s.to_string()), gas)
}

fn same(a: &Config, b: &Config) -> bool {
    a.bot.name == b.bot.name && a.bot.rpc_url == b.bot.rpc_url && a.bot.gas_price == b.bot.gas_price
}

fn started(c: Config) -> ReloadCoordinator {
    match ReloadCoordinator::start(Ok(c)) {
        Ok(k) => k,
        Err(_) => panic!("start failed on a loaded configuration"),
    }
}

#[test]
fn default_gas_price_value() {
    assert_eq!(default_gas_price(), 200_000_000);
    assert_eq!(DEFAULT_GAS_PRICE, 200_000_000);
}

#[test]
fn missing_gas_price_takes_default() {
    let c = config("bot", Some("http://localhost:8545"), None);
    assert_eq!(c.gas_price(), 200_000_000);
    assert_eq!(c.name(), "bot");
    assert_eq!(c.bot.rpc_url.as_deref(), Some("http://localhost:8545"));
}

#[test]
fn given_gas_price_is_kept() {
    let b = BotConfig::from_fields("x".to_string(), None, Some(7));
    assert_eq!(b.gas_price, 7);
    assert_eq!(b.rpc_url, None);
    let c = config("x", None, Some(0));
    assert_eq!(c.gas_price(), 0);
}

#[test]
fn duplicate_copies_every_field() {
    let c = config("a", Some("u"), Some(5));
    assert!(same(&c, &c.duplicate()));
}

#[test]
fn store_read_and_replace() {
    let mut s = ConfigStore::new(config("first", None, None));
    assert_eq!(s.version(), 0);
    let before = s.read();
    s.replace(config("second", None, Some(1)));
    assert_eq!(s.version(), 1);
    assert_eq!(s.read().name(), "second");
    assert_eq!(s.read().gas_price(), 1);
    // a copy taken before the replacement is not changed by it
    assert_eq!(before.name(), "first");
}

#[test]
fn store_versions_never_go_down() {
    let mut s = ConfigStore::new(config("a", None, None));
    let mut last = s.version();
    for i in 0..5u64 {
        s.replace(config("a", None, Some(i)));
        assert!(s.version() > last);
        last = s.version();
    }
}

#[test]
fn startup_fails_without_configuration() {
    let r = ReloadCoordinator::start(Err(ReloadError::Unreadable("no such file".to_string())));
    match r {
        Err(ReloadError::Unreadable(m)) => assert_eq!(m, "no such file"),
        _ => panic!("expected the read error back"),
    }
    let r = ReloadCoordinator::start(Err(ReloadError::Unparseable("bad toml".to_string())));
    assert!(matches!(r, Err(ReloadError::Unparseable(_))));
}

#[test]
fn startup_with_configuration_is_idle() {
    let k = started(config("a", None, None));
    assert!(!k.is_reloading());
    assert!(k.last_error().is_none());
    assert_eq!(k.version(), 0);
    assert_eq!(k.read().name(), "a");
}

#[test]
fn reload_installs_new_configuration() {
    let mut k = started(config("a", None, None));
    k.request_reload(ReloadTrigger::FileChanged);
    assert!(k.is_reloading());
    let r = handle_config_reload(&mut k, Ok(config("b", Some("u"), Some(3))));
    assert!(r.is_ok());
    assert!(!k.is_reloading());
    assert_eq!(k.read().name(), "b");
    assert_eq!(k.read().gas_price(), 3);
    assert_eq!(k.version(), 1);
}

#[test]
fn reload_of_unchanged_file_keeps_value() {
    let mut k = started(config("a", Some("u"), Some(9)));
    let before = k.read();
    k.request_reload(ReloadTrigger::Signal);
    let r = handle_config_reload(&mut k, Ok(config("a", Some("u"), Some(9))));
    assert!(r.is_ok());
    assert!(same(&before, &k.read()));
}

#[test]
fn failed_reload_keeps_previous_configuration() {
    let mut k = started(config("good", None, Some(4)));
    k.request_reload(ReloadTrigger::FileChanged);
    let r = handle_config_reload(&mut k, Err(ReloadError::Unparseable("expected `=`".to_string())));
    match r {
        Err(ReloadError::Unparseable(m)) => assert_eq!(m, "expected `=`"),
        _ => panic!("expected the parse error back"),
    }
    assert!(!k.is_reloading());
    assert_eq!(k.read().name(), "good");
    assert_eq!(k.read().gas_price(), 4);
    assert_eq!(k.version(), 0);
    assert!(matches!(k.last_error(), Some(ReloadError::Unparseable(_))));

    k.request_reload(ReloadTrigger::Signal);
    let r = handle_config_reload(&mut k, Err(ReloadError::Unreadable("gone".to_string())));
    assert!(matches!(r, Err(ReloadError::Unreadable(_))));
    assert_eq!(k.read().name(), "good");
    assert!(matches!(k.last_error(), Some(ReloadError::Unreadable(_))));
}

#[test]
fn success_clears_last_error() {
    let mut k = started(config("a", None, None));
    k.request_reload(ReloadTrigger::Signal);
    let _ = handle_config_reload(&mut k, Err(ReloadError::Unreadable("x".to_string())));
    k.request_reload(ReloadTrigger::Signal);
    let r = handle_config_reload(&mut k, Ok(config("b", None, None)));
    assert!(r.is_ok());
    assert!(k.last_error().is_none());
}

#[test]
fn file_change_and_signal_end_alike() {
    let mut by_file = started(config("a", None, None));
    let mut by_signal = started(config("a", None, None));
    by_file.request_reload(ReloadTrigger::FileChanged);
    by_signal.request_reload(ReloadTrigger::Signal);
    assert_eq!(by_file.is_reloading(), by_signal.is_reloading());
    let _ = handle_config_reload(&mut by_file, Ok(config("b", Some("u"), None)));
    let _ = handle_config_reload(&mut by_signal, Ok(config("b", Some("u"), None)));
    assert!(same(&by_file.read(), &by_signal.read()));
    assert_eq!(by_file.version(), by_signal.version());
    assert_eq!(by_file.is_reloading(), by_signal.is_reloading());
}

#[test]
fn overlapping_reloads_end_in_one_state() {
    let a = || config("a", None, Some(1));
    let b = || config("b", None, Some(2));
    let mut k = started(a());
    // several requests arrive before any attempt ends
    for i in 0..6u64 {
        let t = if i % 2 == 0 { ReloadTrigger::FileChanged } else { ReloadTrigger::Signal };
        k.request_reload(t);
    }
    // the attempts end in an order of their own; the first clears the flag
    let _ = handle_config_reload(&mut k, Ok(b()));
    assert!(!k.is_reloading());
    let _ = handle_config_reload(&mut k, Ok(a()));
    let _ = handle_config_reload(&mut k, Err(ReloadError::Unparseable("half-written".to_string())));
    let _ = handle_config_reload(&mut k, Ok(b()));
    let now = k.read();
    assert!(same(&now, &b()));
    assert!(same(&now, &a()) || same(&now, &b()));
    assert_eq!(k.version(), 3);
}
