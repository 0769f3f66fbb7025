use anim_eval::config::{
    ConfigDebug, ConfigGfx, ConfigInput, ConfigMonitor, ConfigNetwork, ConfigPath, ConfigSound,
    ConfigSoundLimits, ConfigWindow, GfxDebugModes, RouteError,
};

#[test]
fn route_sets_name_and_clears_query() {
    let mut p = ConfigPath::default();
    p.add_query(("a".to_string(), "1".to_string()));
    p.route("main.menu");
    assert_eq!(p.name, "main.menu");
    assert!(p.query.is_empty());
}

#[test]
fn route_queried_replaces_queries() {
    let mut p = ConfigPath::default();
    p.route_queried(
        "browser",
        vec![
            ("tab".to_string(), "lan".to_string()),
            ("sort".to_string(), "name".to_string()),
        ],
    );
    assert_eq!(p.name, "browser");
    assert_eq!(p.query.len(), 2);
    assert_eq!(p.query_get(&"tab".to_string()).unwrap(), "lan");
    assert_eq!(p.query_get(&"sort".to_string()).unwrap(), "name");
    assert!(p.query_get(&"missing".to_string()).is_none());
}

#[test]
fn add_query_later_pair_wins() {
    let mut p = ConfigPath::default();
    p.add_query(("k".to_string(), "old".to_string()));
    p.add_query(("k".to_string(), "new".to_string()));
    assert_eq!(p.query_get(&"k".to_string()).unwrap(), "new");
}

#[test]
fn is_route_correct_accepts_letters() {
    assert!(ConfigPath::is_route_correct("ddnet", "browser").is_ok());
    assert!(ConfigPath::is_route_correct("", "").is_ok());
}

#[test]
fn is_route_correct_rejects_mod_name_first() {
    assert_eq!(
        ConfigPath::is_route_correct("dd net", "browser"),
        Err(RouteError::NonAsciiModName)
    );
    assert_eq!(
        ConfigPath::is_route_correct("mod2", "path9"),
        Err(RouteError::NonAsciiModName)
    );
    assert_eq!(
        ConfigPath::is_route_correct("ddnet", "bad path"),
        Err(RouteError::NonAsciiPath)
    );
    assert_eq!(
        ConfigPath::is_route_correct("ddnet", "ünïcode"),
        Err(RouteError::NonAsciiPath)
    );
}

#[test]
fn route_error_messages() {
    assert_eq!(
        RouteError::NonAsciiModName.message(),
        "Mod name must only contain ascii characters"
    );
    assert_eq!(
        RouteError::NonAsciiPath.message(),
        "Path name must only contain ascii characters"
    );
}

#[test]
fn config_defaults() {
    assert_eq!(GfxDebugModes::default(), GfxDebugModes::Off);

    let inp = ConfigInput::default();
    assert!(!inp.dbg_mode);

    let gfx = ConfigGfx::default();
    assert_eq!(gfx.backend, "Vulkan");

    let mon = ConfigMonitor::default();
    assert_eq!(mon.name, "");
    assert_eq!(mon.width, 0);
    assert_eq!(mon.height, 0);

    let wnd = ConfigWindow::default();
    assert_eq!(wnd.width, 800);
    assert_eq!(wnd.height, 600);
    assert_eq!(wnd.refresh_rate_mhz, 60000);
    assert!(wnd.fullscreen);
    assert!(wnd.decorated);
    assert!(!wnd.maximized);

    let lim = ConfigSoundLimits::default();
    assert_eq!(lim.max_sounds, 512);
    assert_eq!(lim.max_listeners, 64);
    assert_eq!(lim.max_spatial_scenes, 16);

    let snd = ConfigSound::default();
    assert_eq!(snd.backend, "kira");
    assert_eq!(snd.limits.max_sounds, 512);

    let net = ConfigNetwork::default();
    assert_eq!(net.timeout_ms, 20000);
    assert!(!net.disable_retry_on_connect);

    let dbg = ConfigDebug::default();
    assert_eq!(dbg.gfx, GfxDebugModes::Off);
    assert!(!dbg.bench);
    assert!(!dbg.app);
    assert!(!dbg.untrusted_cert);
}
