use system76_power::display::{
    detect_display_server, detect_from_env, detect_server_from_env_vars, DisplayServer,
    RefreshRateConfig,
};

#[test]
fn test_detect_display_server() {
    // Just verify it doesn't crash
    let _ = detect_display_server(None, None);
}

#[test]
fn test_refresh_rate_config_default() {
    let config = RefreshRateConfig::default();
    assert_eq!(config.battery, 60);
    assert_eq!(config.performance, 165);
    assert!(config.enabled);
}

#[test]
fn display_server_detection_order() {
    assert_eq!(detect_display_server(None, None), DisplayServer::Unknown);
    assert_eq!(detect_display_server(Some(DisplayServer::X11), Some(DisplayServer::Wayland)), DisplayServer::X11);
    assert_eq!(detect_display_server(None, Some(DisplayServer::GnomeWayland)), DisplayServer::GnomeWayland);
}

fn pairs(v: &[(&str, &str)]) -> Vec<(String, String)> {
    v.iter().map(|(a, b)| (a.to_string(), b.to_string())).collect()
}

#[test]
fn display_server_from_environment() {
    assert_eq!(detect_from_env(Some("wayland"), Some("ubuntu:GNOME"), Some("wayland-0"), None), Some(DisplayServer::GnomeWayland));
    assert_eq!(detect_from_env(Some("wayland"), Some("KDE"), Some("wayland-0"), None), Some(DisplayServer::Wayland));
    assert_eq!(detect_from_env(Some("x11"), None, None, Some(":0")), Some(DisplayServer::X11));
    assert_eq!(detect_from_env(None, None, None, None), None);
    let env = pairs(&[("XDG_SESSION_TYPE", "wayland"), ("XDG_CURRENT_DESKTOP", "pop:GNOME"), ("WAYLAND_DISPLAY", "wayland-0")]);
    assert_eq!(detect_server_from_env_vars(&env), Some(DisplayServer::GnomeWayland));
    assert_eq!(detect_server_from_env_vars(&pairs(&[("DISPLAY", ":1")])), Some(DisplayServer::X11));
    assert_eq!(detect_server_from_env_vars(&Vec::new()), None);
}
