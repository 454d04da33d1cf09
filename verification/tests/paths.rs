use caddy_dev::paths::{
    expand_home, get_config_dir, get_main_caddyfile_path, join_path, Environment,
};
use std::path::Path;

fn env(home: Option<&str>, platform: Option<&str>) -> Environment {
    Environment {
        home: home.map(|s| s.to_string()),
        platform_config: platform.map(|s| s.to_string()),
    }
}

#[test]
fn join_puts_one_separator_between_base_and_part() {
    assert_eq!(join_path("/home/u", ".config"), "/home/u/.config");
    assert_eq!(join_path("/home/u/", ".config"), "/home/u/.config");
    assert_eq!(join_path("", "x"), "x");
    assert_eq!(join_path("/", "x"), "/x");
    assert_eq!(join_path("a", ""), "a/");
    assert_eq!(join_path("a", "/etc"), "/etc");
}

#[test]
fn join_agrees_with_the_standard_library() {
    let bases = ["", "/", "/home/u", "/home/u/", "rel", "rel//", ".", "\u{e9}t\u{e9}"];
    let parts = ["", "x", "/abs", "a/b", "Caddyfile.dev", "*/dev", "\u{fc}"];
    for base in bases {
        for part in parts {
            let expected = Path::new(base).join(part).to_string_lossy().into_owned();
            assert_eq!(join_path(base, part), expected);
        }
    }
}

#[test]
fn config_dir_is_under_home() {
    let e = env(Some("/home/alice"), None);
    assert_eq!(e.config_dir(), "/home/alice/.config/caddy-dev");
    assert_eq!(e.main_caddyfile_path(), "/home/alice/.config/caddy-dev/Caddyfile");
    let e = env(Some("/home/alice"), Some("/elsewhere"));
    assert_eq!(e.config_dir(), "/home/alice/.config/caddy-dev");
}

#[test]
fn config_dir_falls_back_to_the_platform_and_then_to_a_default() {
    let e = env(None, Some("/etc/xdg"));
    assert_eq!(e.config_dir(), "/etc/xdg/caddy-dev");
    assert_eq!(e.main_caddyfile_path(), "/etc/xdg/caddy-dev/Caddyfile");
    let e = env(None, None);
    assert_eq!(e.config_dir(), "/home/.config/caddy-dev");
    assert_eq!(e.main_caddyfile_path(), "/home/.config/caddy-dev/Caddyfile");
}

#[test]
fn detected_paths_follow_the_system() {
    let e = Environment::detect();
    assert_eq!(e.home, dirs::home_dir().map(|p| p.to_string_lossy().into_owned()));
    if e.home.is_some() {
        assert_eq!(e.platform_config, None);
    } else {
        assert_eq!(
            e.platform_config,
            dirs::config_dir().map(|p| p.to_string_lossy().into_owned())
        );
    }
    let expected = match dirs::home_dir() {
        Some(home) => home.join(".config").join("caddy-dev"),
        None => dirs::config_dir()
            .unwrap_or_else(|| std::path::PathBuf::from("/home/.config"))
            .join("caddy-dev"),
    };
    assert_eq!(get_config_dir(), expected.to_string_lossy());
    assert_eq!(get_main_caddyfile_path(), expected.join("Caddyfile").to_string_lossy());
    assert_eq!(get_config_dir(), get_config_dir());
}

#[test]
fn a_leading_tilde_is_expanded() {
    let home = Some("/home/alice".to_string());
    assert_eq!(expand_home("~/projects/*/Caddyfile.dev", &home), "/home/alice/projects/*/Caddyfile.dev");
    assert_eq!(expand_home("~/", &home), "/home/alice/");
    assert_eq!(expand_home("~", &home), "/home/alice/");
    assert_eq!(expand_home("~//etc", &home), "/etc");
    assert_eq!(expand_home("/srv/app", &home), "/srv/app");
    assert_eq!(expand_home("a~b", &home), "a~b");
    assert_eq!(expand_home("", &home), "");
}

#[test]
fn without_a_home_the_entry_stays() {
    assert_eq!(expand_home("~/projects", &None), "~/projects");
    assert_eq!(expand_home("/srv", &None), "/srv");
}
