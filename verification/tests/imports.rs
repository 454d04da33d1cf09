use caddy_dev::imports::{
    has_wildcard, import_target_of, render_import_config, trim_trailing_slashes,
};

const HEADER: &str = "# Auto-generated by caddy-dev init\n# Edit this file or run 'caddy-dev init' to reconfigure\n\n# Import Caddyfile.dev files from configured folders\n";

#[test]
fn trailing_slashes_are_removed() {
    for s in ["", "/", "///", "/srv/app/", "/srv/app//", "a/b", "a/*/", "\u{e9}/"] {
        assert_eq!(trim_trailing_slashes(s), s.trim_end_matches('/'));
    }
}

#[test]
fn wildcards_are_found() {
    assert!(has_wildcard("proj/*/dev"));
    assert!(has_wildcard("file?.txt"));
    assert!(!has_wildcard("/srv/app"));
    assert!(!has_wildcard(""));
}

#[test]
fn a_folder_gets_the_one_level_suffix_and_a_pattern_stays() {
    assert_eq!(import_target_of("/srv/app"), "/srv/app/*/Caddyfile.dev");
    assert_eq!(import_target_of("/srv/app///"), "/srv/app/*/Caddyfile.dev");
    assert_eq!(import_target_of("proj/*/dev"), "proj/*/dev");
    assert_eq!(import_target_of("proj/*/"), "proj/*");
    assert_eq!(import_target_of(""), "/*/Caddyfile.dev");
}

#[test]
fn the_configuration_has_two_lines_for_each_folder() {
    let folders = vec!["/srv/app".to_string(), "proj/*/dev".to_string()];
    let text = render_import_config(&folders);
    let expected = format!(
        "{}# Pattern: /srv/app\nimport /srv/app/*/Caddyfile.dev\n# Pattern: proj/*/dev\nimport proj/*/dev\n",
        HEADER
    );
    assert_eq!(text, expected);
    let lines: Vec<&str> = text.lines().collect();
    assert!(lines.contains(&"import /srv/app/*/Caddyfile.dev"));
    assert!(lines.contains(&"import proj/*/dev"));
}

#[test]
fn the_comment_quotes_the_entry_with_its_slashes() {
    let text = render_import_config(&vec!["/srv/app/".to_string()]);
    assert_eq!(text, format!("{}# Pattern: /srv/app/\nimport /srv/app/*/Caddyfile.dev\n", HEADER));
}

#[test]
fn without_folders_only_the_header_is_left() {
    assert_eq!(render_import_config(&Vec::new()), HEADER);
}
