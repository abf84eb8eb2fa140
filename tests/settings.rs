use nowplaying::config::{Config, ConfigAttribute, ConfigError, ConfigGroup};
use nowplaying::number::{parse_u64, push_decimal_text};
use nowplaying::web_display::static_file_path;

fn attr(name: &str, value: &str) -> ConfigAttribute {
    ConfigAttribute { name: name.to_string(), value: value.to_string() }
}

fn group(name: &str, attributes: Vec<ConfigAttribute>) -> ConfigGroup {
    ConfigGroup { name: name.to_string(), attributes }
}

#[test]
fn read_config_general_overrides() {
    let d = Config::new("/w/");
    let groups = vec![group(
        "general",
        vec![
            attr("nowplaying_path", "/tmp/np.txt"),
            attr("display_artist", "false"),
            attr("display_title", "true"),
            attr("sleep_duration", "250"),
            attr("port", "8080"),
        ],
    )];
    let c = Config::read_config(&d, &groups).unwrap();
    assert_eq!(c.nowplaying_path, "/tmp/np.txt");
    assert!(!c.display_artist);
    assert!(c.display_album);
    assert!(c.display_title);
    assert_eq!(c.sleep_duration_ms, 250);
    assert_eq!(c.port, "9500");
    assert_eq!(c.web_files_text, vec!["/nowplaying.html", "/nowplaying.css", "/nowplaying.js"]);
}

#[test]
fn read_config_web_files_replace_defaults() {
    let d = Config::new("/w/");
    let groups = vec![
        group("web_files", vec![attr("web_file0", "/a.html"), attr("other", "/skip"), attr("web_file1", "/b.css")]),
        group("web_files", vec![attr("web_file2", "/c.js")]),
        group("unknown", vec![attr("web_file3", "/d.js")]),
    ];
    let c = Config::read_config(&d, &groups).unwrap();
    assert_eq!(c.web_files_text, vec!["/a.html", "/b.css", "/c.js"]);
}

#[test]
fn read_config_first_entry_wins() {
    let d = Config::new("/w/");
    let groups = vec![group("general", vec![attr("display_album", "false"), attr("display_album", "true")])];
    assert!(!Config::read_config(&d, &groups).unwrap().display_album);
}

#[test]
fn read_config_bad_switch() {
    let d = Config::new("/w/");
    let groups = vec![group("general", vec![attr("sleep_duration", "x"), attr("display_title", "yes")])];
    assert!(matches!(Config::read_config(&d, &groups), Err(ConfigError::NotABool)));
}

#[test]
fn read_config_bad_interval() {
    let d = Config::new("/w/");
    let groups = vec![group("general", vec![attr("sleep_duration", "1s")])];
    assert!(matches!(Config::read_config(&d, &groups), Err(ConfigError::NotANumber)));
}

#[test]
fn read_config_no_groups_keeps_defaults() {
    let d = Config::new("/w/");
    let c = Config::read_config(&d, &Vec::new()).unwrap();
    assert_eq!(c.nowplaying_path, "/w/now_playing.txt");
    assert_eq!(c.sleep_duration_ms, 1000);
}

#[test]
fn default_groups_record_settings() {
    let d = Config::new("/w/");
    let groups = d.default_config_groups();
    assert_eq!(groups.len(), 2);
    assert_eq!(groups[0].name, "general");
    let general: Vec<(String, String)> = groups[0].attributes.iter().map(|a| (a.name.clone(), a.value.clone())).collect();
    let expected: Vec<(String, String)> = [
        ("nowplaying_path", "/w/now_playing.txt"),
        ("display_artist", "true"),
        ("display_album", "true"),
        ("display_title", "true"),
        ("sleep_duration", "1000"),
        ("port", "9500"),
        ("public", "false"),
    ]
    .iter()
    .map(|(n, v)| (n.to_string(), v.to_string()))
    .collect();
    assert_eq!(general, expected);
    assert_eq!(groups[1].name, "web_files");
    let web: Vec<(String, String)> = groups[1].attributes.iter().map(|a| (a.name.clone(), a.value.clone())).collect();
    assert_eq!(
        web,
        vec![
            ("web_file0".to_string(), "/nowplaying.html".to_string()),
            ("web_file1".to_string(), "/nowplaying.css".to_string()),
            ("web_file2".to_string(), "/nowplaying.js".to_string()),
        ]
    );
}

#[test]
fn default_groups_read_back() {
    let d = Config::new("/w/");
    let c = Config::read_config(&d, &d.default_config_groups()).unwrap();
    assert_eq!(c.nowplaying_path, d.nowplaying_path);
    assert_eq!(c.web_files_text, d.web_files_text);
    assert_eq!(c.sleep_duration_ms, d.sleep_duration_ms);
}

#[test]
fn number_parsing() {
    assert_eq!(parse_u64("0"), Some(0));
    assert_eq!(parse_u64("+42"), Some(42));
    assert_eq!(parse_u64("18446744073709551615"), Some(u64::MAX));
    assert_eq!(parse_u64("18446744073709551616"), None);
    assert_eq!(parse_u64(" 1"), None);
    assert_eq!(parse_u64(""), None);
}

#[test]
fn decimal_text() {
    let mut s = String::from("n=");
    push_decimal_text(&mut s, 0);
    assert_eq!(s, "n=0");
    let mut s = String::new();
    push_decimal_text(&mut s, 1050);
    assert_eq!(s, "1050");
    let mut s = String::new();
    push_decimal_text(&mut s, u64::MAX);
    assert_eq!(s, "18446744073709551615");
}

#[test]
fn static_file_location() {
    assert_eq!(static_file_path("/home/u/.local/share/np/", "/x.html"), "/home/u/.local/share/np/web_display/x.html");
}
