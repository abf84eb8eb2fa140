use nowplaying::config::Config;
use nowplaying::mpris_mediaplayer2::{is_playing_status, media_players_from_names, ArtistField, PlayerMetadata};
use nowplaying::nowplaying::{
    console_report, first_step, format_status_line, step_after_status, DisplayPreferences, Mailbox,
    NowplayingData, Service, TickStep,
};
use nowplaying::web_display::{
    check_port, file_response, nowplaying_json, HttpResponse, HttpStatus, PortError, RequestAction, WebDisplay,
};

fn meta(artist: &str, title: &str, album: &str) -> PlayerMetadata {
    PlayerMetadata { artist: artist.to_string(), title: title.to_string(), album: album.to_string() }
}

fn data(artist: &str, title: &str, album: &str) -> NowplayingData {
    NowplayingData { current_artist: artist.to_string(), current_title: title.to_string(), current_album: album.to_string() }
}

fn all_shown() -> DisplayPreferences {
    DisplayPreferences { show_artist: true, show_album: true, show_title: true }
}

fn display(files: &[&str]) -> WebDisplay {
    let files: Vec<String> = files.iter().map(|f| f.to_string()).collect();
    match WebDisplay::new("9500".to_string(), files, false) {
        Ok(w) => w,
        Err(_) => panic!("port 9500 is accepted"),
    }
}

fn respond(action: RequestAction) -> HttpResponse {
    match action {
        RequestAction::Respond(r) => r,
        _ => panic!("expected a response"),
    }
}

#[test]
fn mailbox_coalesces_to_latest() {
    let mut mb = Mailbox::new();
    mb.send(data("a1", "t1", ""));
    mb.send(data("a2", "t2", ""));
    mb.send(data("a3", "t3", "c3"));
    let first = mb.drain_latest(NowplayingData::new());
    assert_eq!(first.current_artist, "a3");
    assert_eq!(first.current_title, "t3");
    assert_eq!(first.current_album, "c3");
    let second = mb.drain_latest(first);
    assert_eq!(second.current_artist, "a3");
    assert_eq!(second.current_title, "t3");
    assert_eq!(second.current_album, "c3");
}

#[test]
fn mailbox_empty_drain_keeps_cached() {
    let mut mb = Mailbox::new();
    let r = WebDisplay::get_nowplaying_data(&mut mb, data("x", "y", "z"));
    assert_eq!(r.current_artist, "x");
    assert_eq!(r.current_title, "y");
    assert_eq!(r.current_album, "z");
}

#[test]
fn same_snapshot_twice_emits_once() {
    let cfg = Config::new("/tmp/");
    let mut svc = Service::new(&cfg);
    let first = svc.observe("vlc", meta("A", "B", "C"));
    assert!(first.is_some());
    let second = svc.observe("vlc", meta("A", "B", "C"));
    assert!(second.is_none());
    let third = svc.observe("vlc", meta("A", "B2", "C"));
    assert!(third.is_some());
}

#[test]
fn empty_snapshot_at_start_is_not_a_change() {
    let cfg = Config::new("/tmp/");
    let mut svc = Service::new(&cfg);
    assert!(svc.observe("vlc", PlayerMetadata::new()).is_none());
}

#[test]
fn emission_carries_line_data_and_console() {
    let cfg = Config::new("/tmp/");
    let mut svc = Service::new(&cfg);
    let e = svc.observe("spotify", meta("A", "B", "C")).unwrap();
    assert_eq!(e.status_line, "A - \"B\" [C]     ");
    assert_eq!(e.data.current_artist, "A");
    assert_eq!(e.data.current_title, "B");
    assert_eq!(e.data.current_album, "C");
    assert_eq!(e.console, "spotify\nartist: A\ntitle: B\nalbum: C\n\n");
}

#[test]
fn status_line_all_fields() {
    assert_eq!(format_status_line(&meta("A", "B", "C"), all_shown()), "A - \"B\" [C]     ");
}

#[test]
fn status_line_artist_only() {
    // No dash and no brackets; a non-empty line is always padded.
    assert_eq!(format_status_line(&meta("A", "", ""), all_shown()), "A     ");
}

#[test]
fn status_line_empty() {
    assert_eq!(format_status_line(&meta("", "", ""), all_shown()), "");
}

#[test]
fn status_line_hidden_fields() {
    let prefs = DisplayPreferences { show_artist: false, show_album: true, show_title: true };
    assert_eq!(format_status_line(&meta("A", "B", ""), prefs), " - \"B\"     ");
    let none = DisplayPreferences { show_artist: false, show_album: false, show_title: false };
    assert_eq!(format_status_line(&meta("A", "B", "C"), none), "");
}

#[test]
fn console_masks_hidden_fields() {
    let prefs = DisplayPreferences { show_artist: true, show_album: false, show_title: false };
    assert_eq!(
        console_report("vlc", &meta("A", "B", "C"), prefs),
        "vlc\nartist: A\ntitle (hidden): B\nalbum (hidden): C\n\n"
    );
}

#[test]
fn routing_serves_whitelisted_file() {
    let w = display(&["/x.html"]);
    let mut mb = Mailbox::new();
    let (action, _) = w.handle_http_request(Some("GET /x.html HTTP/1.1".to_string()), &mut mb, NowplayingData::new());
    match action {
        RequestAction::ReadFile(p) => assert_eq!(p, "/x.html"),
        _ => panic!("expected a file read"),
    }
    let resp = file_response(Some(b"<p>hi</p>".to_vec()));
    assert_eq!(resp.status, HttpStatus::Success);
    assert_eq!(resp.body, b"<p>hi</p>".to_vec());
    assert_eq!(resp.to_bytes(), b"HTTP/1.1 200 OK\r\nContent-Length: 9\r\n\r\n<p>hi</p>".to_vec());
}

#[test]
fn routing_missing_file_is_not_found() {
    let resp = file_response(None);
    assert_eq!(resp.status, HttpStatus::NotFound);
    assert!(resp.body.is_empty());
    assert_eq!(resp.to_bytes(), b"HTTP/1.1 404 NOT FOUND\r\nContent-Length: 0\r\n\r\n".to_vec());
}

#[test]
fn routing_other_path_is_forbidden() {
    let w = display(&["/x.html"]);
    let mut mb = Mailbox::new();
    let (action, _) = w.handle_http_request(Some("GET /y.html HTTP/1.1".to_string()), &mut mb, NowplayingData::new());
    let resp = respond(action);
    assert_eq!(resp.status, HttpStatus::Forbidden);
    assert_eq!(resp.to_bytes(), b"HTTP/1.1 403 FORBIDDEN\r\nContent-Length: 0\r\n\r\n".to_vec());
}

#[test]
fn unreadable_request_is_dropped() {
    let w = display(&["/x.html"]);
    let mut mb = Mailbox::new();
    mb.send(data("A", "B", ""));
    let (action, cached) = w.handle_http_request(None, &mut mb, data("old", "t", ""));
    assert!(matches!(action, RequestAction::Drop));
    assert_eq!(cached.current_artist, "old");
    let r = mb.drain_latest(cached);
    assert_eq!(r.current_artist, "A");
}

#[test]
fn nowplaying_endpoint_without_album() {
    let w = display(&[]);
    let mut mb = Mailbox::new();
    mb.send(data("A", "B", ""));
    let (action, cached) = w.handle_http_request(Some("GET /nowplaying HTTP/1.1".to_string()), &mut mb, NowplayingData::new());
    let resp = respond(action);
    assert_eq!(resp.status, HttpStatus::Success);
    assert_eq!(resp.body, b"{\"nowplaying\":{\"title\":\"B\",\"artist\":\"A\"}}".to_vec());
    assert_eq!(cached.current_artist, "A");
}

#[test]
fn nowplaying_endpoint_with_album() {
    assert_eq!(nowplaying_json(&data("A", "B", "C")), "{\"nowplaying\":{\"title\":\"B [C]\",\"artist\":\"A\"}}");
}

#[test]
fn nowplaying_endpoint_serves_cached_when_nothing_new() {
    let w = display(&[]);
    let mut mb = Mailbox::new();
    let (action, _) = w.handle_http_request(Some("GET /nowplaying HTTP/1.1".to_string()), &mut mb, data("A", "B", "C"));
    let resp = respond(action);
    let body = b"{\"nowplaying\":{\"title\":\"B [C]\",\"artist\":\"A\"}}".to_vec();
    let mut expected = format!("HTTP/1.1 200 OK\r\nContent-Length: {}\r\n\r\n", body.len()).into_bytes();
    expected.extend(body);
    assert_eq!(resp.to_bytes(), expected);
}

#[test]
fn first_match_picks_only_playing_player() {
    let statuses = [false, true];
    let mut step = first_step(statuses.len());
    let mut fetched = None;
    loop {
        match step {
            TickStep::AskStatus(i) => step = step_after_status(i, statuses.len(), statuses[i]),
            TickStep::FetchMetadata(i) => {
                fetched = Some(i);
                break;
            }
            TickStep::Sleep => break,
        }
    }
    assert_eq!(fetched, Some(1));
}

#[test]
fn first_match_stops_at_first_playing() {
    assert!(step_after_status(0, 2, true) == TickStep::FetchMetadata(0));
    assert!(step_after_status(0, 2, false) == TickStep::AskStatus(1));
    assert!(step_after_status(1, 2, false) == TickStep::Sleep);
    assert!(first_step(0) == TickStep::Sleep);
}

#[test]
fn port_validation() {
    assert_eq!(check_port("9500"), Ok(9500));
    assert_eq!(check_port("80"), Ok(80));
    assert_eq!(check_port("+1024"), Ok(1024));
    assert_eq!(check_port("65535"), Ok(65535));
    assert_eq!(check_port("1023"), Err(PortError::OutOfRange));
    assert_eq!(check_port("65536"), Err(PortError::OutOfRange));
    assert_eq!(check_port("0"), Err(PortError::OutOfRange));
    assert_eq!(check_port("18446744073709551615"), Err(PortError::OutOfRange));
    assert_eq!(check_port("18446744073709551616"), Err(PortError::NotANumber));
    assert_eq!(check_port(""), Err(PortError::NotANumber));
    assert_eq!(check_port("+"), Err(PortError::NotANumber));
    assert_eq!(check_port("95a0"), Err(PortError::NotANumber));
    assert_eq!(check_port("-80"), Err(PortError::NotANumber));
}

#[test]
fn web_display_refuses_bad_port() {
    assert!(matches!(WebDisplay::new("abc".to_string(), Vec::new(), false), Err(PortError::NotANumber)));
    assert!(matches!(WebDisplay::new("1000".to_string(), Vec::new(), false), Err(PortError::OutOfRange)));
    assert_eq!(display(&[]).bind_address(), "127.0.0.1:9500");
}

#[test]
fn players_filtered_from_bus_names() {
    let names = vec![
        "org.freedesktop.DBus".to_string(),
        "org.mpris.MediaPlayer2.vlc".to_string(),
        ":1.42".to_string(),
        "org.mpris.MediaPlayer2.spotify".to_string(),
    ];
    assert_eq!(media_players_from_names(&names), vec!["vlc".to_string(), "spotify".to_string()]);
}

#[test]
fn playback_status() {
    assert!(is_playing_status(&"Playing".to_string()));
    assert!(!is_playing_status(&"Paused".to_string()));
    assert!(!is_playing_status(&"playing".to_string()));
}

#[test]
fn metadata_from_reported_fields() {
    let m = PlayerMetadata::new().update_metadata_of_player(
        Some(ArtistField::List(vec!["X".to_string(), "Y".to_string()])),
        Some("T".to_string()),
        None,
    );
    assert_eq!(m.artist, "X Y ");
    assert_eq!(m.title, "T");
    assert_eq!(m.album, "");
    let m = PlayerMetadata::new().update_metadata_of_player(Some(ArtistField::Single("Z".to_string())), None, Some("Al".to_string()));
    assert_eq!(m.artist, "Z");
    assert_eq!(m.title, "");
    assert_eq!(m.album, "Al");
}

#[test]
fn metadata_equality_is_structural() {
    assert!(meta("A", "B", "C") == meta("A", "B", "C"));
    assert!(meta("A", "B", "C") != meta("A", "B", ""));
}

#[test]
fn default_config() {
    let c = Config::new("/home/u/.local/share/app/");
    assert_eq!(c.nowplaying_path, "/home/u/.local/share/app/now_playing.txt");
    assert!(c.display_artist && c.display_album && c.display_title);
    assert_eq!(c.sleep_duration_ms, 1000);
    assert_eq!(c.port, "9500");
    assert_eq!(c.web_files_text, vec!["/nowplaying.html", "/nowplaying.css", "/nowplaying.js"]);
    assert!(!c.public);
}
