use adget::flow::{
    check_login, classify_link, config_start, poll_step, set_apikey, unlock_step, upload_step,
    ConfigStep, LinkKind, Login, PollStep, UnlockStep, UploadStep,
};
use humansize::{format_size, DECIMAL};
use adget::progress::{downloading_line, uploading_line};
use adget::{
    read_response, Config, DetailedMagnet, Error, Magnet, MagnetLink, MagnetStatus,
    MagnetUpload, Res, Response, ResponseFault, UnlockLink, User, UserData,
};

fn error(message: &str) -> Error {
    Error { code: "AUTH_BAD_APIKEY".to_string(), message: message.to_string() }
}

fn unlocked(link: &str) -> UnlockLink {
    UnlockLink {
        link: link.to_string(),
        host: "alligator".to_string(),
        filename: "somefile.zip".to_string(),
        paws: false,
        filesize: 1234,
        id: "x1".to_string(),
        delayed: None,
    }
}

fn magnet(error: Option<Error>, id: Option<u64>) -> Magnet {
    Magnet {
        magnet: "magnet:?xt=urn:btih:00".to_string(),
        error,
        hash: None,
        name: None,
        size: None,
        ready: Some(false),
        id,
    }
}

fn link(name: &str) -> MagnetLink {
    MagnetLink { filename: name.to_string(), size: 1, files: Vec::new(), link: format!("https://files/{}", name) }
}

fn detailed(status: &str, links: Vec<MagnetLink>) -> DetailedMagnet {
    DetailedMagnet {
        id: 9,
        filename: "movie".to_string(),
        size: 2_000_000,
        hash: "h".to_string(),
        status: status.to_string(),
        status_code: 1,
        downloaded: 1_000_000,
        uploaded: 500,
        seeders: 5,
        download_speed: 1000,
        processing_perc: 0,
        upload_speed: 250_000,
        upload_date: 0,
        completion_date: 0,
        links,
        kind: "m".to_string(),
        notified: false,
        version: 2,
    }
}

fn status_reply(status: &str, links: Vec<MagnetLink>) -> Res<MagnetStatus> {
    Res::Data(MagnetStatus { magnets: detailed(status, links) })
}

#[test]
fn success_envelope_gives_data() {
    let r = Response { status: "success".to_string(), data: Some(7u64), error: None };
    match read_response(r) {
        Ok(Res::Data(7)) => {}
        _ => panic!("expected data"),
    }
}

#[test]
fn success_without_data_is_a_fault() {
    let r: Response<u64> = Response { status: "success".to_string(), data: None, error: Some(error("x")) };
    assert!(matches!(read_response(r), Err(ResponseFault::MissingData)));
}

#[test]
fn error_envelope_gives_error() {
    let r: Response<u64> = Response { status: "error".to_string(), data: Some(3), error: Some(error("bad key")) };
    match read_response(r) {
        Ok(Res::Error(e)) => assert_eq!(e.message, "bad key"),
        _ => panic!("expected the service's error"),
    }
}

#[test]
fn error_without_error_is_a_fault() {
    let r: Response<u64> = Response { status: "Success".to_string(), data: Some(3), error: None };
    assert!(matches!(read_response(r), Err(ResponseFault::MissingError)));
}

#[test]
fn links_are_classified_by_prefix() {
    assert_eq!(classify_link("magnet:?xt=urn:btih:abc"), LinkKind::Magnet);
    assert_eq!(classify_link("https://alligator.com/somefile.zip"), LinkKind::Premium);
    assert_eq!(classify_link("http://host/f"), LinkKind::Premium);
    assert_eq!(classify_link("ftp://host/f"), LinkKind::Other);
    assert_eq!(classify_link(""), LinkKind::Other);
}

#[test]
fn missing_key_is_asked_for() {
    let config = Config::default();
    assert_eq!(config.apikey, "");
    assert!(matches!(config_start(&config), ConfigStep::AskForKey));
}

#[test]
fn stored_key_is_checked() {
    let config = Config { apikey: "KEY".to_string() };
    match config_start(&config) {
        ConfigStep::Validate(url) => {
            assert_eq!(url, "https://api.alldebrid.com/v4/user?agent=cli&apikey=KEY")
        }
        ConfigStep::AskForKey => panic!("the key is there"),
    }
}

#[test]
fn typed_key_is_trimmed() {
    let mut config = Config::default();
    set_apikey(&mut config, "  abcdef\n");
    assert_eq!(config.apikey, "abcdef");
    assert!(matches!(config_start(&config), ConfigStep::Validate(_)));
}

#[test]
fn blank_line_asks_again() {
    let mut config = Config::default();
    set_apikey(&mut config, " \t\r\n");
    assert_eq!(config.apikey, "");
    assert!(matches!(config_start(&config), ConfigStep::AskForKey));
}

#[test]
fn rejected_key_is_forgotten_and_asked_again() {
    let mut config = Config { apikey: "stale".to_string() };
    let outcome = check_login(&mut config, Res::Error(error("The auth apikey is invalid")));
    assert!(matches!(outcome, Login::Rejected));
    assert_eq!(config.apikey, "");
    assert!(matches!(config_start(&config), ConfigStep::AskForKey));
}

#[test]
fn accepted_key_is_kept() {
    let mut config = Config { apikey: "good".to_string() };
    let reply = Res::Data(User { user: UserData { username: "alice".to_string() } });
    match check_login(&mut config, reply) {
        Login::LoggedIn(name) => assert_eq!(name, "alice"),
        Login::Rejected => panic!("accepted"),
    }
    assert_eq!(config.apikey, "good");
}

#[test]
fn upload_refused_request() {
    assert!(matches!(upload_step(Res::Error(error("nope"))), UploadStep::Failed(e) if e.message == "nope"));
}

#[test]
fn upload_refused_magnet() {
    let reply = Res::Data(MagnetUpload { magnets: vec![magnet(Some(error("bad magnet")), Some(3))] });
    assert!(matches!(upload_step(reply), UploadStep::Refused(e) if e.message == "bad magnet"));
}

#[test]
fn upload_gives_the_first_id() {
    let reply = Res::Data(MagnetUpload { magnets: vec![magnet(None, Some(31)), magnet(None, Some(32))] });
    assert!(matches!(upload_step(reply), UploadStep::Poll(31)));
}

#[test]
fn upload_without_magnet_or_id() {
    let empty = Res::Data(MagnetUpload { magnets: Vec::new() });
    assert!(matches!(upload_step(empty), UploadStep::NoMagnet));
    let no_id = Res::Data(MagnetUpload { magnets: vec![magnet(None, None)] });
    assert!(matches!(upload_step(no_id), UploadStep::NoId));
}

#[test]
fn progress_lines() {
    let m = detailed("Downloading", Vec::new());
    assert_eq!(downloading_line(&m), "Downloading -      1 MB/     2 MB (     1 kB/s,  5 seeders)");
    assert_eq!(uploading_line(&m), "Uploading -     500 B/     2 MB (   250 kB/s)");
}

#[test]
fn progress_lines_match_format() {
    let m = detailed("Uploading", Vec::new());
    let expected = format!(
        "Downloading - {: >9}/{: >9} ({: >9}/s, {: >2} seeders)",
        format_size(m.downloaded, DECIMAL),
        format_size(m.size, DECIMAL),
        format_size(m.download_speed, DECIMAL),
        m.seeders
    );
    assert_eq!(downloading_line(&m), expected);
}

#[test]
fn poll_failed_request() {
    assert!(matches!(poll_step(Res::Error(error("gone"))), PollStep::Failed(e) if e.message == "gone"));
}

#[test]
fn poll_ready_unlocks_the_link() {
    match poll_step(status_reply("Ready", vec![link("a")])) {
        PollStep::Unlock(l) => assert_eq!(l, "https://files/a"),
        _ => panic!("expected unlock"),
    }
}

#[test]
fn poll_ready_folder_is_refused() {
    match poll_step(status_reply("Ready", vec![link("a"), link("b")])) {
        PollStep::Folder(links) => assert_eq!(links.len(), 2),
        _ => panic!("expected folder"),
    }
}

#[test]
fn poll_ready_without_links() {
    assert!(matches!(poll_step(status_reply("Ready", Vec::new())), PollStep::NoLinks));
}

#[test]
fn poll_downloading_and_uploading_show_progress() {
    match poll_step(status_reply("Downloading", Vec::new())) {
        PollStep::Progress(line) => assert!(line.starts_with("Downloading - ")),
        _ => panic!("expected progress"),
    }
    match poll_step(status_reply("Uploading", Vec::new())) {
        PollStep::Progress(line) => assert_eq!(line, "Uploading -     500 B/     2 MB (   250 kB/s)"),
        _ => panic!("expected progress"),
    }
}

#[test]
fn poll_other_states_are_shown() {
    match poll_step(status_reply("Processing", vec![link("a")])) {
        PollStep::Status(s) => assert_eq!(s, "Processing"),
        _ => panic!("expected the state"),
    }
    assert!(matches!(poll_step(status_reply("ready", vec![link("a")])), PollStep::Status(_)));
}

#[test]
fn unlock_steps() {
    assert!(matches!(unlock_step(Res::Error(error("no")), true), UnlockStep::Failed(e) if e.message == "no"));
    match unlock_step(Res::Data(unlocked("https://dl/x.zip")), true) {
        UnlockStep::Print(l) => assert_eq!(l, "https://dl/x.zip"),
        _ => panic!("expected print"),
    }
    match unlock_step(Res::Data(unlocked("https://dl/x.zip")), false) {
        UnlockStep::Download(l) => assert_eq!(l, "https://dl/x.zip"),
        _ => panic!("expected download"),
    }
}
