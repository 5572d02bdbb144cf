use league_record::credentials::{parse_lockfile, CredentialsError};
use league_record::lp::{solo_queue_lp, RankedQueueEntry};
use league_record::modes::{effective_mode, mode_allowed};
use league_record::settings::{
    default_clips_folder, default_filename_format, default_recordings_folder, MarkerFlags,
    Settings, SettingsFile,
};

#[test]
fn lockfile_parses_port_and_token() {
    let c = parse_lockfile("LeagueClient:2044:54321:secret-token:https").expect("valid lockfile");
    assert_eq!(c.port, 54321);
    assert_eq!(c.token, String::from("secret-token"));
}

#[test]
fn lockfile_protocol_keeps_extra_colons() {
    let c = parse_lockfile("n:1:8080:tok:https:extra").expect("valid lockfile");
    assert_eq!(c.port, 8080);
    assert_eq!(c.token, String::from("tok"));
}

#[test]
fn lockfile_with_missing_fields_is_rejected() {
    assert_eq!(parse_lockfile(""), Err(CredentialsError::ParseCredentials));
    assert_eq!(parse_lockfile("a:b:c"), Err(CredentialsError::ParseCredentials));
}

#[test]
fn lockfile_with_bad_port_is_rejected() {
    assert_eq!(
        parse_lockfile("n:1:notaport:tok:https"),
        Err(CredentialsError::ParseCredentialsPort)
    );
    assert_eq!(
        parse_lockfile("n:1:70000:tok:https"),
        Err(CredentialsError::ParseCredentialsPort)
    );
    assert_eq!(parse_lockfile("n:1::tok:https"), Err(CredentialsError::ParseCredentialsPort));
}

#[test]
fn solo_queue_lp_extraction() {
    let entries = vec![
        RankedQueueEntry { queue_type: String::from("RANKED_FLEX_SR"), league_points: 12 },
        RankedQueueEntry { queue_type: String::from("RANKED_SOLO_5x5"), league_points: 55 },
    ];
    assert_eq!(solo_queue_lp(&entries), Some(55));
    let flex_only =
        vec![RankedQueueEntry { queue_type: String::from("RANKED_FLEX_SR"), league_points: 12 }];
    assert_eq!(solo_queue_lp(&flex_only), None);
    assert_eq!(solo_queue_lp(&Vec::new()), None);
}

#[test]
fn queue_id_mode_mapping() {
    assert_eq!(effective_mode(420, &None), String::from("RANKED"));
    assert_eq!(effective_mode(440, &None), String::from("RANKED"));
    assert_eq!(effective_mode(400, &None), String::from("NORMAL"));
    assert_eq!(effective_mode(450, &None), String::from("ARAM"));
    assert_eq!(effective_mode(3140, &None), String::from("PRACTICE_TOOL"));
    assert_eq!(effective_mode(1700, &None), String::from("CHERRY"));
    assert_eq!(effective_mode(850, &None), String::from("COOP_VS_AI"));
    assert_eq!(effective_mode(1100, &None), String::from("TFT"));
    assert_eq!(effective_mode(0, &None), String::from("CUSTOM"));
}

#[test]
fn unknown_queue_falls_back_to_game_mode() {
    assert_eq!(
        effective_mode(9999, &Some(String::from("URF"))),
        String::from("URF")
    );
    assert_eq!(effective_mode(9999, &None), String::from("UNKNOWN"));
}

#[test]
fn allow_list_checks() {
    let allowed = Some(vec![String::from("aram"), String::from("Ranked")]);
    assert!(mode_allowed(450, &None, &allowed));
    assert!(mode_allowed(420, &None, &allowed));
    assert!(!mode_allowed(0, &None, &allowed));
    assert!(mode_allowed(0, &None, &None));
    assert!(mode_allowed(0, &None, &Some(Vec::new())));
}

#[test]
fn settings_defaults() {
    let s = Settings::default();
    assert_eq!(s.recordings_folder, default_recordings_folder());
    assert_eq!(s.clips_folder, default_clips_folder());
    assert_eq!(s.filename_format, default_filename_format());
    assert_eq!(s.recordings_folder, String::from("league_recordings"));
    assert_eq!(s.clips_folder, String::from("league_recordings/clips"));
    assert_eq!(s.filename_format, String::from("%Y-%m-%d_%H-%M.mp4"));
    assert_eq!(s.encoding_quality, 25);
    assert_eq!(s.framerate.num, 30);
    assert_eq!(s.framerate.den, 1);
    assert!(s.confirm_delete);
    assert!(!s.auto_popup_on_end);
    assert_eq!(s.start_recording_hotkey, Some(String::from("F9")));
    assert_eq!(s.stop_recording_hotkey, Some(String::from("F12")));
    assert_eq!(s.game_modes, None);
    assert_eq!(s.marker_flags, MarkerFlags::default());
    assert!(s.marker_flags.kill && s.marker_flags.baron);
}

#[test]
fn settings_setters() {
    let mut s = Settings::default();
    let flags = MarkerFlags {
        kill: false,
        death: true,
        assist: false,
        structure: true,
        dragon: false,
        voidgrub: true,
        herald: false,
        baron: true,
    };
    s.set_marker_flags(flags);
    assert_eq!(s.get_marker_flags(), flags);
    s.set_confirm_delete(false);
    assert!(!s.confirm_delete());
}

#[test]
fn settings_file_keeps_path() {
    let f = SettingsFile::new(String::from("/tmp/settings.json"));
    assert_eq!(f.get(), "/tmp/settings.json");
}
