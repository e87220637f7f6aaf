use hipocast::db::{
    create_default_audio_config_from_global, plan_column_migrations, settings_columns,
    settings_migrations, stream_audio_config_columns, stream_audio_config_migrations,
    streams_columns, streams_migrations, DbSettings,
};
use hipocast::stream_config::{AudioPreset, MicrophonePreset};

fn names(cols: &[(String, String)]) -> Vec<String> {
    cols.iter().map(|c| c.0.clone()).collect()
}

#[test]
fn missing_columns_are_added_in_order() {
    let wanted = vec![
        ("a".to_string(), "TEXT".to_string()),
        ("b".to_string(), "INTEGER NOT NULL DEFAULT 1".to_string()),
        ("c".to_string(), "REAL".to_string()),
    ];
    let existing = vec!["id".to_string(), "b".to_string()];
    assert_eq!(
        plan_column_migrations("t", &wanted, &existing),
        vec!["ALTER TABLE t ADD COLUMN a TEXT", "ALTER TABLE t ADD COLUMN c REAL"]
    );
}

#[test]
fn migrating_twice_changes_nothing() {
    let all = names(&settings_columns());
    assert!(settings_migrations(&all).is_empty());
    assert!(streams_migrations(&names(&streams_columns())).is_empty());
}

#[test]
fn an_old_settings_table_gets_every_new_column() {
    let old = vec!["id".to_string(), "framerate".to_string(), "hls_time".to_string()];
    let stmts = settings_migrations(&old);
    assert_eq!(stmts.len(), 17);
    assert_eq!(stmts[0], "ALTER TABLE settings ADD COLUMN hls_list_size INTEGER NOT NULL DEFAULT 5");
    assert_eq!(
        stmts[12],
        "ALTER TABLE settings ADD COLUMN global_audio_volume REAL NOT NULL DEFAULT 0.7"
    );
    assert_eq!(stmts[16], "ALTER TABLE settings ADD COLUMN global_microphone_custom_filters TEXT");
}

#[test]
fn streams_and_effect_columns() {
    assert_eq!(
        streams_migrations(&vec!["source_type".to_string()]),
        vec!["ALTER TABLE streams ADD COLUMN source_url TEXT"]
    );
    let fx = stream_audio_config_migrations();
    assert_eq!(fx.len(), 8);
    assert_eq!(fx.len(), stream_audio_config_columns().len());
    assert_eq!(
        fx[1],
        "ALTER TABLE stream_audio_config ADD COLUMN audio_effects_preset TEXT NOT NULL DEFAULT 'cleanbalanced'"
    );
}

#[test]
fn default_settings() {
    let s = DbSettings::default();
    assert_eq!(s.framerate, 60);
    assert_eq!(s.hls_time_ms, 2000);
    assert_eq!(s.hls_server_port, 8080);
    assert_eq!(s.bitrate, 6_000_000);
    assert_eq!(s.hls_list_size, 5);
    assert_eq!((s.width, s.height), (1280, 720));
    assert_eq!(s.ffmpeg_preset, "ultrafast");
    assert_eq!(s.global_audio_volume, 1000);
    assert!(s.enable_audio && !s.enable_microphone && s.enable_hw_accel);
}

#[test]
fn new_stream_audio_follows_global_settings() {
    let mut s = DbSettings::default();
    s.enable_microphone = true;
    s.microphone_device = "Mic".to_string();
    s.global_audio_preset = "gaming".to_string();
    s.global_audio_volume = 800;
    s.global_audio_custom_filters = Some("volume=2".to_string());
    let c = create_default_audio_config_from_global(
        "window:1",
        &s,
        AudioPreset::Gaming,
        MicrophonePreset::Balanced,
    );
    assert_eq!(c.stream_id, "window:1");
    assert_eq!(c.audio_mode, "system");
    assert!(c.enable_microphone);
    assert_eq!(c.microphone_device, "Mic");
    assert!(c.audio_effects.enabled);
    assert_eq!(c.audio_effects.preset, AudioPreset::Gaming);
    assert_eq!(c.audio_effects.master_volume, 800);
    assert_eq!(c.audio_effects.custom_filters.as_deref(), Some("volume=2"));
    assert!(!c.microphone_effects.enabled);
    assert_eq!(c.microphone_effects.volume, 1000);

    s.enable_audio = false;
    let muted = create_default_audio_config_from_global("x", &s, AudioPreset::Off, MicrophonePreset::Off);
    assert_eq!(muted.audio_mode, "muted");
}
