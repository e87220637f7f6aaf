//! Stored settings and streams, and the schema migrations of the database.
use vstd::prelude::*;

use crate::stream_config::{
    AudioEffects, AudioPreset, MicrophoneEffects, MicrophonePreset, StreamAudioConfig,
};
use crate::text::{copy_string, push_arg, push_str_arg};

verus! {

/// Application settings as stored. Durations are in milliseconds and gains
/// in thousandths.
#[derive(Debug, Clone)]
pub struct DbSettings {
    pub id: Option<i32>,
    pub framerate: u32,
    /// HLS segment duration in milliseconds.
    pub hls_time_ms: u32,
    pub hls_server_port: u16,
    pub bitrate: u32,
    pub enable_audio: bool,
    pub enable_microphone: bool,
    pub audio_bitrate: u32,
    pub audio_buffer_size: u32,
    pub audio_offset: i32,
    pub audio_device: String,
    pub microphone_device: String,
    pub hls_list_size: u32,
    pub width: u32,
    pub height: u32,
    pub enable_hw_accel: bool,
    pub ffmpeg_preset: String,
    pub global_audio_preset: String,
    /// Global audio gain in thousandths.
    pub global_audio_volume: u32,
    pub global_audio_custom_filters: Option<String>,
    pub global_microphone_preset: String,
    /// Global microphone gain in thousandths.
    pub global_microphone_volume: u32,
    pub global_microphone_custom_filters: Option<String>,
}

impl Default for DbSettings {
    fn default() -> (r: Self)
        ensures
            r.id is None,
            r.framerate == 60,
            r.hls_time_ms == 2000,
            r.hls_server_port == 8080,
            r.bitrate == 6_000_000,
            r.enable_audio,
            !r.enable_microphone,
            r.audio_bitrate == 128,
            r.audio_buffer_size == 50,
            r.audio_offset == 0,
            r.audio_device@ == Seq::<char>::empty(),
            r.microphone_device@ == Seq::<char>::empty(),
            r.hls_list_size == 5,
            r.width == 1280,
            r.height == 720,
            r.enable_hw_accel,
            r.ffmpeg_preset@ == "ultrafast"@,
            r.global_audio_preset@ == "none"@,
            r.global_audio_volume == 1000,
            r.global_audio_custom_filters is None,
            r.global_microphone_preset@ == "none"@,
            r.global_microphone_volume == 1000,
            r.global_microphone_custom_filters is None,
    {
        DbSettings {
            id: None,
            framerate: 60,
            hls_time_ms: 2000,
            hls_server_port: 8080,
            bitrate: 6_000_000,
            enable_audio: true,
            enable_microphone: false,
            audio_bitrate: 128,
            audio_buffer_size: 50,
            audio_offset: 0,
            audio_device: String::new(),
            microphone_device: String::new(),
            hls_list_size: 5,
            width: 1280,
            height: 720,
            enable_hw_accel: true,
            ffmpeg_preset: String::from_str("ultrafast"),
            global_audio_preset: String::from_str("none"),
            global_audio_volume: 1000,
            global_audio_custom_filters: None,
            global_microphone_preset: String::from_str("none"),
            global_microphone_volume: 1000,
            global_microphone_custom_filters: None,
        }
    }
}

/// A stream as stored.
#[derive(Debug, Clone)]
pub struct DbStream {
    pub id: String,
    pub title: String,
    pub status: String,
    pub hls_path: String,
    pub created_at: String,
    pub source_type: String,
    pub source_url: Option<String>,
}

/// A column that a table must have: its name and its SQL definition.
pub open spec fn column_view(c: (String, String)) -> (Seq<char>, Seq<char>) {
    (c.0@, c.1@)
}

/// The `ALTER TABLE` statement that adds a column.
pub open spec fn add_column_statement(table: Seq<char>, name: Seq<char>, definition: Seq<char>) -> Seq<char> {
    "ALTER TABLE "@ + table + " ADD COLUMN "@ + name + " "@ + definition
}

/// The statements that add, in order, each wanted column whose name is not
/// among the existing ones.
pub open spec fn missing_column_statements(
    table: Seq<char>,
    wanted: Seq<(Seq<char>, Seq<char>)>,
    existing: Seq<Seq<char>>,
) -> Seq<Seq<char>>
    decreases wanted.len(),
{
    if wanted.len() == 0 {
        Seq::empty()
    } else {
        let rest = missing_column_statements(table, wanted.drop_last(), existing);
        let c = wanted.last();
        if existing.contains(c.0) {
            rest
        } else {
            rest.push(add_column_statement(table, c.0, c.1))
        }
    }
}

fn contains_string(v: &Vec<String>, s: &String) -> (r: bool)
    ensures
        r == v.deep_view().contains(s@),
{
    let n = v.len();
    for i in 0..n
        invariant
            n == v.len(),
            forall|j: int| 0 <= j < i ==> v.deep_view()[j] != s@,
    {
        if v[i] == *s {
            assert(v.deep_view()[i as int] == s@);
            return true;
        }
    }
    false
}

/// The statements that bring `table` up to date: one `ALTER TABLE ... ADD
/// COLUMN` for each wanted column (name, definition) that the table lacks,
/// given the names of the columns it has.
pub fn plan_column_migrations(
    table: &str,
    wanted: &Vec<(String, String)>,
    existing: &Vec<String>,
) -> (r: Vec<String>)
    ensures
        r.deep_view() == missing_column_statements(
            table@,
            wanted@.map_values(|c: (String, String)| column_view(c)),
            existing.deep_view(),
        ),
{
    let ghost wv = wanted@.map_values(|c: (String, String)| column_view(c));
    let mut out: Vec<String> = Vec::new();
    let n = wanted.len();
    for i in 0..n
        invariant
            n == wanted.len(),
            wv == wanted@.map_values(|c: (String, String)| column_view(c)),
            out.deep_view() == missing_column_statements(
                table@,
                wv.take(i as int),
                existing.deep_view(),
            ),
    {
        assert(wv.take(i + 1).drop_last() =~= wv.take(i as int));
        assert(wv.take(i + 1).last() == column_view(wanted@[i as int]));
        let (name, definition) = (&wanted[i].0, &wanted[i].1);
        if !contains_string(existing, name) {
            let mut stmt = String::from_str("ALTER TABLE ");
            stmt.append(table);
            stmt.append(" ADD COLUMN ");
            stmt.append(name.as_str());
            stmt.append(" ");
            stmt.append(definition.as_str());
            push_arg(&mut out, stmt);
        }
    }
    assert(wv.take(n as int) =~= wv);
    out
}


/// The columns added to `settings` after its first release, in the order
/// they are checked.
pub open spec fn settings_added_columns() -> Seq<(Seq<char>, Seq<char>)> {
    seq![
        ("hls_list_size"@, "INTEGER NOT NULL DEFAULT 5"@),
        ("width"@, "INTEGER NOT NULL DEFAULT 1280"@),
        ("height"@, "INTEGER NOT NULL DEFAULT 720"@),
        ("enable_hw_accel"@, "BOOLEAN NOT NULL DEFAULT 1"@),
        ("ffmpeg_preset"@, "TEXT NOT NULL DEFAULT 'ultrafast'"@),
        ("enable_microphone"@, "BOOLEAN NOT NULL DEFAULT 0"@),
        ("audio_bitrate"@, "INTEGER NOT NULL DEFAULT 128"@),
        ("audio_buffer_size"@, "INTEGER NOT NULL DEFAULT 50"@),
        ("audio_offset"@, "INTEGER NOT NULL DEFAULT 0"@),
        ("audio_device"@, "TEXT NOT NULL DEFAULT 'virtual-audio-capturer'"@),
        ("microphone_device"@, "TEXT NOT NULL DEFAULT 'virtual-audio-capturer'"@),
        ("global_audio_preset"@, "TEXT NOT NULL DEFAULT 'none'"@),
        ("global_audio_volume"@, "REAL NOT NULL DEFAULT 0.7"@),
        ("global_audio_custom_filters"@, "TEXT"@),
        ("global_microphone_preset"@, "TEXT NOT NULL DEFAULT 'balanced'"@),
        ("global_microphone_volume"@, "REAL NOT NULL DEFAULT 1.0"@),
        ("global_microphone_custom_filters"@, "TEXT"@),
    ]
}

/// The columns added to `streams` after its first release.
pub open spec fn streams_added_columns() -> Seq<(Seq<char>, Seq<char>)> {
    seq![
        ("source_type"@, "TEXT NOT NULL DEFAULT 'window'"@),
        ("source_url"@, "TEXT"@),
    ]
}

/// The effect columns added to `stream_audio_config` after its first release.
pub open spec fn stream_audio_config_added_columns() -> Seq<(Seq<char>, Seq<char>)> {
    seq![
        ("audio_effects_enabled"@, "INTEGER NOT NULL DEFAULT 0"@),
        ("audio_effects_preset"@, "TEXT NOT NULL DEFAULT 'cleanbalanced'"@),
        ("audio_effects_custom_filters"@, "TEXT"@),
        ("audio_effects_master_volume"@, "REAL NOT NULL DEFAULT 0.7"@),
        ("microphone_effects_enabled"@, "INTEGER NOT NULL DEFAULT 0"@),
        ("microphone_effects_preset"@, "TEXT NOT NULL DEFAULT 'balanced'"@),
        ("microphone_effects_custom_filters"@, "TEXT"@),
        ("microphone_effects_volume"@, "REAL NOT NULL DEFAULT 1.0"@),
    ]
}

fn push_column(v: &mut Vec<(String, String)>, name: &str, definition: &str)
    ensures
        final(v)@.map_values(|c: (String, String)| column_view(c))
            == old(v)@.map_values(|c: (String, String)| column_view(c)).push((name@, definition@)),
{
    v.push((String::from_str(name), String::from_str(definition)));
    assert(final(v)@.map_values(|c: (String, String)| column_view(c))
        =~= old(v)@.map_values(|c: (String, String)| column_view(c)).push((name@, definition@)));
}

/// The columns added to `settings` after its first release.
pub fn settings_columns() -> (r: Vec<(String, String)>)
    ensures
        r@.map_values(|c: (String, String)| column_view(c)) == settings_added_columns(),
{
    let mut v: Vec<(String, String)> = Vec::new();
    push_column(&mut v, "hls_list_size", "INTEGER NOT NULL DEFAULT 5");
    push_column(&mut v, "width", "INTEGER NOT NULL DEFAULT 1280");
    push_column(&mut v, "height", "INTEGER NOT NULL DEFAULT 720");
    push_column(&mut v, "enable_hw_accel", "BOOLEAN NOT NULL DEFAULT 1");
    push_column(&mut v, "ffmpeg_preset", "TEXT NOT NULL DEFAULT 'ultrafast'");
    push_column(&mut v, "enable_microphone", "BOOLEAN NOT NULL DEFAULT 0");
    push_column(&mut v, "audio_bitrate", "INTEGER NOT NULL DEFAULT 128");
    push_column(&mut v, "audio_buffer_size", "INTEGER NOT NULL DEFAULT 50");
    push_column(&mut v, "audio_offset", "INTEGER NOT NULL DEFAULT 0");
    push_column(&mut v, "audio_device", "TEXT NOT NULL DEFAULT 'virtual-audio-capturer'");
    push_column(&mut v, "microphone_device", "TEXT NOT NULL DEFAULT 'virtual-audio-capturer'");
    push_column(&mut v, "global_audio_preset", "TEXT NOT NULL DEFAULT 'none'");
    push_column(&mut v, "global_audio_volume", "REAL NOT NULL DEFAULT 0.7");
    push_column(&mut v, "global_audio_custom_filters", "TEXT");
    push_column(&mut v, "global_microphone_preset", "TEXT NOT NULL DEFAULT 'balanced'");
    push_column(&mut v, "global_microphone_volume", "REAL NOT NULL DEFAULT 1.0");
    push_column(&mut v, "global_microphone_custom_filters", "TEXT");
    assert(v@.map_values(|c: (String, String)| column_view(c)) =~= settings_added_columns());
    v
}

/// The columns added to `streams` after its first release.
pub fn streams_columns() -> (r: Vec<(String, String)>)
    ensures
        r@.map_values(|c: (String, String)| column_view(c)) == streams_added_columns(),
{
    let mut v: Vec<(String, String)> = Vec::new();
    push_column(&mut v, "source_type", "TEXT NOT NULL DEFAULT 'window'");
    push_column(&mut v, "source_url", "TEXT");
    assert(v@.map_values(|c: (String, String)| column_view(c)) =~= streams_added_columns());
    v
}

/// The effect columns added to `stream_audio_config` after its first release.
pub fn stream_audio_config_columns() -> (r: Vec<(String, String)>)
    ensures
        r@.map_values(|c: (String, String)| column_view(c)) == stream_audio_config_added_columns(),
{
    let mut v: Vec<(String, String)> = Vec::new();
    push_column(&mut v, "audio_effects_enabled", "INTEGER NOT NULL DEFAULT 0");
    push_column(&mut v, "audio_effects_preset", "TEXT NOT NULL DEFAULT 'cleanbalanced'");
    push_column(&mut v, "audio_effects_custom_filters", "TEXT");
    push_column(&mut v, "audio_effects_master_volume", "REAL NOT NULL DEFAULT 0.7");
    push_column(&mut v, "microphone_effects_enabled", "INTEGER NOT NULL DEFAULT 0");
    push_column(&mut v, "microphone_effects_preset", "TEXT NOT NULL DEFAULT 'balanced'");
    push_column(&mut v, "microphone_effects_custom_filters", "TEXT");
    push_column(&mut v, "microphone_effects_volume", "REAL NOT NULL DEFAULT 1.0");
    assert(v@.map_values(|c: (String, String)| column_view(c)) =~= stream_audio_config_added_columns());
    v
}

/// The statements that add the columns `settings` lacks, given those it has.
pub fn settings_migrations(existing: &Vec<String>) -> (r: Vec<String>)
    ensures
        r.deep_view() == missing_column_statements(
            "settings"@,
            settings_added_columns(),
            existing.deep_view(),
        ),
{
    plan_column_migrations("settings", &settings_columns(), existing)
}

/// The statements that add the columns `streams` lacks, given those it has.
pub fn streams_migrations(existing: &Vec<String>) -> (r: Vec<String>)
    ensures
        r.deep_view() == missing_column_statements(
            "streams"@,
            streams_added_columns(),
            existing.deep_view(),
        ),
{
    plan_column_migrations("streams", &streams_columns(), existing)
}

/// The names of a list of columns.
pub open spec fn column_names(cols: Seq<(Seq<char>, Seq<char>)>) -> Seq<Seq<char>> {
    cols.map_values(|c: (Seq<char>, Seq<char>)| c.0)
}

/// Migration is idempotent: once a table has every wanted column, planning
/// its migration yields no statement.
pub proof fn law_migration_idempotent(
    table: Seq<char>,
    wanted: Seq<(Seq<char>, Seq<char>)>,
    existing: Seq<Seq<char>>,
)
    requires
        forall|i: int| 0 <= i < wanted.len() ==> existing.contains(#[trigger] wanted[i].0),
    ensures
        missing_column_statements(table, wanted, existing) == Seq::<Seq<char>>::empty(),
    decreases wanted.len(),
{
    if wanted.len() > 0 {
        assert forall|i: int| 0 <= i < wanted.drop_last().len() implies existing.contains(
            #[trigger] wanted.drop_last()[i].0,
        ) by {
            assert(wanted.drop_last()[i] == wanted[i]);
        }
        law_migration_idempotent(table, wanted.drop_last(), existing);
        assert(existing.contains(wanted[wanted.len() - 1].0));
    }
}

/// Migration is complete: after the planned statements run, every wanted
/// column is present — each wanted column is either already there or added
/// by one of the statements.
pub proof fn law_migration_complete(
    table: Seq<char>,
    wanted: Seq<(Seq<char>, Seq<char>)>,
    existing: Seq<Seq<char>>,
    i: int,
)
    requires
        0 <= i < wanted.len(),
    ensures
        existing.contains(wanted[i].0) || missing_column_statements(table, wanted, existing).contains(
            add_column_statement(table, wanted[i].0, wanted[i].1),
        ),
    decreases wanted.len(),
{
    let rest = missing_column_statements(table, wanted.drop_last(), existing);
    if i < wanted.len() - 1 {
        assert(wanted.drop_last()[i] == wanted[i]);
        law_migration_complete(table, wanted.drop_last(), existing, i);
        if !existing.contains(wanted[i].0) {
            let k = choose|k: int| 0 <= k < rest.len() && rest[k] == add_column_statement(table, wanted[i].0, wanted[i].1);
            let all = missing_column_statements(table, wanted, existing);
            if existing.contains(wanted.last().0) {
                assert(all[k] == rest[k]);
            } else {
                assert(all[k] == rest[k]);
            }
        }
    } else {
        if !existing.contains(wanted[i].0) {
            let all = missing_column_statements(table, wanted, existing);
            assert(all[all.len() - 1] == add_column_statement(table, wanted[i].0, wanted[i].1));
        }
    }
}


/// The statements that add the effect columns to `stream_audio_config`; all
/// are issued, and those whose column already exists fail harmlessly.
pub fn stream_audio_config_migrations() -> (r: Vec<String>)
    ensures
        r.deep_view() == missing_column_statements(
            "stream_audio_config"@,
            stream_audio_config_added_columns(),
            Seq::empty(),
        ),
{
    let none: Vec<String> = Vec::new();
    assert(none.deep_view() =~= Seq::<Seq<char>>::empty());
    plan_column_migrations("stream_audio_config", &stream_audio_config_columns(), &none)
}

/// The default audio configuration of a new stream, taken from the global
/// settings: system audio unless audio is disabled, the global microphone
/// choice and device, and the global effects, enabled unless their preset
/// is named `none`.
pub open spec fn default_audio_config_from_settings(
    stream_id: Seq<char>,
    s: DbSettings,
    audio_preset: AudioPreset,
    mic_preset: MicrophonePreset,
    c: StreamAudioConfig,
) -> bool {
    &&& c.stream_id@ == stream_id
    &&& c.audio_mode@ == (if s.enable_audio { "system"@ } else { "muted"@ })
    &&& c.target_pid is None
    &&& c.target_process_name is None
    &&& c.enable_microphone == s.enable_microphone
    &&& c.microphone_device@ == s.microphone_device@
    &&& c.audio_effects.enabled == (s.global_audio_preset@ != "none"@)
    &&& c.audio_effects.preset == audio_preset
    &&& c.audio_effects.custom_filters.deep_view() == s.global_audio_custom_filters.deep_view()
    &&& c.audio_effects.master_volume == s.global_audio_volume
    &&& c.microphone_effects.enabled == (s.global_microphone_preset@ != "none"@)
    &&& c.microphone_effects.preset == mic_preset
    &&& c.microphone_effects.custom_filters.deep_view() == s.global_microphone_custom_filters.deep_view()
    &&& c.microphone_effects.volume == s.global_microphone_volume
}

fn copy_opt_string(s: &Option<String>) -> (r: Option<String>)
    ensures
        r.deep_view() == s.deep_view(),
{
    match s {
        Some(x) => Some(copy_string(x)),
        None => None,
    }
}

/// The default audio configuration of a new stream, built from the global
/// settings. `audio_preset` and `mic_preset` are the global preset names read
/// as presets (the type's default where a name is not one).
pub fn create_default_audio_config_from_global(
    stream_id: &str,
    settings: &DbSettings,
    audio_preset: AudioPreset,
    mic_preset: MicrophonePreset,
) -> (r: StreamAudioConfig)
    ensures
        default_audio_config_from_settings(stream_id@, *settings, audio_preset, mic_preset, r),
{
    StreamAudioConfig {
        stream_id: String::from_str(stream_id),
        audio_mode: if settings.enable_audio {
            String::from_str("system")
        } else {
            String::from_str("muted")
        },
        target_pid: None,
        target_process_name: None,
        enable_microphone: settings.enable_microphone,
        microphone_device: copy_string(&settings.microphone_device),
        audio_effects: AudioEffects {
            enabled: !crate::text::str_equal(settings.global_audio_preset.as_str(), "none"),
            preset: audio_preset,
            custom_filters: copy_opt_string(&settings.global_audio_custom_filters),
            master_volume: settings.global_audio_volume,
        },
        microphone_effects: MicrophoneEffects {
            enabled: !crate::text::str_equal(settings.global_microphone_preset.as_str(), "none"),
            preset: mic_preset,
            custom_filters: copy_opt_string(&settings.global_microphone_custom_filters),
            volume: settings.global_microphone_volume,
        },
    }
}

} // verus!
