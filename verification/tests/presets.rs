use hipocast::db::DbSettings;
use hipocast::stream_config::{
    create_default_config_from_global, get_audio_presets_info, get_microphone_presets_info,
    plan_stream_audio, reset_audio_config, suggest_audio_preset, get_suggested_audio_preset,
    AudioEffects, AudioPreset, MicrophoneEffects, MicrophonePreset, StreamAudioConfig,
};

const ALL_AUDIO: [AudioPreset; 7] = [
    AudioPreset::Off,
    AudioPreset::CleanLight,
    AudioPreset::CleanBalanced,
    AudioPreset::Professional,
    AudioPreset::Gaming,
    AudioPreset::Podcast,
    AudioPreset::Custom,
];

const ALL_MIC: [MicrophonePreset; 6] = [
    MicrophonePreset::Off,
    MicrophonePreset::Light,
    MicrophonePreset::Balanced,
    MicrophonePreset::Podcast,
    MicrophonePreset::Professional,
    MicrophonePreset::Custom,
];

#[test]
fn audio_preset_texts() {
    assert_eq!(AudioPreset::Off.cpu_impact(), "Nenhum");
    assert_eq!(AudioPreset::Podcast.cpu_impact(), "Muito Alto (~18%)");
    assert_eq!(AudioPreset::Gaming.description(), "Otimizado para jogos com realce de graves");
    assert_eq!(AudioPreset::CleanLight.to_ffmpeg_filter(), "highpass=f=50,lowpass=f=18000");
    assert_eq!(AudioPreset::Off.to_ffmpeg_filter(), "");
    assert_eq!(AudioPreset::Custom.to_ffmpeg_filter(), "");
    assert_eq!(AudioPreset::default(), AudioPreset::CleanBalanced);
}

#[test]
fn microphone_preset_texts() {
    assert_eq!(
        MicrophonePreset::Light.to_ffmpeg_filter(),
        "highpass=f=80,agate=threshold=0.02:ratio=4:attack=10:release=100"
    );
    assert_eq!(MicrophonePreset::Balanced.description(), "Balanceado: Gate + Compressor suave (Recomendado)");
    assert_eq!(MicrophonePreset::Custom.to_ffmpeg_filter(), "");
    assert_eq!(MicrophonePreset::default(), MicrophonePreset::Balanced);
}

#[test]
fn preset_names_round_trip() {
    for p in ALL_AUDIO {
        assert_eq!(AudioPreset::from_name(p.name()), Some(p));
        assert_eq!(AudioPreset::from_stored(p.name()), p);
    }
    for p in ALL_MIC {
        assert_eq!(MicrophonePreset::from_name(p.name()), Some(p));
        assert_eq!(MicrophonePreset::from_stored(p.name()), p);
    }
    assert_eq!(AudioPreset::Off.name(), "none");
    assert_eq!(AudioPreset::from_stored("unknown"), AudioPreset::CleanBalanced);
    assert_eq!(AudioPreset::from_name("CleanLight"), None);
    assert_eq!(MicrophonePreset::from_stored(""), MicrophonePreset::Balanced);
}

#[test]
fn audio_effects_chains() {
    let mut e = AudioEffects::default();
    assert_eq!(e.master_volume, 700);
    assert_eq!(
        e.to_ffmpeg_filter(),
        "highpass=f=25,alimiter=level_in=1:level_out=0.9:limit=0.95:attack=5:release=20,volume=0.7"
    );
    e.enabled = true;
    e.preset = AudioPreset::CleanLight;
    e.master_volume = 1500;
    assert_eq!(
        e.to_ffmpeg_filter(),
        "highpass=f=50,lowpass=f=18000,highpass=f=25,alimiter=level_in=1:level_out=0.9:limit=0.95:attack=5:release=20,volume=1.5"
    );
    e.preset = AudioPreset::Custom;
    e.custom_filters = Some("bass=g=3".to_string());
    e.master_volume = 1000;
    assert_eq!(
        e.to_ffmpeg_filter(),
        "bass=g=3,highpass=f=25,alimiter=level_in=1:level_out=0.9:limit=0.95:attack=5:release=20,volume=1"
    );
    e.custom_filters = None;
    assert_eq!(
        e.to_ffmpeg_filter(),
        "highpass=f=25,alimiter=level_in=1:level_out=0.9:limit=0.95:attack=5:release=20,volume=1"
    );
}

#[test]
fn microphone_effects_chains() {
    let mut m = MicrophoneEffects::default();
    assert_eq!(m.to_ffmpeg_filter(), "alimiter=level_in=1:level_out=0.95:limit=0.98:attack=3:release=15,volume=1");
    m.enabled = true;
    m.preset = MicrophonePreset::Podcast;
    m.volume = 1250;
    assert_eq!(
        m.to_ffmpeg_filter(),
        "highpass=f=100,agate=threshold=0.03:ratio=6:attack=10:release=100,acompressor=threshold=0.1:ratio=4:attack=20:release=200,deesser,alimiter=level_in=1:level_out=0.95:limit=0.98:attack=3:release=15,volume=1.25"
    );
}

#[test]
fn stream_config_defaults() {
    let c = StreamAudioConfig::default();
    assert_eq!(c.audio_mode, "system");
    assert!(c.stream_id.is_empty() && c.target_pid.is_none() && !c.enable_microphone);
    assert_eq!(c.audio_effects.preset, AudioPreset::CleanBalanced);
    assert_eq!(c.microphone_effects.volume, 1000);
}

#[test]
fn default_config_from_global_settings() {
    let mut g = DbSettings::default();
    g.global_audio_preset = "clean_light".to_string();
    g.global_audio_volume = 900;
    g.global_audio_custom_filters = Some("x".to_string());
    let c = create_default_config_from_global("monitor_1", &Some(g.clone()));
    assert_eq!(c.stream_id, "monitor_1");
    assert_eq!(c.audio_mode, "system");
    assert!(c.audio_effects.enabled);
    assert_eq!(c.audio_effects.preset, AudioPreset::CleanLight);
    assert_eq!(c.audio_effects.master_volume, 900);
    assert_eq!(c.audio_effects.custom_filters.as_deref(), Some("x"));
    assert_eq!(c.microphone_effects.preset, MicrophonePreset::Balanced);

    g.global_audio_preset = "weird".to_string();
    let c = create_default_config_from_global("s", &Some(g));
    assert_eq!(c.audio_effects.preset, AudioPreset::Off);
    assert!(!c.audio_effects.enabled);

    let c = create_default_config_from_global("s", &None);
    assert_eq!(c.audio_effects.preset, AudioPreset::Off);
    assert_eq!(c.audio_effects.master_volume, 800);
}

#[test]
fn presets_info_lists() {
    let a = get_audio_presets_info();
    assert_eq!(a.len(), 7);
    assert_eq!(a[1].id, "cleanlight");
    assert_eq!(a[1].name, "Limpo (Leve)");
    assert_eq!(a[1].cpu_impact, "Baixo (~2%)");
    assert_eq!(a[6].name, "Personalizado");
    let m = get_microphone_presets_info();
    assert_eq!(m.len(), 6);
    assert_eq!(m[2].id, "balanced");
    assert_eq!(m[2].cpu_impact, "Médio (~3%)");
    assert_eq!(m[4].description, "Profissional: Máxima qualidade vocal");
}

#[test]
fn suggestions_by_core_count() {
    assert_eq!(suggest_audio_preset(16).0, "professional");
    assert_eq!(suggest_audio_preset(8).1, "CPU potente detectada (8+ cores)");
    assert_eq!(suggest_audio_preset(4).0, "cleanbalanced");
    assert_eq!(suggest_audio_preset(2), (
        "cleanlight".to_string(),
        "CPU fraca detectada (2-3 cores)".to_string(),
        "Baixo (~2%)".to_string(),
    ));
    let (p, _, _) = get_suggested_audio_preset();
    assert!(["professional", "cleanbalanced", "cleanlight"].contains(&p.as_str()));
}

#[test]
fn reset_config_is_light() {
    let c = reset_audio_config("browser_1");
    assert_eq!(c.stream_id, "browser_1");
    assert_eq!(c.audio_mode, "system");
    assert!(!c.audio_effects.enabled);
    assert_eq!(c.audio_effects.preset, AudioPreset::Off);
    assert_eq!(c.audio_effects.master_volume, 1000);
    assert_eq!(c.microphone_effects.preset, MicrophonePreset::Off);
}

#[test]
fn audio_plan_from_config_or_settings() {
    let s = DbSettings::default();
    let p = plan_stream_audio(&None, &s);
    assert!(p.enable_audio && !p.enable_microphone && p.target_pid.is_none());
    assert!(p.audio_filters.is_empty());

    let mut c = reset_audio_config("x");
    c.audio_mode = "process".to_string();
    c.target_pid = Some(4242);
    let p = plan_stream_audio(&Some(c.clone()), &s);
    assert!(p.enable_audio);
    assert_eq!(p.target_pid, Some(4242));
    assert!(p.audio_filters.ends_with(",volume=1"));

    c.audio_mode = "muted".to_string();
    let p = plan_stream_audio(&Some(c), &s);
    assert!(!p.enable_audio);
    assert_eq!(p.target_pid, None);
}
