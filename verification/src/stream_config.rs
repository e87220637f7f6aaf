//! Audio effect presets and the per-stream audio configuration.
use vstd::prelude::*;

use crate::db::DbSettings;
use crate::text::{copy_string, str_equal, thousandths, thousandths_to_decimal};

verus! {

/// Audio effect presets for the captured system audio.
#[derive(Debug, Clone, Copy, PartialEq, Eq, Structural)]
pub enum AudioPreset {
    /// No processing (stored as `none`).
    Off,
    /// CPU ~2%, for weak machines.
    CleanLight,
    /// CPU ~5%, the default.
    CleanBalanced,
    /// CPU ~15%, for powerful machines.
    Professional,
    /// CPU ~4%.
    Gaming,
    /// CPU ~18%, best voice quality.
    Podcast,
    /// Filters written by the user.
    Custom,
}

impl Default for AudioPreset {
    fn default() -> (r: Self)
        ensures
            r == AudioPreset::CleanBalanced,
    {
        AudioPreset::CleanBalanced
    }
}

/// Estimated CPU cost of each audio preset.
pub open spec fn audio_cpu_impact(p: AudioPreset) -> Seq<char> {
    match p {
        AudioPreset::Off => "Nenhum"@,
        AudioPreset::CleanLight => "Baixo (~2%)"@,
        AudioPreset::CleanBalanced => "Médio (~5%)"@,
        AudioPreset::Professional => "Alto (~15%)"@,
        AudioPreset::Gaming => "Baixo-Médio (~4%)"@,
        AudioPreset::Podcast => "Muito Alto (~18%)"@,
        AudioPreset::Custom => "Variável"@,
    }
}

/// Description of each audio preset.
pub open spec fn audio_description(p: AudioPreset) -> Seq<char> {
    match p {
        AudioPreset::Off => "Sem processamento de áudio"@,
        AudioPreset::CleanLight => "Filtro básico de ruído - Ideal para PCs fracos"@,
        AudioPreset::CleanBalanced => "Filtro balanceado com gate - Recomendado para maioria"@,
        AudioPreset::Professional => "Processamento completo com compressor - Requer CPU potente"@,
        AudioPreset::Gaming => "Otimizado para jogos com realce de graves"@,
        AudioPreset::Podcast => "Máxima qualidade vocal com deesser - CPU muito potente"@,
        AudioPreset::Custom => "Filtros personalizados pelo usuário"@,
    }
}

/// The FFmpeg filter chain of each audio preset; `Off` and `Custom` have none.
pub open spec fn audio_preset_filter(p: AudioPreset) -> Seq<char> {
    match p {
        AudioPreset::Off => Seq::empty(),
        AudioPreset::CleanLight => "highpass=f=50,lowpass=f=18000"@,
        AudioPreset::CleanBalanced =>
            "highpass=f=50,lowpass=f=17000,agate=threshold=0.03:ratio=2:attack=20:release=250"@,
        AudioPreset::Professional =>
            "highpass=f=60,lowpass=f=15000,acompressor=threshold=0.1:ratio=3:attack=20:release=250,loudnorm=I=-16:TP=-1.5:LRA=11"@,
        AudioPreset::Gaming =>
            "highpass=f=40,lowpass=f=18000,agate=threshold=0.02:ratio=3:attack=10:release=200,bass=g=2"@,
        AudioPreset::Podcast =>
            "highpass=f=80,lowpass=f=12000,acompressor=threshold=0.1:ratio=4:attack=20:release=250,deesser,loudnorm=I=-19:TP=-1.5"@,
        AudioPreset::Custom => Seq::empty(),
    }
}

/// The stored (lower-case) name of each audio preset.
pub open spec fn audio_preset_name(p: AudioPreset) -> Seq<char> {
    match p {
        AudioPreset::Off => "none"@,
        AudioPreset::CleanLight => "cleanlight"@,
        AudioPreset::CleanBalanced => "cleanbalanced"@,
        AudioPreset::Professional => "professional"@,
        AudioPreset::Gaming => "gaming"@,
        AudioPreset::Podcast => "podcast"@,
        AudioPreset::Custom => "custom"@,
    }
}

/// The audio preset whose stored name is `s`, if any.
pub open spec fn audio_preset_named(s: Seq<char>) -> Option<AudioPreset> {
    if s == "none"@ {
        Some(AudioPreset::Off)
    } else if s == "cleanlight"@ {
        Some(AudioPreset::CleanLight)
    } else if s == "cleanbalanced"@ {
        Some(AudioPreset::CleanBalanced)
    } else if s == "professional"@ {
        Some(AudioPreset::Professional)
    } else if s == "gaming"@ {
        Some(AudioPreset::Gaming)
    } else if s == "podcast"@ {
        Some(AudioPreset::Podcast)
    } else if s == "custom"@ {
        Some(AudioPreset::Custom)
    } else {
        None
    }
}

impl AudioPreset {
    /// Estimated CPU cost.
    pub fn cpu_impact(&self) -> (r: &'static str)
        ensures
            r@ == audio_cpu_impact(*self),
    {
        match self {
            AudioPreset::Off => "Nenhum",
            AudioPreset::CleanLight => "Baixo (~2%)",
            AudioPreset::CleanBalanced => "Médio (~5%)",
            AudioPreset::Professional => "Alto (~15%)",
            AudioPreset::Gaming => "Baixo-Médio (~4%)",
            AudioPreset::Podcast => "Muito Alto (~18%)",
            AudioPreset::Custom => "Variável",
        }
    }

    /// Description of the preset.
    pub fn description(&self) -> (r: &'static str)
        ensures
            r@ == audio_description(*self),
    {
        match self {
            AudioPreset::Off => "Sem processamento de áudio",
            AudioPreset::CleanLight => "Filtro básico de ruído - Ideal para PCs fracos",
            AudioPreset::CleanBalanced => "Filtro balanceado com gate - Recomendado para maioria",
            AudioPreset::Professional => "Processamento completo com compressor - Requer CPU potente",
            AudioPreset::Gaming => "Otimizado para jogos com realce de graves",
            AudioPreset::Podcast => "Máxima qualidade vocal com deesser - CPU muito potente",
            AudioPreset::Custom => "Filtros personalizados pelo usuário",
        }
    }

    /// The FFmpeg filter chain of the preset.
    pub fn to_ffmpeg_filter(&self) -> (r: String)
        ensures
            r@ == audio_preset_filter(*self),
    {
        match self {
            AudioPreset::Off => String::new(),
            AudioPreset::CleanLight => String::from_str("highpass=f=50,lowpass=f=18000"),
            AudioPreset::CleanBalanced => String::from_str(
                "highpass=f=50,lowpass=f=17000,agate=threshold=0.03:ratio=2:attack=20:release=250",
            ),
            AudioPreset::Professional => String::from_str(
                "highpass=f=60,lowpass=f=15000,acompressor=threshold=0.1:ratio=3:attack=20:release=250,loudnorm=I=-16:TP=-1.5:LRA=11",
            ),
            AudioPreset::Gaming => String::from_str(
                "highpass=f=40,lowpass=f=18000,agate=threshold=0.02:ratio=3:attack=10:release=200,bass=g=2",
            ),
            AudioPreset::Podcast => String::from_str(
                "highpass=f=80,lowpass=f=12000,acompressor=threshold=0.1:ratio=4:attack=20:release=250,deesser,loudnorm=I=-19:TP=-1.5",
            ),
            AudioPreset::Custom => String::new(),
        }
    }

    /// The lower-case name under which the preset is stored and exchanged.
    pub fn name(&self) -> (r: &'static str)
        ensures
            r@ == audio_preset_name(*self),
    {
        match self {
            AudioPreset::Off => "none",
            AudioPreset::CleanLight => "cleanlight",
            AudioPreset::CleanBalanced => "cleanbalanced",
            AudioPreset::Professional => "professional",
            AudioPreset::Gaming => "gaming",
            AudioPreset::Podcast => "podcast",
            AudioPreset::Custom => "custom",
        }
    }

    /// The preset stored under the name `s`, if `s` is one of the names.
    pub fn from_name(s: &str) -> (r: Option<AudioPreset>)
        ensures
            r == audio_preset_named(s@),
    {
        if str_equal(s, "none") {
            Some(AudioPreset::Off)
        } else if str_equal(s, "cleanlight") {
            Some(AudioPreset::CleanLight)
        } else if str_equal(s, "cleanbalanced") {
            Some(AudioPreset::CleanBalanced)
        } else if str_equal(s, "professional") {
            Some(AudioPreset::Professional)
        } else if str_equal(s, "gaming") {
            Some(AudioPreset::Gaming)
        } else if str_equal(s, "podcast") {
            Some(AudioPreset::Podcast)
        } else if str_equal(s, "custom") {
            Some(AudioPreset::Custom)
        } else {
            None
        }
    }
}


/// Microphone effect presets.
#[derive(Debug, Clone, Copy, PartialEq, Eq, Structural)]
pub enum MicrophonePreset {
    /// No processing (stored as `none`).
    Off,
    /// Noise gate and high-pass only.
    Light,
    /// Gate and a gentle compressor, the default.
    Balanced,
    /// Full voice processing.
    Podcast,
    /// Best quality.
    Professional,
    /// User-defined filters.
    Custom,
}

impl Default for MicrophonePreset {
    fn default() -> (r: Self)
        ensures
            r == MicrophonePreset::Balanced,
    {
        MicrophonePreset::Balanced
    }
}

/// The FFmpeg filter chain of each microphone preset; `Off` and `Custom` have none.
pub open spec fn mic_preset_filter(p: MicrophonePreset) -> Seq<char> {
    match p {
        MicrophonePreset::Off => Seq::empty(),
        MicrophonePreset::Light => "highpass=f=80,agate=threshold=0.02:ratio=4:attack=10:release=100"@,
        MicrophonePreset::Balanced =>
            "highpass=f=100,agate=threshold=0.03:ratio=4:attack=10:release=100,acompressor=threshold=0.1:ratio=3:attack=20:release=200"@,
        MicrophonePreset::Podcast =>
            "highpass=f=100,agate=threshold=0.03:ratio=6:attack=10:release=100,acompressor=threshold=0.1:ratio=4:attack=20:release=200,deesser"@,
        MicrophonePreset::Professional =>
            "highpass=f=80,lowpass=f=12000,agate=threshold=0.02:ratio=8:attack=5:release=100,acompressor=threshold=0.09:ratio=5:attack=15:release=250,deesser,loudnorm=I=-20:TP=-1.5"@,
        MicrophonePreset::Custom => Seq::empty(),
    }
}

/// Description of each microphone preset.
pub open spec fn mic_description(p: MicrophonePreset) -> Seq<char> {
    match p {
        MicrophonePreset::Off => "Sem processamento"@,
        MicrophonePreset::Light => "Leve: Redução básica de ruído"@,
        MicrophonePreset::Balanced => "Balanceado: Gate + Compressor suave (Recomendado)"@,
        MicrophonePreset::Podcast => "Podcast: Voz profissional com de-esser"@,
        MicrophonePreset::Professional => "Profissional: Máxima qualidade vocal"@,
        MicrophonePreset::Custom => "Filtros personalizados"@,
    }
}

/// The stored (lower-case) name of each microphone preset.
pub open spec fn mic_preset_name(p: MicrophonePreset) -> Seq<char> {
    match p {
        MicrophonePreset::Off => "none"@,
        MicrophonePreset::Light => "light"@,
        MicrophonePreset::Balanced => "balanced"@,
        MicrophonePreset::Podcast => "podcast"@,
        MicrophonePreset::Professional => "professional"@,
        MicrophonePreset::Custom => "custom"@,
    }
}

/// The microphone preset whose stored name is `s`, if any.
pub open spec fn mic_preset_named(s: Seq<char>) -> Option<MicrophonePreset> {
    if s == "none"@ {
        Some(MicrophonePreset::Off)
    } else if s == "light"@ {
        Some(MicrophonePreset::Light)
    } else if s == "balanced"@ {
        Some(MicrophonePreset::Balanced)
    } else if s == "podcast"@ {
        Some(MicrophonePreset::Podcast)
    } else if s == "professional"@ {
        Some(MicrophonePreset::Professional)
    } else if s == "custom"@ {
        Some(MicrophonePreset::Custom)
    } else {
        None
    }
}

impl MicrophonePreset {
    /// The FFmpeg filter chain of the preset.
    pub fn to_ffmpeg_filter(&self) -> (r: String)
        ensures
            r@ == mic_preset_filter(*self),
    {
        match self {
            MicrophonePreset::Off => String::new(),
            MicrophonePreset::Light => String::from_str(
                "highpass=f=80,agate=threshold=0.02:ratio=4:attack=10:release=100",
            ),
            MicrophonePreset::Balanced => String::from_str(
                "highpass=f=100,agate=threshold=0.03:ratio=4:attack=10:release=100,acompressor=threshold=0.1:ratio=3:attack=20:release=200",
            ),
            MicrophonePreset::Podcast => String::from_str(
                "highpass=f=100,agate=threshold=0.03:ratio=6:attack=10:release=100,acompressor=threshold=0.1:ratio=4:attack=20:release=200,deesser",
            ),
            MicrophonePreset::Professional => String::from_str(
                "highpass=f=80,lowpass=f=12000,agate=threshold=0.02:ratio=8:attack=5:release=100,acompressor=threshold=0.09:ratio=5:attack=15:release=250,deesser,loudnorm=I=-20:TP=-1.5",
            ),
            MicrophonePreset::Custom => String::new(),
        }
    }

    /// Description of the preset.
    pub fn description(&self) -> (r: &'static str)
        ensures
            r@ == mic_description(*self),
    {
        match self {
            MicrophonePreset::Off => "Sem processamento",
            MicrophonePreset::Light => "Leve: Redução básica de ruído",
            MicrophonePreset::Balanced => "Balanceado: Gate + Compressor suave (Recomendado)",
            MicrophonePreset::Podcast => "Podcast: Voz profissional com de-esser",
            MicrophonePreset::Professional => "Profissional: Máxima qualidade vocal",
            MicrophonePreset::Custom => "Filtros personalizados",
        }
    }

    /// The lower-case name under which the preset is stored and exchanged.
    pub fn name(&self) -> (r: &'static str)
        ensures
            r@ == mic_preset_name(*self),
    {
        match self {
            MicrophonePreset::Off => "none",
            MicrophonePreset::Light => "light",
            MicrophonePreset::Balanced => "balanced",
            MicrophonePreset::Podcast => "podcast",
            MicrophonePreset::Professional => "professional",
            MicrophonePreset::Custom => "custom",
        }
    }

    /// The preset stored under the name `s`, if `s` is one of the names.
    pub fn from_name(s: &str) -> (r: Option<MicrophonePreset>)
        ensures
            r == mic_preset_named(s@),
    {
        if str_equal(s, "none") {
            Some(MicrophonePreset::Off)
        } else if str_equal(s, "light") {
            Some(MicrophonePreset::Light)
        } else if str_equal(s, "balanced") {
            Some(MicrophonePreset::Balanced)
        } else if str_equal(s, "podcast") {
            Some(MicrophonePreset::Podcast)
        } else if str_equal(s, "professional") {
            Some(MicrophonePreset::Professional)
        } else if str_equal(s, "custom") {
            Some(MicrophonePreset::Custom)
        } else {
            None
        }
    }
}

/// The volume part that ends every effects chain: `,volume=` and the gain.
pub open spec fn volume_suffix(volume: u32) -> Seq<char> {
    ",volume="@ + thousandths(volume as nat)
}

/// The chain used by an effects block: its preset filters (or, for a custom
/// preset, the custom filters) before the protection filter, then the volume.
/// A disabled block, or one with no filters, is protection and volume only.
pub open spec fn effects_chain(
    enabled: bool,
    base: Seq<char>,
    protection: Seq<char>,
    volume: u32,
) -> Seq<char> {
    if !enabled || base.len() == 0 {
        protection + volume_suffix(volume)
    } else {
        base + ","@ + protection + volume_suffix(volume)
    }
}

/// The anti-clipping protection applied to system audio: removes infrasonic
/// content and limits peaks below full scale.
pub open spec fn audio_protection() -> Seq<char> {
    "highpass=f=25,alimiter=level_in=1:level_out=0.9:limit=0.95:attack=5:release=20"@
}

/// The limiter applied to the microphone.
pub open spec fn mic_protection() -> Seq<char> {
    "alimiter=level_in=1:level_out=0.95:limit=0.98:attack=3:release=15"@
}

/// The custom filters, or nothing when there are none.
pub open spec fn custom_or_empty(custom: Option<String>) -> Seq<char> {
    match custom {
        Some(c) => c@,
        None => Seq::empty(),
    }
}

/// Effects applied to the captured system audio. Gains are given in
/// thousandths (1000 is unity gain; the range offered is 0 to 2000).
#[derive(Debug, Clone)]
pub struct AudioEffects {
    pub enabled: bool,
    pub preset: AudioPreset,
    pub custom_filters: Option<String>,
    /// Master gain in thousandths.
    pub master_volume: u32,
}

impl Default for AudioEffects {
    fn default() -> (r: Self)
        ensures
            !r.enabled,
            r.preset == AudioPreset::CleanBalanced,
            r.custom_filters is None,
            r.master_volume == 700,
    {
        // 0.7 leaves extra headroom.
        AudioEffects {
            enabled: false,
            preset: AudioPreset::CleanBalanced,
            custom_filters: None,
            master_volume: 700,
        }
    }
}

/// The filter chain of a set of audio effects.
pub open spec fn audio_effects_filter(e: AudioEffects) -> Seq<char> {
    let base = if e.preset == AudioPreset::Custom {
        custom_or_empty(e.custom_filters)
    } else {
        audio_preset_filter(e.preset)
    };
    effects_chain(e.enabled, base, audio_protection(), e.master_volume)
}

fn finish_chain(enabled: bool, base: String, protection: &str, volume: u32) -> (r: String)
    ensures
        r@ == effects_chain(enabled, base@, protection@, volume),
{
    let vol = thousandths_to_decimal(volume);
    let mut s = if !enabled || base.as_str().is_empty() {
        String::from_str(protection)
    } else {
        let mut b = base;
        b.append(",");
        b.append(protection);
        b
    };
    s.append(",volume=");
    s.append(vol.as_str());
    s
}

fn custom_filters_or_empty(custom: &Option<String>) -> (r: String)
    ensures
        r@ == custom_or_empty(*custom),
{
    match custom {
        Some(c) => copy_string(c),
        None => String::new(),
    }
}

impl AudioEffects {
    /// The complete FFmpeg filter chain: effects, protection, then volume.
    pub fn to_ffmpeg_filter(&self) -> (r: String)
        ensures
            r@ == audio_effects_filter(*self),
    {
        if !self.enabled {
            return finish_chain(false, String::new(), "highpass=f=25,alimiter=level_in=1:level_out=0.9:limit=0.95:attack=5:release=20", self.master_volume);
        }
        let base = match self.preset {
            AudioPreset::Custom => custom_filters_or_empty(&self.custom_filters),
            _ => self.preset.to_ffmpeg_filter(),
        };
        finish_chain(true, base, "highpass=f=25,alimiter=level_in=1:level_out=0.9:limit=0.95:attack=5:release=20", self.master_volume)
    }
}

/// Effects applied to the microphone. The gain is in thousandths.
#[derive(Debug, Clone)]
pub struct MicrophoneEffects {
    pub enabled: bool,
    pub preset: MicrophonePreset,
    pub custom_filters: Option<String>,
    /// Gain in thousandths.
    pub volume: u32,
}

impl Default for MicrophoneEffects {
    fn default() -> (r: Self)
        ensures
            !r.enabled,
            r.preset == MicrophonePreset::Balanced,
            r.custom_filters is None,
            r.volume == 1000,
    {
        MicrophoneEffects {
            enabled: false,
            preset: MicrophonePreset::Balanced,
            custom_filters: None,
            volume: 1000,
        }
    }
}

/// The filter chain of a set of microphone effects.
pub open spec fn mic_effects_filter(e: MicrophoneEffects) -> Seq<char> {
    let base = if e.preset == MicrophonePreset::Custom {
        custom_or_empty(e.custom_filters)
    } else {
        mic_preset_filter(e.preset)
    };
    effects_chain(e.enabled, base, mic_protection(), e.volume)
}

impl MicrophoneEffects {
    /// The complete FFmpeg filter chain: effects, limiter, then volume.
    pub fn to_ffmpeg_filter(&self) -> (r: String)
        ensures
            r@ == mic_effects_filter(*self),
    {
        if !self.enabled {
            return finish_chain(false, String::new(), "alimiter=level_in=1:level_out=0.95:limit=0.98:attack=3:release=15", self.volume);
        }
        let base = match self.preset {
            MicrophonePreset::Custom => custom_filters_or_empty(&self.custom_filters),
            _ => self.preset.to_ffmpeg_filter(),
        };
        finish_chain(true, base, "alimiter=level_in=1:level_out=0.95:limit=0.98:attack=3:release=15", self.volume)
    }
}

/// Audio configuration of one stream. `audio_mode` is `system`, `process` or
/// `muted`.
#[derive(Debug, Clone)]
pub struct StreamAudioConfig {
    pub stream_id: String,
    pub audio_mode: String,
    pub target_pid: Option<u32>,
    pub target_process_name: Option<String>,
    pub enable_microphone: bool,
    pub microphone_device: String,
    pub audio_effects: AudioEffects,
    pub microphone_effects: MicrophoneEffects,
}

impl Default for StreamAudioConfig {
    fn default() -> (r: Self)
        ensures
            r.stream_id@ == Seq::<char>::empty(),
            r.audio_mode@ == "system"@,
            r.target_pid is None,
            r.target_process_name is None,
            !r.enable_microphone,
            r.microphone_device@ == Seq::<char>::empty(),
            !r.audio_effects.enabled,
            r.audio_effects.preset == AudioPreset::CleanBalanced,
            r.audio_effects.custom_filters is None,
            r.audio_effects.master_volume == 700,
            !r.microphone_effects.enabled,
            r.microphone_effects.preset == MicrophonePreset::Balanced,
            r.microphone_effects.custom_filters is None,
            r.microphone_effects.volume == 1000,
    {
        StreamAudioConfig {
            stream_id: String::new(),
            audio_mode: String::from_str("system"),
            target_pid: None,
            target_process_name: None,
            enable_microphone: false,
            microphone_device: String::new(),
            audio_effects: AudioEffects::default(),
            microphone_effects: MicrophoneEffects::default(),
        }
    }
}


/// The audio preset read back from a stored name: the named preset, or the
/// default (`CleanBalanced`) when the name is not one of the preset names.
pub open spec fn stored_audio_preset(s: Seq<char>) -> AudioPreset {
    match audio_preset_named(s) {
        Some(p) => p,
        None => AudioPreset::CleanBalanced,
    }
}

/// The microphone preset read back from a stored name: the named preset, or
/// the default (`Balanced`) when the name is not one of the preset names.
pub open spec fn stored_mic_preset(s: Seq<char>) -> MicrophonePreset {
    match mic_preset_named(s) {
        Some(p) => p,
        None => MicrophonePreset::Balanced,
    }
}

impl AudioPreset {
    /// The preset stored under `s`, falling back to `CleanBalanced`.
    pub fn from_stored(s: &str) -> (r: AudioPreset)
        ensures
            r == stored_audio_preset(s@),
    {
        match AudioPreset::from_name(s) {
            Some(p) => p,
            None => AudioPreset::CleanBalanced,
        }
    }
}

impl MicrophonePreset {
    /// The preset stored under `s`, falling back to `Balanced`.
    pub fn from_stored(s: &str) -> (r: MicrophonePreset)
        ensures
            r == stored_mic_preset(s@),
    {
        match MicrophonePreset::from_name(s) {
            Some(p) => p,
            None => MicrophonePreset::Balanced,
        }
    }
}

/// Storing a preset by its name and reading it back gives the same preset,
/// and only that name reads back as it.
pub proof fn law_audio_preset_name_roundtrip(p: AudioPreset, s: Seq<char>)
    ensures
        audio_preset_named(audio_preset_name(p)) == Some(p),
        stored_audio_preset(audio_preset_name(p)) == p,
        audio_preset_named(s) == Some(p) ==> s == audio_preset_name(p),
{
    reveal_strlit("none");
    reveal_strlit("cleanlight");
    reveal_strlit("cleanbalanced");
    reveal_strlit("professional");
    reveal_strlit("gaming");
    reveal_strlit("podcast");
    reveal_strlit("custom");
    assert("none"@.len() == 4);
    assert("cleanlight"@.len() == 10);
    assert("cleanbalanced"@.len() == 13);
    assert("professional"@.len() == 12);
    assert("gaming"@.len() == 6 && "gaming"@[0] == 'g');
    assert("podcast"@.len() == 7);
    assert("custom"@.len() == 6 && "custom"@[0] == 'c');
}

/// Storing a microphone preset by its name and reading it back gives the
/// same preset, and only that name reads back as it.
pub proof fn law_mic_preset_name_roundtrip(p: MicrophonePreset, s: Seq<char>)
    ensures
        mic_preset_named(mic_preset_name(p)) == Some(p),
        stored_mic_preset(mic_preset_name(p)) == p,
        mic_preset_named(s) == Some(p) ==> s == mic_preset_name(p),
{
    reveal_strlit("none");
    reveal_strlit("light");
    reveal_strlit("balanced");
    reveal_strlit("podcast");
    reveal_strlit("professional");
    reveal_strlit("custom");
    assert("none"@.len() == 4);
    assert("light"@.len() == 5);
    assert("balanced"@.len() == 8);
    assert("podcast"@.len() == 7);
    assert("professional"@.len() == 12);
    assert("custom"@.len() == 6);
}

/// The audio preset chosen by a global setting name; underscores are
/// accepted in the two-word names, and anything unknown means no effects.
pub open spec fn global_audio_preset(s: Seq<char>) -> AudioPreset {
    if s == "clean_light"@ || s == "cleanlight"@ {
        AudioPreset::CleanLight
    } else if s == "clean_balanced"@ || s == "cleanbalanced"@ {
        AudioPreset::CleanBalanced
    } else if s == "professional"@ {
        AudioPreset::Professional
    } else if s == "gaming"@ {
        AudioPreset::Gaming
    } else if s == "podcast"@ {
        AudioPreset::Podcast
    } else if s == "custom"@ {
        AudioPreset::Custom
    } else {
        AudioPreset::Off
    }
}

fn global_audio_preset_of(s: &str) -> (r: AudioPreset)
    ensures
        r == global_audio_preset(s@),
{
    if str_equal(s, "clean_light") || str_equal(s, "cleanlight") {
        AudioPreset::CleanLight
    } else if str_equal(s, "clean_balanced") || str_equal(s, "cleanbalanced") {
        AudioPreset::CleanBalanced
    } else if str_equal(s, "professional") {
        AudioPreset::Professional
    } else if str_equal(s, "gaming") {
        AudioPreset::Gaming
    } else if str_equal(s, "podcast") {
        AudioPreset::Podcast
    } else if str_equal(s, "custom") {
        AudioPreset::Custom
    } else {
        AudioPreset::Off
    }
}

/// The default configuration of a stream built from the global settings when
/// they could be read: system audio, no microphone, default microphone
/// effects, and audio effects with the global preset (enabled unless it is
/// `Off`), gain and custom filters; without settings, no effects at gain 0.8.
pub open spec fn config_from_global(
    stream_id: Seq<char>,
    global: Option<DbSettings>,
    c: StreamAudioConfig,
) -> bool {
    let (preset, volume, custom): (AudioPreset, u32, Option<Seq<char>>) = match global {
        Some(g) => (
            global_audio_preset(g.global_audio_preset@),
            g.global_audio_volume,
            g.global_audio_custom_filters.deep_view(),
        ),
        None => (AudioPreset::Off, 800, None),
    };
    &&& c.stream_id@ == stream_id
    &&& c.audio_mode@ == "system"@
    &&& c.target_pid is None
    &&& c.target_process_name is None
    &&& !c.enable_microphone
    &&& c.microphone_device@ == Seq::<char>::empty()
    &&& c.audio_effects.enabled == (preset != AudioPreset::Off)
    &&& c.audio_effects.preset == preset
    &&& c.audio_effects.custom_filters.deep_view() == custom
    &&& c.audio_effects.master_volume == volume
    &&& !c.microphone_effects.enabled
    &&& c.microphone_effects.preset == MicrophonePreset::Balanced
    &&& c.microphone_effects.custom_filters is None
    &&& c.microphone_effects.volume == 1000
}

/// The default audio configuration of a stream from the global settings
/// (`None` when they could not be read).
pub fn create_default_config_from_global(stream_id: &str, global: &Option<DbSettings>) -> (r:
    StreamAudioConfig)
    ensures
        config_from_global(stream_id@, *global, r),
{
    let (preset, volume, custom_filters) = match global {
        Some(g) => (
            global_audio_preset_of(g.global_audio_preset.as_str()),
            g.global_audio_volume,
            match &g.global_audio_custom_filters {
                Some(c) => Some(copy_string(c)),
                None => None,
            },
        ),
        None => (AudioPreset::Off, 800u32, None),
    };
    StreamAudioConfig {
        stream_id: String::from_str(stream_id),
        audio_mode: String::from_str("system"),
        target_pid: None,
        target_process_name: None,
        enable_microphone: false,
        microphone_device: String::new(),
        audio_effects: AudioEffects {
            enabled: preset != AudioPreset::Off,
            preset,
            custom_filters,
            master_volume: volume,
        },
        microphone_effects: MicrophoneEffects::default(),
    }
}

/// Display information about a preset.
#[derive(Debug, Clone)]
pub struct PresetInfo {
    pub id: String,
    pub name: String,
    pub description: String,
    pub cpu_impact: String,
}

/// The view of preset information as (id, name, description, CPU impact).
pub open spec fn info_view(i: PresetInfo) -> (Seq<char>, Seq<char>, Seq<char>, Seq<char>) {
    (i.id@, i.name@, i.description@, i.cpu_impact@)
}

/// The audio presets in display order with their display names.
pub open spec fn audio_preset_listing() -> Seq<(AudioPreset, Seq<char>)> {
    seq![
        (AudioPreset::Off, "Nenhum"@),
        (AudioPreset::CleanLight, "Limpo (Leve)"@),
        (AudioPreset::CleanBalanced, "Limpo (Balanceado)"@),
        (AudioPreset::Professional, "Profissional"@),
        (AudioPreset::Gaming, "Gaming"@),
        (AudioPreset::Podcast, "Podcast"@),
        (AudioPreset::Custom, "Personalizado"@),
    ]
}

/// The microphone presets in display order with their display names and
/// estimated CPU cost.
pub open spec fn mic_preset_listing() -> Seq<(MicrophonePreset, Seq<char>, Seq<char>)> {
    seq![
        (MicrophonePreset::Off, "Nenhum"@, "Nenhum"@),
        (MicrophonePreset::Light, "Leve"@, "Baixo (~1%)"@),
        (MicrophonePreset::Balanced, "Balanceado"@, "Médio (~3%)"@),
        (MicrophonePreset::Podcast, "Podcast"@, "Alto (~8%)"@),
        (MicrophonePreset::Professional, "Profissional"@, "Muito Alto (~12%)"@),
        (MicrophonePreset::Custom, "Personalizado"@, "Variável"@),
    ]
}

fn audio_info(p: AudioPreset, name: &str) -> (r: PresetInfo)
    ensures
        info_view(r) == (audio_preset_name(p), name@, audio_description(p), audio_cpu_impact(p)),
{
    PresetInfo {
        id: String::from_str(p.name()),
        name: String::from_str(name),
        description: String::from_str(p.description()),
        cpu_impact: String::from_str(p.cpu_impact()),
    }
}

/// Information about every audio preset, in display order: each entry's id is
/// the preset's stored name, with its description and CPU cost.
pub fn get_audio_presets_info() -> (r: Vec<PresetInfo>)
    ensures
        r@.len() == audio_preset_listing().len(),
        forall|i: int| 0 <= i < r@.len() ==> #[trigger] info_view(r@[i]) == ({
            let (p, name) = audio_preset_listing()[i];
            (audio_preset_name(p), name, audio_description(p), audio_cpu_impact(p))
        }),
{
    let mut v: Vec<PresetInfo> = Vec::new();
    v.push(audio_info(AudioPreset::Off, "Nenhum"));
    v.push(audio_info(AudioPreset::CleanLight, "Limpo (Leve)"));
    v.push(audio_info(AudioPreset::CleanBalanced, "Limpo (Balanceado)"));
    v.push(audio_info(AudioPreset::Professional, "Profissional"));
    v.push(audio_info(AudioPreset::Gaming, "Gaming"));
    v.push(audio_info(AudioPreset::Podcast, "Podcast"));
    v.push(audio_info(AudioPreset::Custom, "Personalizado"));
    v
}

fn mic_info(p: MicrophonePreset, name: &str, cpu: &str) -> (r: PresetInfo)
    ensures
        info_view(r) == (mic_preset_name(p), name@, mic_description(p), cpu@),
{
    PresetInfo {
        id: String::from_str(p.name()),
        name: String::from_str(name),
        description: String::from_str(p.description()),
        cpu_impact: String::from_str(cpu),
    }
}

/// Information about every microphone preset, in display order: each entry's
/// id is the preset's stored name, with its description and CPU cost.
pub fn get_microphone_presets_info() -> (r: Vec<PresetInfo>)
    ensures
        r@.len() == mic_preset_listing().len(),
        forall|i: int| 0 <= i < r@.len() ==> #[trigger] info_view(r@[i]) == ({
            let (p, name, cpu) = mic_preset_listing()[i];
            (mic_preset_name(p), name, mic_description(p), cpu)
        }),
{
    let mut v: Vec<PresetInfo> = Vec::new();
    v.push(mic_info(MicrophonePreset::Off, "Nenhum", "Nenhum"));
    v.push(mic_info(MicrophonePreset::Light, "Leve", "Baixo (~1%)"));
    v.push(mic_info(MicrophonePreset::Balanced, "Balanceado", "Médio (~3%)"));
    v.push(mic_info(MicrophonePreset::Podcast, "Podcast", "Alto (~8%)"));
    v.push(mic_info(MicrophonePreset::Professional, "Profissional", "Muito Alto (~12%)"));
    v.push(mic_info(MicrophonePreset::Custom, "Personalizado", "Variável"));
    v
}

/// The number of CPUs available to this process.
#[verifier::external_body]
fn available_cpus() -> (r: usize)
    ensures
        r >= 1,
{
    num_cpus::get()
}

/// The preset suggested for a machine with `cores` CPUs, the reason, and the
/// preset's CPU cost: professional from 8 cores, balanced from 4, light below.
pub open spec fn suggested_preset(cores: nat) -> (Seq<char>, Seq<char>, Seq<char>) {
    if cores >= 8 {
        ("professional"@, "CPU potente detectada (8+ cores)"@, "Alto (~15%)"@)
    } else if cores >= 4 {
        ("cleanbalanced"@, "CPU média detectada (4-7 cores)"@, "Médio (~5%)"@)
    } else {
        ("cleanlight"@, "CPU fraca detectada (2-3 cores)"@, "Baixo (~2%)"@)
    }
}

/// The suggestion for a machine with `cores` CPUs.
pub fn suggest_audio_preset(cores: usize) -> (r: (String, String, String))
    ensures
        (r.0@, r.1@, r.2@) == suggested_preset(cores as nat),
{
    if cores >= 8 {
        (
            String::from_str("professional"),
            String::from_str("CPU potente detectada (8+ cores)"),
            String::from_str("Alto (~15%)"),
        )
    } else if cores >= 4 {
        (
            String::from_str("cleanbalanced"),
            String::from_str("CPU média detectada (4-7 cores)"),
            String::from_str("Médio (~5%)"),
        )
    } else {
        (
            String::from_str("cleanlight"),
            String::from_str("CPU fraca detectada (2-3 cores)"),
            String::from_str("Baixo (~2%)"),
        )
    }
}

/// The audio preset suggested for this machine from its CPU count: one of the
/// three suggestions, whatever the count is.
pub fn get_suggested_audio_preset() -> (r: (String, String, String))
    ensures
        exists|cores: nat| cores >= 1 && (r.0@, r.1@, r.2@) == suggested_preset(cores),
{
    let cores = available_cpus();
    suggest_audio_preset(cores)
}


/// The configuration a stream gets when its audio settings are reset:
/// system audio, no microphone, and every effect off at unity gain.
pub open spec fn reset_config(stream_id: Seq<char>, c: StreamAudioConfig) -> bool {
    &&& c.stream_id@ == stream_id
    &&& c.audio_mode@ == "system"@
    &&& c.target_pid is None
    &&& c.target_process_name is None
    &&& !c.enable_microphone
    &&& c.microphone_device@ == Seq::<char>::empty()
    &&& c.audio_effects == AudioEffects {
        enabled: false,
        preset: AudioPreset::Off,
        custom_filters: None,
        master_volume: 1000,
    }
    &&& c.microphone_effects == MicrophoneEffects {
        enabled: false,
        preset: MicrophonePreset::Off,
        custom_filters: None,
        volume: 1000,
    }
}

/// The configuration that replaces a stream's audio settings on reset (light
/// defaults without heavy filters).
pub fn reset_audio_config(stream_id: &str) -> (r: StreamAudioConfig)
    ensures
        reset_config(stream_id@, r),
{
    StreamAudioConfig {
        stream_id: String::from_str(stream_id),
        audio_mode: String::from_str("system"),
        target_pid: None,
        target_process_name: None,
        enable_microphone: false,
        microphone_device: String::new(),
        audio_effects: AudioEffects {
            enabled: false,
            preset: AudioPreset::Off,
            custom_filters: None,
            master_volume: 1000,
        },
        microphone_effects: MicrophoneEffects {
            enabled: false,
            preset: MicrophonePreset::Off,
            custom_filters: None,
            volume: 1000,
        },
    }
}

/// With effects off, a stream's audio chain is the protection filter and
/// the volume alone, whatever its preset and custom filters.
pub proof fn law_disabled_effects_are_protection_only(a: AudioEffects, m: MicrophoneEffects)
    ensures
        !a.enabled ==> audio_effects_filter(a) == audio_protection() + volume_suffix(a.master_volume),
        !m.enabled ==> mic_effects_filter(m) == mic_protection() + volume_suffix(m.volume),
{
}

/// Every effects chain ends with the protection filter and the volume; the
/// preset or custom filters, when there are any, come first. This holds of
/// the system audio chain and of the microphone chain.
pub proof fn law_effects_chain_ends_with_protection(a: AudioEffects, m: MicrophoneEffects)
    ensures
        exists|prefix: Seq<char>| audio_effects_filter(a) == prefix + audio_protection()
            + volume_suffix(a.master_volume),
        exists|prefix: Seq<char>| mic_effects_filter(m) == prefix + mic_protection()
            + volume_suffix(m.volume),
{
    let base = if a.preset == AudioPreset::Custom {
        custom_or_empty(a.custom_filters)
    } else {
        audio_preset_filter(a.preset)
    };
    if !a.enabled || base.len() == 0 {
        assert(audio_effects_filter(a) == Seq::<char>::empty() + audio_protection() + volume_suffix(
            a.master_volume,
        ));
    } else {
        assert(audio_effects_filter(a) == (base + ","@) + audio_protection() + volume_suffix(
            a.master_volume,
        ));
    }
    let mbase = if m.preset == MicrophonePreset::Custom {
        custom_or_empty(m.custom_filters)
    } else {
        mic_preset_filter(m.preset)
    };
    if !m.enabled || mbase.len() == 0 {
        assert(mic_effects_filter(m) == Seq::<char>::empty() + mic_protection() + volume_suffix(
            m.volume,
        ));
    } else {
        assert(mic_effects_filter(m) == (mbase + ","@) + mic_protection() + volume_suffix(
            m.volume,
        ));
    }
}


/// A custom preset puts the user's own filters first: with effects enabled,
/// the custom preset and non-empty custom filters `c`, the chain is `c`, a
/// comma, the protection filter and the volume, for the system audio and for
/// the microphone alike; with no custom filters it is protection and volume
/// only.
pub proof fn law_custom_filters_lead_the_chain(a: AudioEffects, m: MicrophoneEffects)
    ensures
        a.enabled && a.preset == AudioPreset::Custom && a.custom_filters is Some
            && a.custom_filters->0@.len() > 0 ==> audio_effects_filter(a) == a.custom_filters->0@
            + ","@ + "highpass=f=25,alimiter=level_in=1:level_out=0.9:limit=0.95:attack=5:release=20"@
            + ",volume="@ + thousandths(a.master_volume as nat),
        a.preset == AudioPreset::Custom && a.custom_filters is None ==> audio_effects_filter(a)
            == "highpass=f=25,alimiter=level_in=1:level_out=0.9:limit=0.95:attack=5:release=20"@
            + ",volume="@ + thousandths(a.master_volume as nat),
        m.enabled && m.preset == MicrophonePreset::Custom && m.custom_filters is Some
            && m.custom_filters->0@.len() > 0 ==> mic_effects_filter(m) == m.custom_filters->0@
            + ","@ + "alimiter=level_in=1:level_out=0.95:limit=0.98:attack=3:release=15"@
            + ",volume="@ + thousandths(m.volume as nat),
        m.preset == MicrophonePreset::Custom && m.custom_filters is None ==> mic_effects_filter(m)
            == "alimiter=level_in=1:level_out=0.95:limit=0.98:attack=3:release=15"@ + ",volume="@
            + thousandths(m.volume as nat),
{
    assert(audio_effects_filter(a) =~= audio_effects_filter(a));
}

/// An enabled preset other than `Custom` puts its own filter chain (what
/// the preset's `to_ffmpeg_filter` gives) first, when it has one, then a
/// comma, the protection filter and the volume.
pub proof fn law_preset_filters_lead_the_chain(a: AudioEffects, m: MicrophoneEffects)
    ensures
        a.enabled && a.preset != AudioPreset::Custom && audio_preset_filter(a.preset).len() > 0
            ==> audio_effects_filter(a) == audio_preset_filter(a.preset) + ","@
            + "highpass=f=25,alimiter=level_in=1:level_out=0.9:limit=0.95:attack=5:release=20"@
            + ",volume="@ + thousandths(a.master_volume as nat),
        m.enabled && m.preset != MicrophonePreset::Custom && mic_preset_filter(m.preset).len() > 0
            ==> mic_effects_filter(m) == mic_preset_filter(m.preset) + ","@
            + "alimiter=level_in=1:level_out=0.95:limit=0.98:attack=3:release=15"@ + ",volume="@
            + thousandths(m.volume as nat),
{
}

/// What a stream captures and how its audio is filtered.
#[derive(Debug, Clone)]
pub struct AudioPlan {
    pub enable_audio: bool,
    pub enable_microphone: bool,
    pub microphone_device: String,
    /// The process whose audio is captured, in `process` mode only.
    pub target_pid: Option<u32>,
    pub audio_filters: String,
    pub microphone_filters: String,
}

/// The audio of a stream: from its own configuration when it has one
/// (system audio unless `muted`, the target process only in `process` mode,
/// its microphone choice, and its effect chains), else from the global
/// settings with no effects.
pub open spec fn audio_plan_for(config: Option<StreamAudioConfig>, settings: DbSettings, p: AudioPlan) -> bool {
    match config {
        Some(c) => {
            &&& p.enable_audio == (c.audio_mode@ != "muted"@)
            &&& p.target_pid == (if c.audio_mode@ == "process"@ { c.target_pid } else { None })
            &&& p.enable_microphone == c.enable_microphone
            &&& p.microphone_device@ == c.microphone_device@
            &&& p.audio_filters@ == audio_effects_filter(c.audio_effects)
            &&& p.microphone_filters@ == mic_effects_filter(c.microphone_effects)
        },
        None => {
            &&& p.enable_audio == settings.enable_audio
            &&& p.target_pid is None
            &&& p.enable_microphone == settings.enable_microphone
            &&& p.microphone_device@ == settings.microphone_device@
            &&& p.audio_filters@ == Seq::<char>::empty()
            &&& p.microphone_filters@ == Seq::<char>::empty()
        },
    }
}

/// Decides a stream's audio from its stored configuration, if it has one,
/// and the global settings.
pub fn plan_stream_audio(config: &Option<StreamAudioConfig>, settings: &DbSettings) -> (r: AudioPlan)
    ensures
        audio_plan_for(*config, *settings, r),
{
    match config {
        Some(c) => AudioPlan {
            enable_audio: !str_equal(c.audio_mode.as_str(), "muted"),
            enable_microphone: c.enable_microphone,
            microphone_device: copy_string(&c.microphone_device),
            target_pid: if str_equal(c.audio_mode.as_str(), "process") {
                c.target_pid
            } else {
                None
            },
            audio_filters: c.audio_effects.to_ffmpeg_filter(),
            microphone_filters: c.microphone_effects.to_ffmpeg_filter(),
        },
        None => AudioPlan {
            enable_audio: settings.enable_audio,
            enable_microphone: settings.enable_microphone,
            microphone_device: copy_string(&settings.microphone_device),
            target_pid: None,
            audio_filters: String::new(),
            microphone_filters: String::new(),
        },
    }
}

/// A stream's own audio configuration decides its capture whatever the
/// global settings say: two plans for the same configuration under any two
/// settings agree, and they take the configuration's microphone choice and
/// device, its target process (in `process` mode) and its effect chains.
pub proof fn law_stream_config_overrides_settings(
    c: StreamAudioConfig,
    s1: DbSettings,
    s2: DbSettings,
    p1: AudioPlan,
    p2: AudioPlan,
)
    requires
        audio_plan_for(Some(c), s1, p1),
        audio_plan_for(Some(c), s2, p2),
    ensures
        p1.enable_audio == p2.enable_audio,
        p1.enable_microphone == p2.enable_microphone,
        p1.microphone_device@ == p2.microphone_device@,
        p1.target_pid == p2.target_pid,
        p1.audio_filters@ == p2.audio_filters@,
        p1.microphone_filters@ == p2.microphone_filters@,
        p1.enable_microphone == c.enable_microphone,
        p1.microphone_device@ == c.microphone_device@,
        p1.enable_audio == (c.audio_mode@ != "muted"@),
        c.audio_mode@ == "process"@ ==> p1.target_pid == c.target_pid,
        p1.audio_filters@ == audio_effects_filter(c.audio_effects),
        p1.microphone_filters@ == mic_effects_filter(c.microphone_effects),
{
}

/// Without a stream configuration, the plan follows the global settings:
/// their audio and microphone switches and their microphone device, with no
/// target process and no effect filters.
pub proof fn law_settings_decide_without_config(s: DbSettings, p: AudioPlan)
    requires
        audio_plan_for(None, s, p),
    ensures
        p.enable_audio == s.enable_audio,
        p.enable_microphone == s.enable_microphone,
        p.microphone_device@ == s.microphone_device@,
        p.target_pid is None,
        p.audio_filters@.len() == 0,
        p.microphone_filters@.len() == 0,
{
}

} // verus!
