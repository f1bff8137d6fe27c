//! The request sent to the resolver, and the JSON text it travels as.
//!
//! Only the address of the media is required. An option that is not set is
//! left out of the JSON object, so that the resolver applies its default.

use crate::json::json_quote;
use crate::json::json_quoted;
use vstd::prelude::*;
use vstd::string::StringExecFns;

verus! {

/// What to download, and how.
#[derive(Debug, Clone, PartialEq, Eq)]
pub struct DownloadRequest {
    /// The address of the media.
    pub url: String,
    /// Sent as `audioBitrate`; resolver default: 128.
    pub audio_bitrate: Option<AudioBitrate>,
    /// Sent as `audioFormat`; resolver default: mp3.
    pub audio_format: Option<AudioFormat>,
    /// Sent as `downloadMode`; resolver default: auto.
    pub download_mode: Option<DownloadMode>,
    /// Sent as `filenameStyle`; resolver default: basic.
    pub filename_style: Option<FilenameStyle>,
    /// Sent as `videoQuality`; resolver default: 1080.
    pub video_quality: Option<VideoQuality>,
    /// Sent as `disableMetadata`; resolver default: false.
    pub disable_metadata: Option<bool>,
    /// Sent as `alwaysProxy`; resolver default: false.
    pub always_proxy: Option<bool>,
    /// Sent as `localProcessing`; resolver default: false.
    pub local_processing: Option<bool>,
    /// Sent as `youtubeVideoCodec`; h264, av1 or vp9.
    pub youtube_video_codec: Option<YoutubeVideoCodec>,
    /// Sent as `youtubeDubLang`; a language tag such as "en" or "zh-CN".
    pub youtube_dub_lang: Option<String>,
    /// Sent as `convertGif`; resolver default: true.
    pub convert_gif: Option<bool>,
    /// Sent as `allowH265`; resolver default: false.
    pub allow_h265: Option<bool>,
    /// Sent as `tiktokFullAudio`; resolver default: false.
    pub tiktok_full_audio: Option<bool>,
    /// Sent as `youtubeBetterAudio`; resolver default: false.
    pub youtube_better_audio: Option<bool>,
    /// Sent as `youtubeHls`; resolver default: false.
    pub youtube_hls: Option<bool>,
}

/// The bitrate of converted audio, in kbit/s.
#[derive(Debug, Clone, Copy, PartialEq, Eq, Structural)]
pub enum AudioBitrate {
    Kbps320,
    Kbps256,
    Kbps128,
    Kbps96,
    Kbps64,
    Kbps8,
}

/// The format that audio is converted to.
#[derive(Debug, Clone, Copy, PartialEq, Eq, Structural)]
pub enum AudioFormat {
    Best,
    Mp3,
    Ogg,
    Wav,
    Opus,
}

/// What of the media is wanted.
#[derive(Debug, Clone, Copy, PartialEq, Eq, Structural)]
pub enum DownloadMode {
    Auto,
    Audio,
    Mute,
}

/// How the resolver names the file.
#[derive(Debug, Clone, Copy, PartialEq, Eq, Structural)]
pub enum FilenameStyle {
    Classic,
    Pretty,
    Basic,
    Nerdy,
}

/// The largest video height that is wanted.
#[derive(Debug, Clone, Copy, PartialEq, Eq, Structural)]
pub enum VideoQuality {
    Max,
    Q4320,
    Q2160,
    Q1440,
    Q1080,
    Q720,
    Q480,
    Q360,
    Q240,
    Q144,
}

/// The video codec asked of YouTube.
#[derive(Debug, Clone, Copy, PartialEq, Eq, Structural)]
pub enum YoutubeVideoCodec {
    H264,
    Av1,
    Vp9,
}

/// The mathematical value of a `DownloadRequest`.
pub struct DownloadRequestView {
    pub url: Seq<char>,
    pub audio_bitrate: Option<AudioBitrate>,
    pub audio_format: Option<AudioFormat>,
    pub download_mode: Option<DownloadMode>,
    pub filename_style: Option<FilenameStyle>,
    pub video_quality: Option<VideoQuality>,
    pub disable_metadata: Option<bool>,
    pub always_proxy: Option<bool>,
    pub local_processing: Option<bool>,
    pub youtube_video_codec: Option<YoutubeVideoCodec>,
    pub youtube_dub_lang: Option<Seq<char>>,
    pub convert_gif: Option<bool>,
    pub allow_h265: Option<bool>,
    pub tiktok_full_audio: Option<bool>,
    pub youtube_better_audio: Option<bool>,
    pub youtube_hls: Option<bool>,
}

impl DeepView for DownloadRequest {
    type V = DownloadRequestView;

    open spec fn deep_view(&self) -> DownloadRequestView {
        DownloadRequestView {
            url: self.url@,
            audio_bitrate: self.audio_bitrate,
            audio_format: self.audio_format,
            download_mode: self.download_mode,
            filename_style: self.filename_style,
            video_quality: self.video_quality,
            disable_metadata: self.disable_metadata,
            always_proxy: self.always_proxy,
            local_processing: self.local_processing,
            youtube_video_codec: self.youtube_video_codec,
            youtube_dub_lang: self.youtube_dub_lang.deep_view(),
            convert_gif: self.convert_gif,
            allow_h265: self.allow_h265,
            tiktok_full_audio: self.tiktok_full_audio,
            youtube_better_audio: self.youtube_better_audio,
            youtube_hls: self.youtube_hls,
        }
    }
}

impl AudioBitrate {
    /// The name of this value in a request.
    pub open spec fn wire_name(self) -> Seq<char> {
        match self {
            AudioBitrate::Kbps320 => "320"@,
            AudioBitrate::Kbps256 => "256"@,
            AudioBitrate::Kbps128 => "128"@,
            AudioBitrate::Kbps96 => "96"@,
            AudioBitrate::Kbps64 => "64"@,
            AudioBitrate::Kbps8 => "8"@,
        }
    }

    /// The name of this value in a request.
    pub fn as_str(&self) -> (name: &'static str)
        ensures
            name@ == self.wire_name(),
    {
        match self {
            AudioBitrate::Kbps320 => "320",
            AudioBitrate::Kbps256 => "256",
            AudioBitrate::Kbps128 => "128",
            AudioBitrate::Kbps96 => "96",
            AudioBitrate::Kbps64 => "64",
            AudioBitrate::Kbps8 => "8",
        }
    }
}

impl AudioFormat {
    /// The name of this value in a request.
    pub open spec fn wire_name(self) -> Seq<char> {
        match self {
            AudioFormat::Best => "best"@,
            AudioFormat::Mp3 => "mp3"@,
            AudioFormat::Ogg => "ogg"@,
            AudioFormat::Wav => "wav"@,
            AudioFormat::Opus => "opus"@,
        }
    }

    /// The name of this value in a request.
    pub fn as_str(&self) -> (name: &'static str)
        ensures
            name@ == self.wire_name(),
    {
        match self {
            AudioFormat::Best => "best",
            AudioFormat::Mp3 => "mp3",
            AudioFormat::Ogg => "ogg",
            AudioFormat::Wav => "wav",
            AudioFormat::Opus => "opus",
        }
    }
}

impl DownloadMode {
    /// The name of this value in a request.
    pub open spec fn wire_name(self) -> Seq<char> {
        match self {
            DownloadMode::Auto => "auto"@,
            DownloadMode::Audio => "audio"@,
            DownloadMode::Mute => "mute"@,
        }
    }

    /// The name of this value in a request.
    pub fn as_str(&self) -> (name: &'static str)
        ensures
            name@ == self.wire_name(),
    {
        match self {
            DownloadMode::Auto => "auto",
            DownloadMode::Audio => "audio",
            DownloadMode::Mute => "mute",
        }
    }
}

impl FilenameStyle {
    /// The name of this value in a request.
    pub open spec fn wire_name(self) -> Seq<char> {
        match self {
            FilenameStyle::Classic => "classic"@,
            FilenameStyle::Pretty => "pretty"@,
            FilenameStyle::Basic => "basic"@,
            FilenameStyle::Nerdy => "nerdy"@,
        }
    }

    /// The name of this value in a request.
    pub fn as_str(&self) -> (name: &'static str)
        ensures
            name@ == self.wire_name(),
    {
        match self {
            FilenameStyle::Classic => "classic",
            FilenameStyle::Pretty => "pretty",
            FilenameStyle::Basic => "basic",
            FilenameStyle::Nerdy => "nerdy",
        }
    }
}

impl VideoQuality {
    /// The name of this value in a request.
    pub open spec fn wire_name(self) -> Seq<char> {
        match self {
            VideoQuality::Max => "max"@,
            VideoQuality::Q4320 => "4320"@,
            VideoQuality::Q2160 => "2160"@,
            VideoQuality::Q1440 => "1440"@,
            VideoQuality::Q1080 => "1080"@,
            VideoQuality::Q720 => "720"@,
            VideoQuality::Q480 => "480"@,
            VideoQuality::Q360 => "360"@,
            VideoQuality::Q240 => "240"@,
            VideoQuality::Q144 => "144"@,
        }
    }

    /// The name of this value in a request.
    pub fn as_str(&self) -> (name: &'static str)
        ensures
            name@ == self.wire_name(),
    {
        match self {
            VideoQuality::Max => "max",
            VideoQuality::Q4320 => "4320",
            VideoQuality::Q2160 => "2160",
            VideoQuality::Q1440 => "1440",
            VideoQuality::Q1080 => "1080",
            VideoQuality::Q720 => "720",
            VideoQuality::Q480 => "480",
            VideoQuality::Q360 => "360",
            VideoQuality::Q240 => "240",
            VideoQuality::Q144 => "144",
        }
    }
}

impl YoutubeVideoCodec {
    /// The name of this value in a request.
    pub open spec fn wire_name(self) -> Seq<char> {
        match self {
            YoutubeVideoCodec::H264 => "h264"@,
            YoutubeVideoCodec::Av1 => "av1"@,
            YoutubeVideoCodec::Vp9 => "vp9"@,
        }
    }

    /// The name of this value in a request.
    pub fn as_str(&self) -> (name: &'static str)
        ensures
            name@ == self.wire_name(),
    {
        match self {
            YoutubeVideoCodec::H264 => "h264",
            YoutubeVideoCodec::Av1 => "av1",
            YoutubeVideoCodec::Vp9 => "vp9",
        }
    }
}

/// The JSON text of an option that names one of a fixed set of values.
pub open spec fn quoted_name(name: Seq<char>) -> Seq<char> {
    "\""@ + name + "\""@
}

/// The JSON text of a truth value.
pub open spec fn bool_text(b: bool) -> Seq<char> {
    if b {
        "true"@
    } else {
        "false"@
    }
}

/// One further member of the JSON object: a comma, the quoted name, a colon
/// and the value; nothing when the option is not set.
pub open spec fn member_text(name: Seq<char>, value: Option<Seq<char>>) -> Seq<char> {
    match value {
        Some(v) => ",\""@ + name + "\":"@ + v,
        None => Seq::empty(),
    }
}

/// The JSON text of an optional truth value.
pub open spec fn flag_text(flag: Option<bool>) -> Option<Seq<char>> {
    match flag {
        Some(b) => Some(bool_text(b)),
        None => None,
    }
}

impl DownloadRequestView {
    /// The JSON text of the request: one object, its members in the order of
    /// the fields, without white space, options that are not set left out.
    pub open spec fn json_text(self) -> Seq<char> {
        "{\"url\":"@ + json_quoted(self.url)
            + member_text("audioBitrate"@, match self.audio_bitrate {
                Some(v) => Some(quoted_name(v.wire_name())),
                None => None,
            })
            + member_text("audioFormat"@, match self.audio_format {
                Some(v) => Some(quoted_name(v.wire_name())),
                None => None,
            })
            + member_text("downloadMode"@, match self.download_mode {
                Some(v) => Some(quoted_name(v.wire_name())),
                None => None,
            })
            + member_text("filenameStyle"@, match self.filename_style {
                Some(v) => Some(quoted_name(v.wire_name())),
                None => None,
            })
            + member_text("videoQuality"@, match self.video_quality {
                Some(v) => Some(quoted_name(v.wire_name())),
                None => None,
            })
            + member_text("disableMetadata"@, flag_text(self.disable_metadata))
            + member_text("alwaysProxy"@, flag_text(self.always_proxy))
            + member_text("localProcessing"@, flag_text(self.local_processing))
            + member_text("youtubeVideoCodec"@, match self.youtube_video_codec {
                Some(v) => Some(quoted_name(v.wire_name())),
                None => None,
            })
            + member_text("youtubeDubLang"@, match self.youtube_dub_lang {
                Some(s) => Some(json_quoted(s)),
                None => None,
            })
            + member_text("convertGif"@, flag_text(self.convert_gif))
            + member_text("allowH265"@, flag_text(self.allow_h265))
            + member_text("tiktokFullAudio"@, flag_text(self.tiktok_full_audio))
            + member_text("youtubeBetterAudio"@, flag_text(self.youtube_better_audio))
            + member_text("youtubeHls"@, flag_text(self.youtube_hls))
            + "}"@
    }
}

/// Appends one member whose value is already JSON text.
fn push_member(text: &mut String, name: &str, value: &str)
    ensures
        final(text)@ == old(text)@ + member_text(name@, Some(value@)),
{
    text.append(",\"");
    text.append(name);
    text.append("\":");
    text.append(value);
    assert(text@ =~= old(text)@ + member_text(name@, Some(value@)));
}

/// Appends one member that names one of a fixed set of values, if it is set.
fn push_name(text: &mut String, name: &str, value: Option<&'static str>)
    ensures
        final(text)@ == old(text)@ + member_text(
            name@,
            match value {
                Some(v) => Some(quoted_name(v@)),
                None => None,
            },
        ),
{
    match value {
        Some(v) => {
            let mut quoted = "\"".to_owned();
            quoted.append(v);
            quoted.append("\"");
            push_member(text, name, quoted.as_str());
        },
        None => {
            assert(text@ =~= old(text)@ + Seq::<char>::empty());
        },
    }
}

/// Appends one member that holds a truth value, if it is set.
fn push_flag(text: &mut String, name: &str, value: Option<bool>)
    ensures
        final(text)@ == old(text)@ + member_text(name@, flag_text(value)),
{
    match value {
        Some(b) => {
            if b {
                push_member(text, name, "true");
            } else {
                push_member(text, name, "false");
            }
        },
        None => {
            assert(text@ =~= old(text)@ + Seq::<char>::empty());
        },
    }
}

/// Appends one member that holds free text, if it is set.
fn push_text(text: &mut String, name: &str, value: &Option<String>)
    ensures
        final(text)@ == old(text)@ + member_text(
            name@,
            match value {
                Some(s) => Some(json_quoted(s@)),
                None => None,
            },
        ),
{
    match value {
        Some(s) => {
            let quoted = json_quote(s.as_str());
            push_member(text, name, quoted.as_str());
        },
        None => {
            assert(text@ =~= old(text)@ + Seq::<char>::empty());
        },
    }
}

impl DownloadRequest {
    /// The JSON text that is sent to the resolver as the body of the request.
    pub fn to_json(&self) -> (text: String)
        ensures
            text@ == self.deep_view().json_text(),
    {
        let mut text = "{\"url\":".to_owned();
        let url = json_quote(self.url.as_str());
        text.append(url.as_str());
        push_name(
            &mut text,
            "audioBitrate",
            match &self.audio_bitrate {
                Some(v) => Some(v.as_str()),
                None => None,
            },
        );
        push_name(
            &mut text,
            "audioFormat",
            match &self.audio_format {
                Some(v) => Some(v.as_str()),
                None => None,
            },
        );
        push_name(
            &mut text,
            "downloadMode",
            match &self.download_mode {
                Some(v) => Some(v.as_str()),
                None => None,
            },
        );
        push_name(
            &mut text,
            "filenameStyle",
            match &self.filename_style {
                Some(v) => Some(v.as_str()),
                None => None,
            },
        );
        push_name(
            &mut text,
            "videoQuality",
            match &self.video_quality {
                Some(v) => Some(v.as_str()),
                None => None,
            },
        );
        push_flag(&mut text, "disableMetadata", self.disable_metadata);
        push_flag(&mut text, "alwaysProxy", self.always_proxy);
        push_flag(&mut text, "localProcessing", self.local_processing);
        push_name(
            &mut text,
            "youtubeVideoCodec",
            match &self.youtube_video_codec {
                Some(v) => Some(v.as_str()),
                None => None,
            },
        );
        push_text(&mut text, "youtubeDubLang", &self.youtube_dub_lang);
        push_flag(&mut text, "convertGif", self.convert_gif);
        push_flag(&mut text, "allowH265", self.allow_h265);
        push_flag(&mut text, "tiktokFullAudio", self.tiktok_full_audio);
        push_flag(&mut text, "youtubeBetterAudio", self.youtube_better_audio);
        push_flag(&mut text, "youtubeHls", self.youtube_hls);
        text.append("}");
        text
    }
}

impl Default for DownloadRequest {
    /// The request with an empty address and no option set.
    fn default() -> (request: DownloadRequest)
        ensures
            request.deep_view() == (DownloadRequestView {
                url: Seq::empty(),
                audio_bitrate: None,
                audio_format: None,
                download_mode: None,
                filename_style: None,
                video_quality: None,
                disable_metadata: None,
                always_proxy: None,
                local_processing: None,
                youtube_video_codec: None,
                youtube_dub_lang: None,
                convert_gif: None,
                allow_h265: None,
                tiktok_full_audio: None,
                youtube_better_audio: None,
                youtube_hls: None,
            }),
    {
        DownloadRequest {
            url: String::new(),
            audio_bitrate: None,
            audio_format: None,
            download_mode: None,
            filename_style: None,
            video_quality: None,
            disable_metadata: None,
            always_proxy: None,
            local_processing: None,
            youtube_video_codec: None,
            youtube_dub_lang: None,
            convert_gif: None,
            allow_h265: None,
            tiktok_full_audio: None,
            youtube_better_audio: None,
            youtube_hls: None,
        }
    }
}

} // verus!
