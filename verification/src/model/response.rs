//! The replies of the resolver: the description of a running instance, and
//! the five shapes of an answer to a download request.

use crate::model::error::CobaltError;
use crate::model::error::CobaltErrorView;
use vstd::prelude::*;

verus! {

/// What a resolver says about itself.
#[derive(Debug, Clone, PartialEq, Eq)]
pub struct InfoResponse {
    pub cobalt: CobaltInfo,
    pub git: GitInfo,
}

/// The running instance: its version, address, start time, captcha site key
/// and the services it supports.
#[derive(Debug, Clone, PartialEq, Eq)]
pub struct CobaltInfo {
    pub version: String,
    pub url: String,
    pub start_time: String,
    pub turnstile_sitekey: String,
    pub services: Vec<String>,
}

/// The source revision that the instance was built from.
#[derive(Debug, Clone, PartialEq, Eq)]
pub struct GitInfo {
    pub branch: String,
    pub commit: String,
    pub remote: String,
}

/// The answer to a download request. Exactly one shape is active.
#[allow(inconsistent_fields)]
#[derive(Debug, Clone, PartialEq, Eq)]
pub enum DownloadResponse {
    /// One endpoint that streams the media through the resolver.
    Tunnel { url: String, filename: String },
    /// One endpoint at the origin that serves the media.
    Redirect { url: String, filename: String },
    /// Several source tunnels that the client has to combine itself.
    LocalProcessing {
        kind: LocalProcessingKind,
        service: String,
        tunnel: Vec<String>,
        output: Output,
        audio: Option<Audio>,
        is_hls: Option<bool>,
    },
    /// Several media items to choose from; no single download target.
    Picker { picker: Vec<PickerItem>, audio: Option<String>, audio_filename: Option<String> },
    /// The resolver could not serve the request.
    Error { error: CobaltError },
}

/// The file that local processing is to produce.
#[derive(Debug, Clone, PartialEq, Eq)]
pub struct Output {
    pub mime_type: String,
    pub filename: String,
    pub metadata: Option<OutputMetadata>,
}

/// Free-form media tags of an output file.
#[derive(Debug, Clone, PartialEq, Eq)]
pub struct OutputMetadata {
    pub album: Option<String>,
    pub copyright: Option<String>,
    pub title: Option<String>,
    pub artist: Option<String>,
    pub track: Option<String>,
    pub date: Option<String>,
}

/// How the audio of a locally processed file is to be treated.
#[derive(Debug, Clone, PartialEq, Eq)]
pub struct Audio {
    pub copy: bool,
    pub format: String,
    pub bitrate: String,
}

/// One selectable item of a picker. `kind` is expected to be "photo",
/// "video" or "gif".
#[derive(Debug, Clone, PartialEq, Eq)]
pub struct PickerItem {
    pub kind: String,
    pub url: String,
    pub thumb: Option<String>,
}

/// What the client has to do with the source tunnels.
#[derive(Debug, Clone, Copy, PartialEq, Eq, Structural)]
pub enum LocalProcessingKind {
    Merge,
    Mute,
    Audio,
    Gif,
    Remux,
}

/// The mathematical value of a `GitInfo`.
pub struct GitInfoView {
    pub branch: Seq<char>,
    pub commit: Seq<char>,
    pub remote: Seq<char>,
}

/// The mathematical value of a `CobaltInfo`.
pub struct CobaltInfoView {
    pub version: Seq<char>,
    pub url: Seq<char>,
    pub start_time: Seq<char>,
    pub turnstile_sitekey: Seq<char>,
    pub services: Seq<Seq<char>>,
}

/// The mathematical value of an `InfoResponse`.
pub struct InfoResponseView {
    pub cobalt: CobaltInfoView,
    pub git: GitInfoView,
}

/// The mathematical value of an `OutputMetadata`.
pub struct OutputMetadataView {
    pub album: Option<Seq<char>>,
    pub copyright: Option<Seq<char>>,
    pub title: Option<Seq<char>>,
    pub artist: Option<Seq<char>>,
    pub track: Option<Seq<char>>,
    pub date: Option<Seq<char>>,
}

/// The mathematical value of an `Output`.
pub struct OutputView {
    pub mime_type: Seq<char>,
    pub filename: Seq<char>,
    pub metadata: Option<OutputMetadataView>,
}

/// The mathematical value of an `Audio`.
pub struct AudioView {
    pub copy: bool,
    pub format: Seq<char>,
    pub bitrate: Seq<char>,
}

/// The mathematical value of a `PickerItem`.
pub struct PickerItemView {
    pub kind: Seq<char>,
    pub url: Seq<char>,
    pub thumb: Option<Seq<char>>,
}

/// The mathematical value of a `DownloadResponse`.
#[allow(inconsistent_fields)]
pub enum DownloadResponseView {
    Tunnel { url: Seq<char>, filename: Seq<char> },
    Redirect { url: Seq<char>, filename: Seq<char> },
    LocalProcessing {
        kind: LocalProcessingKind,
        service: Seq<char>,
        tunnel: Seq<Seq<char>>,
        output: OutputView,
        audio: Option<AudioView>,
        is_hls: Option<bool>,
    },
    Picker {
        picker: Seq<PickerItemView>,
        audio: Option<Seq<char>>,
        audio_filename: Option<Seq<char>>,
    },
    Error { error: CobaltErrorView },
}

impl DeepView for GitInfo {
    type V = GitInfoView;

    open spec fn deep_view(&self) -> GitInfoView {
        GitInfoView { branch: self.branch@, commit: self.commit@, remote: self.remote@ }
    }
}

impl DeepView for CobaltInfo {
    type V = CobaltInfoView;

    open spec fn deep_view(&self) -> CobaltInfoView {
        CobaltInfoView {
            version: self.version@,
            url: self.url@,
            start_time: self.start_time@,
            turnstile_sitekey: self.turnstile_sitekey@,
            services: self.services.deep_view(),
        }
    }
}

impl DeepView for InfoResponse {
    type V = InfoResponseView;

    open spec fn deep_view(&self) -> InfoResponseView {
        InfoResponseView { cobalt: self.cobalt.deep_view(), git: self.git.deep_view() }
    }
}

impl DeepView for OutputMetadata {
    type V = OutputMetadataView;

    open spec fn deep_view(&self) -> OutputMetadataView {
        OutputMetadataView {
            album: self.album.deep_view(),
            copyright: self.copyright.deep_view(),
            title: self.title.deep_view(),
            artist: self.artist.deep_view(),
            track: self.track.deep_view(),
            date: self.date.deep_view(),
        }
    }
}

impl DeepView for Output {
    type V = OutputView;

    open spec fn deep_view(&self) -> OutputView {
        OutputView {
            mime_type: self.mime_type@,
            filename: self.filename@,
            metadata: self.metadata.deep_view(),
        }
    }
}

impl DeepView for Audio {
    type V = AudioView;

    open spec fn deep_view(&self) -> AudioView {
        AudioView { copy: self.copy, format: self.format@, bitrate: self.bitrate@ }
    }
}

impl DeepView for PickerItem {
    type V = PickerItemView;

    open spec fn deep_view(&self) -> PickerItemView {
        PickerItemView { kind: self.kind@, url: self.url@, thumb: self.thumb.deep_view() }
    }
}

impl DeepView for DownloadResponse {
    type V = DownloadResponseView;

    open spec fn deep_view(&self) -> DownloadResponseView {
        match self {
            DownloadResponse::Tunnel { url, filename } => DownloadResponseView::Tunnel {
                url: url@,
                filename: filename@,
            },
            DownloadResponse::Redirect { url, filename } => DownloadResponseView::Redirect {
                url: url@,
                filename: filename@,
            },
            DownloadResponse::LocalProcessing {
                kind,
                service,
                tunnel,
                output,
                audio,
                is_hls,
            } => DownloadResponseView::LocalProcessing {
                kind: *kind,
                service: service@,
                tunnel: tunnel.deep_view(),
                output: output.deep_view(),
                audio: audio.deep_view(),
                is_hls: *is_hls,
            },
            DownloadResponse::Picker {
                picker,
                audio,
                audio_filename,
            } => DownloadResponseView::Picker {
                picker: picker.deep_view(),
                audio: audio.deep_view(),
                audio_filename: audio_filename.deep_view(),
            },
            DownloadResponse::Error { error } => DownloadResponseView::Error {
                error: error.deep_view(),
            },
        }
    }
}

impl DownloadResponseView {
    /// The endpoint to fetch, if the answer names one: the `url` of a tunnel
    /// or a redirect; for local processing the first source tunnel, or the
    /// empty string when there is none; nothing for a picker or an error.
    pub open spec fn download_url(self) -> Option<Seq<char>> {
        match self {
            DownloadResponseView::Tunnel { url, .. } => Some(url),
            DownloadResponseView::Redirect { url, .. } => Some(url),
            DownloadResponseView::LocalProcessing { tunnel, .. } => Some(
                if tunnel.len() > 0 {
                    tunnel[0]
                } else {
                    Seq::empty()
                },
            ),
            DownloadResponseView::Picker { .. } => None,
            DownloadResponseView::Error { .. } => None,
        }
    }
}

impl DownloadResponse {
    /// Whether the resolver reported an error.
    pub fn is_error(&self) -> (b: bool)
        ensures
            b == (self.deep_view() is Error),
    {
        matches!(self, DownloadResponse::Error { .. })
    }

    /// Whether the answer is a tunnel.
    pub fn is_tunnel(&self) -> (b: bool)
        ensures
            b == (self.deep_view() is Tunnel),
    {
        matches!(self, DownloadResponse::Tunnel { .. })
    }

    /// Whether the answer is a redirect.
    pub fn is_redirect(&self) -> (b: bool)
        ensures
            b == (self.deep_view() is Redirect),
    {
        matches!(self, DownloadResponse::Redirect { .. })
    }

    /// Whether the answer asks for local processing.
    pub fn is_local_processing(&self) -> (b: bool)
        ensures
            b == (self.deep_view() is LocalProcessing),
    {
        matches!(self, DownloadResponse::LocalProcessing { .. })
    }

    /// Whether the answer is a picker.
    pub fn is_picker(&self) -> (b: bool)
        ensures
            b == (self.deep_view() is Picker),
    {
        matches!(self, DownloadResponse::Picker { .. })
    }

    /// The endpoint to fetch, if the answer names one.
    pub fn get_download_url(&self) -> (url: Option<String>)
        ensures
            url.deep_view() == self.deep_view().download_url(),
    {
        match self {
            DownloadResponse::Tunnel { url, .. } => Some(url.clone()),
            DownloadResponse::Redirect { url, .. } => Some(url.clone()),
            DownloadResponse::LocalProcessing { tunnel, .. } => {
                if tunnel.len() > 0 {
                    Some(tunnel[0].clone())
                } else {
                    Some(String::new())
                }
            },
            DownloadResponse::Picker { .. } => None,
            DownloadResponse::Error { .. } => None,
        }
    }
}

/// Exactly one of the five tag checks holds of any answer.
pub proof fn lemma_one_shape(response: DownloadResponseView)
    ensures
        (if response is Tunnel { 1int } else { 0 })
            + (if response is Redirect { 1int } else { 0 })
            + (if response is LocalProcessing { 1int } else { 0 })
            + (if response is Picker { 1int } else { 0 })
            + (if response is Error { 1int } else { 0 }) == 1,
{
}

/// An answer names an endpoint exactly when it is a tunnel, a redirect or a
/// request for local processing.
pub proof fn lemma_download_url_per_shape(response: DownloadResponseView)
    ensures
        response.download_url() is Some <==> response is Tunnel || response is Redirect
            || response is LocalProcessing,
        response matches DownloadResponseView::Tunnel { url, .. } ==> response.download_url()
            == Some(url),
        response matches DownloadResponseView::Redirect { url, .. } ==> response.download_url()
            == Some(url),
        response matches DownloadResponseView::LocalProcessing { tunnel, .. } ==> (tunnel.len()
            > 0 ==> response.download_url() == Some(tunnel[0])) && (tunnel.len() == 0
            ==> response.download_url() == Some(Seq::<char>::empty())),
{
}

} // verus!
