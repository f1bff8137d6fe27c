//! The errors of the pipeline: what the resolver reports, the kinds of
//! failure that the client itself detects, and the sentence shown for each
//! error code.

use crate::text::ascii_lowercase;
use crate::text::lower;
use crate::text::str_eq;
use vstd::prelude::*;

verus! {

/// An error as the resolver reports it, or as the client reports a failure of
/// its own: a dot-separated code and, for some codes, what it refers to.
#[derive(Debug, Clone, PartialEq, Eq)]
pub struct CobaltError {
    pub code: String,
    pub context: Option<ErrorContext>,
}

/// What an error code refers to: the service concerned, or the limit exceeded.
#[derive(Debug, Clone, PartialEq, Eq)]
pub struct ErrorContext {
    pub service: Option<String>,
    pub limit: Option<u32>,
}

/// The mathematical value of an `ErrorContext`.
pub struct ErrorContextView {
    pub service: Option<Seq<char>>,
    pub limit: Option<u32>,
}

/// The mathematical value of a `CobaltError`.
pub struct CobaltErrorView {
    pub code: Seq<char>,
    pub context: Option<ErrorContextView>,
}

impl DeepView for ErrorContext {
    type V = ErrorContextView;

    open spec fn deep_view(&self) -> ErrorContextView {
        ErrorContextView { service: self.service.deep_view(), limit: self.limit }
    }
}

impl DeepView for CobaltError {
    type V = CobaltErrorView;

    open spec fn deep_view(&self) -> CobaltErrorView {
        CobaltErrorView { code: self.code@, context: self.context.deep_view() }
    }
}

/// The number of error codes that have a sentence of their own.
pub const KNOWN_CODES: usize = 29;

/// The `i`-th error code that has a sentence of its own.
pub open spec fn known_code(i: int) -> Seq<char> {
    if i == 0 {
        "error.api.unreachable"@
    } else if i == 1 {
        "error.api.timed_out"@
    } else if i == 2 {
        "error.api.rate_exceeded"@
    } else if i == 3 {
        "error.api.capacity"@
    } else if i == 4 {
        "error.api.generic"@
    } else if i == 5 {
        "error.api.unknown_response"@
    } else if i == 6 {
        "error.api.service.unsupported"@
    } else if i == 7 {
        "error.api.service.disabled"@
    } else if i == 8 {
        "error.api.link.invalid"@
    } else if i == 9 {
        "error.api.link.unsupported"@
    } else if i == 10 {
        "error.api.fetch.fail"@
    } else if i == 11 {
        "error.api.fetch.critical"@
    } else if i == 12 {
        "error.api.fetch.empty"@
    } else if i == 13 {
        "error.api.fetch.rate"@
    } else if i == 14 {
        "error.api.fetch.short_link"@
    } else if i == 15 {
        "error.api.content.too_long"@
    } else if i == 16 {
        "error.api.content.video.unavailable"@
    } else if i == 17 {
        "error.api.content.video.live"@
    } else if i == 18 {
        "error.api.content.video.private"@
    } else if i == 19 {
        "error.api.content.video.age"@
    } else if i == 20 {
        "error.api.content.video.region"@
    } else if i == 21 {
        "error.api.content.post.unavailable"@
    } else if i == 22 {
        "error.api.content.post.private"@
    } else if i == 23 {
        "error.api.content.post.age"@
    } else if i == 24 {
        "error.api.youtube.codec"@
    } else if i == 25 {
        "error.api.youtube.decipher"@
    } else if i == 26 {
        "error.api.youtube.login"@
    } else if i == 27 {
        "error.api.youtube.token_expired"@
    } else {
        "error.api.youtube.temporary_disabled"@
    }
}

/// The sentence shown for the `i`-th known error code.
pub open spec fn known_text(i: int) -> Seq<char> {
    if i == 0 {
        "API unreachable (try again later)"@
    } else if i == 1 {
        "API timeout (try again later)"@
    } else if i == 2 {
        "Rate limited (try again later)"@
    } else if i == 3 {
        "API busy (try again later)"@
    } else if i == 4 {
        "General API error (try again later)"@
    } else if i == 5 {
        "Download failure. Make sure the link is valid. (unknown response)"@
    } else if i == 6 {
        "That service or website is not supported."@
    } else if i == 7 {
        "Downloading from that service or website is temporarily disabled."@
    } else if i == 8 {
        "That link is invalid. Make sure it is correct."@
    } else if i == 9 {
        "That link or format is unsupported."@
    } else if i == 10 {
        "Failed to fetch the media. Make sure the link is valid, or try again later."@
    } else if i == 11 {
        "Critical error fetching the media. Make sure the link is valid, or try again later."@
    } else if i == 12 {
        "The service or website returned no data. This may be caused by the site blocking the downloader (try again later)"@
    } else if i == 13 {
        "The service or website has rate limited the downloader (try again later)"@
    } else if i == 14 {
        "Unable to resolve the shortlink. Try using the full link to the media."@
    } else if i == 15 {
        "The requested content is too big."@
    } else if i == 16 {
        "That video is unavailable. Make sure it is not region or age restricted, and is not private."@
    } else if i == 17 {
        "Live videos are unsupported."@
    } else if i == 18 {
        "That video is private."@
    } else if i == 19 {
        "That video is age restricted."@
    } else if i == 20 {
        "That video is region restricted."@
    } else if i == 21 {
        "That post is unavailable. Make sure it is not region or age restricted, and is not private."@
    } else if i == 22 {
        "That post is private."@
    } else if i == 23 {
        "That post is age restricted."@
    } else if i == 24 {
        "Missing YouTube codec. This is a bug."@
    } else if i == 25 {
        "Cannot decipher that video. Something probably broke."@
    } else if i == 26 {
        "That video requires a logged in account, which we do not have."@
    } else if i == 27 {
        "Our YouTube token expired (try again later)"@
    } else {
        "YouTube support is temporarily disabled. Try again later."@
    }
}

/// The sentence of the first known code at or after `from` that equals `code`.
pub open spec fn lookup_from(code: Seq<char>, from: int) -> Option<Seq<char>>
    decreases KNOWN_CODES - from,
{
    if from < 0 || from >= KNOWN_CODES {
        None
    } else if known_code(from) == code {
        Some(known_text(from))
    } else {
        lookup_from(code, from + 1)
    }
}

/// The sentence shown for an error code: that of the known code which `code`
/// equals once its ASCII capitals are lowered, or `code` itself, unchanged,
/// when there is no such known code.
pub open spec fn message_of(code: Seq<char>) -> Seq<char> {
    match lookup_from(lower(code), 0) {
        Some(text) => text,
        None => code,
    }
}

/// The `i`-th known error code and its sentence.
fn known_entry(i: usize) -> (entry: (&'static str, &'static str))
    requires
        i < KNOWN_CODES,
    ensures
        entry.0@ == known_code(i as int),
        entry.1@ == known_text(i as int),
{
    match i {
        0 => ("error.api.unreachable", "API unreachable (try again later)"),
        1 => ("error.api.timed_out", "API timeout (try again later)"),
        2 => ("error.api.rate_exceeded", "Rate limited (try again later)"),
        3 => ("error.api.capacity", "API busy (try again later)"),
        4 => ("error.api.generic", "General API error (try again later)"),
        5 => ("error.api.unknown_response", "Download failure. Make sure the link is valid. (unknown response)"),
        6 => ("error.api.service.unsupported", "That service or website is not supported."),
        7 => ("error.api.service.disabled", "Downloading from that service or website is temporarily disabled."),
        8 => ("error.api.link.invalid", "That link is invalid. Make sure it is correct."),
        9 => ("error.api.link.unsupported", "That link or format is unsupported."),
        10 => ("error.api.fetch.fail", "Failed to fetch the media. Make sure the link is valid, or try again later."),
        11 => ("error.api.fetch.critical", "Critical error fetching the media. Make sure the link is valid, or try again later."),
        12 => ("error.api.fetch.empty", "The service or website returned no data. This may be caused by the site blocking the downloader (try again later)"),
        13 => ("error.api.fetch.rate", "The service or website has rate limited the downloader (try again later)"),
        14 => ("error.api.fetch.short_link", "Unable to resolve the shortlink. Try using the full link to the media."),
        15 => ("error.api.content.too_long", "The requested content is too big."),
        16 => ("error.api.content.video.unavailable", "That video is unavailable. Make sure it is not region or age restricted, and is not private."),
        17 => ("error.api.content.video.live", "Live videos are unsupported."),
        18 => ("error.api.content.video.private", "That video is private."),
        19 => ("error.api.content.video.age", "That video is age restricted."),
        20 => ("error.api.content.video.region", "That video is region restricted."),
        21 => ("error.api.content.post.unavailable", "That post is unavailable. Make sure it is not region or age restricted, and is not private."),
        22 => ("error.api.content.post.private", "That post is private."),
        23 => ("error.api.content.post.age", "That post is age restricted."),
        24 => ("error.api.youtube.codec", "Missing YouTube codec. This is a bug."),
        25 => ("error.api.youtube.decipher", "Cannot decipher that video. Something probably broke."),
        26 => ("error.api.youtube.login", "That video requires a logged in account, which we do not have."),
        27 => ("error.api.youtube.token_expired", "Our YouTube token expired (try again later)"),
        _ => ("error.api.youtube.temporary_disabled", "YouTube support is temporarily disabled. Try again later."),
    }
}

impl CobaltError {
    /// The sentence shown to the user for this error: the fixed sentence of
    /// the error's code, compared without regard to ASCII case, or the code
    /// itself when it has no sentence.
    pub fn message(&self) -> (text: String)
        ensures
            text@ == message_of(self.code@),
    {
        let lowered = ascii_lowercase(self.code.as_str());
        let mut i: usize = 0;
        while i < KNOWN_CODES
            invariant
                i <= KNOWN_CODES,
                lowered@ == lower(self.code@),
                lookup_from(lowered@, 0) == lookup_from(lowered@, i as int),
            decreases KNOWN_CODES - i,
        {
            let entry = known_entry(i);
            if str_eq(lowered.as_str(), entry.0) {
                return entry.1.to_owned();
            }
            i += 1;
        }
        self.code.clone()
    }
}

/// Why a run of the pipeline failed. Each step fails with a kind of its own,
/// so that a caller can tell the causes apart.
#[derive(Debug, Clone, PartialEq, Eq)]
pub enum Failure {
    /// The request to the resolver could not be sent.
    Unreachable,
    /// The body of the resolver's reply could not be read.
    TimedOut,
    /// The resolver's reply fits no known shape.
    UnknownResponse,
    /// The address that the reply names is no absolute URL.
    InvalidUrl,
    /// The media could not be fetched from the address.
    DownloadFailed,
    /// The reply names no single address to fetch.
    NoDownloadUrl,
    /// The file could not be created, written or flushed.
    SaveFailed,
    /// The resolver itself reported an error; it is handed on unchanged.
    Remote(CobaltError),
}

/// The mathematical value of a `Failure`.
pub enum FailureView {
    Unreachable,
    TimedOut,
    UnknownResponse,
    InvalidUrl,
    DownloadFailed,
    NoDownloadUrl,
    SaveFailed,
    Remote(CobaltErrorView),
}

impl DeepView for Failure {
    type V = FailureView;

    open spec fn deep_view(&self) -> FailureView {
        match self {
            Failure::Unreachable => FailureView::Unreachable,
            Failure::TimedOut => FailureView::TimedOut,
            Failure::UnknownResponse => FailureView::UnknownResponse,
            Failure::InvalidUrl => FailureView::InvalidUrl,
            Failure::DownloadFailed => FailureView::DownloadFailed,
            Failure::NoDownloadUrl => FailureView::NoDownloadUrl,
            Failure::SaveFailed => FailureView::SaveFailed,
            Failure::Remote(error) => FailureView::Remote(error.deep_view()),
        }
    }
}

impl FailureView {
    /// The stable code of this kind of failure; for an error of the resolver,
    /// the code that it reported.
    pub open spec fn code(self) -> Seq<char> {
        match self {
            FailureView::Unreachable => "error.api.unreachable"@,
            FailureView::TimedOut => "error.api.timed_out"@,
            FailureView::UnknownResponse => "error.api.unknown_response"@,
            FailureView::InvalidUrl => "error.api.invalid_url"@,
            FailureView::DownloadFailed => "error.api.download_failed"@,
            FailureView::NoDownloadUrl => "error.api.no_download_url"@,
            FailureView::SaveFailed => "error.api.save_failed"@,
            FailureView::Remote(error) => error.code,
        }
    }

    /// The failure as an error value: the resolver's error as it came, any
    /// other kind as its code without a context.
    pub open spec fn error(self) -> CobaltErrorView {
        match self {
            FailureView::Remote(error) => error,
            _ => CobaltErrorView { code: self.code(), context: None },
        }
    }
}

impl Failure {
    /// The failure as an error value, for display and for callers that go by
    /// the code.
    pub fn into_error(self) -> (error: CobaltError)
        ensures
            error.deep_view() == self.deep_view().error(),
    {
        let code = match self {
            Failure::Unreachable => "error.api.unreachable",
            Failure::TimedOut => "error.api.timed_out",
            Failure::UnknownResponse => "error.api.unknown_response",
            Failure::InvalidUrl => "error.api.invalid_url",
            Failure::DownloadFailed => "error.api.download_failed",
            Failure::NoDownloadUrl => "error.api.no_download_url",
            Failure::SaveFailed => "error.api.save_failed",
            Failure::Remote(error) => {
                return error;
            },
        };
        CobaltError { code: code.to_owned(), context: None }
    }
}

} // verus!
