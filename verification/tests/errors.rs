use ccobalt::model::error::CobaltError;
use ccobalt::model::error::ErrorContext;
use ccobalt::model::error::Failure;

fn error(code: &str) -> CobaltError {
    CobaltError { code: code.to_string(), context: None }
}

#[test]
fn test_error_display() {
    let error = CobaltError {
        code: "error.api.unreachable".to_string(),
        context: None,
    };
    assert_eq!(error.message(), "API unreachable (try again later)");
}

#[test]
fn test_error_unknown() {
    let error = CobaltError {
        code: "error.api.unknown".to_string(),
        context: None,
    };
    assert_eq!(error.message(), "error.api.unknown");
}

#[test]
fn message_of_every_known_code() {
    let table = [
        ("error.api.unreachable", "API unreachable (try again later)"),
        ("error.api.timed_out", "API timeout (try again later)"),
        ("error.api.rate_exceeded", "Rate limited (try again later)"),
        ("error.api.capacity", "API busy (try again later)"),
        ("error.api.generic", "General API error (try again later)"),
        (
            "error.api.unknown_response",
            "Download failure. Make sure the link is valid. (unknown response)",
        ),
        ("error.api.service.unsupported", "That service or website is not supported."),
        (
            "error.api.service.disabled",
            "Downloading from that service or website is temporarily disabled.",
        ),
        ("error.api.link.invalid", "That link is invalid. Make sure it is correct."),
        ("error.api.link.unsupported", "That link or format is unsupported."),
        (
            "error.api.fetch.fail",
            "Failed to fetch the media. Make sure the link is valid, or try again later.",
        ),
        (
            "error.api.fetch.critical",
            "Critical error fetching the media. Make sure the link is valid, or try again later.",
        ),
        (
            "error.api.fetch.empty",
            "The service or website returned no data. This may be caused by the site blocking the downloader (try again later)",
        ),
        (
            "error.api.fetch.rate",
            "The service or website has rate limited the downloader (try again later)",
        ),
        (
            "error.api.fetch.short_link",
            "Unable to resolve the shortlink. Try using the full link to the media.",
        ),
        ("error.api.content.too_long", "The requested content is too big."),
        (
            "error.api.content.video.unavailable",
            "That video is unavailable. Make sure it is not region or age restricted, and is not private.",
        ),
        ("error.api.content.video.live", "Live videos are unsupported."),
        ("error.api.content.video.private", "That video is private."),
        ("error.api.content.video.age", "That video is age restricted."),
        ("error.api.content.video.region", "That video is region restricted."),
        (
            "error.api.content.post.unavailable",
            "That post is unavailable. Make sure it is not region or age restricted, and is not private.",
        ),
        ("error.api.content.post.private", "That post is private."),
        ("error.api.content.post.age", "That post is age restricted."),
        ("error.api.youtube.codec", "Missing YouTube codec. This is a bug."),
        (
            "error.api.youtube.decipher",
            "Cannot decipher that video. Something probably broke.",
        ),
        (
            "error.api.youtube.login",
            "That video requires a logged in account, which we do not have.",
        ),
        ("error.api.youtube.token_expired", "Our YouTube token expired (try again later)"),
        (
            "error.api.youtube.temporary_disabled",
            "YouTube support is temporarily disabled. Try again later.",
        ),
    ];
    for (code, text) in table {
        assert_eq!(error(code).message(), text, "{}", code);
    }
}

#[test]
fn message_ignores_ascii_case_of_the_code() {
    assert_eq!(error("ERROR.API.UNREACHABLE").message(), "API unreachable (try again later)");
    assert_eq!(error("Error.Api.Content.Too_Long").message(), "The requested content is too big.");
}

#[test]
fn message_of_an_unknown_code_keeps_its_case() {
    assert_eq!(error("Error.API.Other").message(), "Error.API.Other");
    assert_eq!(error("").message(), "");
}

#[test]
fn message_does_not_fold_letters_outside_ascii() {
    // U+212A, the Kelvin sign, lower-cases to "k" in Unicode but not in ASCII
    let code = "error.api.lin\u{212A}.invalid";
    assert_eq!(error(code).message(), code);
}

#[test]
fn message_does_not_depend_on_the_context() {
    let with_context = CobaltError {
        code: "error.api.content.too_long".to_string(),
        context: Some(ErrorContext { service: Some("youtube".to_string()), limit: Some(10) }),
    };
    assert_eq!(with_context.message(), "The requested content is too big.");
}

#[test]
fn each_local_failure_has_its_own_code() {
    let cases = [
        (Failure::Unreachable, "error.api.unreachable"),
        (Failure::TimedOut, "error.api.timed_out"),
        (Failure::UnknownResponse, "error.api.unknown_response"),
        (Failure::InvalidUrl, "error.api.invalid_url"),
        (Failure::DownloadFailed, "error.api.download_failed"),
        (Failure::NoDownloadUrl, "error.api.no_download_url"),
        (Failure::SaveFailed, "error.api.save_failed"),
    ];
    for (failure, code) in cases {
        let e = failure.into_error();
        assert_eq!(e.code, code);
        assert_eq!(e.context, None);
    }
}

#[test]
fn a_remote_failure_is_handed_on_unchanged() {
    let remote = CobaltError {
        code: "error.api.content.too_long".to_string(),
        context: Some(ErrorContext { service: None, limit: Some(3600) }),
    };
    assert_eq!(Failure::Remote(remote.clone()).into_error(), remote);
}

#[test]
fn failures_without_a_sentence_show_their_code() {
    assert_eq!(Failure::InvalidUrl.into_error().message(), "error.api.invalid_url");
    assert_eq!(Failure::SaveFailed.into_error().message(), "error.api.save_failed");
    assert_eq!(Failure::TimedOut.into_error().message(), "API timeout (try again later)");
}
