use ccobalt::model::error::CobaltError;
use ccobalt::model::error::Failure;
use ccobalt::model::response::DownloadResponse;
use ccobalt::pipeline::finish_stream;
use ccobalt::pipeline::interpret_body;
use ccobalt::pipeline::plan_fetch;
use ccobalt::pipeline::Action;
use ccobalt::pipeline::Event;
use ccobalt::pipeline::Goal;
use ccobalt::pipeline::Outcome;
use ccobalt::pipeline::Session;
use ccobalt::pipeline::Stage;
use ccobalt::pipeline::Step;

const TUNNEL: &str = r#"{"status":"tunnel","url":"https://x/y.mp4","filename":"y.mp4"}"#;

const MP4: [u8; 16] = [
    0x00, 0x00, 0x00, 0x20, 0x66, 0x74, 0x79, 0x70, 0x69, 0x73, 0x6F, 0x6D, 0x00, 0x00, 0x02, 0x00,
];

fn save_goal() -> Goal {
    Goal::Save { base_name: "clip".to_string(), directory: "/data/media".to_string() }
}

/// Feeds the events to a session one by one and returns every answer.
fn run(goal: Goal, events: Vec<Event>) -> Vec<Step> {
    let mut steps = Vec::new();
    let mut session = Some(Session::open(goal));
    for event in events {
        let current = session.take().expect("the session is over");
        let step = current.step(event);
        if let Step::Continue(next, _) = &step {
            session = Some(next.clone());
        }
        steps.push(step);
    }
    steps
}

fn fetching(goal: Goal, data: &[u8]) -> Session {
    Session { goal, stage: Stage::Fetching { data: data.to_vec() } }
}

#[test]
fn a_tunnel_is_fetched_and_saved_under_the_name_of_its_contents() {
    let steps = run(
        save_goal(),
        vec![
            Event::Replied,
            Event::Body(TUNNEL.to_string()),
            Event::Chunk(MP4[..5].to_vec()),
            Event::Chunk(MP4[5..].to_vec()),
            Event::StreamEnd,
            Event::Saved("/data/media/clip.mp4".to_string()),
        ],
    );
    assert_eq!(steps.len(), 6);
    assert_eq!(
        steps[0],
        Step::Continue(Session { goal: save_goal(), stage: Stage::Reading }, Action::ReadBody)
    );
    assert_eq!(
        steps[1],
        Step::Continue(fetching(save_goal(), &[]), Action::Fetch("https://x/y.mp4".to_string()))
    );
    assert_eq!(steps[2], Step::Continue(fetching(save_goal(), &MP4[..5]), Action::ReadChunk));
    assert_eq!(steps[3], Step::Continue(fetching(save_goal(), &MP4), Action::ReadChunk));
    assert_eq!(
        steps[4],
        Step::Continue(
            Session { goal: save_goal(), stage: Stage::Saving },
            Action::Save {
                directory: "/data/media".to_string(),
                file_name: "clip.mp4".to_string(),
                bytes: MP4.to_vec(),
            },
        )
    );
    assert_eq!(steps[5], Step::Finish(Ok(Outcome::Saved("/data/media/clip.mp4".to_string()))));
}

#[test]
fn an_error_of_the_resolver_ends_the_session_before_any_fetch() {
    let body = r#"{"status":"error","error":{"code":"error.api.link.invalid"}}"#;
    let steps = run(save_goal(), vec![Event::Replied, Event::Body(body.to_string())]);
    assert_eq!(steps.len(), 2);
    match &steps[1] {
        Step::Finish(Err(Failure::Remote(error))) => {
            assert_eq!(error.code, "error.api.link.invalid");
            assert_eq!(error.context, None);
        },
        other => panic!("unexpected {:?}", other),
    }
    let steps = run(Goal::Download, vec![Event::Replied, Event::Body(body.to_string())]);
    assert_eq!(
        steps[1],
        Step::Finish(Err(Failure::Remote(CobaltError {
            code: "error.api.link.invalid".to_string(),
            context: None,
        })))
    );
}

#[test]
fn a_request_that_cannot_be_sent_is_unreachable() {
    for goal in [Goal::Info, Goal::Resolve, Goal::Download, save_goal()] {
        let step = Session::open(goal).step(Event::SendFailed);
        assert_eq!(step, Step::Finish(Err(Failure::Unreachable)));
    }
}

#[test]
fn a_body_that_cannot_be_read_is_a_timeout() {
    for goal in [Goal::Info, Goal::Resolve, Goal::Download, save_goal()] {
        let steps = run(goal, vec![Event::Replied, Event::BodyFailed]);
        assert_eq!(steps[1], Step::Finish(Err(Failure::TimedOut)));
    }
}

#[test]
fn a_body_of_no_known_shape_is_an_unknown_response() {
    for goal in [Goal::Info, Goal::Resolve, Goal::Download, save_goal()] {
        for body in ["<html>502</html>", "{}", r#"{"status":"tunnel"}"#] {
            let steps = run(goal.clone(), vec![Event::Replied, Event::Body(body.to_string())]);
            assert_eq!(steps[1], Step::Finish(Err(Failure::UnknownResponse)));
        }
    }
    // the shape must be the one that the goal asks for
    let steps = run(Goal::Info, vec![Event::Replied, Event::Body(TUNNEL.to_string())]);
    assert_eq!(steps[1], Step::Finish(Err(Failure::UnknownResponse)));
}

#[test]
fn a_picker_names_no_download_url() {
    let body = r#"{"status":"picker","picker":[{"type":"photo","url":"https://p/1.jpg"}]}"#;
    for goal in [Goal::Download, save_goal()] {
        let steps = run(goal, vec![Event::Replied, Event::Body(body.to_string())]);
        assert_eq!(steps[1], Step::Finish(Err(Failure::NoDownloadUrl)));
    }
}

#[test]
fn an_address_that_is_no_url_is_invalid() {
    let relative = r#"{"status":"redirect","url":"/media/1.mp4","filename":"1.mp4"}"#;
    let empty = r#"{"status":"local-processing","type":"merge","service":"x","tunnel":[],
        "output":{"type":"video/mp4","filename":"f.mp4"}}"#;
    for body in [relative, empty] {
        let steps = run(Goal::Download, vec![Event::Replied, Event::Body(body.to_string())]);
        assert_eq!(steps[1], Step::Finish(Err(Failure::InvalidUrl)));
    }
}

#[test]
fn local_processing_fetches_its_first_tunnel() {
    let body = r#"{"status":"local-processing","type":"merge","service":"x",
        "tunnel":["https://t/a","https://t/b"],
        "output":{"type":"video/mp4","filename":"f.mp4"}}"#;
    let steps = run(Goal::Download, vec![Event::Replied, Event::Body(body.to_string())]);
    assert_eq!(
        steps[1],
        Step::Continue(fetching(Goal::Download, &[]), Action::Fetch("https://t/a".to_string()))
    );
}

#[test]
fn the_address_is_fetched_in_normalized_form() {
    let body = r#"{"status":"redirect","url":"HTTPS://CDN.Example/a b.mp4","filename":"f"}"#;
    let steps = run(Goal::Download, vec![Event::Replied, Event::Body(body.to_string())]);
    assert_eq!(
        steps[1],
        Step::Continue(
            fetching(Goal::Download, &[]),
            Action::Fetch("https://cdn.example/a%20b.mp4".to_string()),
        )
    );
}

#[test]
fn a_broken_stream_discards_what_had_arrived() {
    let steps = run(
        save_goal(),
        vec![
            Event::Replied,
            Event::Body(TUNNEL.to_string()),
            Event::Chunk(vec![1, 2, 3]),
            Event::FetchFailed,
        ],
    );
    assert_eq!(steps[3], Step::Finish(Err(Failure::DownloadFailed)));
    let first = run(Goal::Download, vec![Event::Replied, Event::Body(TUNNEL.to_string()), Event::FetchFailed]);
    assert_eq!(first[2], Step::Finish(Err(Failure::DownloadFailed)));
}

#[test]
fn a_download_ends_with_the_bytes_in_order() {
    let steps = run(
        Goal::Download,
        vec![
            Event::Replied,
            Event::Body(TUNNEL.to_string()),
            Event::Chunk(vec![1, 2]),
            Event::Chunk(vec![]),
            Event::Chunk(vec![3]),
            Event::StreamEnd,
        ],
    );
    assert_eq!(steps[5], Step::Finish(Ok(Outcome::Bytes(vec![1, 2, 3]))));
    let empty = run(
        Goal::Download,
        vec![Event::Replied, Event::Body(TUNNEL.to_string()), Event::StreamEnd],
    );
    assert_eq!(empty[2], Step::Finish(Ok(Outcome::Bytes(vec![]))));
}

#[test]
fn unclassified_bytes_are_saved_as_bin() {
    let steps = run(
        save_goal(),
        vec![
            Event::Replied,
            Event::Body(TUNNEL.to_string()),
            Event::Chunk(b"no signature here".to_vec()),
            Event::StreamEnd,
            Event::Saved("/data/media/clip.bin".to_string()),
        ],
    );
    assert_eq!(
        steps[3],
        Step::Continue(
            Session { goal: save_goal(), stage: Stage::Saving },
            Action::Save {
                directory: "/data/media".to_string(),
                file_name: "clip.bin".to_string(),
                bytes: b"no signature here".to_vec(),
            },
        )
    );
    assert_eq!(steps[4], Step::Finish(Ok(Outcome::Saved("/data/media/clip.bin".to_string()))));
}

#[test]
fn a_file_that_cannot_be_written_fails_the_save() {
    let steps = run(
        save_goal(),
        vec![
            Event::Replied,
            Event::Body(TUNNEL.to_string()),
            Event::Chunk(MP4.to_vec()),
            Event::StreamEnd,
            Event::SaveFailed,
        ],
    );
    assert_eq!(steps[4], Step::Finish(Err(Failure::SaveFailed)));
}

#[test]
fn resolving_ends_with_the_answer_whatever_its_shape() {
    let steps = run(Goal::Resolve, vec![Event::Replied, Event::Body(TUNNEL.to_string())]);
    assert_eq!(
        steps[1],
        Step::Finish(Ok(Outcome::Resolved(DownloadResponse::Tunnel {
            url: "https://x/y.mp4".to_string(),
            filename: "y.mp4".to_string(),
        })))
    );
    let body = r#"{"status":"error","error":{"code":"error.api.generic"}}"#;
    let steps = run(Goal::Resolve, vec![Event::Replied, Event::Body(body.to_string())]);
    assert_eq!(
        steps[1],
        Step::Finish(Ok(Outcome::Resolved(DownloadResponse::Error {
            error: CobaltError { code: "error.api.generic".to_string(), context: None },
        })))
    );
}

#[test]
fn asking_for_information_ends_with_it() {
    let body = r#"{"cobalt":{"version":"10","url":"https://a/","startTime":"1",
        "turnstileSitekey":"k","services":["youtube"]},
        "git":{"branch":"main","commit":"c","remote":"r"}}"#;
    let steps = run(Goal::Info, vec![Event::Replied, Event::Body(body.to_string())]);
    match &steps[1] {
        Step::Finish(Ok(Outcome::Info(info))) => {
            assert_eq!(info.cobalt.version, "10");
            assert_eq!(info.cobalt.services, vec!["youtube".to_string()]);
            assert_eq!(info.git.branch, "main");
        },
        other => panic!("unexpected {:?}", other),
    }
}

#[test]
fn an_event_that_a_stage_does_not_wait_for_fails_its_step() {
    let sending = |event: Event| Session::open(Goal::Download).step(event);
    assert_eq!(sending(Event::Body(TUNNEL.to_string())), Step::Finish(Err(Failure::Unreachable)));
    assert_eq!(sending(Event::StreamEnd), Step::Finish(Err(Failure::Unreachable)));
    let reading = |event: Event| Session { goal: Goal::Download, stage: Stage::Reading }.step(event);
    assert_eq!(reading(Event::Replied), Step::Finish(Err(Failure::TimedOut)));
    assert_eq!(reading(Event::Chunk(vec![1])), Step::Finish(Err(Failure::TimedOut)));
    let fetch = |event: Event| fetching(Goal::Download, &[1]).step(event);
    assert_eq!(fetch(Event::Replied), Step::Finish(Err(Failure::DownloadFailed)));
    assert_eq!(fetch(Event::Saved("p".to_string())), Step::Finish(Err(Failure::DownloadFailed)));
    let saving = |event: Event| Session { goal: save_goal(), stage: Stage::Saving }.step(event);
    assert_eq!(saving(Event::StreamEnd), Step::Finish(Err(Failure::SaveFailed)));
    assert_eq!(saving(Event::Replied), Step::Finish(Err(Failure::SaveFailed)));
}

#[test]
fn the_parts_of_a_step_answer_like_the_step() {
    let answer = DownloadResponse::Tunnel { url: "https://x/y".to_string(), filename: "y".to_string() };
    assert_eq!(
        plan_fetch(Goal::Download, answer),
        Step::Continue(fetching(Goal::Download, &[]), Action::Fetch("https://x/y".to_string()))
    );
    assert_eq!(
        interpret_body(Goal::Download, "?"),
        Step::Finish(Err(Failure::UnknownResponse))
    );
    assert_eq!(
        finish_stream(Goal::Download, vec![7, 8]),
        Step::Finish(Ok(Outcome::Bytes(vec![7, 8])))
    );
    assert_eq!(
        finish_stream(save_goal(), b"GIF89a".to_vec()),
        Step::Continue(
            Session { goal: save_goal(), stage: Stage::Saving },
            Action::Save {
                directory: "/data/media".to_string(),
                file_name: "clip.gif".to_string(),
                bytes: b"GIF89a".to_vec(),
            },
        )
    );
}
