//! The download pipeline as a state machine.
//!
//! A session stands between the caller, who talks to the network and the
//! disk, and the rules of the pipeline. The caller performs an action and
//! reports what happened as an event; the session answers with the next
//! action, or with the outcome. Each step that fails ends the session with a
//! failure of its own kind; nothing is retried and no result is returned in
//! part.

use crate::address::normalize;
use crate::address::normalized_url;
use crate::decode::decode;
use crate::decode::decode_info;
use crate::decode::decoded;
use crate::decode::decoded_info;
use crate::model::error::Failure;
use crate::model::error::FailureView;
use crate::model::response::DownloadResponse;
use crate::model::response::DownloadResponseView;
use crate::model::response::InfoResponse;
use crate::model::response::InfoResponseView;
use crate::util::stream::append_chunk;
use crate::util::stream::joined;
use crate::util::write::file_name;
use crate::util::write::file_name_of;
use vstd::prelude::*;

verus! {

/// What a session is to end with.
#[derive(Debug, Clone, PartialEq, Eq)]
pub enum Goal {
    /// The resolver's description of itself.
    Info,
    /// The resolver's answer to a download request.
    Resolve,
    /// The bytes of the media.
    Download,
    /// The media in a file named after `base_name` in `directory`.
    Save { base_name: String, directory: String },
}

/// Where a session stands: what the caller is doing at the moment.
#[derive(Debug, Clone, PartialEq, Eq)]
pub enum Stage {
    /// The request to the resolver is being sent.
    Sending,
    /// The body of the resolver's reply is being read.
    Reading,
    /// The media is being fetched; `data` holds what has arrived.
    Fetching { data: Vec<u8> },
    /// The file is being written.
    Saving,
}

/// A running session.
#[derive(Debug, Clone, PartialEq, Eq)]
pub struct Session {
    pub goal: Goal,
    pub stage: Stage,
}

/// What the caller reports.
#[derive(Debug, Clone, PartialEq, Eq)]
pub enum Event {
    /// The request could not be sent.
    SendFailed,
    /// The request was sent and the head of a reply arrived.
    Replied,
    /// The body of the reply could not be read.
    BodyFailed,
    /// The body of the reply.
    Body(String),
    /// The media could not be requested, or its stream broke off.
    FetchFailed,
    /// The next chunk of the media.
    Chunk(Vec<u8>),
    /// The stream of the media has ended.
    StreamEnd,
    /// The file was written and flushed; its path.
    Saved(String),
    /// The file could not be created, written or flushed.
    SaveFailed,
}

/// What the caller is to do next.
#[derive(Debug, Clone, PartialEq, Eq)]
pub enum Action {
    /// Read the body of the reply as text.
    ReadBody,
    /// Request the media at this address and read the first chunk.
    Fetch(String),
    /// Read the next chunk of the media.
    ReadChunk,
    /// Create the file `file_name` in `directory`, replacing one that is
    /// there, write `bytes` to it and flush it.
    Save { directory: String, file_name: String, bytes: Vec<u8> },
}

/// What a session ended with.
#[derive(Debug, Clone, PartialEq, Eq)]
pub enum Outcome {
    Info(InfoResponse),
    Resolved(DownloadResponse),
    Bytes(Vec<u8>),
    /// The path of the file that was written.
    Saved(String),
}

/// The answer of a session to an event.
#[derive(Debug, PartialEq, Eq)]
pub enum Step {
    /// The session goes on: the caller performs the action and reports back.
    Continue(Session, Action),
    /// The session is over.
    Finish(Result<Outcome, Failure>),
}

/// The mathematical value of a `Goal`.
pub enum GoalView {
    Info,
    Resolve,
    Download,
    Save { base_name: Seq<char>, directory: Seq<char> },
}

/// The mathematical value of a `Stage`.
pub enum StageView {
    Sending,
    Reading,
    Fetching { data: Seq<u8> },
    Saving,
}

/// The mathematical value of a `Session`.
pub struct SessionView {
    pub goal: GoalView,
    pub stage: StageView,
}

/// The mathematical value of an `Event`.
pub enum EventView {
    SendFailed,
    Replied,
    BodyFailed,
    Body(Seq<char>),
    FetchFailed,
    Chunk(Seq<u8>),
    StreamEnd,
    Saved(Seq<char>),
    SaveFailed,
}

/// The mathematical value of an `Action`.
pub enum ActionView {
    ReadBody,
    Fetch(Seq<char>),
    ReadChunk,
    Save { directory: Seq<char>, file_name: Seq<char>, bytes: Seq<u8> },
}

/// The mathematical value of an `Outcome`.
pub enum OutcomeView {
    Info(InfoResponseView),
    Resolved(DownloadResponseView),
    Bytes(Seq<u8>),
    Saved(Seq<char>),
}

/// The mathematical value of a `Step`.
pub enum StepView {
    Continue(SessionView, ActionView),
    Finish(Result<OutcomeView, FailureView>),
}

impl DeepView for Goal {
    type V = GoalView;

    open spec fn deep_view(&self) -> GoalView {
        match self {
            Goal::Info => GoalView::Info,
            Goal::Resolve => GoalView::Resolve,
            Goal::Download => GoalView::Download,
            Goal::Save { base_name, directory } => GoalView::Save {
                base_name: base_name@,
                directory: directory@,
            },
        }
    }
}

impl DeepView for Stage {
    type V = StageView;

    open spec fn deep_view(&self) -> StageView {
        match self {
            Stage::Sending => StageView::Sending,
            Stage::Reading => StageView::Reading,
            Stage::Fetching { data } => StageView::Fetching { data: data@ },
            Stage::Saving => StageView::Saving,
        }
    }
}

impl DeepView for Session {
    type V = SessionView;

    open spec fn deep_view(&self) -> SessionView {
        SessionView { goal: self.goal.deep_view(), stage: self.stage.deep_view() }
    }
}

impl DeepView for Event {
    type V = EventView;

    open spec fn deep_view(&self) -> EventView {
        match self {
            Event::SendFailed => EventView::SendFailed,
            Event::Replied => EventView::Replied,
            Event::BodyFailed => EventView::BodyFailed,
            Event::Body(text) => EventView::Body(text@),
            Event::FetchFailed => EventView::FetchFailed,
            Event::Chunk(bytes) => EventView::Chunk(bytes@),
            Event::StreamEnd => EventView::StreamEnd,
            Event::Saved(path) => EventView::Saved(path@),
            Event::SaveFailed => EventView::SaveFailed,
        }
    }
}

impl DeepView for Action {
    type V = ActionView;

    open spec fn deep_view(&self) -> ActionView {
        match self {
            Action::ReadBody => ActionView::ReadBody,
            Action::Fetch(url) => ActionView::Fetch(url@),
            Action::ReadChunk => ActionView::ReadChunk,
            Action::Save { directory, file_name, bytes } => ActionView::Save {
                directory: directory@,
                file_name: file_name@,
                bytes: bytes@,
            },
        }
    }
}

impl DeepView for Outcome {
    type V = OutcomeView;

    open spec fn deep_view(&self) -> OutcomeView {
        match self {
            Outcome::Info(info) => OutcomeView::Info(info.deep_view()),
            Outcome::Resolved(response) => OutcomeView::Resolved(response.deep_view()),
            Outcome::Bytes(bytes) => OutcomeView::Bytes(bytes@),
            Outcome::Saved(path) => OutcomeView::Saved(path@),
        }
    }
}

impl DeepView for Step {
    type V = StepView;

    open spec fn deep_view(&self) -> StepView {
        match self {
            Step::Continue(session, action) => StepView::Continue(
                session.deep_view(),
                action.deep_view(),
            ),
            Step::Finish(Ok(outcome)) => StepView::Finish(Ok(outcome.deep_view())),
            Step::Finish(Err(failure)) => StepView::Finish(Err(failure.deep_view())),
        }
    }
}

/// A session that has just been opened: the request is being sent.
pub open spec fn opened(goal: GoalView) -> SessionView {
    SessionView { goal, stage: StageView::Sending }
}

/// The step that ends a session with a failure.
pub open spec fn failed(failure: FailureView) -> StepView {
    StepView::Finish(Err(failure))
}

/// What follows the resolver's answer when the media is wanted: an error of
/// the resolver ends the session and is handed on; an answer that names no
/// address, or one that is no absolute URL, ends it too; otherwise the media
/// is fetched from the normalized address, with nothing received yet.
pub open spec fn after_answer(goal: GoalView, answer: DownloadResponseView) -> StepView {
    match answer {
        DownloadResponseView::Error { error } => failed(FailureView::Remote(error)),
        _ => match answer.download_url() {
            None => failed(FailureView::NoDownloadUrl),
            Some(url) => match normalized_url(url) {
                None => failed(FailureView::InvalidUrl),
                Some(address) => StepView::Continue(
                    SessionView { goal, stage: StageView::Fetching { data: Seq::empty() } },
                    ActionView::Fetch(address),
                ),
            },
        },
    }
}

/// What follows the body of the resolver's reply.
pub open spec fn after_body(goal: GoalView, body: Seq<char>) -> StepView {
    match goal {
        GoalView::Info => match decoded_info(body) {
            Some(info) => StepView::Finish(Ok(OutcomeView::Info(info))),
            None => failed(FailureView::UnknownResponse),
        },
        GoalView::Resolve => match decoded(body) {
            Some(answer) => StepView::Finish(Ok(OutcomeView::Resolved(answer))),
            None => failed(FailureView::UnknownResponse),
        },
        _ => match decoded(body) {
            Some(answer) => after_answer(goal, answer),
            None => failed(FailureView::UnknownResponse),
        },
    }
}

/// What follows the end of the media's stream: the bytes are the outcome, or
/// they are to be written to the file that is named after their contents.
pub open spec fn after_stream(goal: GoalView, data: Seq<u8>) -> StepView {
    match goal {
        GoalView::Save { base_name, directory } => StepView::Continue(
            SessionView { goal, stage: StageView::Saving },
            ActionView::Save { directory, file_name: file_name_of(base_name, data), bytes: data },
        ),
        _ => StepView::Finish(Ok(OutcomeView::Bytes(data))),
    }
}

/// The answer of a session to an event. At each stage the events that the
/// stage waits for are acted on; any other event counts as the failure of
/// what the caller was doing.
pub open spec fn step_of(session: SessionView, event: EventView) -> StepView {
    match session.stage {
        StageView::Sending => match event {
            EventView::Replied => StepView::Continue(
                SessionView { goal: session.goal, stage: StageView::Reading },
                ActionView::ReadBody,
            ),
            _ => failed(FailureView::Unreachable),
        },
        StageView::Reading => match event {
            EventView::Body(body) => after_body(session.goal, body),
            _ => failed(FailureView::TimedOut),
        },
        StageView::Fetching { data } => match event {
            EventView::Chunk(bytes) => StepView::Continue(
                SessionView { goal: session.goal, stage: StageView::Fetching { data: data + bytes } },
                ActionView::ReadChunk,
            ),
            EventView::StreamEnd => after_stream(session.goal, data),
            _ => failed(FailureView::DownloadFailed),
        },
        StageView::Saving => match event {
            EventView::Saved(path) => StepView::Finish(Ok(OutcomeView::Saved(path))),
            _ => failed(FailureView::SaveFailed),
        },
    }
}

/// What follows the resolver's answer when the media is wanted.
pub fn plan_fetch(goal: Goal, answer: DownloadResponse) -> (step: Step)
    ensures
        step.deep_view() == after_answer(goal.deep_view(), answer.deep_view()),
{
    match answer {
        DownloadResponse::Error { error } => Step::Finish(Err(Failure::Remote(error))),
        other => match other.get_download_url() {
            None => Step::Finish(Err(Failure::NoDownloadUrl)),
            Some(url) => match normalize(url.as_str()) {
                Err(_) => Step::Finish(Err(Failure::InvalidUrl)),
                Ok(address) => Step::Continue(
                    Session { goal, stage: Stage::Fetching { data: Vec::new() } },
                    Action::Fetch(address),
                ),
            },
        },
    }
}

/// What follows the body of the resolver's reply.
pub fn interpret_body(goal: Goal, body: &str) -> (step: Step)
    ensures
        step.deep_view() == after_body(goal.deep_view(), body@),
{
    match goal {
        Goal::Info => match decode_info(body) {
            Ok(info) => Step::Finish(Ok(Outcome::Info(info))),
            Err(_) => Step::Finish(Err(Failure::UnknownResponse)),
        },
        Goal::Resolve => match decode(body) {
            Ok(answer) => Step::Finish(Ok(Outcome::Resolved(answer))),
            Err(_) => Step::Finish(Err(Failure::UnknownResponse)),
        },
        goal => match decode(body) {
            Ok(answer) => plan_fetch(goal, answer),
            Err(_) => Step::Finish(Err(Failure::UnknownResponse)),
        },
    }
}

/// What follows the end of the media's stream.
pub fn finish_stream(goal: Goal, data: Vec<u8>) -> (step: Step)
    ensures
        step.deep_view() == after_stream(goal.deep_view(), data@),
{
    match goal {
        Goal::Save { base_name, directory } => {
            let name = file_name(data.as_slice(), base_name.as_str());
            let target = directory.clone();
            Step::Continue(
                Session { goal: Goal::Save { base_name, directory }, stage: Stage::Saving },
                Action::Save { directory: target, file_name: name, bytes: data },
            )
        },
        _ => Step::Finish(Ok(Outcome::Bytes(data))),
    }
}

impl Session {
    /// Opens a session: the caller is sending the request to the resolver.
    pub fn open(goal: Goal) -> (session: Session)
        ensures
            session.deep_view() == opened(goal.deep_view()),
    {
        Session { goal, stage: Stage::Sending }
    }

    /// Takes the event that the caller reports and answers with the next
    /// action or with the outcome of the session.
    pub fn step(self, event: Event) -> (next: Step)
        ensures
            next.deep_view() == step_of(self.deep_view(), event.deep_view()),
    {
        match self.stage {
            Stage::Sending => match event {
                Event::Replied => Step::Continue(
                    Session { goal: self.goal, stage: Stage::Reading },
                    Action::ReadBody,
                ),
                _ => Step::Finish(Err(Failure::Unreachable)),
            },
            Stage::Reading => match event {
                Event::Body(body) => interpret_body(self.goal, body.as_str()),
                _ => Step::Finish(Err(Failure::TimedOut)),
            },
            Stage::Fetching { data } => match event {
                Event::Chunk(bytes) => {
                    let mut data = data;
                    append_chunk(&mut data, bytes.as_slice());
                    Step::Continue(
                        Session { goal: self.goal, stage: Stage::Fetching { data } },
                        Action::ReadChunk,
                    )
                },
                Event::StreamEnd => finish_stream(self.goal, data),
                _ => Step::Finish(Err(Failure::DownloadFailed)),
            },
            Stage::Saving => match event {
                Event::Saved(path) => Step::Finish(Ok(Outcome::Saved(path))),
                _ => Step::Finish(Err(Failure::SaveFailed)),
            },
        }
    }
}

/// The failure that a stage ends with when the caller reports anything but
/// what the stage waits for.
pub open spec fn stage_failure(stage: StageView) -> FailureView {
    match stage {
        StageView::Sending => FailureView::Unreachable,
        StageView::Reading => FailureView::TimedOut,
        StageView::Fetching { .. } => FailureView::DownloadFailed,
        StageView::Saving => FailureView::SaveFailed,
    }
}

/// Whether a stage waits for an event.
pub open spec fn awaited(stage: StageView, event: EventView) -> bool {
    match stage {
        StageView::Sending => event is Replied,
        StageView::Reading => event is Body,
        StageView::Fetching { .. } => event is Chunk || event is StreamEnd,
        StageView::Saving => event is Saved,
    }
}

/// The session that is fetching after the chunks have arrived one by one,
/// starting with `data` already received.
pub open spec fn fetched(goal: GoalView, data: Seq<u8>, chunks: Seq<Seq<u8>>) -> SessionView
    decreases chunks.len(),
{
    if chunks.len() == 0 {
        SessionView { goal, stage: StageView::Fetching { data } }
    } else {
        match step_of(fetched(goal, data, chunks.drop_last()), EventView::Chunk(chunks.last())) {
            StepView::Continue(next, _) => next,
            StepView::Finish(_) => fetched(goal, data, chunks.drop_last()),
        }
    }
}

/// Every step fails fast: an event that the stage does not wait for ends the
/// session with the one failure that belongs to the stage.
pub proof fn lemma_unawaited_event_fails(session: SessionView, event: EventView)
    requires
        !awaited(session.stage, event),
    ensures
        step_of(session, event) == failed(stage_failure(session.stage)),
{
}

/// A request that cannot be sent ends the session as unreachable, whatever
/// its goal: no body is read and nothing is decoded.
pub proof fn lemma_send_failure_is_unreachable(goal: GoalView)
    ensures
        step_of(opened(goal), EventView::SendFailed) == failed(FailureView::Unreachable),
{
}

/// When the media is wanted and the resolver reports an error, the session
/// ends with that error, unchanged: nothing is fetched and nothing is saved.
pub proof fn lemma_remote_error_is_handed_on(
    goal: GoalView,
    body: Seq<char>,
    error: crate::model::error::CobaltErrorView,
)
    requires
        goal is Download || goal is Save,
        decoded(body) == Some(DownloadResponseView::Error { error }),
    ensures
        step_of(SessionView { goal, stage: StageView::Reading }, EventView::Body(body)) == failed(
            FailureView::Remote(error),
        ),
{
}

/// A file is asked for at one point only: when the stream of the media ends
/// in a session whose goal is to save it. No failure leads to a file.
pub proof fn lemma_save_only_after_stream(session: SessionView, event: EventView)
    requires
        step_of(session, event) matches StepView::Continue(_, action) && action is Save,
    ensures
        session.goal is Save,
        session.stage is Fetching,
        event is StreamEnd,
{
}

/// Chunks accumulate in order: after any sequence of chunks the session is
/// still fetching and holds what it held before, followed by the chunks.
pub proof fn lemma_chunks_accumulate(goal: GoalView, data: Seq<u8>, chunks: Seq<Seq<u8>>)
    ensures
        fetched(goal, data, chunks) == (SessionView {
            goal,
            stage: StageView::Fetching { data: data + joined(chunks) },
        }),
    decreases chunks.len(),
{
    if chunks.len() == 0 {
        assert(data + joined(chunks) =~= data);
    } else {
        lemma_chunks_accumulate(goal, data, chunks.drop_last());
        assert((data + joined(chunks.drop_last())) + chunks.last() =~= data + joined(chunks));
    }
}

/// A whole run that saves: when the reply names an address that is an
/// absolute URL, the media is fetched from its normalized form; the chunks
/// that arrive are written, in order and complete, to the file named after
/// the base name and the contents; and the path that the caller reports for
/// the file is the outcome.
pub proof fn lemma_saving_run(
    base_name: Seq<char>,
    directory: Seq<char>,
    body: Seq<char>,
    answer: DownloadResponseView,
    address: Seq<char>,
    chunks: Seq<Seq<u8>>,
    path: Seq<char>,
)
    requires
        decoded(body) == Some(answer),
        !(answer is Error),
        answer.download_url() is Some,
        normalized_url(answer.download_url()->0) == Some(address),
    ensures
        ({
            let goal = GoalView::Save { base_name, directory };
            let reading = SessionView { goal, stage: StageView::Reading };
            let saving = SessionView { goal, stage: StageView::Saving };
            let bytes = joined(chunks);
            &&& step_of(opened(goal), EventView::Replied) == StepView::Continue(
                reading,
                ActionView::ReadBody,
            )
            &&& step_of(reading, EventView::Body(body)) == StepView::Continue(
                fetched(goal, Seq::empty(), Seq::empty()),
                ActionView::Fetch(address),
            )
            &&& fetched(goal, Seq::empty(), chunks) == (SessionView {
                goal,
                stage: StageView::Fetching { data: bytes },
            })
            &&& step_of(fetched(goal, Seq::empty(), chunks), EventView::StreamEnd)
                == StepView::Continue(
                saving,
                ActionView::Save { directory, file_name: file_name_of(base_name, bytes), bytes },
            )
            &&& step_of(saving, EventView::Saved(path)) == StepView::Finish(
                Ok(OutcomeView::Saved(path)),
            )
        }),
{
    let goal = GoalView::Save { base_name, directory };
    lemma_chunks_accumulate(goal, Seq::empty(), chunks);
    assert(Seq::<u8>::empty() + joined(chunks) =~= joined(chunks));
}

} // verus!
