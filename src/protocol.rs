//! The asynchronous image-generation protocol: submit a job, poll its
//! status on a fixed interval, and finish with the first image URL or an
//! error.
//!
//! `GenerationJob` holds the decisions only. A driver performs each
//! `Action` (an HTTP exchange, or a pause) and reports back what happened
//! as an `Event`; `GenerationJob::handle` then names the next action.

use vstd::prelude::*;
use vstd::string::*;

use crate::sizes::{is_canonical, resolve_size, resolved_size};
use crate::text::same_text;

verus! {

/// Seconds to wait between two status checks of an unfinished task.
pub const POLL_INTERVAL_SECS: u64 = 5;

/// The body of a submission: `{"model", "prompt", "size"}`.
pub struct GenerationRequest {
    pub model: String,
    pub prompt: String,
    pub size: String,
}

/// The state of a remote task, read from its `task_status` text.
#[derive(Debug, Clone, Copy, PartialEq, Eq, Structural)]
pub enum TaskStatus {
    Pending,
    Succeeded,
    Failed,
}

/// Why a generation did not produce an image URL.
#[derive(Debug, PartialEq, Eq)]
pub enum GenerationError {
    /// The submission was answered with a status outside 2xx.
    SubmissionFailed(u16),
    /// A response body did not have the expected shape.
    MalformedResponse,
    /// A status check was answered with a status outside 2xx.
    PollFailed(u16),
    /// The service reported that the task failed.
    RemoteGenerationFailed,
    /// The service reported success but listed no image.
    NoImageProduced,
    /// The request could not be carried out; holds the cause.
    TransportError(String),
}

/// An HTTP method used by the protocol.
#[derive(Debug, Clone, Copy, PartialEq, Eq, Structural)]
pub enum Method {
    Post,
    Get,
}

/// An HTTP request for the driver to send.
pub struct HttpRequest {
    pub method: Method,
    pub url: String,
    /// Header names and values, in order.
    pub headers: Vec<(String, String)>,
    /// A JSON body, for a submission.
    pub body: Option<GenerationRequest>,
}

/// A status report on a task: `{"task_status", "output_images"}`, with a
/// missing image list read as empty.
pub struct TaskReport {
    pub task_status: String,
    pub output_images: Vec<String>,
}

/// What the driver observed after carrying out an action.
pub enum Event {
    /// The submission was answered; `task_id` is `None` when the body was
    /// not `{"task_id": <string>}`.
    Submitted { status: u16, task_id: Option<String> },
    /// A status check was answered; `report` is `None` when the body was
    /// not a task report.
    Polled { status: u16, report: Option<TaskReport> },
    /// The pause between two status checks is over.
    Slept,
    /// The request could not be sent or its answer not received.
    TransportFailed(String),
}

/// What the driver is to do next.
pub enum Action {
    Send(HttpRequest),
    /// Pause for this many seconds, then report `Event::Slept`.
    Sleep(u64),
    /// The job is over, with an image URL or an error.
    Finish(Result<String, GenerationError>),
}

/// Where a job stands.
pub enum Phase {
    /// The submission is out; its answer is awaited.
    Submitting,
    /// A status check of the task with this id is out.
    Polling(String),
    /// The task with this id is unfinished; a pause is under way.
    Waiting(String),
    /// The job is over.
    Finished,
}

/// The status that a `task_status` text reports: only the exact texts
/// `SUCCEED` and `FAILED` end a task; every other text means it is pending.
pub open spec fn status_of(s: Seq<char>) -> TaskStatus {
    if s == "SUCCEED"@ {
        TaskStatus::Succeeded
    } else if s == "FAILED"@ {
        TaskStatus::Failed
    } else {
        TaskStatus::Pending
    }
}

/// Reads a `task_status` text.
pub fn classify_status(s: &str) -> (r: TaskStatus)
    ensures
        r == status_of(s@),
{
    if same_text(s, "SUCCEED") {
        TaskStatus::Succeeded
    } else if same_text(s, "FAILED") {
        TaskStatus::Failed
    } else {
        TaskStatus::Pending
    }
}

/// Whether an HTTP status is a success (2xx).
pub open spec fn is_success(status: u16) -> bool {
    200 <= status <= 299
}

/// Where a job is submitted; `base` is used as given, so it is expected
/// to end with `/`.
pub open spec fn submission_url(base: Seq<char>) -> Seq<char> {
    base + "v1/images/generations"@
}

/// Where the status of task `id` is read.
pub open spec fn poll_url(base: Seq<char>, id: Seq<char>) -> Seq<char> {
    base + "v1/tasks/"@ + id
}

/// The value of the `Authorization` header.
pub open spec fn bearer(key: Seq<char>) -> Seq<char> {
    "Bearer "@ + key
}

/// Header names and values as text.
pub open spec fn header_view(hs: Seq<(String, String)>) -> Seq<(Seq<char>, Seq<char>)> {
    hs.map_values(|h: (String, String)| (h.0@, h.1@))
}

/// The headers of a submission.
pub open spec fn submission_headers(key: Seq<char>) -> Seq<(Seq<char>, Seq<char>)> {
    seq![
        ("Authorization"@, bearer(key)),
        ("Content-Type"@, "application/json"@),
        ("X-ModelScope-Async-Mode"@, "true"@),
    ]
}

/// The headers of a status check.
pub open spec fn poll_headers(key: Seq<char>) -> Seq<(Seq<char>, Seq<char>)> {
    seq![("Authorization"@, bearer(key)), ("X-ModelScope-Task-Type"@, "image_generation"@)]
}

/// Whether `req` is the status check of task `id`.
pub open spec fn is_poll_request(
    req: HttpRequest,
    base: Seq<char>,
    key: Seq<char>,
    id: Seq<char>,
) -> bool {
    &&& req.method == Method::Get
    &&& req.url@ == poll_url(base, id)
    &&& header_view(req.headers@) == poll_headers(key)
    &&& req.body is None
}

/// Builds a header from two texts.
fn header(name: &str, value: String) -> (r: (String, String))
    ensures
        r.0@ == name@,
        r.1 == value,
{
    (String::from_str(name), value)
}

/// Builds the `Authorization` value for `key`.
fn bearer_value(key: &str) -> (r: String)
    ensures
        r@ == bearer(key@),
{
    let mut v = String::from_str("Bearer ");
    v.append(key);
    v
}

/// The status check of task `id`.
pub fn poll_request(base_url: &str, api_key: &str, task_id: &str) -> (r: HttpRequest)
    ensures
        is_poll_request(r, base_url@, api_key@, task_id@),
{
    let mut url = String::from_str(base_url);
    url.append("v1/tasks/");
    url.append(task_id);
    let mut headers: Vec<(String, String)> = Vec::new();
    headers.push(header("Authorization", bearer_value(api_key)));
    headers.push(header("X-ModelScope-Task-Type", String::from_str("image_generation")));
    assert(header_view(headers@) =~= poll_headers(api_key@));
    HttpRequest { method: Method::Get, url, headers, body: None }
}

/// One image generation, from submission to its outcome.
pub struct GenerationJob {
    pub base_url: String,
    pub api_key: String,
    /// What is submitted; its size is always an accepted one.
    pub request: GenerationRequest,
    /// Whether the requested size was not accepted and the default was
    /// put in its place.
    pub size_replaced: bool,
    pub phase: Phase,
}

/// Whether a job in `phase` can take `event`: each answer comes in the
/// phase whose request it answers, and a transport failure while a
/// request is out.
pub open spec fn expects(phase: Phase, event: Event) -> bool {
    match event {
        Event::Submitted { .. } => phase is Submitting,
        Event::Polled { .. } => phase is Polling,
        Event::Slept => phase is Waiting,
        Event::TransportFailed(_) => phase is Submitting || phase is Polling,
    }
}

/// Whether `next` is `job` ended with `action` finishing on `outcome`.
pub open spec fn finishes(
    next: GenerationJob,
    action: Action,
    outcome: Result<String, GenerationError>,
) -> bool {
    next.phase is Finished && action == Action::Finish(outcome)
}

/// The decision that `event` brings about in a job at `job`: `next` is
/// the job afterwards and `action` what the driver does next.
pub open spec fn step(job: GenerationJob, event: Event, next: GenerationJob, action: Action) -> bool {
    let base = job.base_url@;
    let key = job.api_key@;
    &&& next.base_url == job.base_url
    &&& next.api_key == job.api_key
    &&& next.request == job.request
    &&& next.size_replaced == job.size_replaced
    &&& match event {
        Event::TransportFailed(cause) => finishes(
            next,
            action,
            Err(GenerationError::TransportError(cause)),
        ),
        Event::Submitted { status, task_id } => if !is_success(status) {
            finishes(next, action, Err(GenerationError::SubmissionFailed(status)))
        } else {
            match task_id {
                None => finishes(next, action, Err(GenerationError::MalformedResponse)),
                Some(id) => {
                    &&& next.phase == Phase::Polling(id)
                    &&& action matches Action::Send(req)
                    &&& is_poll_request(req, base, key, id@)
                },
            }
        },
        Event::Polled { status, report } => if !is_success(status) {
            finishes(next, action, Err(GenerationError::PollFailed(status)))
        } else {
            match report {
                None => finishes(next, action, Err(GenerationError::MalformedResponse)),
                Some(rep) => match status_of(rep.task_status@) {
                    TaskStatus::Succeeded => if rep.output_images@.len() > 0 {
                        finishes(next, action, Ok(rep.output_images@[0]))
                    } else {
                        finishes(next, action, Err(GenerationError::NoImageProduced))
                    },
                    TaskStatus::Failed => finishes(
                        next,
                        action,
                        Err(GenerationError::RemoteGenerationFailed),
                    ),
                    TaskStatus::Pending => {
                        &&& next.phase == Phase::Waiting(job.phase->Polling_0)
                        &&& action == Action::Sleep(POLL_INTERVAL_SECS)
                    },
                },
            }
        },
        Event::Slept => {
            &&& next.phase == Phase::Polling(job.phase->Waiting_0)
            &&& action matches Action::Send(req)
            &&& is_poll_request(req, base, key, job.phase->Waiting_0@)
        },
    }
}

/// Once a step ends a job, the job takes no further event: no status
/// check follows a failure, a success or a refused submission.
pub proof fn lemma_finish_is_final(job: GenerationJob, event: Event, next: GenerationJob, action: Action)
    requires
        step(job, event, next, action),
        action is Finish,
    ensures
        next.phase is Finished,
        forall|e: Event| !expects(next.phase, e),
{
}

/// A pending report leads to one pause, and the pause to a status check
/// of the same task.
pub proof fn lemma_pending_then_poll_again(
    job: GenerationJob,
    report: TaskReport,
    status: u16,
    waiting: GenerationJob,
    pause: Action,
    polling: GenerationJob,
    check: Action,
)
    requires
        job.phase is Polling,
        is_success(status),
        status_of(report.task_status@) == TaskStatus::Pending,
        step(job, Event::Polled { status, report: Some(report) }, waiting, pause),
        step(waiting, Event::Slept, polling, check),
    ensures
        pause == Action::Sleep(POLL_INTERVAL_SECS),
        polling.phase == job.phase,
        check matches Action::Send(req) && is_poll_request(
            req,
            job.base_url@,
            job.api_key@,
            job.phase->Polling_0@,
        ),
{
}

impl GenerationJob {
    /// Prepares a job. A requested size that is not accepted is replaced
    /// by `1328x1328`; that is recorded in `size_replaced`, not an error.
    pub fn new(
        prompt: &str,
        requested_size: &str,
        base_url: &str,
        api_key: &str,
        model_name: &str,
    ) -> (r: GenerationJob)
        ensures
            r.request.prompt@ == prompt@,
            r.request.model@ == model_name@,
            r.request.size@ == resolved_size(requested_size@),
            r.size_replaced == !is_canonical(requested_size@),
            r.base_url@ == base_url@,
            r.api_key@ == api_key@,
            r.phase is Submitting,
    {
        let (size, size_replaced) = resolve_size(requested_size);
        GenerationJob {
            base_url: String::from_str(base_url),
            api_key: String::from_str(api_key),
            request: GenerationRequest {
                model: String::from_str(model_name),
                prompt: String::from_str(prompt),
                size,
            },
            size_replaced,
            phase: Phase::Submitting,
        }
    }

    /// The submission of this job: a POST of its request to
    /// `{base}v1/images/generations` in asynchronous mode.
    pub fn submission_request(&self) -> (r: HttpRequest)
        ensures
            r.method == Method::Post,
            r.url@ == submission_url(self.base_url@),
            header_view(r.headers@) == submission_headers(self.api_key@),
            r.body matches Some(b) && b.model@ == self.request.model@
                && b.prompt@ == self.request.prompt@ && b.size@ == self.request.size@,
    {
        let mut url = self.base_url.clone();
        url.append("v1/images/generations");
        let mut headers: Vec<(String, String)> = Vec::new();
        headers.push(header("Authorization", bearer_value(self.api_key.as_str())));
        headers.push(header("Content-Type", String::from_str("application/json")));
        headers.push(header("X-ModelScope-Async-Mode", String::from_str("true")));
        assert(header_view(headers@) =~= submission_headers(self.api_key@));
        let body = GenerationRequest {
            model: self.request.model.clone(),
            prompt: self.request.prompt.clone(),
            size: self.request.size.clone(),
        };
        HttpRequest { method: Method::Post, url, headers, body: Some(body) }
    }

    /// Whether the job is over.
    pub fn is_finished(&self) -> (r: bool)
        ensures
            r == self.phase is Finished,
    {
        matches!(self.phase, Phase::Finished)
    }

    /// Whether the job can take `event` now.
    pub fn expects_event(&self, event: &Event) -> (r: bool)
        ensures
            r == expects(self.phase, *event),
    {
        match event {
            Event::Submitted { .. } => matches!(self.phase, Phase::Submitting),
            Event::Polled { .. } => matches!(self.phase, Phase::Polling(_)),
            Event::Slept => matches!(self.phase, Phase::Waiting(_)),
            Event::TransportFailed(_) => matches!(self.phase, Phase::Submitting)
                || matches!(self.phase, Phase::Polling(_)),
        }
    }

    /// Takes what the driver observed and decides what comes next: a
    /// status check, a pause of `POLL_INTERVAL_SECS`, or the end.
    pub fn handle(&mut self, event: Event) -> (action: Action)
        requires
            expects(old(self).phase, event),
        ensures
            step(*old(self), event, *final(self), action),
    {
        match event {
            Event::TransportFailed(cause) => {
                self.phase = Phase::Finished;
                Action::Finish(Err(GenerationError::TransportError(cause)))
            },
            Event::Submitted { status, task_id } => {
                if status < 200 || status > 299 {
                    self.phase = Phase::Finished;
                    return Action::Finish(Err(GenerationError::SubmissionFailed(status)));
                }
                match task_id {
                    None => {
                        self.phase = Phase::Finished;
                        Action::Finish(Err(GenerationError::MalformedResponse))
                    },
                    Some(id) => {
                        let req = poll_request(
                            self.base_url.as_str(),
                            self.api_key.as_str(),
                            id.as_str(),
                        );
                        self.phase = Phase::Polling(id);
                        Action::Send(req)
                    },
                }
            },
            Event::Polled { status, report } => {
                if status < 200 || status > 299 {
                    self.phase = Phase::Finished;
                    return Action::Finish(Err(GenerationError::PollFailed(status)));
                }
                match report {
                    None => {
                        self.phase = Phase::Finished;
                        Action::Finish(Err(GenerationError::MalformedResponse))
                    },
                    Some(rep) => match classify_status(rep.task_status.as_str()) {
                        TaskStatus::Succeeded => {
                            self.phase = Phase::Finished;
                            if rep.output_images.len() > 0 {
                                Action::Finish(Ok(rep.output_images[0].clone()))
                            } else {
                                Action::Finish(Err(GenerationError::NoImageProduced))
                            }
                        },
                        TaskStatus::Failed => {
                            self.phase = Phase::Finished;
                            Action::Finish(Err(GenerationError::RemoteGenerationFailed))
                        },
                        TaskStatus::Pending => {
                            let id = match &self.phase {
                                Phase::Polling(id) => id.clone(),
                                _ => String::new(),
                            };
                            self.phase = Phase::Waiting(id);
                            Action::Sleep(POLL_INTERVAL_SECS)
                        },
                    },
                }
            },
            Event::Slept => {
                let id = match &self.phase {
                    Phase::Waiting(id) => id.clone(),
                    _ => String::new(),
                };
                let req = poll_request(self.base_url.as_str(), self.api_key.as_str(), id.as_str());
                self.phase = Phase::Polling(id);
                Action::Send(req)
            },
        }
    }
}

} // verus!
