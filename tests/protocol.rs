use genkit::protocol::{
    classify_status, poll_request, Action, Event, GenerationError, GenerationJob, HttpRequest,
    Method, TaskReport, TaskStatus, POLL_INTERVAL_SECS,
};
use genkit::sizes::{get_supported_sizes, resolve_size};

const BASE: &str = "https://api.example.com/";

fn job(size: &str) -> GenerationJob {
    GenerationJob::new("a red fox", size, BASE, "SECRET-REDACTED", "Qwen/Qwen-Image")
}

fn headers(req: &HttpRequest) -> Vec<(&str, &str)> {
    req.headers.iter().map(|(n, v)| (n.as_str(), v.as_str())).collect()
}

fn report(status: &str, images: &[&str]) -> Option<TaskReport> {
    Some(TaskReport {
        task_status: status.to_string(),
        output_images: images.iter().map(|s| s.to_string()).collect(),
    })
}

fn polled(status: u16, rep: Option<TaskReport>) -> Event {
    Event::Polled { status, report: rep }
}

fn submitted_job(id: &str) -> GenerationJob {
    let mut j = job("1328x1328");
    let a = j.handle(Event::Submitted { status: 200, task_id: Some(id.to_string()) });
    assert!(matches!(a, Action::Send(_)));
    j
}

fn finish_error(a: Action) -> GenerationError {
    match a {
        Action::Finish(Err(e)) => e,
        _ => panic!("expected the job to end with an error"),
    }
}

#[test]
fn supported_sizes_table() {
    let sizes = get_supported_sizes();
    let got: Vec<(&str, u32, u32)> =
        sizes.iter().map(|s| (s.name.as_str(), s.width, s.height)).collect();
    assert_eq!(
        got,
        vec![
            ("1664x928", 1664, 928),
            ("1472x1140", 1472, 1140),
            ("1328x1328", 1328, 1328),
            ("1140x1472", 1140, 1472),
            ("928x1664", 928, 1664),
        ]
    );
}

#[test]
fn canonical_sizes_are_submitted_as_given() {
    for size in ["1664x928", "1472x1140", "1328x1328", "1140x1472", "928x1664"] {
        let j = job(size);
        assert!(!j.size_replaced);
        let req = j.submission_request();
        assert_eq!(req.body.as_ref().unwrap().size, size);
        assert_eq!(resolve_size(size), (size.to_string(), false));
    }
}

#[test]
fn unknown_size_falls_back_to_square() {
    for size in ["1024x1024", "", "1328X1328", "1328x1328 "] {
        let j = job(size);
        assert!(j.size_replaced);
        assert_eq!(j.submission_request().body.unwrap().size, "1328x1328");
        assert_eq!(resolve_size(size), ("1328x1328".to_string(), true));
    }
}

#[test]
fn submission_request_shape() {
    let j = job("928x1664");
    let req = j.submission_request();
    assert_eq!(req.method, Method::Post);
    assert_eq!(req.url, "https://api.example.com/v1/images/generations");
    assert_eq!(
        headers(&req),
        vec![
            ("Authorization", "Bearer SECRET-REDACTED"),
            ("Content-Type", "application/json"),
            ("X-ModelScope-Async-Mode", "true"),
        ]
    );
    let body = req.body.unwrap();
    assert_eq!(body.model, "Qwen/Qwen-Image");
    assert_eq!(body.prompt, "a red fox");
}

#[test]
fn task_id_selects_poll_url() {
    let mut j = job("1328x1328");
    let a = j.handle(Event::Submitted { status: 200, task_id: Some("abc123".to_string()) });
    match a {
        Action::Send(req) => {
            assert_eq!(req.method, Method::Get);
            assert_eq!(req.url, "https://api.example.com/v1/tasks/abc123");
            assert_eq!(
                headers(&req),
                vec![
                    ("Authorization", "Bearer SECRET-REDACTED"),
                    ("X-ModelScope-Task-Type", "image_generation"),
                ]
            );
            assert!(req.body.is_none());
        }
        _ => panic!("expected a status check"),
    }
}

#[test]
fn running_then_succeed_sleeps_once() {
    let mut j = submitted_job("t1");
    let mut sleeps = 0;
    let mut polls = vec![
        polled(200, report("RUNNING", &[])),
        polled(200, report("SUCCEED", &["http://x/y.png"])),
    ]
    .into_iter();
    let mut event = polls.next().unwrap();
    let url = loop {
        match j.handle(event) {
            Action::Sleep(secs) => {
                assert_eq!(secs, 5);
                sleeps += 1;
                event = Event::Slept;
            }
            Action::Send(req) => {
                assert_eq!(req.url, "https://api.example.com/v1/tasks/t1");
                event = polls.next().unwrap();
            }
            Action::Finish(r) => break r,
        }
    };
    assert_eq!(sleeps, 1);
    assert_eq!(url, Ok("http://x/y.png".to_string()));
    assert!(j.is_finished());
}

#[test]
fn failed_status_ends_without_more_polls() {
    let mut j = submitted_job("t2");
    let e = finish_error(j.handle(polled(200, report("FAILED", &[]))));
    assert_eq!(e, GenerationError::RemoteGenerationFailed);
    assert!(j.is_finished());
    assert!(!j.expects_event(&Event::Slept));
    assert!(!j.expects_event(&polled(200, report("RUNNING", &[]))));
}

#[test]
fn succeed_without_images_is_an_error() {
    let mut j = submitted_job("t3");
    let e = finish_error(j.handle(polled(200, report("SUCCEED", &[]))));
    assert_eq!(e, GenerationError::NoImageProduced);
}

#[test]
fn succeed_returns_first_image() {
    let mut j = submitted_job("t4");
    match j.handle(polled(200, report("SUCCEED", &["http://a/1.png", "http://a/2.png"]))) {
        Action::Finish(r) => assert_eq!(r, Ok("http://a/1.png".to_string())),
        _ => panic!("expected the job to end"),
    }
}

#[test]
fn submission_401_ends_before_any_poll() {
    let mut j = job("1328x1328");
    let e = finish_error(j.handle(Event::Submitted { status: 401, task_id: None }));
    assert_eq!(e, GenerationError::SubmissionFailed(401));
    assert!(j.is_finished());
    assert!(!j.expects_event(&polled(200, report("SUCCEED", &["u"]))));
}

#[test]
fn submission_without_task_id_is_malformed() {
    let mut j = job("1328x1328");
    let e = finish_error(j.handle(Event::Submitted { status: 200, task_id: None }));
    assert_eq!(e, GenerationError::MalformedResponse);
}

#[test]
fn poll_errors() {
    let mut j = submitted_job("t5");
    assert_eq!(finish_error(j.handle(polled(503, None))), GenerationError::PollFailed(503));
    let mut j = submitted_job("t6");
    assert_eq!(finish_error(j.handle(polled(200, None))), GenerationError::MalformedResponse);
    let mut j = submitted_job("t7");
    let e = finish_error(j.handle(Event::TransportFailed("connection refused".to_string())));
    assert_eq!(e, GenerationError::TransportError("connection refused".to_string()));
}

#[test]
fn transport_failure_on_submit() {
    let mut j = job("1328x1328");
    assert!(j.expects_event(&Event::TransportFailed("dns".to_string())));
    let e = finish_error(j.handle(Event::TransportFailed("dns".to_string())));
    assert_eq!(e, GenerationError::TransportError("dns".to_string()));
}

#[test]
fn events_follow_the_phase() {
    let j = job("1328x1328");
    assert!(j.expects_event(&Event::Submitted { status: 200, task_id: None }));
    assert!(!j.expects_event(&Event::Slept));
    assert!(!j.expects_event(&polled(200, None)));
    let mut j = submitted_job("t8");
    assert!(j.expects_event(&polled(200, None)));
    assert!(matches!(j.handle(polled(200, report("PENDING", &[]))), Action::Sleep(5)));
    assert!(j.expects_event(&Event::Slept));
    assert!(!j.expects_event(&Event::TransportFailed("x".to_string())));
}

#[test]
fn status_texts() {
    assert_eq!(classify_status("SUCCEED"), TaskStatus::Succeeded);
    assert_eq!(classify_status("FAILED"), TaskStatus::Failed);
    assert_eq!(classify_status("SUCCEEDED"), TaskStatus::Pending);
    assert_eq!(classify_status("succeed"), TaskStatus::Pending);
    assert_eq!(classify_status(""), TaskStatus::Pending);
    assert_eq!(POLL_INTERVAL_SECS, 5);
}

#[test]
fn poll_request_joins_base_and_id() {
    let req = poll_request("http://h/", "k", "id-9");
    assert_eq!(req.url, "http://h/v1/tasks/id-9");
    assert_eq!(headers(&req)[0], ("Authorization", "Bearer k"));
}
