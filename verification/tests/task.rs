use rust_download_subtitles::failure::{TaskContext, TaskError};
use rust_download_subtitles::request::{ApiRequest, HttpMethod};
use rust_download_subtitles::status::Status;
use rust_download_subtitles::task::{EpisodeTask, TaskAction, TaskEvent, TaskFault};
use rust_download_subtitles::url::{api_url, parse_url, UrlError};
use rust_download_subtitles::{
    DownloadResponse, EpisodeConfig, FileMatchResponse, SearchResultsResponse,
    SubtitleMatchAttributesResponse, SubtitleMatchResponse, TokenIndex,
};

fn config(latest_only: bool) -> EpisodeConfig {
    EpisodeConfig {
        destination_folder: "/tmp".to_string(),
        episode_from: 1,
        episode_to: 9,
        languages: "en".to_string(),
        latest_only,
        parent_imdb_id: "123".to_string(),
        season_number: 1,
        show_year: "2020".to_string(),
        title: "Show".to_string(),
    }
}

fn task() -> EpisodeTask {
    EpisodeTask::new(api_url().unwrap(), config(false), 7)
}

fn results(ids: &[u32]) -> SearchResultsResponse {
    SearchResultsResponse {
        data: vec![SubtitleMatchResponse {
            attributes: SubtitleMatchAttributesResponse {
                hearing_impaired: false,
                legacy_subtitle_id: 1,
                files: ids.iter().map(|&file_id| FileMatchResponse { file_id }).collect(),
            },
        }],
    }
}

fn reply(token_index: usize, code: u16) -> TaskEvent {
    TaskEvent::Reply {
        token_index: TokenIndex { token_index },
        status: Status::new(code).unwrap(),
    }
}

fn link(link: &str) -> TaskEvent {
    TaskEvent::Link(DownloadResponse {
        link: link.to_string(),
        file_name: String::new(),
        requests: 0,
        remaining: 0,
        message: String::new(),
        reset_time: String::new(),
    })
}

fn sent(action: TaskAction) -> (usize, ApiRequest) {
    match action {
        TaskAction::Send { token_index, request } => (token_index.token_index, request),
        other => panic!("not a request: {:?}", other),
    }
}

fn failed(action: TaskAction) -> TaskError {
    match action {
        TaskAction::Fail(error) => error,
        other => panic!("not a failure: {:?}", other),
    }
}

fn failed_in(action: TaskAction) -> TaskContext {
    let error = failed(action);
    assert!(error.cause.is_none());
    error.context
}

/// A task that waits for the link of the first of two files.
fn at_link() -> EpisodeTask {
    let mut t = task();
    t.step(TaskEvent::Begin);
    t.step(reply(0, 200));
    t.step(TaskEvent::Search(results(&[41, 42])));
    t
}

/// A task that waits for the first of two files.
fn at_file() -> EpisodeTask {
    let mut t = at_link();
    t.step(reply(0, 200));
    t.step(link("https://dl.example.com/a.srt"));
    t
}

#[test]
fn a_whole_episode() {
    let mut t = task();
    let (token, request) = sent(t.step(TaskEvent::Begin));
    assert_eq!(token, 0);
    assert_eq!(request.method, HttpMethod::Get);
    assert_eq!(
        request.url.as_str(),
        "https://api.opensubtitles.com/api/v1/subtitles?episode_number=7&foreign_parts_only=exclude&languages=en&parent_imdb_id=123&season_number=1"
    );
    assert!(request.body.is_none());
    assert!(matches!(t.step(reply(1, 200)), TaskAction::ReadSearch));
    let mut next = t.step(TaskEvent::Search(results(&[41, 42])));
    for (k, file_id) in [41, 42].iter().enumerate() {
        let (token, request) = sent(next);
        assert_eq!(token, k + 1);
        assert_eq!(request.method, HttpMethod::Post);
        assert_eq!(request.url.as_str(), "https://api.opensubtitles.com/api/v1/download");
        assert_eq!(request.body, Some(format!("{{\"file_id\": {}}}", file_id)));
        assert!(matches!(t.step(reply(k + 1, 200)), TaskAction::ReadLink));
        let (token, request) = sent(t.step(link(&format!("https://dl.example.com/{}.sub", k))));
        assert_eq!(token, k + 1);
        assert_eq!(request.method, HttpMethod::Get);
        assert_eq!(request.url.as_str(), format!("https://dl.example.com/{}.sub", k));
        assert!(request.body.is_none());
        assert!(matches!(t.step(reply(k + 2, 204)), TaskAction::ReadFile));
        match t.step(TaskEvent::File(format!("text {}", k))) {
            TaskAction::Save { file_name, extension, text } => {
                assert_eq!(file_name, "Show S01E07 2020");
                assert_eq!(extension, "sub");
                assert_eq!(text, format!("text {}", k));
            }
            other => panic!("{:?}", other),
        }
        next = t.step(TaskEvent::Saved);
    }
    assert!(matches!(next, TaskAction::Report));
}

#[test]
fn only_the_latest_is_asked_for() {
    let mut t = EpisodeTask::new(api_url().unwrap(), config(true), 7);
    t.step(TaskEvent::Begin);
    t.step(reply(0, 200));
    let mut found = results(&[1, 2]);
    found.data.push(SubtitleMatchResponse {
        attributes: SubtitleMatchAttributesResponse {
            hearing_impaired: false,
            legacy_subtitle_id: 9,
            files: vec![FileMatchResponse { file_id: 3 }],
        },
    });
    let (_, request) = sent(t.step(TaskEvent::Search(found)));
    assert_eq!(request.body, Some("{\"file_id\": 3}".to_string()));
    t.step(reply(0, 200));
    t.step(link("https://dl.example.com/a.srt"));
    t.step(reply(0, 200));
    t.step(TaskEvent::File(String::new()));
    assert!(matches!(t.step(TaskEvent::Saved), TaskAction::Report));
}

#[test]
fn nothing_found() {
    let mut t = task();
    t.step(TaskEvent::Begin);
    t.step(reply(0, 200));
    let error = failed(t.step(TaskEvent::Search(results(&[]))));
    assert_eq!(error.context, TaskContext::SearchEmpty { episode: 7 });
    assert_eq!(error.context.message(), "Enumerating subtitles for episode 7");
    assert_eq!(error.cause, Some("No subtitles found for episode 7".to_string()));
}

#[test]
fn a_base_that_cannot_be_a_base() {
    let mut t = EpisodeTask::new(parse_url("mailto:a@b").unwrap(), config(false), 7);
    let error = failed(t.step(TaskEvent::Begin));
    assert_eq!(error.context, TaskContext::SearchUrl);
    assert_eq!(error.cause, Some("relative URL with a cannot-be-a-base base".to_string()));
}

#[test]
fn given_urls() {
    let mut t = task();
    let error = failed(t.search(Err(UrlError { reason: "no".to_string() })));
    assert_eq!(error.context, TaskContext::SearchUrl);
    assert_eq!(error.cause, Some("no".to_string()));
    let mut t = at_link();
    let error = failed(t.ask_link(Err(UrlError { reason: "no".to_string() })));
    assert_eq!(error.context, TaskContext::LinkUrl);
    assert_eq!(error.cause, Some("no".to_string()));
    let mut t = at_link();
    let (_, request) = sent(t.ask_link(parse_url("https://example.com/d")));
    assert_eq!(request.url.as_str(), "https://example.com/d");
    assert_eq!(request.body, Some("{\"file_id\": 41}".to_string()));
    let mut t = at_link();
    t.step(reply(0, 200));
    let (_, request) = sent(t.follow("x.ass", parse_url("https://example.com/e")));
    assert_eq!(request.url.as_str(), "https://example.com/e");
    t.step(reply(0, 200));
    match t.step(TaskEvent::File("t".to_string())) {
        TaskAction::Save { extension, .. } => assert_eq!(extension, "ass"),
        other => panic!("{:?}", other),
    }
}

#[test]
fn a_link_that_is_no_url() {
    let mut t = at_link();
    t.step(reply(0, 200));
    let error = failed(t.step(link("a.srt")));
    assert_eq!(error.context, TaskContext::LinkTarget);
    assert_eq!(error.context.message(), "Preparing the download");
    assert_eq!(error.cause, Some("relative URL without a base".to_string()));
}

#[test]
fn refused_replies() {
    let status = Status::new(404).unwrap();
    let mut t = task();
    t.step(TaskEvent::Begin);
    assert_eq!(
        failed_in(t.step(reply(0, 404))),
        TaskContext::SearchStatus { episode: 7, status }
    );
    let mut t = at_link();
    assert_eq!(failed_in(t.step(reply(0, 404))), TaskContext::LinkStatus { episode: 7, status });
    let mut t = at_file();
    assert_eq!(
        failed_in(t.step(reply(0, 404))),
        TaskContext::FileStatus { episode: 7, file_id: 41, status }
    );
    let mut t = at_file();
    let status = Status::new(304).unwrap();
    assert_eq!(
        failed_in(t.step(reply(0, 304))),
        TaskContext::FileStatus { episode: 7, file_id: 41, status }
    );
}

#[test]
fn faults_of_the_search() {
    let begun = || {
        let mut t = task();
        t.step(TaskEvent::Begin);
        t
    };
    assert_eq!(
        failed_in(begun().step(TaskEvent::Fault(TaskFault::Send))),
        TaskContext::SearchSend
    );
    assert_eq!(
        failed_in(begun().step(TaskEvent::Fault(TaskFault::Receive))),
        TaskContext::SearchReceive { episode: 7 }
    );
    let mut t = begun();
    t.step(reply(0, 200));
    assert_eq!(
        failed_in(t.step(TaskEvent::Fault(TaskFault::Body))),
        TaskContext::SearchBody { episode: 7 }
    );
}

#[test]
fn faults_of_a_link() {
    let (episode, file_id) = (7, 41);
    assert_eq!(
        failed_in(at_link().step(TaskEvent::Fault(TaskFault::Send))),
        TaskContext::LinkSend { episode, file_id }
    );
    assert_eq!(
        failed_in(at_link().step(TaskEvent::Fault(TaskFault::Receive))),
        TaskContext::LinkReceive { episode, file_id }
    );
    let mut t = at_link();
    t.step(reply(0, 200));
    assert_eq!(
        failed_in(t.step(TaskEvent::Fault(TaskFault::Body))),
        TaskContext::LinkBody { episode, file_id }
    );
}

#[test]
fn faults_of_a_file() {
    let (episode, file_id) = (7, 41);
    assert_eq!(
        failed_in(at_file().step(TaskEvent::Fault(TaskFault::Send))),
        TaskContext::FileSend { episode, file_id }
    );
    assert_eq!(
        failed_in(at_file().step(TaskEvent::Fault(TaskFault::Receive))),
        TaskContext::FileReceive { episode, file_id }
    );
    let mut t = at_file();
    t.step(reply(0, 200));
    assert_eq!(
        failed_in(t.step(TaskEvent::Fault(TaskFault::Body))),
        TaskContext::FileBody { episode, file_id }
    );
    for fault in [TaskFault::Create, TaskFault::Write] {
        let mut t = at_file();
        t.step(reply(0, 200));
        t.step(TaskEvent::File("t".to_string()));
        let expected = match fault {
            TaskFault::Create => TaskContext::FileCreate { episode, file_id },
            _ => TaskContext::FileWrite { episode, file_id },
        };
        assert_eq!(failed_in(t.step(TaskEvent::Fault(fault))), expected);
    }
}

#[test]
fn failure_texts() {
    let (episode, file_id) = (7, 41);
    let status = Status::new(404).unwrap();
    let cases = vec![
        (TaskContext::SearchUrl, "Creating the /subtitles url"),
        (TaskContext::SearchSend, "Preparing a request for /subtitles"),
        (
            TaskContext::SearchReceive { episode },
            "Processing a response from /subtitles for episode 7",
        ),
        (
            TaskContext::SearchStatus { episode, status },
            "404 Not Found for /subtitles for episode 7",
        ),
        (
            TaskContext::SearchBody { episode },
            "Processing the list of subtitles for episode 7",
        ),
        (TaskContext::SearchEmpty { episode }, "Enumerating subtitles for episode 7"),
        (TaskContext::LinkUrl, "Creating the /download url"),
        (
            TaskContext::LinkSend { episode, file_id },
            "Preparing a request for /download for episode 7 and file id 41",
        ),
        (
            TaskContext::LinkReceive { episode, file_id },
            "Receiving a response from /download for episode 7 and file id 41",
        ),
        (
            TaskContext::LinkStatus { episode, status },
            "404 Not Found for /download for episode 7",
        ),
        (
            TaskContext::LinkBody { episode, file_id },
            "Processing a response from /download for episode 7 and file id 41",
        ),
        (TaskContext::LinkTarget, "Preparing the download"),
        (
            TaskContext::FileSend { episode, file_id },
            "Preparing a request for a temporary download link for episode 7 and file id 41",
        ),
        (
            TaskContext::FileReceive { episode, file_id },
            "Receiving a response for a temporary download link for episode 7 and file id 41",
        ),
        (
            TaskContext::FileStatus { episode, file_id, status },
            "404 Not Found for a temporary download link for episode 7 and file id 41",
        ),
        (
            TaskContext::FileBody { episode, file_id },
            "Processing response for a temporary download link for episode 7 and file id 41",
        ),
        (
            TaskContext::FileCreate { episode, file_id },
            "Creating subtitle file for episode 7 and file id 41",
        ),
        (
            TaskContext::FileWrite { episode, file_id },
            "Writing subtitle file for episode 7 and file id 41",
        ),
        (
            TaskContext::EndMark { episode },
            "Wrapping up subtitle downloading for episode 7",
        ),
        (
            TaskContext::Interrupted { episode },
            "Finishing a subtitle task for episode 7",
        ),
        (
            TaskContext::Ended { episode },
            "After finishing a subtitle task for episode 7",
        ),
    ];
    for (context, text) in cases {
        assert_eq!(context.message(), text);
    }
    assert_eq!(
        TaskContext::LinkStatus { episode, status }.message_with("L"),
        "L for /download for episode 7"
    );
}
