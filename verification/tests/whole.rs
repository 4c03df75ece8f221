use rust_download_subtitles::dispatch::{DispatchStep, Dispatcher};
use rust_download_subtitles::request::{ApiRequest, HttpMethod};
use rust_download_subtitles::status::Status;
use rust_download_subtitles::task::{EpisodeTask, TaskAction, TaskEvent};
use rust_download_subtitles::url::api_url;
use rust_download_subtitles::{
    token_0, DownloadResponse, EpisodeConfig, FileMatchResponse, SearchResultsResponse,
    SubtitleMatchAttributesResponse, SubtitleMatchResponse, TaskIndex, TokenIndex,
};
use std::collections::VecDeque;

fn config() -> EpisodeConfig {
    EpisodeConfig {
        destination_folder: "/tmp".to_string(),
        episode_from: 4,
        episode_to: 6,
        languages: "en".to_string(),
        latest_only: false,
        parent_imdb_id: "1".to_string(),
        season_number: 3,
        show_year: "1999".to_string(),
        title: "Show".to_string(),
    }
}

struct Simulation {
    tasks: Vec<EpisodeTask>,
    queue: VecDeque<(TaskIndex, TokenIndex, ApiRequest)>,
    saved: Vec<(usize, String, String)>,
    reported: Vec<bool>,
}

impl Simulation {
    fn push(&mut self, t: usize, token: TokenIndex, request: ApiRequest) {
        assert!(self.queue.len() < self.tasks.len());
        self.queue.push_back((TaskIndex { task_index: t }, token, request));
    }

    /// Tells a task something, and goes on until it sends a message.
    fn tell(&mut self, t: usize, event: TaskEvent, link: u32) {
        let mut event = event;
        loop {
            event = match self.tasks[t].step(event) {
                TaskAction::Send { token_index, request } => {
                    self.push(t, token_index, request);
                    return;
                }
                TaskAction::ReadSearch => TaskEvent::Search(SearchResultsResponse {
                    data: vec![SubtitleMatchResponse {
                        attributes: SubtitleMatchAttributesResponse {
                            hearing_impaired: false,
                            legacy_subtitle_id: 1,
                            files: vec![
                                FileMatchResponse { file_id: 10 },
                                FileMatchResponse { file_id: 11 },
                            ],
                        },
                    }],
                }),
                TaskAction::ReadLink => TaskEvent::Link(DownloadResponse {
                    link: format!("https://dl.example.com/{}.srt", link),
                    file_name: String::new(),
                    requests: 0,
                    remaining: 0,
                    message: String::new(),
                    reset_time: String::new(),
                }),
                TaskAction::ReadFile => TaskEvent::File(format!("text {}", link)),
                TaskAction::Save { file_name, text, .. } => {
                    self.saved.push((t, file_name, text));
                    TaskEvent::Saved
                }
                TaskAction::Report => {
                    self.reported[t] = true;
                    self.push(t, token_0(), ApiRequest::end_mark().unwrap());
                    return;
                }
                TaskAction::Fail(error) => panic!("{:?}", error),
            }
        }
    }
}

#[test]
fn all_episodes_pass_through_one_slot_per_task() {
    let seq = config().episode_seq().unwrap();
    let n = seq.size;
    assert_eq!(n, 3);
    let mut s = Simulation {
        tasks: seq.range.map(|e| EpisodeTask::new(api_url().unwrap(), config(), e)).collect(),
        queue: VecDeque::new(),
        saved: vec![],
        reported: vec![false; n],
    };
    for t in 0..n {
        s.tell(t, TaskEvent::Begin, 0);
    }
    let mut dispatcher = Dispatcher::new(n, 2).unwrap();
    let mut served = 0;
    while !dispatcher.is_done() {
        let (task, token, request) = s.queue.pop_front().unwrap();
        let mut step = dispatcher.on_message(task, token, request.method);
        let mut tries = 0;
        loop {
            match step {
                DispatchStep::Receive => {
                    assert_eq!(request.method, HttpMethod::Delete);
                    break;
                }
                DispatchStep::Execute { token, .. } => {
                    assert!(token.token_index < 2);
                    // Every third request meets a busy server, and every second one a refusal.
                    tries += 1;
                    let code = if tries == 1 && served % 3 == 0 {
                        503
                    } else if tries == 2 && served % 2 == 0 {
                        406
                    } else {
                        200
                    };
                    step = dispatcher.on_status(Status::new(code).unwrap());
                }
                DispatchStep::Deliver { task, token, .. } => {
                    served += 1;
                    let status = Status::new(200).unwrap();
                    s.tell(
                        task.task_index,
                        TaskEvent::Reply { token_index: token, status },
                        served,
                    );
                    break;
                }
                DispatchStep::Fail { fault, .. } => panic!("{:?}", fault),
            }
        }
    }
    assert!(s.queue.is_empty());
    assert!(s.reported.iter().all(|&r| r));
    assert_eq!(served, 15);
    assert_eq!(s.saved.len(), 6);
    for t in 0..n {
        let names: Vec<String> =
            s.saved.iter().filter(|x| x.0 == t).map(|x| x.1.clone()).collect();
        assert_eq!(names, vec![format!("Show S03E0{} 1999", t + 4); 2]);
    }
}
