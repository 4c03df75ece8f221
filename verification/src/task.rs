//! The download of one episode.
//!
//! An episode task searches for subtitles, and then for each file asks for its link, follows the
//! link and saves the text. It tells what to do next, and is told what came of it.

use reqwest::Url;
use vstd::prelude::*;

use crate::config::EpisodeConfig;
use crate::download::{link_target, DownloadResponse};
use crate::failure::{TaskContext, TaskError, TaskErrorModel};
use crate::request::{download_url, token_0, ApiRequest, HttpMethod, RequestModel, TokenIndex};
use crate::search::SearchResultsResponse;
use crate::status::Status;
use crate::url::{join_url, parse_url, UrlError};

verus! {

/// How far an episode task has come.
#[derive(Clone, Copy, Debug, PartialEq, Eq, Structural)]
pub enum TaskStage {
    /// Nothing was asked for yet.
    Start,
    /// The search was asked for.
    AwaitSearch,
    /// The reply to the search is being read.
    ReadSearch,
    /// The link of a file was asked for.
    AwaitLink,
    /// The reply with the link is being read.
    ReadLink,
    /// The file behind the link was asked for.
    AwaitFile,
    /// The file is being read.
    ReadFile,
    /// The file is being saved.
    Saving,
    /// The task has ended.
    Finished,
}

/// What went wrong outside the task.
#[derive(Clone, Copy, Debug, PartialEq, Eq, Structural)]
pub enum TaskFault {
    /// A request could not be handed on.
    Send,
    /// No reply came back.
    Receive,
    /// The body of a reply could not be read.
    Body,
    /// The output file could not be created.
    Create,
    /// The output file could not be written.
    Write,
}

/// What a task is told.
#[derive(Debug)]
pub enum TaskEvent {
    /// Begin.
    Begin,
    /// A reply came through a client.
    Reply { token_index: TokenIndex, status: Status },
    /// The reply to the search.
    Search(SearchResultsResponse),
    /// The reply with the link of a file.
    Link(DownloadResponse),
    /// The contents of a file.
    File(String),
    /// The file was saved.
    Saved,
    /// Something went wrong.
    Fault(TaskFault),
}

/// What a task asks for.
#[derive(Debug)]
pub enum TaskAction {
    /// Hand on a request, and wait for the reply.
    Send { token_index: TokenIndex, request: ApiRequest },
    /// Read the body of the reply as the reply to a search.
    ReadSearch,
    /// Read the body of the reply as a reply with a link.
    ReadLink,
    /// Read the body of the reply as text.
    ReadFile,
    /// Save a text.
    Save { file_name: String, extension: String, text: String },
    /// Report that the episode is complete.
    Report,
    /// Stop.
    Fail(TaskError),
}

/// What a task asks for, with texts in place of strings.
pub enum TaskActionModel {
    Send { token_index: TokenIndex, request: RequestModel },
    ReadSearch,
    ReadLink,
    ReadFile,
    Save { file_name: Seq<char>, extension: Seq<char>, text: Seq<char> },
    Report,
    Fail(TaskErrorModel),
}

impl View for TaskAction {
    type V = TaskActionModel;

    open spec fn view(&self) -> TaskActionModel {
        match self {
            TaskAction::Send { token_index, request } => TaskActionModel::Send {
                token_index: *token_index,
                request: request@,
            },
            TaskAction::ReadSearch => TaskActionModel::ReadSearch,
            TaskAction::ReadLink => TaskActionModel::ReadLink,
            TaskAction::ReadFile => TaskActionModel::ReadFile,
            TaskAction::Save { file_name, extension, text } => TaskActionModel::Save {
                file_name: file_name@,
                extension: extension@,
                text: text@,
            },
            TaskAction::Report => TaskActionModel::Report,
            TaskAction::Fail(error) => TaskActionModel::Fail(error@),
        }
    }
}

/// What a task knows.
pub struct TaskModel {
    /// The base URL of the API.
    pub api: Url,
    pub config: EpisodeConfig,
    pub episode: u32,
    /// The client that the last reply came through.
    pub token_index: TokenIndex,
    pub stage: TaskStage,
    /// The files to download.
    pub file_ids: Seq<u32>,
    /// How many files are saved.
    pub saved: nat,
    /// The extension of the current file.
    pub extension: Seq<char>,
}

/// Whether a task is at work on a file.
pub open spec fn on_a_file(stage: TaskStage) -> bool {
    match stage {
        TaskStage::AwaitLink => true,
        TaskStage::ReadLink => true,
        TaskStage::AwaitFile => true,
        TaskStage::ReadFile => true,
        TaskStage::Saving => true,
        _ => false,
    }
}

/// Whether a task waits for a reply.
pub open spec fn awaits_reply(stage: TaskStage) -> bool {
    match stage {
        TaskStage::AwaitSearch => true,
        TaskStage::AwaitLink => true,
        TaskStage::AwaitFile => true,
        _ => false,
    }
}

impl TaskModel {
    /// A task that is at work on a file has a file to work on.
    pub open spec fn well_formed(self) -> bool {
        &&& self.saved <= self.file_ids.len()
        &&& on_a_file(self.stage) ==> self.saved < self.file_ids.len()
    }

    /// Whether an event can happen.
    pub open spec fn accepts(self, event: TaskEvent) -> bool {
        match event {
            TaskEvent::Begin => self.stage == TaskStage::Start,
            TaskEvent::Reply { .. } => awaits_reply(self.stage),
            TaskEvent::Search(_) => self.stage == TaskStage::ReadSearch,
            TaskEvent::Link(_) => self.stage == TaskStage::ReadLink,
            TaskEvent::File(_) => self.stage == TaskStage::ReadFile,
            TaskEvent::Saved => self.stage == TaskStage::Saving,
            TaskEvent::Fault(TaskFault::Send) => awaits_reply(self.stage),
            TaskEvent::Fault(TaskFault::Receive) => awaits_reply(self.stage),
            TaskEvent::Fault(TaskFault::Body) => self.stage == TaskStage::ReadSearch || self.stage
                == TaskStage::ReadLink || self.stage == TaskStage::ReadFile,
            TaskEvent::Fault(TaskFault::Create) => self.stage == TaskStage::Saving,
            TaskEvent::Fault(TaskFault::Write) => self.stage == TaskStage::Saving,
        }
    }

    /// The file that the task is at work on.
    pub open spec fn file_id(self) -> u32 {
        self.file_ids[self.saved as int]
    }

    /// The task at another stage.
    pub open spec fn at(self, stage: TaskStage) -> TaskModel {
        TaskModel { stage, ..self }
    }

    /// Ends the task with an error.
    pub open spec fn failed(self, context: TaskContext, cause: Option<Seq<char>>) -> (
        TaskModel,
        TaskActionModel,
    ) {
        (
            self.at(TaskStage::Finished),
            TaskActionModel::Fail(TaskErrorModel { context, cause }),
        )
    }

    /// Asks for something, through the client of the last reply.
    pub open spec fn sends(
        self,
        stage: TaskStage,
        method: HttpMethod,
        url: Url,
        body: Option<Seq<char>>,
    ) -> (TaskModel, TaskActionModel) {
        (
            self.at(stage),
            TaskActionModel::Send {
                token_index: self.token_index,
                request: RequestModel { method, url, body },
            },
        )
    }

    /// Asks for the search, if there is a URL for it.
    pub open spec fn searches(self, url: Result<Url, Seq<char>>) -> (TaskModel, TaskActionModel) {
        match url {
            Ok(url) => self.sends(TaskStage::AwaitSearch, HttpMethod::Get, url, None),
            Err(reason) => self.failed(TaskContext::SearchUrl, Some(reason)),
        }
    }

    /// Asks for the link of the current file, if there is a URL for it.
    pub open spec fn asks_link(self, url: Result<Url, Seq<char>>) -> (TaskModel, TaskActionModel) {
        match url {
            Ok(url) => self.sends(
                TaskStage::AwaitLink,
                HttpMethod::Post,
                url,
                Some(crate::request::download_text(self.file_id())),
            ),
            Err(reason) => self.failed(TaskContext::LinkUrl, Some(reason)),
        }
    }

    /// Turns to the next file, or reports that there is none left.
    pub open spec fn next_file(self) -> (TaskModel, TaskActionModel) {
        if self.saved == self.file_ids.len() {
            (self.at(TaskStage::Finished), TaskActionModel::Report)
        } else {
            self.asks_link(crate::url::joined_url(self.api, "download"@))
        }
    }

    /// Follows a link, if it has a URL.
    pub open spec fn follows(self, link: Seq<char>, url: Result<Url, Seq<char>>) -> (
        TaskModel,
        TaskActionModel,
    ) {
        match url {
            Ok(url) => (TaskModel {
                extension: crate::download::link_extension(link),
                ..self
            }).sends(TaskStage::AwaitFile, HttpMethod::Get, url, None),
            Err(reason) => self.failed(TaskContext::LinkTarget, Some(reason)),
        }
    }

    /// Reads the body of a successful reply, and fails on any other.
    pub open spec fn replied(self, token_index: TokenIndex, status: Status) -> (
        TaskModel,
        TaskActionModel,
    ) {
        let model = TaskModel { token_index, ..self };
        if crate::status::is_success_code(status.spec_code() as int) {
            match self.stage {
                TaskStage::AwaitSearch => (
                    model.at(TaskStage::ReadSearch),
                    TaskActionModel::ReadSearch,
                ),
                TaskStage::AwaitLink => (model.at(TaskStage::ReadLink), TaskActionModel::ReadLink),
                _ => (model.at(TaskStage::ReadFile), TaskActionModel::ReadFile),
            }
        } else {
            model.failed(
                match self.stage {
                    TaskStage::AwaitSearch => TaskContext::SearchStatus {
                        episode: self.episode,
                        status,
                    },
                    TaskStage::AwaitLink => TaskContext::LinkStatus {
                        episode: self.episode,
                        status,
                    },
                    _ => TaskContext::FileStatus {
                        episode: self.episode,
                        file_id: self.file_id(),
                        status,
                    },
                },
                None,
            )
        }
    }

    /// Takes in what a search found.
    pub open spec fn found(self, results: SearchResultsResponse) -> (TaskModel, TaskActionModel) {
        if crate::search::any_files(results.data@) {
            (TaskModel {
                file_ids: crate::search::wanted_ids(results.data@, self.config.latest_only),
                saved: 0,
                ..self
            }).next_file()
        } else {
            self.failed(
                TaskContext::SearchEmpty { episode: self.episode },
                Some(
                    (crate::search::NoSubtitles { episode: self.episode }).spec_message(),
                ),
            )
        }
    }

    /// Where something went wrong.
    pub open spec fn fault_context(self, fault: TaskFault) -> TaskContext {
        let episode = self.episode;
        let file_id = self.file_id();
        match (fault, self.stage) {
            (TaskFault::Send, TaskStage::AwaitSearch) => TaskContext::SearchSend,
            (TaskFault::Send, TaskStage::AwaitLink) => TaskContext::LinkSend { episode, file_id },
            (TaskFault::Send, _) => TaskContext::FileSend { episode, file_id },
            (TaskFault::Receive, TaskStage::AwaitSearch) => TaskContext::SearchReceive { episode },
            (TaskFault::Receive, TaskStage::AwaitLink) => TaskContext::LinkReceive {
                episode,
                file_id,
            },
            (TaskFault::Receive, _) => TaskContext::FileReceive { episode, file_id },
            (TaskFault::Body, TaskStage::ReadSearch) => TaskContext::SearchBody { episode },
            (TaskFault::Body, TaskStage::ReadLink) => TaskContext::LinkBody { episode, file_id },
            (TaskFault::Body, _) => TaskContext::FileBody { episode, file_id },
            (TaskFault::Create, _) => TaskContext::FileCreate { episode, file_id },
            (TaskFault::Write, _) => TaskContext::FileWrite { episode, file_id },
        }
    }

    /// What the task does on an event.
    pub open spec fn step(self, event: TaskEvent) -> (TaskModel, TaskActionModel) {
        match event {
            TaskEvent::Begin => self.searches(
                crate::url::joined_url(
                    self.api,
                    crate::config::search_reference(self.config, self.episode),
                ),
            ),
            TaskEvent::Reply { token_index, status } => self.replied(token_index, status),
            TaskEvent::Search(results) => self.found(results),
            TaskEvent::Link(reply) => self.follows(
                reply.link@,
                crate::url::parsed_url(reply.link@),
            ),
            TaskEvent::File(text) => (
                self.at(TaskStage::Saving),
                TaskActionModel::Save {
                    file_name: crate::config::episode_name(self.config, self.episode),
                    extension: self.extension,
                    text: text@,
                },
            ),
            TaskEvent::Saved => (TaskModel { saved: self.saved + 1, ..self }).next_file(),
            TaskEvent::Fault(fault) => self.failed(self.fault_context(fault), None),
        }
    }
}

/// The download of one episode.
#[derive(Debug)]
pub struct EpisodeTask {
    api: Url,
    config: EpisodeConfig,
    episode: u32,
    token_index: TokenIndex,
    stage: TaskStage,
    file_ids: Vec<u32>,
    saved: usize,
    extension: String,
}

impl View for EpisodeTask {
    type V = TaskModel;

    closed spec fn view(&self) -> TaskModel {
        TaskModel {
            api: self.api,
            config: self.config,
            episode: self.episode,
            token_index: self.token_index,
            stage: self.stage,
            file_ids: self.file_ids@,
            saved: self.saved as nat,
            extension: self.extension@,
        }
    }
}

impl EpisodeTask {
    /// A task that has not begun. It starts with the first client.
    pub fn new(api: Url, config: EpisodeConfig, episode: u32) -> (task: EpisodeTask)
        ensures
            task@ == (TaskModel {
                api,
                config,
                episode,
                token_index: TokenIndex { token_index: 0 },
                stage: TaskStage::Start,
                file_ids: Seq::empty(),
                saved: 0,
                extension: Seq::empty(),
            }),
            task@.well_formed(),
    {
        let task = EpisodeTask {
            api,
            config,
            episode,
            token_index: token_0(),
            stage: TaskStage::Start,
            file_ids: Vec::new(),
            saved: 0,
            extension: String::new(),
        };
        assert(task.file_ids@ =~= Seq::empty());
        task
    }

    fn fail(&mut self, context: TaskContext, cause: Option<String>) -> (action: TaskAction)
        requires
            old(self)@.well_formed(),
        ensures
            (final(self)@, action@) == old(self)@.failed(
                context,
                match cause {
                    Some(cause) => Some(cause@),
                    None => None,
                },
            ),
            final(self)@.well_formed(),
    {
        self.stage = TaskStage::Finished;
        TaskAction::Fail(TaskError { context, cause })
    }

    /// Asks for the search, given its URL.
    pub fn search(&mut self, url: Result<Url, UrlError>) -> (action: TaskAction)
        requires
            old(self)@.well_formed(),
            old(self)@.stage == TaskStage::Start,
        ensures
            (final(self)@, action@) == old(self)@.searches(crate::url::url_outcome(url)),
            final(self)@.well_formed(),
    {
        match url {
            Ok(url) => {
                self.stage = TaskStage::AwaitSearch;
                TaskAction::Send { token_index: self.token_index, request: ApiRequest::get(url) }
            },
            Err(e) => self.fail(TaskContext::SearchUrl, Some(e.reason)),
        }
    }

    /// Asks for the link of the current file, given the URL of `/download`.
    pub fn ask_link(&mut self, url: Result<Url, UrlError>) -> (action: TaskAction)
        requires
            old(self)@.well_formed(),
            old(self)@.saved < old(self)@.file_ids.len(),
        ensures
            (final(self)@, action@) == old(self)@.asks_link(crate::url::url_outcome(url)),
            final(self)@.well_formed(),
    {
        match url {
            Ok(url) => {
                self.stage = TaskStage::AwaitLink;
                TaskAction::Send {
                    token_index: self.token_index,
                    request: ApiRequest::download(url, self.file_ids[self.saved]),
                }
            },
            Err(e) => self.fail(TaskContext::LinkUrl, Some(e.reason)),
        }
    }

    fn next_file(&mut self) -> (action: TaskAction)
        requires
            old(self)@.saved <= old(self)@.file_ids.len(),
        ensures
            (final(self)@, action@) == old(self)@.next_file(),
            final(self)@.well_formed(),
    {
        if self.saved == self.file_ids.len() {
            self.stage = TaskStage::Finished;
            TaskAction::Report
        } else {
            let url = download_url(&self.api);
            self.ask_link(url)
        }
    }

    /// Follows a link, given its URL.
    pub fn follow(&mut self, link: &str, url: Result<Url, UrlError>) -> (action: TaskAction)
        requires
            old(self)@.well_formed(),
            old(self)@.stage == TaskStage::ReadLink,
        ensures
            (final(self)@, action@) == old(self)@.follows(link@, crate::url::url_outcome(url)),
            final(self)@.well_formed(),
    {
        match link_target(link, url) {
            Ok((url, extension)) => {
                self.extension = extension;
                self.stage = TaskStage::AwaitFile;
                TaskAction::Send { token_index: self.token_index, request: ApiRequest::get(url) }
            },
            Err(e) => self.fail(TaskContext::LinkTarget, Some(e.reason)),
        }
    }

    fn on_reply(&mut self, token_index: TokenIndex, status: Status) -> (action: TaskAction)
        requires
            old(self)@.well_formed(),
            awaits_reply(old(self)@.stage),
        ensures
            (final(self)@, action@) == old(self)@.replied(token_index, status),
            final(self)@.well_formed(),
    {
        self.token_index = token_index;
        let episode = self.episode;
        if status.is_success() {
            match self.stage {
                TaskStage::AwaitSearch => {
                    self.stage = TaskStage::ReadSearch;
                    TaskAction::ReadSearch
                },
                TaskStage::AwaitLink => {
                    self.stage = TaskStage::ReadLink;
                    TaskAction::ReadLink
                },
                _ => {
                    self.stage = TaskStage::ReadFile;
                    TaskAction::ReadFile
                },
            }
        } else {
            let context = match self.stage {
                TaskStage::AwaitSearch => TaskContext::SearchStatus { episode, status },
                TaskStage::AwaitLink => TaskContext::LinkStatus { episode, status },
                _ => TaskContext::FileStatus {
                    episode,
                    file_id: self.file_ids[self.saved],
                    status,
                },
            };
            self.fail(context, None)
        }
    }

    fn on_search(&mut self, results: &SearchResultsResponse) -> (action: TaskAction)
        requires
            old(self)@.well_formed(),
            old(self)@.stage == TaskStage::ReadSearch,
        ensures
            (final(self)@, action@) == old(self)@.found(*results),
            final(self)@.well_formed(),
    {
        match results.file_ids(self.episode, self.config.latest_only) {
            Ok(file_ids) => {
                self.file_ids = file_ids;
                self.saved = 0;
                self.next_file()
            },
            Err(e) => self.fail(
                TaskContext::SearchEmpty { episode: self.episode },
                Some(e.message()),
            ),
        }
    }

    fn on_fault(&mut self, fault: TaskFault) -> (action: TaskAction)
        requires
            old(self)@.well_formed(),
            old(self)@.accepts(TaskEvent::Fault(fault)),
        ensures
            (final(self)@, action@) == old(self)@.failed(old(self)@.fault_context(fault), None),
            final(self)@.well_formed(),
    {
        let episode = self.episode;
        let context = match self.stage {
            TaskStage::AwaitSearch => match fault {
                TaskFault::Send => TaskContext::SearchSend,
                _ => TaskContext::SearchReceive { episode },
            },
            TaskStage::ReadSearch => TaskContext::SearchBody { episode },
            stage => {
                let file_id: u32 = self.file_ids[self.saved];
                match fault {
                    TaskFault::Send => match stage {
                        TaskStage::AwaitLink => TaskContext::LinkSend { episode, file_id },
                        _ => TaskContext::FileSend { episode, file_id },
                    },
                    TaskFault::Receive => match stage {
                        TaskStage::AwaitLink => TaskContext::LinkReceive { episode, file_id },
                        _ => TaskContext::FileReceive { episode, file_id },
                    },
                    TaskFault::Body => match stage {
                        TaskStage::ReadLink => TaskContext::LinkBody { episode, file_id },
                        _ => TaskContext::FileBody { episode, file_id },
                    },
                    TaskFault::Create => TaskContext::FileCreate { episode, file_id },
                    TaskFault::Write => TaskContext::FileWrite { episode, file_id },
                }
            },
        };
        self.fail(context, None)
    }

    /// Takes in an event, and tells what to do next.
    pub fn step(&mut self, event: TaskEvent) -> (action: TaskAction)
        requires
            old(self)@.well_formed(),
            old(self)@.accepts(event),
        ensures
            (final(self)@, action@) == old(self)@.step(event),
            final(self)@.well_formed(),
    {
        match event {
            TaskEvent::Begin => {
                let query = self.config.search_query(self.episode);
                let url = join_url(&self.api, query.as_str());
                self.search(url)
            },
            TaskEvent::Reply { token_index, status } => self.on_reply(token_index, status),
            TaskEvent::Search(results) => self.on_search(&results),
            TaskEvent::Link(reply) => self.follow(
                reply.link.as_str(),
                parse_url(reply.link.as_str()),
            ),
            TaskEvent::File(text) => {
                self.stage = TaskStage::Saving;
                TaskAction::Save {
                    file_name: self.config.file_name(self.episode),
                    extension: self.extension.clone(),
                    text,
                }
            },
            TaskEvent::Saved => {
                assert(self.saved < self.file_ids.len());
                self.saved = self.saved + 1;
                self.next_file()
            },
            TaskEvent::Fault(fault) => self.on_fault(fault),
        }
    }
}

/// What a task asks for is what its action holds.
pub proof fn actions_ask_for_what_they_hold(action: TaskAction)
    ensures
        action is Send <==> action@ is Send,
        action is ReadSearch <==> action@ is ReadSearch,
        action is ReadLink <==> action@ is ReadLink,
        action is ReadFile <==> action@ is ReadFile,
        action is Save <==> action@ is Save,
        action is Report <==> action@ is Report,
        action is Fail <==> action@ is Fail,
        action matches TaskAction::Send { token_index, request } ==> action@ == (
        TaskActionModel::Send { token_index, request: request@ }),
        action matches TaskAction::Save { file_name, extension, text } ==> action@ == (
        TaskActionModel::Save { file_name: file_name@, extension: extension@, text: text@ }),
        action matches TaskAction::Fail(error) ==> action@ == TaskActionModel::Fail(error@),
{
}

} // verus!
