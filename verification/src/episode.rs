//! What holds of an episode task as a whole.

use vstd::prelude::*;

use crate::download::DownloadResponse;
use crate::failure::{TaskContext, TaskErrorModel};
use crate::request::{HttpMethod, RequestModel, TokenIndex};
use crate::search::SearchResultsResponse;
use crate::status::Status;
use crate::task::{TaskActionModel, TaskEvent, TaskFault, TaskModel, TaskStage};

verus! {

/// A task has at most one request on the way: it asks for something only when it does not wait for
/// a reply, and it waits for a reply exactly after it asked for something.
pub proof fn one_request_at_a_time(task: TaskModel, event: TaskEvent)
    requires
        task.well_formed(),
        task.accepts(event),
    ensures
        task.step(event).0.well_formed(),
        task.step(event).1 is Send ==> !crate::task::awaits_reply(task.stage),
        task.step(event).1 is Send <==> crate::task::awaits_reply(task.step(event).0.stage),
{
}

/// A task asks through the client that its last reply came through.
pub proof fn last_client_is_kept(task: TaskModel, event: TaskEvent)
    requires
        task.well_formed(),
        task.accepts(event),
    ensures
        task.step(event).1 matches TaskActionModel::Send { token_index, .. } ==> token_index
            == task.token_index,
        task.step(event).0.token_index == (match event {
            TaskEvent::Reply { token_index, .. } => token_index,
            _ => task.token_index,
        }),
{
}

/// A task that is given clients below a bound names only clients below that bound.
pub proof fn clients_stay_valid(task: TaskModel, event: TaskEvent, clients: nat)
    requires
        task.well_formed(),
        task.accepts(event),
        task.token_index.token_index < clients,
        event matches TaskEvent::Reply { token_index, .. } ==> token_index.token_index < clients,
    ensures
        task.step(event).0.token_index.token_index < clients,
        task.step(event).1 matches TaskActionModel::Send { token_index, .. }
            ==> token_index.token_index < clients,
{
}

/// A task ends exactly when it reports or fails, and a task that has ended accepts nothing.
pub proof fn the_end_is_final(task: TaskModel, event: TaskEvent, later: TaskEvent)
    requires
        task.well_formed(),
        task.accepts(event),
    ensures
        task.step(event).0.stage == TaskStage::Finished <==> task.step(event).1 is Report
            || task.step(event).1 is Fail,
        task.step(event).0.stage == TaskStage::Finished ==> !task.step(event).0.accepts(later),
{
}

/// A task reports only when all its files are saved.
pub proof fn report_means_all_saved(task: TaskModel, event: TaskEvent)
    requires
        task.well_formed(),
        task.accepts(event),
        task.step(event).1 is Report,
    ensures
        task.step(event).0.saved == task.step(event).0.file_ids.len(),
        event is Saved,
        task.saved + 1 == task.file_ids.len(),
{
    if event is Search {
        let data = event->Search_0.data@;
        found_ids_are_not_empty(data, task.config.latest_only);
    }
}

proof fn found_ids_are_not_empty(
    data: Seq<crate::search::SubtitleMatchResponse>,
    latest_only: bool,
)
    ensures
        crate::search::any_files(data) ==> crate::search::wanted_ids(data, latest_only).len() > 0,
{
    if crate::search::any_files(data) {
        crate::search::all_ids_empty(data);
        crate::search::best_exists(data);
    }
}

/// Only the body of a successful reply is read.
pub proof fn only_success_is_read(task: TaskModel, event: TaskEvent)
    requires
        task.well_formed(),
        task.accepts(event),
        task.step(event).1 is ReadSearch || task.step(event).1 is ReadLink || task.step(
            event,
        ).1 is ReadFile,
    ensures
        event matches TaskEvent::Reply { status, .. } && crate::status::is_success_code(
            status.spec_code() as int,
        ),
{
}

/// The files of a task are chosen once, by the search, and are saved one after the other.
pub proof fn files_are_saved_in_turn(task: TaskModel, event: TaskEvent)
    requires
        task.well_formed(),
        task.accepts(event),
        !(event is Search),
    ensures
        task.step(event).0.file_ids == task.file_ids,
        task.step(event).0.saved == task.saved + (if event is Saved {
            1nat
        } else {
            0nat
        }),
        task.step(event).0.episode == task.episode,
        task.step(event).0.config == task.config,
{
}

/// What happens to one file: the reply with its link, and the reply to following the link.
pub struct FileExchange {
    pub link_token: TokenIndex,
    pub link_status: Status,
    pub reply: DownloadResponse,
    pub file_token: TokenIndex,
    pub file_status: Status,
    pub text: String,
}

impl FileExchange {
    /// Whether nothing goes wrong with the file.
    pub open spec fn succeeds(self) -> bool {
        &&& crate::status::is_success_code(self.link_status.spec_code() as int)
        &&& crate::url::parsed_url(self.reply.link@) is Ok
        &&& crate::status::is_success_code(self.file_status.spec_code() as int)
    }

    /// What the task is told.
    pub open spec fn events(self) -> Seq<TaskEvent> {
        seq![
            TaskEvent::Reply { token_index: self.link_token, status: self.link_status },
            TaskEvent::Link(self.reply),
            TaskEvent::Reply { token_index: self.file_token, status: self.file_status },
            TaskEvent::File(self.text),
            TaskEvent::Saved,
        ]
    }
}

/// What the task is told over several files.
pub open spec fn events_of(files: Seq<FileExchange>) -> Seq<TaskEvent>
    decreases files.len(),
{
    if files.len() == 0 {
        Seq::empty()
    } else {
        files[0].events() + events_of(files.drop_first())
    }
}

/// The task after the given events, and what it asked for.
pub open spec fn run(task: TaskModel, events: Seq<TaskEvent>) -> (TaskModel, Seq<TaskActionModel>)
    decreases events.len(),
{
    if events.len() == 0 {
        (task, Seq::empty())
    } else {
        let first = task.step(events[0]);
        let rest = run(first.0, events.drop_first());
        (rest.0, seq![first.1] + rest.1)
    }
}

/// The texts among the given actions that are saved, in order, each with its name and extension.
pub open spec fn saves(actions: Seq<TaskActionModel>) -> Seq<(Seq<char>, Seq<char>, Seq<char>)>
    decreases actions.len(),
{
    if actions.len() == 0 {
        Seq::empty()
    } else {
        let rest = saves(actions.drop_first());
        match actions[0] {
            TaskActionModel::Save { file_name, extension, text } => seq![
                (file_name, extension, text),
            ] + rest,
            _ => rest,
        }
    }
}

/// The bodies of the requests for links among the given actions, in order.
pub open spec fn asked(actions: Seq<TaskActionModel>) -> Seq<Seq<char>>
    decreases actions.len(),
{
    if actions.len() == 0 {
        Seq::empty()
    } else {
        let rest = asked(actions.drop_first());
        match actions[0] {
            TaskActionModel::Send { request, .. } => if request.method == HttpMethod::Post {
                seq![request.body->0] + rest
            } else {
                rest
            },
            _ => rest,
        }
    }
}

proof fn run_in_parts(task: TaskModel, a: Seq<TaskEvent>, b: Seq<TaskEvent>)
    ensures
        run(task, a + b).0 == run(run(task, a).0, b).0,
        run(task, a + b).1 == run(task, a).1 + run(run(task, a).0, b).1,
    decreases a.len(),
{
    if a.len() == 0 {
        assert(a + b =~= b);
        assert(run(task, a).1 + run(task, b).1 =~= run(task, b).1);
    } else {
        assert((a + b).drop_first() =~= a.drop_first() + b);
        let first = task.step(a[0]);
        run_in_parts(first.0, a.drop_first(), b);
        assert(run(task, a + b).1 =~= run(task, a).1 + run(run(task, a).0, b).1);
    }
}

proof fn parts_of_actions(a: Seq<TaskActionModel>, b: Seq<TaskActionModel>)
    ensures
        saves(a + b) == saves(a) + saves(b),
        asked(a + b) == asked(a) + asked(b),
    decreases a.len(),
{
    if a.len() == 0 {
        assert(a + b =~= b);
        assert(saves(a) + saves(b) =~= saves(b));
        assert(asked(a) + asked(b) =~= asked(b));
    } else {
        assert((a + b).drop_first() =~= a.drop_first() + b);
        parts_of_actions(a.drop_first(), b);
        assert(saves(a + b) =~= saves(a) + saves(b));
        assert(asked(a + b) =~= asked(a) + asked(b));
    }
}

/// What a task that waits for the link of a file asks for, if nothing goes wrong with the file: it
/// reads the link, follows it through the client that the link came through, saves what it gets
/// under the name of the episode with the extension of the link, and turns to the next file.
pub proof fn a_file_is_saved(task: TaskModel, file: FileExchange)
    requires
        task.well_formed(),
        task.stage == TaskStage::AwaitLink,
        file.succeeds(),
    ensures
        ({
            let next = TaskModel {
                saved: task.saved + 1,
                token_index: file.file_token,
                extension: crate::download::link_extension(file.reply.link@),
                stage: TaskStage::Saving,
                ..task
            };
            &&& run(task, file.events()).0 == next.next_file().0
            &&& run(task, file.events()).1 == seq![
                TaskActionModel::ReadLink,
                TaskActionModel::Send {
                    token_index: file.link_token,
                    request: crate::request::RequestModel {
                        method: HttpMethod::Get,
                        url: crate::url::parsed_url(file.reply.link@)->Ok_0,
                        body: None,
                    },
                },
                TaskActionModel::ReadFile,
                TaskActionModel::Save {
                    file_name: crate::config::episode_name(task.config, task.episode),
                    extension: crate::download::link_extension(file.reply.link@),
                    text: file.text@,
                },
                next.next_file().1,
            ]
        }),
{
    let e = file.events();
    let e1 = e.drop_first();
    let e2 = e1.drop_first();
    let e3 = e2.drop_first();
    let e4 = e3.drop_first();
    let e5 = e4.drop_first();
    assert(e5.len() == 0);
    let s1 = task.step(e[0]);
    let s2 = s1.0.step(e[1]);
    let s3 = s2.0.step(e[2]);
    let s4 = s3.0.step(e[3]);
    let s5 = s4.0.step(e[4]);
    assert(run(s5.0, e5) == (s5.0, Seq::<TaskActionModel>::empty()));
    assert(run(s4.0, e4).1 =~= seq![s5.1]);
    assert(run(s3.0, e3).1 =~= seq![s4.1, s5.1]);
    assert(run(s2.0, e2).1 =~= seq![s3.1, s4.1, s5.1]);
    assert(run(s1.0, e1).1 =~= seq![s2.1, s3.1, s4.1, s5.1]);
    assert(run(task, e).1 =~= seq![s1.1, s2.1, s3.1, s4.1, s5.1]);
}

/// The names, extensions and texts of the given files.
pub open spec fn texts_of(name: Seq<char>, files: Seq<FileExchange>) -> Seq<
    (Seq<char>, Seq<char>, Seq<char>),
> {
    files.map_values(
        |file: FileExchange|
            (name, crate::download::link_extension(file.reply.link@), file.text@),
    )
}

/// The bodies of the requests for the links of the given files.
pub open spec fn bodies_of(file_ids: Seq<u32>) -> Seq<Seq<char>> {
    file_ids.map_values(|file_id: u32| crate::request::download_text(file_id))
}

proof fn remaining_files_are_saved(task: TaskModel, files: Seq<FileExchange>)
    requires
        task.well_formed(),
        task.stage == TaskStage::AwaitLink,
        crate::url::joined_url(task.api, "download"@) is Ok,
        files.len() == task.file_ids.len() - task.saved,
        forall|i: int| 0 <= i < files.len() ==> (#[trigger] files[i]).succeeds(),
    ensures
        ({
            let (end, actions) = run(task, events_of(files));
            &&& end.stage == TaskStage::Finished
            &&& end.saved == task.file_ids.len()
            &&& actions.len() > 0
            &&& actions.last() == TaskActionModel::Report
            &&& saves(actions) == texts_of(
                crate::config::episode_name(task.config, task.episode),
                files,
            )
            &&& asked(actions) == bodies_of(task.file_ids.skip(task.saved as int + 1))
        }),
    decreases files.len(),
{
    let name = crate::config::episode_name(task.config, task.episode);
    let file = files[0];
    let rest = files.drop_first();
    a_file_is_saved(task, file);
    run_in_parts(task, file.events(), events_of(rest));
    let (next, actions) = run(task, file.events());
    let (end, more) = run(next, events_of(rest));
    parts_of_actions(actions, more);
    five_actions(actions);
    if rest.len() == 0 {
        assert(more =~= Seq::empty());
        assert(actions + more =~= actions);
        assert(texts_of(name, files) =~= seq![
            (name, crate::download::link_extension(file.reply.link@), file.text@),
        ]);
        assert(bodies_of(task.file_ids.skip(task.saved as int + 1)) =~= Seq::empty());
    } else {
        assert forall|i: int| 0 <= i < rest.len() implies (#[trigger] rest[i]).succeeds() by {
            assert(rest[i] == files[i + 1]);
        }
        remaining_files_are_saved(next, rest);
        assert(texts_of(name, files) =~= seq![
            (name, crate::download::link_extension(file.reply.link@), file.text@),
        ] + texts_of(name, rest));
        assert(bodies_of(task.file_ids.skip(task.saved as int + 1)) =~= seq![
            crate::request::download_text(task.file_ids[task.saved as int + 1]),
        ] + bodies_of(task.file_ids.skip(task.saved as int + 2)));
        assert((actions + more).last() == more.last());
    }
}

proof fn five_actions(actions: Seq<TaskActionModel>)
    requires
        actions.len() == 5,
        !(actions[0] is Save) && !(actions[0] is Send),
        actions[1] is Send && actions[1]->request.method == HttpMethod::Get,
        !(actions[2] is Save) && !(actions[2] is Send),
        actions[3] is Save,
        !(actions[4] is Save),
    ensures
        saves(actions) == seq![
            (
                actions[3]->file_name,
                actions[3]->extension,
                actions[3]->text,
            ),
        ],
        asked(actions) == (if actions[4] is Send && actions[4]->request.method
            == HttpMethod::Post {
            seq![actions[4]->request.body->0]
        } else {
            Seq::empty()
        }),
{
    reveal_with_fuel(saves, 6);
    reveal_with_fuel(asked, 6);
    let a1 = actions.drop_first();
    let a2 = a1.drop_first();
    let a3 = a2.drop_first();
    let a4 = a3.drop_first();
    let a5 = a4.drop_first();
    assert(a5.len() == 0);
    assert(saves(a4) =~= Seq::empty());
    assert(saves(a3) =~= seq![
        (
            actions[3]->file_name,
            actions[3]->extension,
            actions[3]->text,
        ),
    ]);
    assert(asked(a4) =~= if actions[4] is Send && actions[4]->request.method == HttpMethod::Post {
        seq![actions[4]->request.body->0]
    } else {
        Seq::empty()
    });
}

/// If nothing goes wrong, an episode is complete: the task asks for the link of each file that the
/// search found, once and in order, saves the text of each file, in order, under the name of the
/// episode, and reports in the end.
pub proof fn an_episode_is_completed(
    task: TaskModel,
    token_index: TokenIndex,
    status: Status,
    results: SearchResultsResponse,
    files: Seq<FileExchange>,
)
    requires
        task.well_formed(),
        task.stage == TaskStage::Start,
        crate::url::joined_url(
            task.api,
            crate::config::search_reference(task.config, task.episode),
        ) is Ok,
        crate::url::joined_url(task.api, "download"@) is Ok,
        crate::status::is_success_code(status.spec_code() as int),
        crate::search::any_files(results.data@),
        files.len() == crate::search::wanted_ids(results.data@, task.config.latest_only).len(),
        forall|i: int| 0 <= i < files.len() ==> (#[trigger] files[i]).succeeds(),
    ensures
        ({
            let events = seq![
                TaskEvent::Begin,
                TaskEvent::Reply { token_index, status },
                TaskEvent::Search(results),
            ] + events_of(files);
            let (end, actions) = run(task, events);
            let file_ids = crate::search::wanted_ids(results.data@, task.config.latest_only);
            &&& end.stage == TaskStage::Finished
            &&& actions.last() == TaskActionModel::Report
            &&& asked(actions) == bodies_of(file_ids)
            &&& saves(actions) == texts_of(
                crate::config::episode_name(task.config, task.episode),
                files,
            )
        }),
{
    let file_ids = crate::search::wanted_ids(results.data@, task.config.latest_only);
    found_ids_are_not_empty(results.data@, task.config.latest_only);
    let head = seq![
        TaskEvent::Begin,
        TaskEvent::Reply { token_index, status },
        TaskEvent::Search(results),
    ];
    let h1 = head.drop_first();
    let h2 = h1.drop_first();
    let h3 = h2.drop_first();
    assert(h3.len() == 0);
    let s1 = task.step(head[0]);
    let s2 = s1.0.step(head[1]);
    let s3 = s2.0.step(head[2]);
    assert(run(s3.0, h3) == (s3.0, Seq::<TaskActionModel>::empty()));
    assert(run(s2.0, h2).1 =~= seq![s3.1]);
    assert(run(s1.0, h1).1 =~= seq![s2.1, s3.1]);
    assert(run(task, head).1 =~= seq![s1.1, s2.1, s3.1]);
    let actions = run(task, head).1;
    reveal_with_fuel(saves, 4);
    reveal_with_fuel(asked, 4);
    let a1 = actions.drop_first();
    let a2 = a1.drop_first();
    let a3 = a2.drop_first();
    assert(a3.len() == 0);
    assert(saves(actions) =~= Seq::empty());
    assert(asked(a2) =~= seq![crate::request::download_text(file_ids[0])]);
    assert(asked(actions) =~= seq![crate::request::download_text(file_ids[0])]);
    run_in_parts(task, head, events_of(files));
    remaining_files_are_saved(s3.0, files);
    let more = run(s3.0, events_of(files)).1;
    parts_of_actions(actions, more);
    assert((actions + more).last() == more.last());
    assert(bodies_of(file_ids) =~= seq![crate::request::download_text(file_ids[0])] + bodies_of(
        file_ids.skip(1),
    ));
    assert(Seq::empty() + saves(more) =~= saves(more));
}

/// A task begins by asking for its search, at the place of the API that the search names, through
/// its client. If there is no such place, it fails and tells why.
pub proof fn a_task_begins_with_its_search(task: TaskModel)
    requires
        task.stage == TaskStage::Start,
    ensures
        task.accepts(TaskEvent::Begin),
        match crate::url::joined_url(
            task.api,
            crate::config::search_reference(task.config, task.episode),
        ) {
            Ok(url) => task.step(TaskEvent::Begin) == (
                TaskModel { stage: TaskStage::AwaitSearch, ..task },
                TaskActionModel::Send {
                    token_index: task.token_index,
                    request: RequestModel { method: HttpMethod::Get, url, body: None },
                },
            ),
            Err(reason) => task.step(TaskEvent::Begin) == (
                TaskModel { stage: TaskStage::Finished, ..task },
                TaskActionModel::Fail(
                    TaskErrorModel { context: TaskContext::SearchUrl, cause: Some(reason) },
                ),
            ),
        },
{
}

/// A reply is read as what was asked for if it is a success. Any other ends the task, which tells
/// what it asked for, its episode and the status.
pub proof fn replies_are_read_as_what_was_asked_for(
    task: TaskModel,
    token_index: TokenIndex,
    status: Status,
)
    requires
        task.well_formed(),
        task.stage == TaskStage::AwaitSearch || task.stage == TaskStage::AwaitLink || task.stage
            == TaskStage::AwaitFile,
    ensures
        ({
            let (next, action) = task.step(TaskEvent::Reply { token_index, status });
            let success = 200 <= status.spec_code() < 300;
            let episode = task.episode;
            &&& next == (TaskModel { token_index, stage: next.stage, ..task })
            &&& success && task.stage == TaskStage::AwaitSearch ==> action is ReadSearch
                && next.stage == TaskStage::ReadSearch
            &&& success && task.stage == TaskStage::AwaitLink ==> action is ReadLink && next.stage
                == TaskStage::ReadLink
            &&& success && task.stage == TaskStage::AwaitFile ==> action is ReadFile && next.stage
                == TaskStage::ReadFile
            &&& !success ==> next.stage == TaskStage::Finished && action is Fail
                && action->Fail_0.cause is None
            &&& !success && task.stage == TaskStage::AwaitSearch ==> action->Fail_0.context == (
            TaskContext::SearchStatus { episode, status })
            &&& !success && task.stage == TaskStage::AwaitLink ==> action->Fail_0.context == (
            TaskContext::LinkStatus { episode, status })
            &&& !success && task.stage == TaskStage::AwaitFile ==> action->Fail_0.context == (
            TaskContext::FileStatus { episode, file_id: task.file_ids[task.saved as int], status })
        }),
{
}

/// A search that found files makes the task ask for the link of the first of them, where the API
/// hands out links, and through its client; one that found none ends the task, which names its
/// episode.
pub proof fn a_search_is_followed_up(task: TaskModel, results: SearchResultsResponse)
    requires
        task.well_formed(),
        task.stage == TaskStage::ReadSearch,
    ensures
        ({
            let (next, action) = task.step(TaskEvent::Search(results));
            let ids = crate::search::wanted_ids(results.data@, task.config.latest_only);
            let found = exists|i: int|
                0 <= i < results.data@.len() && (#[trigger] results.data@[i]).attributes.files@.len()
                    > 0;
            &&& found ==> {
                &&& ids.len() > 0
                &&& next == (TaskModel { file_ids: ids, saved: 0, stage: next.stage, ..task })
                &&& match crate::url::joined_url(task.api, "download"@) {
                    Ok(url) => {
                        &&& next.stage == TaskStage::AwaitLink
                        &&& action == (TaskActionModel::Send {
                            token_index: task.token_index,
                            request: RequestModel {
                                method: HttpMethod::Post,
                                url,
                                body: Some(crate::request::download_text(ids[0])),
                            },
                        })
                    },
                    Err(reason) => {
                        &&& next.stage == TaskStage::Finished
                        &&& action == (TaskActionModel::Fail(
                            TaskErrorModel { context: TaskContext::LinkUrl, cause: Some(reason) },
                        ))
                    },
                }
            }
            &&& !found ==> next == (TaskModel { stage: TaskStage::Finished, ..task }) && action == (
            TaskActionModel::Fail(
                TaskErrorModel {
                    context: TaskContext::SearchEmpty { episode: task.episode },
                    cause: Some(
                        "No subtitles found for episode "@ + crate::text::decimal(
                            task.episode as nat,
                        ),
                    ),
                },
            ))
        }),
{
    crate::search::something_to_download(results.data@);
    found_ids_are_not_empty(results.data@, task.config.latest_only);
}

/// A link is followed through the client that it came through, and its extension is kept for the
/// file. One that is no URL ends the task, which tells why.
pub proof fn links_are_followed(task: TaskModel, reply: DownloadResponse)
    requires
        task.well_formed(),
        task.stage == TaskStage::ReadLink,
    ensures
        ({
            let (next, action) = task.step(TaskEvent::Link(reply));
            match crate::url::parsed_url(reply.link@) {
                Ok(url) => {
                    &&& next == (TaskModel {
                        extension: crate::download::link_extension(reply.link@),
                        stage: TaskStage::AwaitFile,
                        ..task
                    })
                    &&& action == (TaskActionModel::Send {
                        token_index: task.token_index,
                        request: RequestModel { method: HttpMethod::Get, url, body: None },
                    })
                },
                Err(reason) => {
                    &&& next == (TaskModel { stage: TaskStage::Finished, ..task })
                    &&& action == (TaskActionModel::Fail(
                        TaskErrorModel { context: TaskContext::LinkTarget, cause: Some(reason) },
                    ))
                },
            }
        }),
{
}

/// A file is saved as it came, under the name of the episode and with the extension of its link, and
/// then the task turns to the next file, or reports if it was the last.
pub proof fn files_are_saved_as_they_came(task: TaskModel, text: String)
    requires
        task.well_formed(),
    ensures
        task.stage == TaskStage::ReadFile ==> task.step(TaskEvent::File(text)) == (
            TaskModel { stage: TaskStage::Saving, ..task },
            TaskActionModel::Save {
                file_name: crate::config::episode_name(task.config, task.episode),
                extension: task.extension,
                text: text@,
            },
        ),
        task.stage == TaskStage::Saving ==> {
            let (next, action) = task.step(TaskEvent::Saved);
            &&& next == (TaskModel { saved: task.saved + 1, stage: next.stage, ..task })
            &&& task.saved + 1 == task.file_ids.len() ==> action is Report && next.stage
                == TaskStage::Finished
            &&& task.saved + 1 < task.file_ids.len() ==> match crate::url::joined_url(task.api, "download"@) {
                Ok(url) => {
                    &&& next.stage == TaskStage::AwaitLink
                    &&& action == (TaskActionModel::Send {
                        token_index: task.token_index,
                        request: RequestModel {
                            method: HttpMethod::Post,
                            url,
                            body: Some(crate::request::download_text(task.file_ids[task.saved as int + 1])),
                        },
                    })
                },
                Err(reason) => {
                    &&& next.stage == TaskStage::Finished
                    &&& action == (TaskActionModel::Fail(
                        TaskErrorModel { context: TaskContext::LinkUrl, cause: Some(reason) },
                    ))
                },
            }
        },
{
}

/// A fault ends the task, which tells what it was doing, for which episode and, once it is at work
/// on a file, for which file.
pub proof fn faults_tell_what_was_being_done(task: TaskModel, fault: TaskFault)
    requires
        task.well_formed(),
        task.accepts(TaskEvent::Fault(fault)),
    ensures
        ({
            let (next, action) = task.step(TaskEvent::Fault(fault));
            let episode = task.episode;
            let file_id = task.file_ids[task.saved as int];
            let context = action->Fail_0.context;
            &&& next == (TaskModel { stage: TaskStage::Finished, ..task })
            &&& action is Fail
            &&& action->Fail_0.cause is None
            &&& task.stage == TaskStage::AwaitSearch && fault == TaskFault::Send ==> context
                == TaskContext::SearchSend
            &&& task.stage == TaskStage::AwaitSearch && fault == TaskFault::Receive ==> context == (
            TaskContext::SearchReceive { episode })
            &&& task.stage == TaskStage::ReadSearch ==> context == (TaskContext::SearchBody {
                episode,
            })
            &&& task.stage == TaskStage::AwaitLink && fault == TaskFault::Send ==> context == (
            TaskContext::LinkSend { episode, file_id })
            &&& task.stage == TaskStage::AwaitLink && fault == TaskFault::Receive ==> context == (
            TaskContext::LinkReceive { episode, file_id })
            &&& task.stage == TaskStage::ReadLink ==> context == (TaskContext::LinkBody {
                episode,
                file_id,
            })
            &&& task.stage == TaskStage::AwaitFile && fault == TaskFault::Send ==> context == (
            TaskContext::FileSend { episode, file_id })
            &&& task.stage == TaskStage::AwaitFile && fault == TaskFault::Receive ==> context == (
            TaskContext::FileReceive { episode, file_id })
            &&& task.stage == TaskStage::ReadFile ==> context == (TaskContext::FileBody {
                episode,
                file_id,
            })
            &&& task.stage == TaskStage::Saving && fault == TaskFault::Create ==> context == (
            TaskContext::FileCreate { episode, file_id })
            &&& task.stage == TaskStage::Saving && fault == TaskFault::Write ==> context == (
            TaskContext::FileWrite { episode, file_id })
        }),
{
}

/// A task accepts whatever can come of what it asked for: any reply to a request or that it could
/// not be handed on or answered, the body that it wants to read or that it cannot be read, and that
/// a file was saved or could not be created or written.
pub proof fn every_outcome_is_accepted(
    task: TaskModel,
    event: TaskEvent,
    token_index: TokenIndex,
    status: Status,
    results: SearchResultsResponse,
    reply: DownloadResponse,
    text: String,
)
    requires
        task.well_formed(),
        task.accepts(event),
    ensures
        ({
            let (next, action) = task.step(event);
            &&& action is Send ==> next.accepts(TaskEvent::Reply { token_index, status })
                && next.accepts(TaskEvent::Fault(TaskFault::Send)) && next.accepts(
                TaskEvent::Fault(TaskFault::Receive),
            )
            &&& action is ReadSearch ==> next.accepts(TaskEvent::Search(results)) && next.accepts(
                TaskEvent::Fault(TaskFault::Body),
            )
            &&& action is ReadLink ==> next.accepts(TaskEvent::Link(reply)) && next.accepts(
                TaskEvent::Fault(TaskFault::Body),
            )
            &&& action is ReadFile ==> next.accepts(TaskEvent::File(text)) && next.accepts(
                TaskEvent::Fault(TaskFault::Body),
            )
            &&& action is Save ==> next.accepts(TaskEvent::Saved) && next.accepts(
                TaskEvent::Fault(TaskFault::Create),
            ) && next.accepts(TaskEvent::Fault(TaskFault::Write))
        }),
{
}

/// A place that is given is used as it is, whatever the stage of the task: for the search, for the
/// link of the file that the task is at work on, and for the file behind a link.
pub proof fn given_places_are_used(task: TaskModel, url: reqwest::Url, link: Seq<char>)
    ensures
        task.searches(Ok(url)).1 == (TaskActionModel::Send {
            token_index: task.token_index,
            request: RequestModel { method: HttpMethod::Get, url, body: None },
        }),
        task.asks_link(Ok(url)) == (
            TaskModel { stage: TaskStage::AwaitLink, ..task },
            TaskActionModel::Send {
                token_index: task.token_index,
                request: RequestModel {
                    method: HttpMethod::Post,
                    url,
                    body: Some(crate::request::download_text(task.file_ids[task.saved as int])),
                },
            },
        ),
        task.follows(link, Ok(url)) == (
            TaskModel {
                extension: crate::download::link_extension(link),
                stage: TaskStage::AwaitFile,
                ..task
            },
            TaskActionModel::Send {
                token_index: task.token_index,
                request: RequestModel { method: HttpMethod::Get, url, body: None },
            },
        ),
{
}

} // verus!
