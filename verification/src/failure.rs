//! What can go wrong with an episode, in words.

use vstd::prelude::*;

use crate::status::Status;
use crate::text::append_decimal;

verus! {

/// What an episode task was doing when it failed.
#[derive(Clone, Copy, Debug, PartialEq, Eq, Structural)]
pub enum TaskContext {
    SearchUrl,
    SearchSend,
    SearchReceive { episode: u32 },
    SearchStatus { episode: u32, status: Status },
    SearchBody { episode: u32 },
    SearchEmpty { episode: u32 },
    LinkUrl,
    LinkSend { episode: u32, file_id: u32 },
    LinkReceive { episode: u32, file_id: u32 },
    LinkStatus { episode: u32, status: Status },
    LinkBody { episode: u32, file_id: u32 },
    LinkTarget,
    FileSend { episode: u32, file_id: u32 },
    FileReceive { episode: u32, file_id: u32 },
    FileStatus { episode: u32, file_id: u32, status: Status },
    FileBody { episode: u32, file_id: u32 },
    FileCreate { episode: u32, file_id: u32 },
    FileWrite { episode: u32, file_id: u32 },
    /// The end of the task could not be told.
    EndMark { episode: u32 },
    /// The task did not run to its end.
    Interrupted { episode: u32 },
    /// The task ran to its end and failed.
    Ended { episode: u32 },
}

/// The failure of an episode task.
#[derive(Debug)]
pub struct TaskError {
    pub context: TaskContext,
    /// What caused the failure, as far as the task itself knows.
    pub cause: Option<String>,
}

/// The failure of an episode task, with texts in place of strings.
pub struct TaskErrorModel {
    pub context: TaskContext,
    pub cause: Option<Seq<char>>,
}

impl View for TaskError {
    type V = TaskErrorModel;

    open spec fn view(&self) -> TaskErrorModel {
        TaskErrorModel {
            context: self.context,
            cause: match self.cause {
                Some(cause) => Some(cause@),
                None => None,
            },
        }
    }
}

/// Which episode a text is about.
pub open spec fn for_episode(episode: u32) -> Seq<char> {
    " for episode "@ + crate::text::decimal(episode as nat)
}

/// Which file of which episode a text is about.
pub open spec fn for_file(episode: u32, file_id: u32) -> Seq<char> {
    for_episode(episode) + " and file id "@ + crate::text::decimal(file_id as nat)
}

fn with_episode(head: &str, episode: u32) -> (text: String)
    ensures
        text@ == head@ + for_episode(episode),
{
    let mut text = head.to_owned();
    text.append(" for episode ");
    append_decimal(&mut text, episode);
    assert(text@ =~= head@ + for_episode(episode));
    text
}

fn with_file(head: &str, episode: u32, file_id: u32) -> (text: String)
    ensures
        text@ == head@ + for_file(episode, file_id),
{
    let mut text = with_episode(head, episode);
    text.append(" and file id ");
    append_decimal(&mut text, file_id);
    assert(text@ =~= head@ + for_file(episode, file_id));
    text
}

fn joined(line: &str, tail: &str) -> (text: String)
    ensures
        text@ == line@ + tail@,
{
    let mut text = line.to_owned();
    text.append(tail);
    text
}

impl TaskContext {
    /// The status that the failure tells of.
    pub open spec fn spec_status(self) -> Option<Status> {
        match self {
            TaskContext::SearchStatus { status, .. } => Some(status),
            TaskContext::LinkStatus { status, .. } => Some(status),
            TaskContext::FileStatus { status, .. } => Some(status),
            _ => None,
        }
    }

    /// The text of the failure, given the text of its status.
    pub open spec fn text_with(self, line: Seq<char>) -> Seq<char> {
        match self {
            TaskContext::SearchUrl => "Creating the /subtitles url"@,
            TaskContext::SearchSend => "Preparing a request for /subtitles"@,
            TaskContext::SearchReceive { episode } => "Processing a response from /subtitles"@
                + for_episode(episode),
            TaskContext::SearchStatus { episode, .. } => line + " for /subtitles"@ + for_episode(
                episode,
            ),
            TaskContext::SearchBody { episode } => "Processing the list of subtitles"@
                + for_episode(episode),
            TaskContext::SearchEmpty { episode } => "Enumerating subtitles"@ + for_episode(episode),
            TaskContext::LinkUrl => "Creating the /download url"@,
            TaskContext::LinkSend { episode, file_id } => "Preparing a request for /download"@
                + for_file(episode, file_id),
            TaskContext::LinkReceive { episode, file_id } => "Receiving a response from /download"@
                + for_file(episode, file_id),
            TaskContext::LinkStatus { episode, .. } => line + " for /download"@ + for_episode(
                episode,
            ),
            TaskContext::LinkBody { episode, file_id } => "Processing a response from /download"@
                + for_file(episode, file_id),
            TaskContext::LinkTarget => "Preparing the download"@,
            TaskContext::FileSend { episode, file_id } =>
                "Preparing a request for a temporary download link"@ + for_file(episode, file_id),
            TaskContext::FileReceive { episode, file_id } =>
                "Receiving a response for a temporary download link"@ + for_file(episode, file_id),
            TaskContext::FileStatus { episode, file_id, .. } => line
                + " for a temporary download link"@ + for_file(episode, file_id),
            TaskContext::FileBody { episode, file_id } =>
                "Processing response for a temporary download link"@ + for_file(episode, file_id),
            TaskContext::FileCreate { episode, file_id } => "Creating subtitle file"@ + for_file(
                episode,
                file_id,
            ),
            TaskContext::FileWrite { episode, file_id } => "Writing subtitle file"@ + for_file(
                episode,
                file_id,
            ),
            TaskContext::EndMark { episode } => "Wrapping up subtitle downloading"@ + for_episode(
                episode,
            ),
            TaskContext::Interrupted { episode } => "Finishing a subtitle task"@ + for_episode(
                episode,
            ),
            TaskContext::Ended { episode } => "After finishing a subtitle task"@ + for_episode(
                episode,
            ),
        }
    }

    /// The text of the failure, given the text of its status.
    pub fn message_with(&self, line: &str) -> (text: String)
        ensures
            text@ == self.text_with(line@),
    {
        match *self {
            TaskContext::SearchUrl => "Creating the /subtitles url".to_owned(),
            TaskContext::SearchSend => "Preparing a request for /subtitles".to_owned(),
            TaskContext::SearchReceive { episode } => with_episode(
                "Processing a response from /subtitles",
                episode,
            ),
            TaskContext::SearchStatus { episode, .. } => with_episode(
                joined(line, " for /subtitles").as_str(),
                episode,
            ),
            TaskContext::SearchBody { episode } => with_episode(
                "Processing the list of subtitles",
                episode,
            ),
            TaskContext::SearchEmpty { episode } => with_episode("Enumerating subtitles", episode),
            TaskContext::LinkUrl => "Creating the /download url".to_owned(),
            TaskContext::LinkSend { episode, file_id } => with_file(
                "Preparing a request for /download",
                episode,
                file_id,
            ),
            TaskContext::LinkReceive { episode, file_id } => with_file(
                "Receiving a response from /download",
                episode,
                file_id,
            ),
            TaskContext::LinkStatus { episode, .. } => with_episode(
                joined(line, " for /download").as_str(),
                episode,
            ),
            TaskContext::LinkBody { episode, file_id } => with_file(
                "Processing a response from /download",
                episode,
                file_id,
            ),
            TaskContext::LinkTarget => "Preparing the download".to_owned(),
            TaskContext::FileSend { episode, file_id } => with_file(
                "Preparing a request for a temporary download link",
                episode,
                file_id,
            ),
            TaskContext::FileReceive { episode, file_id } => with_file(
                "Receiving a response for a temporary download link",
                episode,
                file_id,
            ),
            TaskContext::FileStatus { episode, file_id, .. } => with_file(
                joined(line, " for a temporary download link").as_str(),
                episode,
                file_id,
            ),
            TaskContext::FileBody { episode, file_id } => with_file(
                "Processing response for a temporary download link",
                episode,
                file_id,
            ),
            TaskContext::FileCreate { episode, file_id } => with_file(
                "Creating subtitle file",
                episode,
                file_id,
            ),
            TaskContext::FileWrite { episode, file_id } => with_file(
                "Writing subtitle file",
                episode,
                file_id,
            ),
            TaskContext::EndMark { episode } => with_episode(
                "Wrapping up subtitle downloading",
                episode,
            ),
            TaskContext::Interrupted { episode } => with_episode(
                "Finishing a subtitle task",
                episode,
            ),
            TaskContext::Ended { episode } => with_episode(
                "After finishing a subtitle task",
                episode,
            ),
        }
    }

    /// The text of the failure.
    pub fn message(&self) -> (text: String)
        ensures
            text@ == self.text_with(
                match self.spec_status() {
                    Some(status) => status.line(),
                    None => ""@,
                },
            ),
    {
        match *self {
            TaskContext::SearchStatus { status, .. } => self.message_with(status.text().as_str()),
            TaskContext::LinkStatus { status, .. } => self.message_with(status.text().as_str()),
            TaskContext::FileStatus { status, .. } => self.message_with(status.text().as_str()),
            _ => self.message_with(""),
        }
    }
}

/// A failure of an episode names the episode at the end, and one with a status starts with the
/// status line; the words between are the same for all episodes and statuses.
pub proof fn failures_name_their_episode(
    a: u32,
    b: u32,
    a_status: Status,
    b_status: Status,
    a_line: Seq<char>,
    b_line: Seq<char>,
)
    ensures
        ({
            let da = crate::text::decimal(a as nat);
            let db = crate::text::decimal(b as nat);
            let none = Seq::<char>::empty();
            &&& crate::text::same_words(
                (TaskContext::SearchReceive { episode: a }).text_with(a_line),
                none,
                da,
                (TaskContext::SearchReceive { episode: b }).text_with(b_line),
                none,
                db,
            )
            &&& crate::text::same_words(
                (TaskContext::SearchBody { episode: a }).text_with(a_line),
                none,
                da,
                (TaskContext::SearchBody { episode: b }).text_with(b_line),
                none,
                db,
            )
            &&& crate::text::same_words(
                (TaskContext::SearchEmpty { episode: a }).text_with(a_line),
                none,
                da,
                (TaskContext::SearchEmpty { episode: b }).text_with(b_line),
                none,
                db,
            )
            &&& crate::text::same_words(
                (TaskContext::EndMark { episode: a }).text_with(a_line),
                none,
                da,
                (TaskContext::EndMark { episode: b }).text_with(b_line),
                none,
                db,
            )
            &&& crate::text::same_words(
                (TaskContext::Interrupted { episode: a }).text_with(a_line),
                none,
                da,
                (TaskContext::Interrupted { episode: b }).text_with(b_line),
                none,
                db,
            )
            &&& crate::text::same_words(
                (TaskContext::Ended { episode: a }).text_with(a_line),
                none,
                da,
                (TaskContext::Ended { episode: b }).text_with(b_line),
                none,
                db,
            )
            &&& crate::text::same_words(
                (TaskContext::SearchStatus { episode: a, status: a_status }).text_with(a_line),
                a_line,
                da,
                (TaskContext::SearchStatus { episode: b, status: b_status }).text_with(b_line),
                b_line,
                db,
            )
            &&& (TaskContext::SearchStatus { episode: a, status: a_status }).spec_status() == Some(
                a_status,
            )
            &&& crate::text::same_words(
                (TaskContext::LinkStatus { episode: a, status: a_status }).text_with(a_line),
                a_line,
                da,
                (TaskContext::LinkStatus { episode: b, status: b_status }).text_with(b_line),
                b_line,
                db,
            )
            &&& (TaskContext::LinkStatus { episode: a, status: a_status }).spec_status() == Some(
                a_status,
            )
        }),
{
    let da = crate::text::decimal(a as nat);
    let db = crate::text::decimal(b as nat);
    let none = Seq::<char>::empty();
    words_before_episode("Processing a response from /subtitles"@, none, a, none, b);
    words_before_episode("Processing the list of subtitles"@, none, a, none, b);
    words_before_episode("Enumerating subtitles"@, none, a, none, b);
    words_before_episode("Wrapping up subtitle downloading"@, none, a, none, b);
    words_before_episode("Finishing a subtitle task"@, none, a, none, b);
    words_before_episode("After finishing a subtitle task"@, none, a, none, b);
    words_before_episode(" for /subtitles"@, a_line, a, b_line, b);
    words_before_episode(" for /download"@, a_line, a, b_line, b);
    assert(none + "Processing a response from /subtitles"@ =~= "Processing a response from /subtitles"@);
    assert(none + "Processing the list of subtitles"@ =~= "Processing the list of subtitles"@);
    assert(none + "Enumerating subtitles"@ =~= "Enumerating subtitles"@);
    assert(none + "Wrapping up subtitle downloading"@ =~= "Wrapping up subtitle downloading"@);
    assert(none + "Finishing a subtitle task"@ =~= "Finishing a subtitle task"@);
    assert(none + "After finishing a subtitle task"@ =~= "After finishing a subtitle task"@);
}

proof fn words_before_episode(
    words: Seq<char>,
    a_front: Seq<char>,
    a: u32,
    b_front: Seq<char>,
    b: u32,
)
    ensures
        crate::text::same_words(
            a_front + words + for_episode(a),
            a_front,
            crate::text::decimal(a as nat),
            b_front + words + for_episode(b),
            b_front,
            crate::text::decimal(b as nat),
        ),
{
    let da = crate::text::decimal(a as nat);
    let db = crate::text::decimal(b as nat);
    let all = words + " for episode "@;
    crate::text::words_of_sums(all, a_front, da, b_front, db);
    assert(a_front + words + for_episode(a) =~= a_front + all + da);
    assert(b_front + words + for_episode(b) =~= b_front + all + db);
}

/// A failure of a file names the episode and the file id at the end, and one with a status starts
/// with the status line; the words between are the same for all files and statuses.
pub proof fn failures_name_their_file(
    a: (u32, u32),
    b: (u32, u32),
    a_status: Status,
    b_status: Status,
    a_line: Seq<char>,
    b_line: Seq<char>,
)
    ensures
        ({
            let da = crate::text::decimal(a.0 as nat) + " and file id "@ + crate::text::decimal(
                a.1 as nat,
            );
            let db = crate::text::decimal(b.0 as nat) + " and file id "@ + crate::text::decimal(
                b.1 as nat,
            );
            let none = Seq::<char>::empty();
            &&& crate::text::same_words(
                (TaskContext::LinkSend { episode: a.0, file_id: a.1 }).text_with(a_line),
                none,
                da,
                (TaskContext::LinkSend { episode: b.0, file_id: b.1 }).text_with(b_line),
                none,
                db,
            )
            &&& crate::text::same_words(
                (TaskContext::LinkReceive { episode: a.0, file_id: a.1 }).text_with(a_line),
                none,
                da,
                (TaskContext::LinkReceive { episode: b.0, file_id: b.1 }).text_with(b_line),
                none,
                db,
            )
            &&& crate::text::same_words(
                (TaskContext::LinkBody { episode: a.0, file_id: a.1 }).text_with(a_line),
                none,
                da,
                (TaskContext::LinkBody { episode: b.0, file_id: b.1 }).text_with(b_line),
                none,
                db,
            )
            &&& crate::text::same_words(
                (TaskContext::FileSend { episode: a.0, file_id: a.1 }).text_with(a_line),
                none,
                da,
                (TaskContext::FileSend { episode: b.0, file_id: b.1 }).text_with(b_line),
                none,
                db,
            )
            &&& crate::text::same_words(
                (TaskContext::FileReceive { episode: a.0, file_id: a.1 }).text_with(a_line),
                none,
                da,
                (TaskContext::FileReceive { episode: b.0, file_id: b.1 }).text_with(b_line),
                none,
                db,
            )
            &&& crate::text::same_words(
                (TaskContext::FileBody { episode: a.0, file_id: a.1 }).text_with(a_line),
                none,
                da,
                (TaskContext::FileBody { episode: b.0, file_id: b.1 }).text_with(b_line),
                none,
                db,
            )
            &&& crate::text::same_words(
                (TaskContext::FileCreate { episode: a.0, file_id: a.1 }).text_with(a_line),
                none,
                da,
                (TaskContext::FileCreate { episode: b.0, file_id: b.1 }).text_with(b_line),
                none,
                db,
            )
            &&& crate::text::same_words(
                (TaskContext::FileWrite { episode: a.0, file_id: a.1 }).text_with(a_line),
                none,
                da,
                (TaskContext::FileWrite { episode: b.0, file_id: b.1 }).text_with(b_line),
                none,
                db,
            )
            &&& crate::text::same_words(
                (TaskContext::FileStatus { episode: a.0, file_id: a.1, status: a_status }).text_with(
                    a_line,
                ),
                a_line,
                da,
                (TaskContext::FileStatus { episode: b.0, file_id: b.1, status: b_status }).text_with(
                    b_line,
                ),
                b_line,
                db,
            )
            &&& (TaskContext::FileStatus {
                episode: a.0,
                file_id: a.1,
                status: a_status,
            }).spec_status() == Some(a_status)
        }),
{
    let none = Seq::<char>::empty();
    words_before_file("Preparing a request for /download"@, none, a, none, b);
    words_before_file("Receiving a response from /download"@, none, a, none, b);
    words_before_file("Processing a response from /download"@, none, a, none, b);
    words_before_file("Preparing a request for a temporary download link"@, none, a, none, b);
    words_before_file("Receiving a response for a temporary download link"@, none, a, none, b);
    words_before_file("Processing response for a temporary download link"@, none, a, none, b);
    words_before_file("Creating subtitle file"@, none, a, none, b);
    words_before_file("Writing subtitle file"@, none, a, none, b);
    words_before_file(" for a temporary download link"@, a_line, a, b_line, b);
    assert(none + "Preparing a request for /download"@ =~= "Preparing a request for /download"@);
    assert(none + "Receiving a response from /download"@ =~= "Receiving a response from /download"@);
    assert(none + "Processing a response from /download"@ =~= "Processing a response from /download"@);
    assert(none + "Preparing a request for a temporary download link"@ =~= "Preparing a request for a temporary download link"@);
    assert(none + "Receiving a response for a temporary download link"@ =~= "Receiving a response for a temporary download link"@);
    assert(none + "Processing response for a temporary download link"@ =~= "Processing response for a temporary download link"@);
    assert(none + "Creating subtitle file"@ =~= "Creating subtitle file"@);
    assert(none + "Writing subtitle file"@ =~= "Writing subtitle file"@);
}

proof fn words_before_file(
    words: Seq<char>,
    a_front: Seq<char>,
    a: (u32, u32),
    b_front: Seq<char>,
    b: (u32, u32),
)
    ensures
        crate::text::same_words(
            a_front + words + for_file(a.0, a.1),
            a_front,
            crate::text::decimal(a.0 as nat) + " and file id "@ + crate::text::decimal(a.1 as nat),
            b_front + words + for_file(b.0, b.1),
            b_front,
            crate::text::decimal(b.0 as nat) + " and file id "@ + crate::text::decimal(b.1 as nat),
        ),
{
    let da = crate::text::decimal(a.0 as nat) + " and file id "@ + crate::text::decimal(a.1 as nat);
    let db = crate::text::decimal(b.0 as nat) + " and file id "@ + crate::text::decimal(b.1 as nat);
    let all = words + " for episode "@;
    crate::text::words_of_sums(all, a_front, da, b_front, db);
    assert(a_front + words + for_file(a.0, a.1) =~= a_front + all + da);
    assert(b_front + words + for_file(b.0, b.1) =~= b_front + all + db);
}

/// A failure that tells of no status is told in the same words whatever the status line.
pub proof fn failures_without_a_status(context: TaskContext, a: Seq<char>, b: Seq<char>)
    requires
        !(context is SearchStatus) && !(context is LinkStatus) && !(context is FileStatus),
    ensures
        context.text_with(a) == context.text_with(b),
        context.spec_status() is None,
{
}

/// What a failure tells is what it holds.
pub proof fn failures_tell_what_they_hold(error: TaskError)
    ensures
        error@.context == error.context,
        error@.cause is Some <==> error.cause is Some,
        error.cause matches Some(cause) ==> error@.cause == Some(cause@),
{
}

} // verus!
