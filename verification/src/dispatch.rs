//! The one place through which the requests of all episode tasks pass.
//!
//! Requests are made one at a time, with a pause after each reply. A request that a client refuses
//! is passed on to the next client, until one accepts it or all have refused it.

use vstd::prelude::*;

use crate::request::{HttpMethod, TaskIndex, TokenIndex};
use crate::status::{HttpStatus, Status};

verus! {

/// The pause after a reply, in milliseconds.
pub const REPLY_PAUSE_MS: u64 = 200;

/// The pause after a reply from a busy server, in milliseconds.
pub const BUSY_PAUSE_MS: u64 = 1000;

/// No account could log in.
#[derive(Clone, Copy, Debug, PartialEq, Eq, Structural)]
pub struct NoClients {}

impl NoClients {
    /// The text of the error.
    pub fn message(&self) -> (text: String)
        ensures
            text@ == "Fatal error: login failed."@,
    {
        "Fatal error: login failed.".to_owned()
    }
}

/// A request that is being made.
#[derive(Clone, Copy, Debug, PartialEq, Eq, Structural)]
pub struct Pending {
    /// The task that waits for the reply.
    pub task: TaskIndex,
    /// The client that makes the request.
    pub token: TokenIndex,
    /// The client that was asked first.
    pub origin: TokenIndex,
}

/// A fault inside the program.
#[derive(Clone, Copy, Debug, PartialEq, Eq, Structural)]
pub enum DispatchFault {
    /// There is no client for a token.
    UnknownToken,
    /// There is no task for a reply.
    UnknownTask,
}

impl DispatchFault {
    /// The text of the fault.
    pub open spec fn spec_message(self) -> Seq<char> {
        match self {
            DispatchFault::UnknownToken => "Internal error on client.get(token_index)"@,
            DispatchFault::UnknownTask => "Connecting to an async task"@,
        }
    }

    /// The text of the fault.
    pub fn message(&self) -> (text: String)
        ensures
            text@ == self.spec_message(),
    {
        match self {
            DispatchFault::UnknownToken => "Internal error on client.get(token_index)".to_owned(),
            DispatchFault::UnknownTask => "Connecting to an async task".to_owned(),
        }
    }
}

/// What to do next.
#[derive(Clone, Copy, Debug, PartialEq, Eq, Structural)]
pub enum DispatchStep {
    /// Take the next message.
    Receive,
    /// Make the pending request through a client, after a pause.
    Execute { token: TokenIndex, pause_ms: u64 },
    /// Hand the reply to a task, with the client that it came through, and pause.
    Deliver { task: TaskIndex, token: TokenIndex, pause_ms: u64 },
    /// Stop, and pause before anything else is asked of the service.
    Fail { fault: DispatchFault, pause_ms: u64 },
}

/// What the dispatcher knows.
pub struct DispatchModel {
    /// How many tasks there are.
    pub tasks: nat,
    /// How many clients there are.
    pub clients: nat,
    /// How many tasks have ended.
    pub finished: nat,
    /// The request that is being made.
    pub pending: Option<Pending>,
}

/// The client after a client, in turn.
pub open spec fn next_token(token: TokenIndex, clients: nat) -> TokenIndex {
    TokenIndex {
        token_index: (if token.token_index + 1 == clients {
            0
        } else {
            token.token_index + 1
        }) as usize,
    }
}

impl DispatchModel {
    /// There is a client, and a pending request goes through one.
    pub open spec fn well_formed(self) -> bool {
        &&& 0 < self.clients <= usize::MAX
        &&& self.finished <= self.tasks <= usize::MAX
        &&& self.pending matches Some(p) ==> {
            &&& p.token.token_index < self.clients
            &&& p.origin.token_index < self.clients
        }
    }

    /// Whether all tasks have ended.
    pub open spec fn is_done(self) -> bool {
        self.finished >= self.tasks
    }

    /// Takes in a message of a task.
    pub open spec fn after_message(
        self,
        task: TaskIndex,
        token: TokenIndex,
        method: HttpMethod,
    ) -> (DispatchModel, DispatchStep) {
        if method == HttpMethod::Delete {
            (DispatchModel { finished: self.finished + 1, ..self }, DispatchStep::Receive)
        } else if token.token_index < self.clients {
            (
                DispatchModel { pending: Some(Pending { task, token, origin: token }), ..self },
                DispatchStep::Execute { token, pause_ms: 0 },
            )
        } else {
            (self, DispatchStep::Fail { fault: DispatchFault::UnknownToken, pause_ms: 0 })
        }
    }

    /// Hands the reply to the pending request to its task, through the given client.
    pub open spec fn delivered(self, token: TokenIndex) -> (DispatchModel, DispatchStep) {
        let task = self.pending->0.task;
        (
            DispatchModel { pending: None, ..self },
            if task.task_index < self.tasks {
                DispatchStep::Deliver { task, token, pause_ms: REPLY_PAUSE_MS }
            } else {
                DispatchStep::Fail { fault: DispatchFault::UnknownTask, pause_ms: REPLY_PAUSE_MS }
            },
        )
    }

    /// Takes in the status code of the reply to the pending request.
    pub open spec fn after_code(self, code: int) -> (DispatchModel, DispatchStep) {
        let p = self.pending->0;
        let next = next_token(p.token, self.clients);
        if crate::status::is_busy_code(code) {
            (self, DispatchStep::Execute { token: p.token, pause_ms: BUSY_PAUSE_MS })
        } else if crate::status::is_client_error_code(code) {
            if next != p.origin {
                (
                    DispatchModel { pending: Some(Pending { token: next, ..p }), ..self },
                    DispatchStep::Execute { token: next, pause_ms: REPLY_PAUSE_MS },
                )
            } else {
                self.delivered(next)
            }
        } else {
            self.delivered(p.token)
        }
    }
}

/// Passes requests on to clients, and replies on to tasks.
#[derive(Debug)]
pub struct Dispatcher {
    tasks: usize,
    clients: usize,
    finished: usize,
    pending: Option<Pending>,
}

impl View for Dispatcher {
    type V = DispatchModel;

    closed spec fn view(&self) -> DispatchModel {
        DispatchModel {
            tasks: self.tasks as nat,
            clients: self.clients as nat,
            finished: self.finished as nat,
            pending: self.pending,
        }
    }
}

impl Dispatcher {
    /// Starts with the given numbers of tasks and clients. There must be a client.
    pub fn new(tasks: usize, clients: usize) -> (r: Result<Dispatcher, NoClients>)
        ensures
            r is Err <==> clients == 0,
            r matches Ok(dispatcher) ==> {
                &&& dispatcher@ == (DispatchModel {
                    tasks: tasks as nat,
                    clients: clients as nat,
                    finished: 0,
                    pending: None,
                })
                &&& dispatcher@.well_formed()
            },
    {
        if clients == 0 {
            Err(NoClients {  })
        } else {
            Ok(Dispatcher { tasks, clients, finished: 0, pending: None })
        }
    }

    /// Whether all tasks have ended.
    pub fn is_done(&self) -> (b: bool)
        ensures
            b == self@.is_done(),
    {
        self.finished >= self.tasks
    }

    /// Takes in a message of a task.
    pub fn on_message(&mut self, task: TaskIndex, token: TokenIndex, method: HttpMethod) -> (step:
        DispatchStep)
        requires
            old(self)@.well_formed(),
            !old(self)@.is_done(),
            old(self)@.pending is None,
        ensures
            (final(self)@, step) == old(self)@.after_message(task, token, method),
            final(self)@.well_formed(),
    {
        match method {
            HttpMethod::Delete => {
                self.finished = self.finished + 1;
                DispatchStep::Receive
            },
            _ => {
                if token.token_index < self.clients {
                    self.pending = Some(Pending { task, token, origin: token });
                    DispatchStep::Execute { token, pause_ms: 0 }
                } else {
                    DispatchStep::Fail { fault: DispatchFault::UnknownToken, pause_ms: 0 }
                }
            },
        }
    }

    fn deliver(&mut self, task: TaskIndex, token: TokenIndex) -> (step: DispatchStep)
        requires
            old(self)@.well_formed(),
            old(self)@.pending is Some,
            task == old(self)@.pending->0.task,
        ensures
            (final(self)@, step) == old(self)@.delivered(token),
            final(self)@.well_formed(),
    {
        self.pending = None;
        if task.task_index < self.tasks {
            DispatchStep::Deliver { task, token, pause_ms: REPLY_PAUSE_MS }
        } else {
            DispatchStep::Fail { fault: DispatchFault::UnknownTask, pause_ms: REPLY_PAUSE_MS }
        }
    }

    /// Takes in the status of the reply to the pending request.
    pub fn on_status(&mut self, status: Status) -> (step: DispatchStep)
        requires
            old(self)@.well_formed(),
            old(self)@.pending is Some,
        ensures
            (final(self)@, step) == old(self)@.after_code(status.spec_code() as int),
            final(self)@.well_formed(),
    {
        match self.pending {
            Some(p) => {
                if status.try_again_later() {
                    return DispatchStep::Execute { token: p.token, pause_ms: BUSY_PAUSE_MS };
                }
                if status.is_client_error() {
                    let mut next: usize = p.token.token_index + 1;
                    if next == self.clients {
                        next = 0;
                    }
                    let token = TokenIndex { token_index: next };
                    if token != p.origin {
                        self.pending = Some(Pending { task: p.task, token, origin: p.origin });
                        return DispatchStep::Execute { token, pause_ms: REPLY_PAUSE_MS };
                    }
                    return self.deliver(p.task, token);
                }
                self.deliver(p.task, p.token)
            },
            None => DispatchStep::Receive,
        }
    }
}

/// The client that is `turns` turns after a client.
pub open spec fn token_after(origin: TokenIndex, turns: nat, clients: nat) -> int {
    if origin.token_index + turns < clients {
        origin.token_index + turns
    } else {
        origin.token_index + turns - clients
    }
}

/// The dispatcher after replies with the given codes to one request, as long as none is delivered.
pub open spec fn after_codes(model: DispatchModel, codes: Seq<int>) -> DispatchModel
    decreases codes.len(),
{
    if codes.len() == 0 {
        model
    } else {
        after_codes(model, codes.drop_last()).after_code(codes.last()).0
    }
}

/// Whether a code makes the dispatcher turn to another client.
pub open spec fn is_refusal(code: int) -> bool {
    crate::status::is_client_error_code(code) && !crate::status::is_busy_code(code)
}

/// How many of the given codes are refusals.
pub open spec fn refusals(codes: Seq<int>) -> nat
    decreases codes.len(),
{
    if codes.len() == 0 {
        0
    } else {
        refusals(codes.drop_last()) + (if is_refusal(codes.last()) {
            1nat
        } else {
            0nat
        })
    }
}

/// Whether all of the given codes are of the kinds that the dispatcher reacts to by asking again:
/// refusals and those of a busy server.
pub open spec fn all_unanswered(codes: Seq<int>) -> bool {
    forall|i: int|
        0 <= i < codes.len() ==> is_refusal(#[trigger] codes[i]) || crate::status::is_busy_code(
            codes[i],
        )
}

/// As long as fewer clients have refused a request than there are, no reply to it is delivered,
/// and it is with the client that is as many turns after the first as there were refusals.
pub proof fn refusals_take_turns(model: DispatchModel, codes: Seq<int>)
    requires
        model.well_formed(),
        model.pending is Some,
        model.pending->0.token == model.pending->0.origin,
        all_unanswered(codes),
        refusals(codes) < model.clients,
    ensures
        ({
            let after = after_codes(model, codes);
            let p = model.pending->0;
            &&& after == (DispatchModel { pending: after.pending, ..model })
            &&& after.pending is Some
            &&& after.pending->0.task == p.task
            &&& after.pending->0.origin == p.origin
            &&& after.pending->0.token.token_index == token_after(
                p.origin,
                refusals(codes),
                model.clients,
            )
        }),
    decreases codes.len(),
{
    if codes.len() > 0 {
        let front = codes.drop_last();
        assert(all_unanswered(front)) by {
            assert forall|i: int| 0 <= i < front.len() implies is_refusal(#[trigger] front[i])
                || crate::status::is_busy_code(front[i]) by {
                assert(front[i] == codes[i]);
            }
        }
        refusals_take_turns(model, front);
        assert(is_refusal(codes.last()) || crate::status::is_busy_code(codes.last()));
    }
}

/// A refusal reaches a task exactly when every client has refused the request once: after one
/// refusal less than there are clients, the next refusal is delivered, and after fewer it is not.
pub proof fn refused_by_all(model: DispatchModel, codes: Seq<int>, code: int)
    requires
        model.well_formed(),
        model.pending is Some,
        model.pending->0.token == model.pending->0.origin,
        model.pending->0.task.task_index < model.tasks,
        all_unanswered(codes),
        refusals(codes) < model.clients,
        is_refusal(code),
    ensures
        refusals(codes) + 1 == model.clients ==> after_codes(model, codes).after_code(code).1 == (
        DispatchStep::Deliver {
            task: model.pending->0.task,
            token: model.pending->0.origin,
            pause_ms: REPLY_PAUSE_MS,
        }),
        refusals(codes) + 1 < model.clients ==> after_codes(model, codes).after_code(
            code,
        ).1 is Execute,
{
    refusals_take_turns(model, codes);
}

/// The clients that a request is passed through are all different.
pub proof fn turns_differ(origin: TokenIndex, a: nat, b: nat, clients: nat)
    requires
        origin.token_index < clients,
        a < b < clients,
    ensures
        token_after(origin, a, clients) != token_after(origin, b, clients),
        0 <= token_after(origin, a, clients) < clients,
{
}

/// A busy server is asked again through the same client, after the longer pause, and no task
/// learns of it.
pub proof fn busy_is_waited_out(model: DispatchModel, code: int)
    requires
        model.well_formed(),
        model.pending is Some,
        crate::status::is_busy_code(code),
    ensures
        model.after_code(code) == (
            model,
            DispatchStep::Execute { token: model.pending->0.token, pause_ms: BUSY_PAUSE_MS },
        ),
{
}

/// What is delivered is a reply that is neither busy nor a refusal, through the client that gave
/// it, or a refusal, through the client that was asked first.
pub proof fn delivered_code(model: DispatchModel, code: int)
    requires
        model.well_formed(),
        model.pending is Some,
        model.after_code(code).1 is Deliver,
    ensures
        !crate::status::is_busy_code(code),
        model.after_code(code).1->Deliver_task == model.pending->0.task,
        model.after_code(code).1->Deliver_token == (if is_refusal(code) {
            model.pending->0.origin
        } else {
            model.pending->0.token
        }),
        model.after_code(code).0.pending is None,
{
}

/// Every client that the dispatcher names exists, so a task that asks through the client of its last
/// reply, or through the first one, is always served.
pub proof fn tokens_stay_valid(
    model: DispatchModel,
    code: int,
    task: TaskIndex,
    token: TokenIndex,
    method: HttpMethod,
)
    requires
        model.well_formed(),
    ensures
        model.pending is Some ==> match model.after_code(code).1 {
            DispatchStep::Execute { token, .. } => token.token_index < model.clients,
            DispatchStep::Deliver { token, .. } => token.token_index < model.clients,
            _ => true,
        },
        token.token_index < model.clients || token.token_index == 0 ==> !(model.after_message(
            task,
            token,
            method,
        ).1 is Fail),
{
}

/// A reply that is neither busy nor a refusal is delivered at once.
pub proof fn answers_are_delivered(model: DispatchModel, code: int)
    requires
        model.well_formed(),
        model.pending is Some,
        model.pending->0.task.task_index < model.tasks,
        !crate::status::is_busy_code(code),
        !is_refusal(code),
    ensures
        model.after_code(code) == (
            DispatchModel { pending: None, ..model },
            DispatchStep::Deliver {
                task: model.pending->0.task,
                token: model.pending->0.token,
                pause_ms: REPLY_PAUSE_MS,
            },
        ),
{
}

/// No two requests follow each other without a pause: every step after a reply that goes on names
/// a pause.
pub proof fn every_reply_is_followed_by_a_pause(model: DispatchModel, code: int)
    requires
        model.well_formed(),
        model.pending is Some,
    ensures
        match model.after_code(code).1 {
            DispatchStep::Execute { pause_ms, .. } => pause_ms >= REPLY_PAUSE_MS,
            DispatchStep::Deliver { pause_ms, .. } => pause_ms >= REPLY_PAUSE_MS,
            DispatchStep::Receive => false,
            DispatchStep::Fail { pause_ms, .. } => pause_ms >= REPLY_PAUSE_MS,
        },
        crate::status::is_busy_code(code) ==> (model.after_code(code).1 matches DispatchStep::Execute {
            pause_ms,
            ..
        } && pause_ms == BUSY_PAUSE_MS),
{
}

/// The dispatcher stops after as many end marks as there are tasks, and not before: an end mark
/// counts one task, and nothing else does.
pub proof fn only_end_marks_count(
    model: DispatchModel,
    task: TaskIndex,
    token: TokenIndex,
    method: HttpMethod,
    code: int,
)
    requires
        model.well_formed(),
    ensures
        model.after_message(task, token, method).0.finished == model.finished + (if method
            == HttpMethod::Delete {
            1nat
        } else {
            0nat
        }),
        model.after_code(code).0.finished == model.finished,
{
}

/// What becomes of a message that asks for something, from the message to the answer.
///
/// The request is made at once, through the client that the message names. `codes` are replies that
/// do not settle it: from a busy server, or refusals, fewer than there are clients. After them it is
/// with the client as many turns after the first as there were refusals, and then
/// - a busy server is asked again through that client, in a second;
/// - a refusal passes it on to the next client, in a fifth of a second, or, if it is the refusal of
///   the last of all clients, goes to the task;
/// - anything else goes to the task, with the client that it came through.
///
/// A task that is not there cannot be told, which is a fault. Once the request is settled, the
/// dispatcher is as it was before the message.
pub proof fn a_request_goes_through_every_client(
    model: DispatchModel,
    task: TaskIndex,
    token: TokenIndex,
    method: HttpMethod,
    codes: Seq<int>,
)
    requires
        model.well_formed(),
        model.pending is None,
        method == HttpMethod::Get || method == HttpMethod::Post,
        token.token_index < model.clients,
        forall|i: int| 0 <= i < codes.len() ==> 400 <= #[trigger] codes[i] < 600,
        codes.filter(|c: int| 400 <= c < 500 && c != 429).len() < model.clients,
    ensures
        ({
            let (first, step) = model.after_message(task, token, method);
            let after = codes.fold_left(first, |m: DispatchModel, c: int| m.after_code(c).0);
            let refused = codes.filter(|c: int| 400 <= c < 500 && c != 429).len();
            let at = TokenIndex {
                token_index: ((token.token_index + refused) % model.clients as int) as usize,
            };
            let next = TokenIndex {
                token_index: ((token.token_index + refused + 1) % model.clients as int) as usize,
            };
            &&& step == (DispatchStep::Execute { token, pause_ms: 0 })
            &&& forall|code: int|
                500 <= code < 600 || code == 429 ==> #[trigger] after.after_code(code) == (
                    after,
                    DispatchStep::Execute { token: at, pause_ms: 1000 },
                )
            &&& forall|code: int|
                400 <= code < 500 && code != 429 && refused + 1 < model.clients ==> (
                #[trigger] after.after_code(code)).1 == (DispatchStep::Execute {
                    token: next,
                    pause_ms: 200,
                })
            &&& forall|code: int|
                400 <= code < 500 && code != 429 && refused + 1 == model.clients
                    ==> #[trigger] after.after_code(code) == (
                    model,
                    if task.task_index < model.tasks {
                        DispatchStep::Deliver { task, token, pause_ms: 200 }
                    } else {
                        DispatchStep::Fail { fault: DispatchFault::UnknownTask, pause_ms: 200 }
                    },
                )
            &&& forall|code: int|
                code < 400 || code >= 600 ==> #[trigger] after.after_code(code) == (
                    model,
                    if task.task_index < model.tasks {
                        DispatchStep::Deliver { task, token: at, pause_ms: 200 }
                    } else {
                        DispatchStep::Fail { fault: DispatchFault::UnknownTask, pause_ms: 200 }
                    },
                )
        }),
{
    let first = model.after_message(task, token, method).0;
    let after = codes.fold_left(first, |m: DispatchModel, c: int| m.after_code(c).0);
    let refused = codes.filter(|c: int| 400 <= c < 500 && c != 429).len();
    unsettled_request(first, codes);
    turns_are_remainders(token.token_index as int, refused as int, model.clients as int);
    turns_are_remainders(token.token_index as int, refused as int + 1, model.clients as int);
}

proof fn turns_are_remainders(origin: int, turns: int, clients: int)
    requires
        0 <= origin < clients,
        0 <= turns <= clients,
    ensures
        (origin + turns) % clients == (if origin + turns < clients {
            origin + turns
        } else {
            origin + turns - clients
        }),
{
    if origin + turns < clients {
        vstd::arithmetic::div_mod::lemma_small_mod((origin + turns) as nat, clients as nat);
    } else {
        let rest = origin + turns - clients;
        vstd::arithmetic::div_mod::lemma_mod_add_multiples_vanish(rest, clients);
        vstd::arithmetic::div_mod::lemma_small_mod(rest as nat, clients as nat);
    }
}

proof fn unsettled_request(model: DispatchModel, codes: Seq<int>)
    requires
        model.well_formed(),
        model.pending is Some,
        model.pending->0.token == model.pending->0.origin,
        forall|i: int| 0 <= i < codes.len() ==> 400 <= #[trigger] codes[i] < 600,
        codes.filter(|c: int| 400 <= c < 500 && c != 429).len() < model.clients,
    ensures
        ({
            let after = codes.fold_left(model, |m: DispatchModel, c: int| m.after_code(c).0);
            let refused = codes.filter(|c: int| 400 <= c < 500 && c != 429).len();
            let p = model.pending->0;
            &&& after == (DispatchModel { pending: after.pending, ..model })
            &&& after.pending is Some
            &&& after.pending->0.task == p.task
            &&& after.pending->0.origin == p.origin
            &&& after.pending->0.token.token_index == token_after(p.origin, refused, model.clients)
        }),
    decreases codes.len(),
{
    reveal(Seq::filter);
    if codes.len() > 0 {
        let front = codes.drop_last();
        assert forall|i: int| 0 <= i < front.len() implies 400 <= #[trigger] front[i] < 600 by {
            assert(front[i] == codes[i]);
        }
        assert(400 <= codes[codes.len() - 1] < 600);
        unsettled_request(model, front);
    }
}

/// With more than one client, a first refusal never reaches a task: whatever a message asks for, the
/// request is made again, through another client.
pub proof fn a_first_refusal_is_not_the_last_word(
    model: DispatchModel,
    task: TaskIndex,
    token: TokenIndex,
    method: HttpMethod,
    code: int,
)
    requires
        model.well_formed(),
        model.pending is None,
        model.clients >= 2,
        method != HttpMethod::Delete,
        token.token_index < model.clients,
        400 <= code < 500,
        code != 429,
    ensures
        model.after_message(task, token, method).0.after_code(
            code,
        ).1 matches DispatchStep::Execute { token: other, pause_ms } && other != token
            && other.token_index < model.clients && pause_ms == 200,
{
}

/// A message that names a client that is not there asks for nothing and changes nothing, and a reply
/// for a task that is not there is told to nobody. Both are faults.
pub proof fn unknown_clients_and_tasks_are_faults(
    model: DispatchModel,
    task: TaskIndex,
    token: TokenIndex,
    method: HttpMethod,
    code: int,
)
    requires
        model.well_formed(),
        model.pending is None,
        method == HttpMethod::Get || method == HttpMethod::Post,
        code < 400 || code >= 600,
    ensures
        token.token_index >= model.clients ==> model.after_message(task, token, method) == (
            model,
            DispatchStep::Fail { fault: DispatchFault::UnknownToken, pause_ms: 0 },
        ),
        token.token_index < model.clients && task.task_index >= model.tasks
            ==> model.after_message(task, token, method).0.after_code(code) == (
            model,
            DispatchStep::Fail { fault: DispatchFault::UnknownTask, pause_ms: 200 },
        ),
{
}

/// A dispatcher that was told of the end of some tasks is done exactly if those are all its tasks,
/// and an end mark asks for nothing.
pub proof fn done_after_all_end_marks(
    tasks: nat,
    clients: nat,
    marks: Seq<(TaskIndex, TokenIndex)>,
)
    ensures
        ({
            let start = DispatchModel { tasks, clients, finished: 0, pending: None };
            let end = marks.fold_left(
                start,
                |m: DispatchModel, mark: (TaskIndex, TokenIndex)|
                    m.after_message(mark.0, mark.1, HttpMethod::Delete).0,
            );
            &&& end.is_done() <==> marks.len() >= tasks
            &&& end == (DispatchModel { finished: marks.len(), ..start })
            &&& forall|task: TaskIndex, token: TokenIndex|
                (#[trigger] end.after_message(task, token, HttpMethod::Delete)).1
                    == DispatchStep::Receive
        }),
    decreases marks.len(),
{
    if marks.len() > 0 {
        done_after_all_end_marks(tasks, clients, marks.drop_last());
    }
}

} // verus!
