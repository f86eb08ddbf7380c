//! Tasks, and what an isolate keeps while it runs one.
//!
//! An isolate takes a task from the queue, runs the script for it, and
//! gives it up again. A servlet task owns the connection of its request:
//! whoever takes the task out of the isolate is the one to answer on that
//! connection and to close it.

use vstd::prelude::*;
use crate::constants::LOG_TABLE;
use crate::http::{
    header_taken,
    headers_after_set,
    reason_of_status,
    ResponseDraft,
    ResponseView,
};
use crate::text::{pair_views, push_str, string_of};

verus! {

/// The address of a request, taken apart.
#[derive(Clone, Debug)]
pub struct RequestUrl {
    /// The whole address.
    pub text: String,
    /// The host, where the address names one.
    pub host: Option<String>,
    /// The path.
    pub path: String,
    /// The query, where the address has one.
    pub query: Option<String>,
    /// The names and values of the query, decoded, in order.
    pub pairs: Vec<(String, String)>,
}

/// A [`RequestUrl`] as a mathematical value.
pub struct RequestUrlView {
    pub text: Seq<char>,
    pub host: Option<Seq<char>>,
    pub path: Seq<char>,
    pub query: Option<Seq<char>>,
    pub pairs: Seq<(Seq<char>, Seq<char>)>,
}

/// The text of a string that may be missing.
pub open spec fn text_view(s: Option<String>) -> Option<Seq<char>> {
    match s {
        Some(s) => Some(s@),
        None => None,
    }
}

impl View for RequestUrl {
    type V = RequestUrlView;

    open spec fn view(&self) -> RequestUrlView {
        RequestUrlView {
            text: self.text@,
            host: text_view(self.host),
            path: self.path@,
            query: text_view(self.query),
            pairs: pair_views(self.pairs@),
        }
    }
}

/// An address in its parts, as the URL standard reads it; nothing for a
/// text that is no address.
pub uninterp spec fn url_record(text: Seq<char>) -> Option<RequestUrlView>;

/// `http_types::Url::parse` and the accessors of the address it gives:
/// the address in its serialized form, its host, its path, its query, and
/// the decoded pairs of the query; nothing for a text that is no address.
#[verifier::external_body]
pub(crate) fn parse_url(text: &str) -> (r: Option<RequestUrl>)
    ensures
        match r {
            Some(url) => url_record(text@) == Some(url@),
            None => url_record(text@) is None,
        },
{
    let url = match http_types::Url::parse(text) {
        Ok(url) => url,
        Err(_) => return None,
    };
    Some(RequestUrl {
        text: url.to_string(),
        host: url.host_str().map(|h| h.to_owned()),
        path: url.path().to_owned(),
        query: url.query().map(|q| q.to_owned()),
        pairs: url.query_pairs().map(|(k, v)| (k.to_string(), v.to_string())).collect(),
    })
}

/// A request that a script is to answer.
#[derive(Clone, Debug)]
pub struct ServletTask {
    pub method: String,
    pub request_path: String,
    pub js_module: String,
    pub url: RequestUrl,
    pub user: String,
    pub body: String,
    pub response: ResponseDraft,
    /// The connection that the answer goes out on.
    pub connection: u64,
}

/// What an isolate is given to do.
#[derive(Clone, Debug)]
pub enum JSTask {
    /// A request to answer.
    Servlet(ServletTask),
    /// A notification to take note of.
    Message(String),
}

/// One row for the log table.
#[derive(Clone, Debug)]
pub struct LogInfo {
    pub method: String,
    pub request: String,
    pub response: String,
    pub message: String,
}

/// Why an operation on the current task is turned down.
#[derive(Clone, Copy, Debug, PartialEq, Eq, Structural)]
pub enum TaskError {
    /// The isolate holds no task.
    NoCurrentTask,
    /// The task is a notification, not a request.
    NotARequest,
    /// The task was given up before.
    AlreadyClosed,
    /// The number is no status code.
    InvalidStatus,
    /// The name or the value is none that headers take.
    InvalidHeader,
}

/// The text of an error.
pub open spec fn task_error_message(e: TaskError) -> Seq<char> {
    match e {
        TaskError::NoCurrentTask => "no current task"@,
        TaskError::NotARequest => "task is not a request"@,
        TaskError::AlreadyClosed => "task already closed"@,
        TaskError::InvalidStatus => "invalid status code"@,
        TaskError::InvalidHeader => "invalid header"@,
    }
}

impl TaskError {
    /// The text of the error.
    pub fn message(&self) -> (out: String)
        ensures
            out@ == task_error_message(*self),
    {
        match self {
            TaskError::NoCurrentTask => "no current task".to_owned(),
            TaskError::NotARequest => "task is not a request".to_owned(),
            TaskError::AlreadyClosed => "task already closed".to_owned(),
            TaskError::InvalidStatus => "invalid status code".to_owned(),
            TaskError::InvalidHeader => "invalid header".to_owned(),
        }
    }
}

/// The servlet task that ending the current task releases.
pub open spec fn released_by_end(task: Option<JSTask>) -> Option<ServletTask> {
    match task {
        Some(JSTask::Servlet(servlet)) => Some(servlet),
        _ => None,
    }
}

/// The servlet task that taking the current task releases, or why none is
/// released.
pub open spec fn released_by_take(task: Option<JSTask>) -> Result<ServletTask, TaskError> {
    match task {
        Some(JSTask::Servlet(servlet)) => Ok(servlet),
        Some(JSTask::Message(_)) => Err(TaskError::NotARequest),
        None => Err(TaskError::AlreadyClosed),
    }
}

/// An operation by which a script gives up the current task.
pub enum GiveUp {
    /// The task is ended.
    End,
    /// The task is taken out to be answered at once.
    Take,
}

/// Whether the operation, made on an isolate that holds `task`, releases
/// a connection.
pub open spec fn releases(task: Option<JSTask>, op: GiveUp) -> bool {
    match op {
        GiveUp::End => released_by_end(task) is Some,
        GiveUp::Take => released_by_take(task) is Ok,
    }
}

/// How many of the operations `ops`, made one after the other on an
/// isolate that holds `task`, release a connection. After each of them the
/// isolate holds no task, as `end_task` and `take_servlet_task` ensure.
pub open spec fn released_count(task: Option<JSTask>, ops: Seq<GiveUp>) -> nat
    decreases ops.len(),
{
    if ops.len() == 0 {
        0
    } else {
        (if releases(task, ops[0]) {
            1nat
        } else {
            0nat
        }) + released_count(None, ops.skip(1))
    }
}

proof fn lemma_nothing_to_release(ops: Seq<GiveUp>)
    ensures
        released_count(None, ops) == 0,
    decreases ops.len(),
{
    if ops.len() > 0 {
        lemma_nothing_to_release(ops.skip(1));
    }
}

/// However often a script ends or takes its task, the connection of a
/// servlet task is released once, by the first of these operations, and
/// never again; a message releases none. So a request that was handed to
/// an isolate is answered at most once.
pub proof fn lemma_released_exactly_once(task: Option<JSTask>, ops: Seq<GiveUp>)
    ensures
        released_count(task, ops) <= 1,
        released_count(task, ops) == 1 <==> (task matches Some(JSTask::Servlet(_)) && ops.len()
            > 0),
{
    if ops.len() > 0 {
        lemma_nothing_to_release(ops.skip(1));
    }
}

/// What an isolate keeps between the operations of a script: the task it
/// runs, and the messages that the script wants published once its work is
/// committed.
pub struct JSContext {
    pub task: Option<JSTask>,
    pub broadcast_messages: Vec<String>,
}

impl JSContext {
    /// The state of an isolate that has not yet taken a task.
    pub fn new() -> (context: Self)
        ensures
            context.task is None,
            context.broadcast_messages@.len() == 0,
    {
        JSContext { task: None, broadcast_messages: Vec::new() }
    }

    /// Forgets the current task.
    pub fn clear(&mut self)
        ensures
            final(self).task is None,
            final(self).broadcast_messages == old(self).broadcast_messages,
    {
        self.task = None;
    }

    /// Takes in what the queue gave: a task becomes the current task, and
    /// the name of the module to run is that of a servlet task, empty for a
    /// message. A closed queue leaves the isolate without a task.
    pub fn begin_task(&mut self, received: Option<JSTask>) -> (module: String)
        ensures
            final(self).task == received,
            final(self).broadcast_messages == old(self).broadcast_messages,
            module@ == match received {
                Some(JSTask::Servlet(servlet)) => servlet.js_module@,
                _ => Seq::<char>::empty(),
            },
    {
        let module = match &received {
            Some(JSTask::Servlet(servlet)) => servlet.js_module.clone(),
            _ => String::new(),
        };
        self.task = received;
        module
    }

    /// Gives the current task up. A servlet task is handed out: the caller
    /// sends its response and closes its connection. A message, or no
    /// task, hands out nothing.
    pub fn end_task(&mut self) -> (released: Option<ServletTask>)
        ensures
            final(self).task is None,
            final(self).broadcast_messages == old(self).broadcast_messages,
            released == released_by_end(old(self).task),
    {
        let task = self.task.take();
        match task {
            Some(JSTask::Servlet(servlet)) => Some(servlet),
            _ => None,
        }
    }

    /// Takes the current servlet task out of the isolate, for an operation
    /// that answers the request itself.
    pub fn take_servlet_task(&mut self) -> (released: Result<ServletTask, TaskError>)
        ensures
            final(self).task is None,
            final(self).broadcast_messages == old(self).broadcast_messages,
            released == released_by_take(old(self).task),
    {
        let task = self.task.take();
        match task {
            Some(JSTask::Servlet(servlet)) => Ok(servlet),
            Some(JSTask::Message(_)) => Err(TaskError::NotARequest),
            None => Err(TaskError::AlreadyClosed),
        }
    }

    /// The body of the current request.
    pub fn get_request_body(&self) -> (r: Result<String, TaskError>)
        ensures
            match self.task {
                Some(JSTask::Servlet(servlet)) => r matches Ok(body) && body@ == servlet.body@,
                Some(JSTask::Message(_)) => r == Err::<String, TaskError>(TaskError::NotARequest),
                None => r == Err::<String, TaskError>(TaskError::NoCurrentTask),
            },
    {
        match &self.task {
            Some(JSTask::Servlet(servlet)) => Ok(servlet.body.clone()),
            Some(JSTask::Message(_)) => Err(TaskError::NotARequest),
            None => Err(TaskError::NoCurrentTask),
        }
    }

    /// The text of the current message; empty while a request, or nothing,
    /// is the current task.
    pub fn get_invalidation_message(&self) -> (text: String)
        ensures
            text@ == match self.task {
                Some(JSTask::Message(message)) => message@,
                _ => Seq::<char>::empty(),
            },
    {
        match &self.task {
            Some(JSTask::Message(message)) => message.clone(),
            _ => String::new(),
        }
    }

    /// Sets the status of the pending response. A number that is no status
    /// code is turned down.
    pub fn set_response_status(&mut self, status: u16) -> (r: Result<(), TaskError>)
        ensures
            final(self).broadcast_messages == old(self).broadcast_messages,
            match old(self).task {
                Some(JSTask::Servlet(servlet)) => if reason_of_status(status) is Some {
                    &&& r is Ok
                    &&& final(self).task matches Some(JSTask::Servlet(after))
                    &&& after.response@ == (ResponseView { status, ..servlet.response@ })
                    &&& after.connection == servlet.connection
                    &&& after.js_module == servlet.js_module
                    &&& after.body == servlet.body
                    &&& after.user == servlet.user
                    &&& after.url == servlet.url
                    &&& after.method == servlet.method
                    &&& after.request_path == servlet.request_path
                } else {
                    r == Err::<(), TaskError>(TaskError::InvalidStatus) && final(self).task == old(
                        self,
                    ).task
                },
                Some(JSTask::Message(_)) => r == Err::<(), TaskError>(TaskError::NotARequest)
                    && final(self).task == old(self).task,
                None => r == Err::<(), TaskError>(TaskError::NoCurrentTask) && final(self).task
                    is None,
            },
    {
        let task = self.task.take();
        match task {
            Some(JSTask::Servlet(mut servlet)) => {
                let mut probe = ResponseDraft::new(status);
                if probe.has_known_status() {
                    servlet.response.set_status(status);
                    self.task = Some(JSTask::Servlet(servlet));
                    Ok(())
                } else {
                    self.task = Some(JSTask::Servlet(servlet));
                    Err(TaskError::InvalidStatus)
                }
            },
            Some(JSTask::Message(m)) => {
                self.task = Some(JSTask::Message(m));
                Err(TaskError::NotARequest)
            },
            None => Err(TaskError::NoCurrentTask),
        }
    }

    /// Sets a header of the pending response in place of any header of
    /// that name. A name or a value that headers do not take is turned
    /// down.
    pub fn set_response_header(&mut self, key: &str, value: &str) -> (r: Result<(), TaskError>)
        ensures
            final(self).broadcast_messages == old(self).broadcast_messages,
            match old(self).task {
                Some(JSTask::Servlet(servlet)) => if header_taken(key@, value@) {
                    &&& r is Ok
                    &&& final(self).task matches Some(JSTask::Servlet(after))
                    &&& after.response@ == (ResponseView {
                        headers: headers_after_set(servlet.response@.headers, key@, value@),
                        ..servlet.response@
                    })
                    &&& after.connection == servlet.connection
                    &&& after.js_module == servlet.js_module
                    &&& after.body == servlet.body
                    &&& after.user == servlet.user
                    &&& after.url == servlet.url
                    &&& after.method == servlet.method
                    &&& after.request_path == servlet.request_path
                } else {
                    &&& r == Err::<(), TaskError>(TaskError::InvalidHeader)
                    &&& final(self).task matches Some(JSTask::Servlet(after))
                    &&& after.response@ == servlet.response@
                    &&& after.connection == servlet.connection
                },
                Some(JSTask::Message(_)) => r == Err::<(), TaskError>(TaskError::NotARequest)
                    && final(self).task == old(self).task,
                None => r == Err::<(), TaskError>(TaskError::NoCurrentTask) && final(self).task
                    is None,
            },
    {
        let task = self.task.take();
        match task {
            Some(JSTask::Servlet(mut servlet)) => {
                let done = servlet.response.set_header(key, value);
                self.task = Some(JSTask::Servlet(servlet));
                if done {
                    Ok(())
                } else {
                    Err(TaskError::InvalidHeader)
                }
            },
            Some(JSTask::Message(m)) => {
                self.task = Some(JSTask::Message(m));
                Err(TaskError::NotARequest)
            },
            None => Err(TaskError::NoCurrentTask),
        }
    }

    /// Keeps a message to be published once the work of the script is
    /// committed.
    pub fn broadcast_message(&mut self, message: String)
        ensures
            final(self).task == old(self).task,
            final(self).broadcast_messages@ == old(self).broadcast_messages@.push(message),
    {
        self.broadcast_messages.push(message);
    }

    /// Ends the collection of messages: on a commit the messages kept so
    /// far are handed out, in the order in which they came, to be
    /// published; on a rollback they are dropped. Either way none is kept.
    pub fn a_broadcast_message(&mut self, commit: bool) -> (messages: Vec<String>)
        ensures
            final(self).task == old(self).task,
            final(self).broadcast_messages@.len() == 0,
            messages@ == if commit {
                old(self).broadcast_messages@
            } else {
                Seq::<String>::empty()
            },
    {
        let mut messages: Vec<String> = Vec::new();
        if commit {
            messages.append(&mut self.broadcast_messages);
        } else {
            self.broadcast_messages.clear();
        }
        messages
    }

    /// The log row for a text that the script of the current task logs.
    pub fn log_info(&self, log_text: String) -> (r: Result<LogInfo, TaskError>)
        ensures
            match self.task {
                Some(JSTask::Servlet(servlet)) => {
                    &&& r matches Ok(log)
                    &&& log.method@ == servlet.method@
                    &&& log.request@ == servlet.request_path@
                    &&& log.response@ == servlet.js_module@
                    &&& log.message == log_text
                },
                Some(JSTask::Message(message)) => {
                    &&& r matches Ok(log)
                    &&& log.method@ == "MESSAGE"@
                    &&& log.request@ == message@
                    &&& log.response@ == Seq::<char>::empty()
                    &&& log.message == log_text
                },
                None => r matches Err(e) && e == TaskError::AlreadyClosed,
            },
    {
        match &self.task {
            Some(JSTask::Servlet(servlet)) => Ok(
                LogInfo {
                    method: servlet.method.clone(),
                    request: servlet.request_path.clone(),
                    response: servlet.js_module.clone(),
                    message: log_text,
                },
            ),
            Some(JSTask::Message(message)) => Ok(
                LogInfo {
                    method: "MESSAGE".to_owned(),
                    request: message.clone(),
                    response: String::new(),
                    message: log_text,
                },
            ),
            None => Err(TaskError::AlreadyClosed),
        }
    }
}

/// The task is the message task that carries `text`.
pub open spec fn is_message(task: JSTask, text: Seq<char>) -> bool {
    match task {
        JSTask::Message(m) => m@ == text,
        JSTask::Servlet(_) => false,
    }
}

/// The tasks that carry a notification to the isolates: one message task
/// for each isolate.
pub fn message_tasks(text: &str, js_thread_count: usize) -> (tasks: Vec<JSTask>)
    ensures
        tasks@.len() == js_thread_count,
        forall|i: int|
            0 <= i < tasks@.len() ==> is_message(#[trigger] tasks@[i], text@),
{
    let mut tasks: Vec<JSTask> = Vec::new();
    let mut i: usize = 0;
    while i < js_thread_count
        invariant
            i <= js_thread_count,
            tasks@.len() == i,
            forall|j: int|
                0 <= j < tasks@.len() ==> is_message(#[trigger] tasks@[j], text@),
        decreases js_thread_count - i,
    {
        tasks.push(JSTask::Message(text.to_owned()));
        i += 1;
    }
    tasks
}

/// The statement that writes one row of the log; its parameters are the
/// method, the request, the response and the message of the row.
pub open spec fn log_statement_text() -> Seq<char> {
    "INSERT INTO "@ + LOG_TABLE@
        + " (method, request, response, log_message) VALUES ($1, $2, $3, $4)"@
}

/// The writer of the log table.
pub struct DBLogger {}

impl DBLogger {
    /// The statement that writes one row of the log.
    pub fn statement() -> (out: String)
        ensures
            out@ == log_statement_text(),
    {
        let mut buf: Vec<char> = Vec::new();
        push_str(&mut buf, "INSERT INTO ");
        push_str(&mut buf, LOG_TABLE);
        push_str(&mut buf, " (method, request, response, log_message) VALUES ($1, $2, $3, $4)");
        string_of(&buf)
    }
}

} // verus!
