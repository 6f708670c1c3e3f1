//! The built-in AI plugin: two commands that ask a remote completion service
//! for SQL, grounded by the database schema, and let the user accept, refine
//! or reject the answer.
//!
//! Each command is a session driven by events: the caller performs each
//! action the session asks for (a prompt, a schema query, a request to the
//! service) and hands back what came of it.
use vstd::prelude::*;
use crate::dispatch::ResultCode;
use crate::plugin::{MetaCommand, Plugin};
use crate::prompt::{trim_of, AdditionalInstructions};

verus! {

/// The built-in AI plugin.
pub struct AIPlugin;

/// The commands of the AI plugin.
#[derive(Clone, Copy, Debug, PartialEq, Eq, Structural)]
pub enum AICommand {
    /// Writes SQL from a description.
    Generate,
    /// Repairs the statement that failed last.
    Fix,
}

impl MetaCommand for AICommand {
    open spec fn spec_name(&self) -> Seq<char> {
        match self {
            AICommand::Generate => "generate"@,
            AICommand::Fix => "fix"@,
        }
    }

    fn name(&self) -> (r: String) {
        match self {
            AICommand::Generate => "generate".to_string(),
            AICommand::Fix => "fix".to_string(),
        }
    }
}

impl Plugin for AIPlugin {
    type Command = AICommand;

    open spec fn spec_name(&self) -> Seq<char> {
        "ai"@
    }

    open spec fn spec_commands(&self) -> Seq<Seq<char>> {
        seq!["generate"@, "fix"@]
    }

    fn name(&self) -> (r: String) {
        "ai".to_string()
    }

    fn version(&self) -> String {
        "0.1.0".to_string()
    }

    fn meta_commands(&self) -> (r: Vec<AICommand>) {
        let v = vec![AICommand::Generate, AICommand::Fix];
        assert(v@[0].spec_name() == "generate"@);
        v
    }
}

/// Why a request to the completion service gave no text.
#[derive(Debug, PartialEq, Eq)]
pub enum CompletionError {
    /// No credential for the service is configured.
    MissingApiKey,
    /// The request failed or its response could not be read.
    Request(String),
    /// The response holds no choices.
    NoChoices,
    /// The first choice holds no content.
    NoContent,
}

/// The `Authorization` header for the service: `Bearer` and the key, or
/// `MissingApiKey` where no key is configured.
pub fn authorization(api_key: Option<String>) -> (r: Result<String, CompletionError>)
    ensures
        api_key is None ==> r == Err::<String, CompletionError>(CompletionError::MissingApiKey),
        api_key matches Some(k) ==> (r matches Ok(h) && h@ == "Bearer "@ + k@),
{
    match api_key {
        None => Err(CompletionError::MissingApiKey),
        Some(k) => {
            let mut h = "Bearer ".to_string();
            h.append(k.as_str());
            Ok(h)
        },
    }
}

/// The text of a completion response, given the content of each of its
/// choices (`None` where a choice has none): the first choice's content.
pub fn first_choice_content(choices: Vec<Option<String>>) -> (r: Result<String, CompletionError>)
    ensures
        choices@.len() == 0 ==> r == Err::<String, CompletionError>(CompletionError::NoChoices),
        choices@.len() > 0 && choices@[0] is None ==> r == Err::<String, CompletionError>(
            CompletionError::NoContent,
        ),
        choices@.len() > 0 && choices@[0] is Some ==> r == Ok::<String, CompletionError>(
            choices@[0]->0,
        ),
{
    let mut choices = choices;
    if choices.len() == 0 {
        return Err(CompletionError::NoChoices);
    }
    match choices.remove(0) {
        Some(c) => Ok(c),
        None => Err(CompletionError::NoContent),
    }
}

/// Who wrote a message of a conversation.
#[derive(Clone, Copy, Debug, PartialEq, Eq, Structural)]
pub enum Role {
    System,
    User,
    Assistant,
}

/// One message of a conversation with the completion service.
#[derive(Debug, PartialEq, Eq)]
pub struct ChatMessage {
    pub role: Role,
    pub content: String,
}

/// A conversation as roles and texts.
pub open spec fn messages_view(v: Seq<ChatMessage>) -> Seq<(Role, Seq<char>)> {
    v.map_values(|m: ChatMessage| (m.role, m.content@))
}

/// What `format!("{:?}", s)` makes of the text `s`: it quoted and escaped.
pub uninterp spec fn debug_of(s: Seq<char>) -> Seq<char>;

/// Relies on the `Debug` formatting of `str`: the text quoted, with its
/// special characters escaped; a function of the text alone.
#[verifier::external_body]
fn debug_quoted(s: &str) -> (r: String)
    ensures
        r@ == debug_of(s@),
{
    format!("{:?}", s)
}

/// The instructions that open every conversation, before the schema.
pub const SYSTEM_INTRO: &'static str = "You are a Distinguished Engineer code assistant for PSQL, the Postgres terminal.\nGenerate and return only the exact SQL it will be used as input to run again, do not use markdown and return the code formatted, nothing else.\nCurrent schema of the database is:\n";

/// The message that opens a conversation about a database with this schema.
pub open spec fn system_prompt(schema: Seq<char>) -> Seq<char> {
    SYSTEM_INTRO@ + debug_of(schema)
}

/// The message that asks for SQL from a description.
pub open spec fn generation_request(text: Seq<char>) -> Seq<char> {
    "Code generation request: "@ + debug_of(text)
}

/// The message that asks to repair a statement that failed with an error.
pub open spec fn fix_request(code: Seq<char>, error: Seq<char>) -> Seq<char> {
    "Code: "@ + debug_of(code) + " "@ + debug_of(error)
}

/// The opening message, given the schema as `format!("{:?}", ..)` quotes it.
pub fn system_prompt_text(quoted_schema: &str) -> (r: String)
    ensures
        r@ == SYSTEM_INTRO@ + quoted_schema@,
{
    let mut content = SYSTEM_INTRO.to_string();
    content.append(quoted_schema);
    content
}

/// The request for SQL, given the description as `format!("{:?}", ..)`
/// quotes it.
pub fn generation_request_text(quoted_text: &str) -> (r: String)
    ensures
        r@ == "Code generation request: "@ + quoted_text@,
{
    let mut content = "Code generation request: ".to_string();
    content.append(quoted_text);
    content
}

/// The request to repair a statement, given the statement and its error as
/// `format!("{:?}", ..)` quotes them.
pub fn fix_request_text(quoted_code: &str, quoted_error: &str) -> (r: String)
    ensures
        r@ == "Code: "@ + quoted_code@ + " "@ + quoted_error@,
{
    let mut content = "Code: ".to_string();
    content.append(quoted_code);
    content.append(" ");
    content.append(quoted_error);
    content
}

fn system_message(schema: &str) -> (r: ChatMessage)
    ensures
        r.role == Role::System,
        r.content@ == system_prompt(schema@),
{
    let quoted = debug_quoted(schema);
    ChatMessage { role: Role::System, content: system_prompt_text(quoted.as_str()) }
}

fn generation_message(text: &str) -> (r: ChatMessage)
    ensures
        r.role == Role::User,
        r.content@ == generation_request(text@),
{
    let quoted = debug_quoted(text);
    ChatMessage { role: Role::User, content: generation_request_text(quoted.as_str()) }
}

/// The conversation that asks to repair `code`, which failed with `error`,
/// against a database with this schema.
pub fn fix_messages(code: &str, error: &str, schema: &str) -> (r: Vec<ChatMessage>)
    ensures
        messages_view(r@) == seq![
            (Role::System, system_prompt(schema@)),
            (Role::User, fix_request(code@, error@)),
        ],
{
    let sys = system_message(schema);
    let q1 = debug_quoted(code);
    let q2 = debug_quoted(error);
    let user = ChatMessage { role: Role::User, content: fix_request_text(q1.as_str(), q2.as_str()) };
    let v = vec![sys, user];
    assert(messages_view(v@) =~= seq![
        (Role::System, system_prompt(schema@)),
        (Role::User, fix_request(code@, error@)),
    ]);
    v
}

fn copy_messages(v: &Vec<ChatMessage>) -> (r: Vec<ChatMessage>)
    ensures
        messages_view(r@) == messages_view(v@),
{
    let mut out: Vec<ChatMessage> = Vec::new();
    let mut i: usize = 0;
    while i < v.len()
        invariant
            i <= v@.len(),
            messages_view(out@) == messages_view(v@.take(i as int)),
        decreases v@.len() - i,
    {
        let m = ChatMessage { role: v[i].role, content: v[i].content.clone() };
        let ghost before = out@;
        proof {
            assert(v@.take(i as int + 1) =~= v@.take(i as int).push(v@[i as int]));
            assert(messages_view(v@.take(i as int + 1)) =~= messages_view(v@.take(i as int)).push(
                (v@[i as int].role, v@[i as int].content@),
            ));
        }
        out.push(m);
        proof {
            assert(messages_view(out@) =~= messages_view(before).push((m.role, m.content@)));
        }
        i = i + 1;
    }
    assert(v@.take(v@.len() as int) =~= v@);
    out
}

/// What the user is told when a session ends.
#[derive(Debug, PartialEq, Eq)]
pub enum Notice {
    /// Nothing.
    Quiet,
    /// The prompt for instructions was left empty.
    NoInstructions,
    /// The user cancelled.
    Cancelled,
    /// There is no failed statement to repair.
    NoPreviousError,
    /// The repair was declined.
    NotApplied,
    /// The completion service gave no text.
    Failed(CompletionError),
}

/// How a session ends: the result for the host, the text that replaces the
/// pending query (if any), and what to tell the user.
#[derive(Debug, PartialEq, Eq)]
pub struct Outcome {
    pub code: ResultCode,
    pub new_query: Option<String>,
    pub notice: Notice,
}

/// What a session asks its caller to do next.
#[derive(Debug, PartialEq, Eq)]
pub enum SessionAction {
    /// Prompt for instructions and report the answer.
    AskInstructions,
    /// Query the database schema and report it.
    FetchSchema,
    /// Send this conversation to the completion service (showing progress
    /// meanwhile) and report the result.
    Request(Vec<ChatMessage>),
    /// Show this SQL and ask to accept it, refine it, or cancel.
    AskFollowUp(String),
    /// Show this SQL and ask whether to run it.
    AskConfirm(String),
    /// The session is over.
    Finish(Outcome),
}

/// The command's inline arguments, as read from the rest of the line.
pub enum Arguments {
    /// They could not be read.
    Unreadable,
    /// There are none.
    Absent,
    /// This text.
    Given(String),
}

/// What came of the action a session asked for.
pub enum SessionEvent {
    /// The answer to a prompt; `None` where the prompt failed.
    Answer(Option<AdditionalInstructions>),
    /// The answer to a yes-or-no prompt; `None` where the prompt failed.
    Confirmation(Option<bool>),
    /// The database schema.
    Schema(String),
    /// The completion service's reply.
    Completion(Result<String, CompletionError>),
}

/// Where a generation session stands.
#[derive(Clone, Copy, Debug, PartialEq, Eq, Structural)]
pub enum GenerateStage {
    AwaitInstructions,
    AwaitSchema,
    Generating,
    AwaitFollowUp,
    Done,
}

/// Whether an action is a prompt that shows the service's answer.
pub open spec fn offers_result(a: SessionAction) -> bool {
    a is AskFollowUp || a is AskConfirm
}

/// Whether an action ends the session with `code` and leaves the pending
/// query as it is.
pub open spec fn ends_untouched(a: SessionAction, code: ResultCode) -> bool {
    a matches SessionAction::Finish(o) && o.code == code && o.new_query is None
}

/// The `generate` command: writes SQL from a description, refined by
/// follow-up instructions until the user accepts or cancels.
pub struct GenerateSession {
    stage: GenerateStage,
    request: String,
    history: Vec<ChatMessage>,
    last: String,
}

impl GenerateSession {
    pub closed spec fn stage(&self) -> GenerateStage {
        self.stage
    }

    /// The conversation so far.
    pub closed spec fn conversation(&self) -> Seq<(Role, Seq<char>)> {
        messages_view(self.history@)
    }

    /// The description the next request is for.
    pub closed spec fn request_text(&self) -> Seq<char> {
        self.request@
    }

    /// The SQL the service gave last.
    pub closed spec fn last_answer(&self) -> Seq<char> {
        self.last@
    }

    fn finish(&mut self, code: ResultCode, new_query: Option<String>, notice: Notice) -> (r: SessionAction)
        ensures
            final(self).stage() == GenerateStage::Done,
            final(self).conversation() == old(self).conversation(),
            r == SessionAction::Finish(Outcome { code, new_query, notice }),
    {
        self.stage = GenerateStage::Done;
        SessionAction::Finish(Outcome { code, new_query, notice })
    }

    /// Starts the command with its inline arguments: with a description it
    /// goes on to the schema, without one it prompts for one, and where the
    /// arguments cannot be read it fails.
    pub fn start(args: Arguments) -> (r: (Self, SessionAction))
        ensures
            r.0.conversation() == Seq::<(Role, Seq<char>)>::empty(),
            args is Unreadable ==> r.0.stage() == GenerateStage::Done && ends_untouched(
                r.1,
                ResultCode::Error,
            ),
            args is Absent ==> r.0.stage() == GenerateStage::AwaitInstructions && r.1
                == SessionAction::AskInstructions,
            args matches Arguments::Given(t) ==> r.0.stage() == GenerateStage::AwaitSchema
                && r.0.request_text() == t@ && r.1 == SessionAction::FetchSchema,
    {
        let mut s = GenerateSession {
            stage: GenerateStage::AwaitInstructions,
            request: String::new(),
            history: Vec::new(),
            last: String::new(),
        };
        assert(messages_view(s.history@) =~= Seq::<(Role, Seq<char>)>::empty());
        match args {
            Arguments::Unreadable => {
                let a = s.finish(ResultCode::Error, None, Notice::Quiet);
                (s, a)
            },
            Arguments::Absent => (s, SessionAction::AskInstructions),
            Arguments::Given(t) => {
                s.request = t;
                s.stage = GenerateStage::AwaitSchema;
                (s, SessionAction::FetchSchema)
            },
        }
    }

    /// Takes what came of the last action and says what to do next.
    pub fn step(&mut self, ev: SessionEvent) -> (r: SessionAction)
        ensures
            // Instructions given at the prompt.
            old(self).stage() == GenerateStage::AwaitInstructions ==> match ev {
                SessionEvent::Answer(Some(AdditionalInstructions::Text(t))) => final(self).stage()
                    == GenerateStage::AwaitSchema && final(self).request_text() == t@ && r
                    == SessionAction::FetchSchema,
                SessionEvent::Answer(Some(AdditionalInstructions::Flag(true))) => final(self).stage()
                    == GenerateStage::Done && r == SessionAction::Finish(
                    Outcome {
                        code: ResultCode::SkipLine,
                        new_query: None,
                        notice: Notice::NoInstructions,
                    },
                ),
                SessionEvent::Answer(Some(AdditionalInstructions::Flag(false))) => final(self).stage()
                    == GenerateStage::Done && r == SessionAction::Finish(
                    Outcome { code: ResultCode::SkipLine, new_query: None, notice: Notice::Cancelled },
                ),
                _ => final(self).stage() == GenerateStage::Done && ends_untouched(
                    r,
                    ResultCode::Error,
                ),
            },
            // The schema arrives: the conversation opens (once) and the
            // request is sent.
            old(self).stage() == GenerateStage::AwaitSchema ==> match ev {
                SessionEvent::Schema(s) => {
                    &&& final(self).stage() == GenerateStage::Generating
                    &&& final(self).conversation() == (if old(self).conversation().len() == 0 {
                        seq![(Role::System, system_prompt(s@))]
                    } else {
                        Seq::empty()
                    }) + old(self).conversation() + seq![
                        (Role::User, generation_request(old(self).request_text())),
                    ]
                    &&& r matches SessionAction::Request(m) && messages_view(m@)
                        == final(self).conversation()
                },
                _ => final(self).stage() == GenerateStage::Done && ends_untouched(
                    r,
                    ResultCode::Error,
                ),
            },
            // The service answers: its SQL is offered, or the session fails.
            old(self).stage() == GenerateStage::Generating ==> match ev {
                SessionEvent::Completion(Ok(code)) => {
                    &&& final(self).stage() == GenerateStage::AwaitFollowUp
                    &&& final(self).conversation() == old(self).conversation().push(
                        (Role::Assistant, code@),
                    )
                    &&& final(self).last_answer() == code@
                    &&& r matches SessionAction::AskFollowUp(c) && c@ == code@
                },
                SessionEvent::Completion(Err(e)) => final(self).stage() == GenerateStage::Done
                    && r == SessionAction::Finish(
                    Outcome { code: ResultCode::Error, new_query: None, notice: Notice::Failed(e) },
                ),
                _ => final(self).stage() == GenerateStage::Done && ends_untouched(
                    r,
                    ResultCode::Error,
                ),
            },
            // The user accepts the SQL, refines the request, or cancels.
            old(self).stage() == GenerateStage::AwaitFollowUp ==> match ev {
                SessionEvent::Answer(Some(AdditionalInstructions::Text(t))) => {
                    &&& final(self).stage() == GenerateStage::Generating
                    &&& final(self).request_text() == t@
                    &&& final(self).conversation() == old(self).conversation().push(
                        (Role::User, generation_request(t@)),
                    )
                    &&& r matches SessionAction::Request(m) && messages_view(m@)
                        == final(self).conversation()
                },
                SessionEvent::Answer(Some(AdditionalInstructions::Flag(true))) => {
                    &&& final(self).stage() == GenerateStage::Done
                    &&& r matches SessionAction::Finish(o)
                    &&& o.code == ResultCode::RequestReedit
                    &&& o.new_query matches Some(q)
                    &&& q@ == old(self).last_answer()
                    &&& o.notice == Notice::Quiet
                },
                SessionEvent::Answer(Some(AdditionalInstructions::Flag(false))) => final(self).stage()
                    == GenerateStage::Done && r == SessionAction::Finish(
                    Outcome { code: ResultCode::SkipLine, new_query: None, notice: Notice::Cancelled },
                ),
                _ => final(self).stage() == GenerateStage::Done && ends_untouched(
                    r,
                    ResultCode::Error,
                ),
            },
            // A finished session stays finished.
            old(self).stage() == GenerateStage::Done ==> final(self).stage() == GenerateStage::Done
                && ends_untouched(r, ResultCode::Error),
    {
        match self.stage {
            GenerateStage::AwaitInstructions => match ev {
                SessionEvent::Answer(Some(AdditionalInstructions::Text(t))) => {
                    self.request = t;
                    self.stage = GenerateStage::AwaitSchema;
                    SessionAction::FetchSchema
                },
                SessionEvent::Answer(Some(AdditionalInstructions::Flag(true))) => {
                    self.finish(ResultCode::SkipLine, None, Notice::NoInstructions)
                },
                SessionEvent::Answer(Some(AdditionalInstructions::Flag(false))) => {
                    self.finish(ResultCode::SkipLine, None, Notice::Cancelled)
                },
                _ => self.finish(ResultCode::Error, None, Notice::Quiet),
            },
            GenerateStage::AwaitSchema => match ev {
                SessionEvent::Schema(s) => {
                    let ghost before = self.history@;
                    if self.history.len() == 0 {
                        self.history.push(system_message(s.as_str()));
                    }
                    let ghost opened = self.history@;
                    let m = generation_message(self.request.as_str());
                    self.history.push(m);
                    proof {
                        if before.len() == 0 {
                            assert(messages_view(self.history@) =~= seq![
                                (Role::System, system_prompt(s@)),
                            ] + messages_view(before) + seq![
                                (Role::User, generation_request(self.request@)),
                            ]);
                        } else {
                            assert(messages_view(self.history@) =~= Seq::<(Role, Seq<char>)>::empty()
                                + messages_view(before) + seq![
                                (Role::User, generation_request(self.request@)),
                            ]);
                        }
                    }
                    self.stage = GenerateStage::Generating;
                    SessionAction::Request(copy_messages(&self.history))
                },
                _ => self.finish(ResultCode::Error, None, Notice::Quiet),
            },
            GenerateStage::Generating => match ev {
                SessionEvent::Completion(Ok(code)) => {
                    let ghost before = self.history@;
                    self.history.push(ChatMessage { role: Role::Assistant, content: code.clone() });
                    assert(messages_view(self.history@) =~= messages_view(before).push(
                        (Role::Assistant, code@),
                    ));
                    self.last = code.clone();
                    self.stage = GenerateStage::AwaitFollowUp;
                    SessionAction::AskFollowUp(code)
                },
                SessionEvent::Completion(Err(e)) => {
                    self.finish(ResultCode::Error, None, Notice::Failed(e))
                },
                _ => self.finish(ResultCode::Error, None, Notice::Quiet),
            },
            GenerateStage::AwaitFollowUp => match ev {
                SessionEvent::Answer(Some(AdditionalInstructions::Text(t))) => {
                    let ghost before = self.history@;
                    let m = generation_message(t.as_str());
                    self.history.push(m);
                    assert(messages_view(self.history@) =~= messages_view(before).push(
                        (Role::User, generation_request(t@)),
                    ));
                    self.request = t;
                    self.stage = GenerateStage::Generating;
                    SessionAction::Request(copy_messages(&self.history))
                },
                SessionEvent::Answer(Some(AdditionalInstructions::Flag(true))) => {
                    let q = self.last.clone();
                    self.finish(ResultCode::RequestReedit, Some(q), Notice::Quiet)
                },
                SessionEvent::Answer(Some(AdditionalInstructions::Flag(false))) => {
                    self.finish(ResultCode::SkipLine, None, Notice::Cancelled)
                },
                _ => self.finish(ResultCode::Error, None, Notice::Quiet),
            },
            GenerateStage::Done => self.finish(ResultCode::Error, None, Notice::Quiet),
        }
    }
}

/// Where a repair session stands.
#[derive(Clone, Copy, Debug, PartialEq, Eq, Structural)]
pub enum FixStage {
    Generating,
    AwaitConfirm,
    Done,
}

/// The `fix` command: asks the service to repair the statement that failed
/// last, and offers the repair to run.
pub struct FixSession {
    stage: FixStage,
    last: String,
}

impl FixSession {
    pub closed spec fn stage(&self) -> FixStage {
        self.stage
    }

    /// The repair the service gave.
    pub closed spec fn last_answer(&self) -> Seq<char> {
        self.last@
    }

    /// Starts the command with the statement that ran last and the error
    /// the session reported (`None` where either could not be read), against
    /// a database with this schema. Without an error there is nothing to
    /// repair; otherwise the repair is requested.
    pub fn start(previous: Option<String>, error_message: Option<String>, schema: &str) -> (r: (
        Self,
        SessionAction,
    ))
        ensures
            (previous is None || error_message is None) ==> r.0.stage() == FixStage::Done
                && ends_untouched(r.1, ResultCode::Error),
            previous matches Some(code) ==> (error_message matches Some(err) ==> (trim_of(err@).len() == 0 ==> {
                &&& r.0.stage() == FixStage::Done
                &&& r.1 == SessionAction::Finish(
                    Outcome {
                        code: ResultCode::SkipLine,
                        new_query: None,
                        notice: Notice::NoPreviousError,
                    },
                )
            })),
            previous matches Some(code) ==> (error_message matches Some(err) ==> (trim_of(err@).len() > 0 ==> {
                &&& r.0.stage() == FixStage::Generating
                &&& r.1 matches SessionAction::Request(m) && messages_view(m@) == seq![
                    (Role::System, system_prompt(schema@)),
                    (Role::User, fix_request(code@, err@)),
                ]
            })),
    {
        let mut s = FixSession { stage: FixStage::Done, last: String::new() };
        let code = match previous {
            Some(c) => c,
            None => {
                return (s, SessionAction::Finish(Outcome { code: ResultCode::Error, new_query: None, notice: Notice::Quiet }));
            },
        };
        let err = match error_message {
            Some(e) => e,
            None => {
                return (s, SessionAction::Finish(Outcome { code: ResultCode::Error, new_query: None, notice: Notice::Quiet }));
            },
        };
        let t = crate::prompt::trimmed(err.as_str());
        if t.unicode_len() == 0 {
            return (
                s,
                SessionAction::Finish(
                    Outcome {
                        code: ResultCode::SkipLine,
                        new_query: None,
                        notice: Notice::NoPreviousError,
                    },
                ),
            );
        }
        s.stage = FixStage::Generating;
        let m = fix_messages(code.as_str(), err.as_str(), schema);
        (s, SessionAction::Request(m))
    }

    /// Takes what came of the last action and says what to do next.
    pub fn step(&mut self, ev: SessionEvent) -> (r: SessionAction)
        ensures
            // The service answers: the repair is offered, or the session fails.
            old(self).stage() == FixStage::Generating ==> match ev {
                SessionEvent::Completion(Ok(code)) => {
                    &&& final(self).stage() == FixStage::AwaitConfirm
                    &&& final(self).last_answer() == code@
                    &&& r matches SessionAction::AskConfirm(c) && c@ == code@
                },
                SessionEvent::Completion(Err(e)) => final(self).stage() == FixStage::Done && r
                    == SessionAction::Finish(
                    Outcome { code: ResultCode::Error, new_query: None, notice: Notice::Failed(e) },
                ),
                _ => final(self).stage() == FixStage::Done && ends_untouched(r, ResultCode::Error),
            },
            // Yes replaces the pending query with the repair; anything else
            // leaves it.
            old(self).stage() == FixStage::AwaitConfirm ==> match ev {
                SessionEvent::Confirmation(Some(true)) => {
                    &&& final(self).stage() == FixStage::Done
                    &&& r matches SessionAction::Finish(o)
                    &&& o.code == ResultCode::RequestReedit
                    &&& o.new_query matches Some(q)
                    &&& q@ == old(self).last_answer()
                    &&& o.notice == Notice::Quiet
                },
                SessionEvent::Confirmation(_) => final(self).stage() == FixStage::Done && r
                    == SessionAction::Finish(
                    Outcome { code: ResultCode::SkipLine, new_query: None, notice: Notice::NotApplied },
                ),
                _ => final(self).stage() == FixStage::Done && ends_untouched(r, ResultCode::Error),
            },
            // A finished session stays finished.
            old(self).stage() == FixStage::Done ==> final(self).stage() == FixStage::Done
                && ends_untouched(r, ResultCode::Error),
    {
        match self.stage {
            FixStage::Generating => match ev {
                SessionEvent::Completion(Ok(code)) => {
                    self.last = code.clone();
                    self.stage = FixStage::AwaitConfirm;
                    SessionAction::AskConfirm(code)
                },
                SessionEvent::Completion(Err(e)) => {
                    self.stage = FixStage::Done;
                    SessionAction::Finish(
                        Outcome { code: ResultCode::Error, new_query: None, notice: Notice::Failed(e) },
                    )
                },
                _ => {
                    self.stage = FixStage::Done;
                    SessionAction::Finish(
                        Outcome { code: ResultCode::Error, new_query: None, notice: Notice::Quiet },
                    )
                },
            },
            FixStage::AwaitConfirm => {
                self.stage = FixStage::Done;
                match ev {
                    SessionEvent::Confirmation(Some(true)) => {
                        let q = self.last.clone();
                        SessionAction::Finish(
                            Outcome {
                                code: ResultCode::RequestReedit,
                                new_query: Some(q),
                                notice: Notice::Quiet,
                            },
                        )
                    },
                    SessionEvent::Confirmation(_) => SessionAction::Finish(
                        Outcome {
                            code: ResultCode::SkipLine,
                            new_query: None,
                            notice: Notice::NotApplied,
                        },
                    ),
                    _ => SessionAction::Finish(
                        Outcome { code: ResultCode::Error, new_query: None, notice: Notice::Quiet },
                    ),
                }
            },
            FixStage::Done => SessionAction::Finish(
                Outcome { code: ResultCode::Error, new_query: None, notice: Notice::Quiet },
            ),
        }
    }
}

} // verus!
