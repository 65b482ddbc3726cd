//! Identifier newtypes and the enumerations that classify records, with their text forms.
use vstd::prelude::*;
use vstd::string::*;
use crate::text::{
    decimal, decimal_string, equals_ignoring_ascii_case, lemma_parse_decimal, is_white_space, lemma_trim_fixed,
    lemma_trim_idempotent, parse_i64, parsed_i64, str_equals, str_equals_ignoring_ascii_case,
    trim_string, trimmed,
};

verus! {

/// A parse result with its error message taken by its characters.
pub open spec fn text_result<T>(r: Result<T, String>) -> Result<T, Seq<char>> {
    match r {
        Ok(v) => Ok(v),
        Err(m) => Err(m@),
    }
}

// --- Numeric identifiers ---

/// What parsing `s` as a positive identifier of the given kind gives.
pub open spec fn parse_positive_id(s: Seq<char>, kind: Seq<char>) -> Result<i64, Seq<char>> {
    match parsed_i64(s) {
        None => Err("invalid "@ + kind + " id '"@ + s + "', expected positive integer"@),
        Some(n) => if n <= 0 {
            Err("invalid "@ + kind + " id '"@ + decimal(n as int) + "', must be positive"@)
        } else {
            Ok(n)
        },
    }
}

fn parse_positive_id_str(s: &str, kind: &str) -> (res: Result<i64, String>)
    ensures
        text_result(res) == parse_positive_id(s@, kind@),
{
    match parse_i64(s) {
        None => {
            let mut m = "invalid ".to_owned();
            m.append(kind);
            m.append(" id '");
            m.append(s);
            m.append("', expected positive integer");
            Err(m)
        },
        Some(n) => {
            if n <= 0 {
                let mut m = "invalid ".to_owned();
                m.append(kind);
                m.append(" id '");
                let d = decimal_string(n);
                m.append(d.as_str());
                m.append("', must be positive");
                Err(m)
            } else {
                Ok(n)
            }
        },
    }
}

/// Identifier of a task row.
#[derive(Debug, Clone, Copy, PartialEq, Eq, Structural)]
pub struct TaskId(pub i64);

/// Identifier of a dispatch row.
#[derive(Debug, Clone, Copy, PartialEq, Eq, Structural)]
pub struct DispatchId(pub i64);

/// Identifier of a project row.
#[derive(Debug, Clone, Copy, PartialEq, Eq, Structural)]
pub struct ProjectId(pub i64);

impl TaskId {
    /// Parses a positive decimal task id.
    pub fn parse_str(s: &str) -> (res: Result<TaskId, String>)
        ensures
            text_result(res) == (match parse_positive_id(s@, "task"@) {
                Ok(n) => Ok(TaskId(n)),
                Err(m) => Err(m),
            }),
    {
        match parse_positive_id_str(s, "task") {
            Ok(n) => Ok(TaskId(n)),
            Err(m) => Err(m),
        }
    }

    /// The decimal text of the id.
    pub fn to_string(&self) -> (res: String)
        ensures
            res@ == decimal(self.0 as int),
    {
        decimal_string(self.0)
    }
}

impl DispatchId {
    /// Parses a positive decimal dispatch id.
    pub fn parse_str(s: &str) -> (res: Result<DispatchId, String>)
        ensures
            text_result(res) == (match parse_positive_id(s@, "dispatch"@) {
                Ok(n) => Ok(DispatchId(n)),
                Err(m) => Err(m),
            }),
    {
        match parse_positive_id_str(s, "dispatch") {
            Ok(n) => Ok(DispatchId(n)),
            Err(m) => Err(m),
        }
    }

    /// The decimal text of the id.
    pub fn to_string(&self) -> (res: String)
        ensures
            res@ == decimal(self.0 as int),
    {
        decimal_string(self.0)
    }
}

impl ProjectId {
    /// Parses a positive decimal project id.
    pub fn parse_str(s: &str) -> (res: Result<ProjectId, String>)
        ensures
            text_result(res) == (match parse_positive_id(s@, "project"@) {
                Ok(n) => Ok(ProjectId(n)),
                Err(m) => Err(m),
            }),
    {
        match parse_positive_id_str(s, "project") {
            Ok(n) => Ok(ProjectId(n)),
            Err(m) => Err(m),
        }
    }

    /// The decimal text of the id.
    pub fn to_string(&self) -> (res: String)
        ensures
            res@ == decimal(self.0 as int),
    {
        decimal_string(self.0)
    }
}

/// Writing a positive id in decimal and parsing it back gives the same id; and whatever
/// parses is positive.
pub proof fn id_text_round_trip(n: i64, kind: Seq<char>, s: Seq<char>)
    ensures
        n > 0 ==> parse_positive_id(decimal(n as int), kind) == Ok::<i64, Seq<char>>(n),
        parse_positive_id(s, kind) matches Ok(m) ==> m > 0,
{
    if n > 0 {
        lemma_parse_decimal(n);
    }
}

impl std::str::FromStr for TaskId {
    type Err = String;

    fn from_str(s: &str) -> (res: Result<TaskId, String>)
        ensures
            text_result(res) == (match parse_positive_id(s@, "task"@) {
                Ok(n) => Ok(TaskId(n)),
                Err(m) => Err(m),
            }),
    {
        TaskId::parse_str(s)
    }
}

impl std::str::FromStr for DispatchId {
    type Err = String;

    fn from_str(s: &str) -> (res: Result<DispatchId, String>)
        ensures
            text_result(res) == (match parse_positive_id(s@, "dispatch"@) {
                Ok(n) => Ok(DispatchId(n)),
                Err(m) => Err(m),
            }),
    {
        DispatchId::parse_str(s)
    }
}

impl std::str::FromStr for ProjectId {
    type Err = String;

    fn from_str(s: &str) -> (res: Result<ProjectId, String>)
        ensures
            text_result(res) == (match parse_positive_id(s@, "project"@) {
                Ok(n) => Ok(ProjectId(n)),
                Err(m) => Err(m),
            }),
    {
        ProjectId::parse_str(s)
    }
}

/// The number inside an optional task id.
pub open spec fn opt_task_id(o: Option<TaskId>) -> Option<i64> {
    match o {
        Some(t) => Some(t.0),
        None => None,
    }
}

/// The number inside an optional dispatch id.
pub open spec fn opt_dispatch_id(o: Option<DispatchId>) -> Option<i64> {
    match o {
        Some(t) => Some(t.0),
        None => None,
    }
}

/// The number inside an optional project id.
pub open spec fn opt_project_id(o: Option<ProjectId>) -> Option<i64> {
    match o {
        Some(t) => Some(t.0),
        None => None,
    }
}

// --- Names ---

/// What parsing `s` as a name gives: its trim, unless that is empty.
pub open spec fn parse_name(s: Seq<char>, empty_message: Seq<char>) -> Result<Seq<char>, Seq<char>> {
    if trimmed(s).len() == 0 {
        Err(empty_message)
    } else {
        Ok(trimmed(s))
    }
}

/// Name of an agent.
#[derive(Debug, Clone, PartialEq, Eq)]
pub struct Agent(pub String);

/// Name of a model.
#[derive(Debug, Clone, PartialEq, Eq)]
pub struct Model(pub String);

impl View for Agent {
    type V = Seq<char>;

    open spec fn view(&self) -> Seq<char> {
        self.0@
    }
}

impl View for Model {
    type V = Seq<char>;

    open spec fn view(&self) -> Seq<char> {
        self.0@
    }
}

/// The name inside an optional agent.
pub open spec fn opt_agent(o: Option<Agent>) -> Option<Seq<char>> {
    match o {
        Some(a) => Some(a@),
        None => None,
    }
}

impl Agent {
    /// Parses an agent name: surrounding white space is dropped and the rest must be non-empty.
    pub fn parse_str(s: &str) -> (res: Result<Agent, String>)
        ensures
            match res {
                Ok(a) => parse_name(s@, "agent name cannot be empty"@) == Ok::<Seq<char>, Seq<char>>(a@),
                Err(m) => parse_name(s@, "agent name cannot be empty"@) == Err::<Seq<char>, Seq<char>>(m@),
            },
    {
        let t = trim_string(s);
        if t.unicode_len() == 0 {
            Err("agent name cannot be empty".to_owned())
        } else {
            Ok(Agent(t))
        }
    }

    /// The name itself.
    pub fn to_string(&self) -> (res: String)
        ensures
            res@ == self@,
    {
        self.0.clone()
    }
}

impl Model {
    /// Parses a model name: surrounding white space is dropped and the rest must be non-empty.
    pub fn parse_str(s: &str) -> (res: Result<Model, String>)
        ensures
            match res {
                Ok(a) => parse_name(s@, "model name cannot be empty"@) == Ok::<Seq<char>, Seq<char>>(a@),
                Err(m) => parse_name(s@, "model name cannot be empty"@) == Err::<Seq<char>, Seq<char>>(m@),
            },
    {
        let t = trim_string(s);
        if t.unicode_len() == 0 {
            Err("model name cannot be empty".to_owned())
        } else {
            Ok(Model(t))
        }
    }

    /// The name itself.
    pub fn to_string(&self) -> (res: String)
        ensures
            res@ == self@,
    {
        self.0.clone()
    }
}

impl std::str::FromStr for Agent {
    type Err = String;

    fn from_str(s: &str) -> (res: Result<Agent, String>)
        ensures
            match res {
                Ok(a) => parse_name(s@, "agent name cannot be empty"@) == Ok::<Seq<char>, Seq<char>>(a@),
                Err(m) => parse_name(s@, "agent name cannot be empty"@) == Err::<Seq<char>, Seq<char>>(m@),
            },
    {
        Agent::parse_str(s)
    }
}

impl std::str::FromStr for Model {
    type Err = String;

    fn from_str(s: &str) -> (res: Result<Model, String>)
        ensures
            match res {
                Ok(a) => parse_name(s@, "model name cannot be empty"@) == Ok::<Seq<char>, Seq<char>>(a@),
                Err(m) => parse_name(s@, "model name cannot be empty"@) == Err::<Seq<char>, Seq<char>>(m@),
            },
    {
        Model::parse_str(s)
    }
}

/// Parsing a name that was already parsed gives it back unchanged.
pub proof fn name_parse_idempotent(s: Seq<char>, empty_message: Seq<char>)
    ensures
        parse_name(s, empty_message) matches Ok(t) ==> parse_name(t, empty_message) == Ok::<Seq<char>, Seq<char>>(t),
{
    lemma_trim_idempotent(s);
}

// --- Provider ---

/// Vendor of the model a dispatch ran on.
#[derive(Debug, Clone, PartialEq, Eq)]
pub enum Provider {
    Anthropic,
    Google,
    OpenAi,
    Other(String),
}

/// A provider with its free-form name taken by its characters.
pub enum ProviderView {
    Anthropic,
    Google,
    OpenAi,
    Other(Seq<char>),
}

impl View for Provider {
    type V = ProviderView;

    open spec fn view(&self) -> ProviderView {
        match self {
            Provider::Anthropic => ProviderView::Anthropic,
            Provider::Google => ProviderView::Google,
            Provider::OpenAi => ProviderView::OpenAi,
            Provider::Other(s) => ProviderView::Other(s@),
        }
    }
}

/// The text each provider is written as.
pub open spec fn provider_name(p: ProviderView) -> Seq<char> {
    match p {
        ProviderView::Anthropic => "anthropic"@,
        ProviderView::Google => "google"@,
        ProviderView::OpenAi => "openai"@,
        ProviderView::Other(s) => s,
    }
}

/// What parsing `s` as a provider gives. The trimmed text is compared with the three known
/// names regardless of letter case; any other non-empty text is kept as given (trimmed).
pub open spec fn parse_provider(s: Seq<char>) -> Result<ProviderView, Seq<char>> {
    let t = trimmed(s);
    if t.len() == 0 {
        Err("provider cannot be empty"@)
    } else if equals_ignoring_ascii_case(t, "anthropic"@) {
        Ok(ProviderView::Anthropic)
    } else if equals_ignoring_ascii_case(t, "google"@) {
        Ok(ProviderView::Google)
    } else if equals_ignoring_ascii_case(t, "openai"@) {
        Ok(ProviderView::OpenAi)
    } else {
        Ok(ProviderView::Other(t))
    }
}

impl Provider {
    /// Parses a provider name.
    pub fn parse_str(s: &str) -> (res: Result<Provider, String>)
        ensures
            match res {
                Ok(p) => parse_provider(s@) == Ok::<ProviderView, Seq<char>>(p@),
                Err(m) => parse_provider(s@) == Err::<ProviderView, Seq<char>>(m@),
            },
    {
        let t = trim_string(s);
        if t.unicode_len() == 0 {
            Err("provider cannot be empty".to_owned())
        } else if str_equals_ignoring_ascii_case(t.as_str(), "anthropic") {
            Ok(Provider::Anthropic)
        } else if str_equals_ignoring_ascii_case(t.as_str(), "google") {
            Ok(Provider::Google)
        } else if str_equals_ignoring_ascii_case(t.as_str(), "openai") {
            Ok(Provider::OpenAi)
        } else {
            Ok(Provider::Other(t))
        }
    }

    /// The text of the provider.
    pub fn to_string(&self) -> (res: String)
        ensures
            res@ == provider_name(self@),
    {
        match self {
            Provider::Anthropic => "anthropic".to_owned(),
            Provider::Google => "google".to_owned(),
            Provider::OpenAi => "openai".to_owned(),
            Provider::Other(s) => s.clone(),
        }
    }
}

impl std::str::FromStr for Provider {
    type Err = String;

    fn from_str(s: &str) -> (res: Result<Provider, String>)
        ensures
            match res {
                Ok(p) => parse_provider(s@) == Ok::<ProviderView, Seq<char>>(p@),
                Err(m) => parse_provider(s@) == Err::<ProviderView, Seq<char>>(m@),
            },
    {
        Provider::parse_str(s)
    }
}

/// Writing a provider and parsing the text back gives the same provider, for the three known
/// providers and for every free-form name that is already trimmed, non-empty and not one of the
/// known names in another letter case.
pub proof fn provider_text_round_trip(p: ProviderView)
    requires
        p matches ProviderView::Other(s) ==> {
            &&& s.len() > 0
            &&& trimmed(s) == s
            &&& !equals_ignoring_ascii_case(s, "anthropic"@)
            &&& !equals_ignoring_ascii_case(s, "google"@)
            &&& !equals_ignoring_ascii_case(s, "openai"@)
        },
    ensures
        parse_provider(provider_name(p)) == Ok::<ProviderView, Seq<char>>(p),
{
    reveal_strlit("anthropic");
    reveal_strlit("google");
    reveal_strlit("openai");
    match p {
        ProviderView::Anthropic => {
            lemma_trim_fixed("anthropic"@);
            assert(!is_white_space("anthropic"@[0]));
            assert(equals_ignoring_ascii_case("anthropic"@, "anthropic"@));
        },
        ProviderView::Google => {
            lemma_trim_fixed("google"@);
            assert(equals_ignoring_ascii_case("google"@, "google"@));
        },
        ProviderView::OpenAi => {
            lemma_trim_fixed("openai"@);
            assert(!equals_ignoring_ascii_case("openai"@, "google"@));
            assert(equals_ignoring_ascii_case("openai"@, "openai"@));
        },
        ProviderView::Other(s) => {},
    }
}

// --- Enumerations with a fixed text form ---

/// Lifecycle state of a task.
#[derive(Debug, Clone, Copy, PartialEq, Eq, Structural)]
pub enum TaskStatus {
    Open,
    InProgress,
    Done,
    Blocked,
}

/// The text each `TaskStatus` is written as.
pub open spec fn task_status_name(v: TaskStatus) -> Seq<char> {
    match v {
        TaskStatus::Open => "open"@,
        TaskStatus::InProgress => "in_progress"@,
        TaskStatus::Done => "done"@,
        TaskStatus::Blocked => "blocked"@,
    }
}

/// What parsing `s` as a `TaskStatus` gives: the variant whose text is exactly `s`, else an error naming `s`.
pub open spec fn parse_task_status(s: Seq<char>) -> Result<TaskStatus, Seq<char>> {
    if s == "open"@ {
        Ok(TaskStatus::Open)
    } else if s == "in_progress"@ {
        Ok(TaskStatus::InProgress)
    } else if s == "done"@ {
        Ok(TaskStatus::Done)
    } else if s == "blocked"@ {
        Ok(TaskStatus::Blocked)
    } else {
        Err("invalid status '"@ + s + "', expected one of: open, in_progress, done, blocked"@)
    }
}

impl TaskStatus {
    /// The text of this value.
    pub fn to_string(&self) -> (res: String)
        ensures
            res@ == task_status_name(*self),
    {
        match self {
            TaskStatus::Open => "open".to_owned(),
            TaskStatus::InProgress => "in_progress".to_owned(),
            TaskStatus::Done => "done".to_owned(),
            TaskStatus::Blocked => "blocked".to_owned(),
        }
    }

    /// Parses the exact text of a value.
    pub fn parse_str(s: &str) -> (res: Result<TaskStatus, String>)
        ensures
            text_result(res) == parse_task_status(s@),
    {
        if str_equals(s, "open") {
            Ok(TaskStatus::Open)
        } else if str_equals(s, "in_progress") {
            Ok(TaskStatus::InProgress)
        } else if str_equals(s, "done") {
            Ok(TaskStatus::Done)
        } else if str_equals(s, "blocked") {
            Ok(TaskStatus::Blocked)
        } else {
            let mut m = "invalid status '".to_owned();
            m.append(s);
            m.append("', expected one of: open, in_progress, done, blocked");
            Err(m)
        }
    }
}

impl std::str::FromStr for TaskStatus {
    type Err = String;

    fn from_str(s: &str) -> (res: Result<TaskStatus, String>)
        ensures
            text_result(res) == parse_task_status(s@),
    {
        TaskStatus::parse_str(s)
    }
}

/// Parsing the text of any `TaskStatus` gives that value back, and the only texts that parse are
/// those texts.
pub proof fn task_status_text_round_trip(v: TaskStatus, s: Seq<char>)
    ensures
        parse_task_status(task_status_name(v)) == Ok::<TaskStatus, Seq<char>>(v),
        parse_task_status(s) matches Ok(w) ==> task_status_name(w) == s,
{
    reveal_strlit("open");
    reveal_strlit("in_progress");
    reveal_strlit("done");
    reveal_strlit("blocked");
    assert("in_progress"@[0] != "open"@[0]);
    assert("in_progress"@ != "open"@);
    assert("done"@[0] != "open"@[0]);
    assert("done"@ != "open"@);
    assert("done"@[0] != "in_progress"@[0]);
    assert("done"@ != "in_progress"@);
    assert("blocked"@[0] != "open"@[0]);
    assert("blocked"@ != "open"@);
    assert("blocked"@[0] != "in_progress"@[0]);
    assert("blocked"@ != "in_progress"@);
    assert("blocked"@[0] != "done"@[0]);
    assert("blocked"@ != "done"@);
}

/// Outcome state of a dispatch.
#[derive(Debug, Clone, Copy, PartialEq, Eq, Structural)]
pub enum DispatchStatus {
    InProgress,
    Completed,
    Failed,
}

/// The text each `DispatchStatus` is written as.
pub open spec fn dispatch_status_name(v: DispatchStatus) -> Seq<char> {
    match v {
        DispatchStatus::InProgress => "in_progress"@,
        DispatchStatus::Completed => "completed"@,
        DispatchStatus::Failed => "failed"@,
    }
}

/// What parsing `s` as a `DispatchStatus` gives: the variant whose text is exactly `s`, else an error naming `s`.
pub open spec fn parse_dispatch_status(s: Seq<char>) -> Result<DispatchStatus, Seq<char>> {
    if s == "in_progress"@ {
        Ok(DispatchStatus::InProgress)
    } else if s == "completed"@ {
        Ok(DispatchStatus::Completed)
    } else if s == "failed"@ {
        Ok(DispatchStatus::Failed)
    } else {
        Err("invalid dispatch status '"@ + s + "', expected one of: in_progress, completed, failed"@)
    }
}

impl DispatchStatus {
    /// The text of this value.
    pub fn to_string(&self) -> (res: String)
        ensures
            res@ == dispatch_status_name(*self),
    {
        match self {
            DispatchStatus::InProgress => "in_progress".to_owned(),
            DispatchStatus::Completed => "completed".to_owned(),
            DispatchStatus::Failed => "failed".to_owned(),
        }
    }

    /// Parses the exact text of a value.
    pub fn parse_str(s: &str) -> (res: Result<DispatchStatus, String>)
        ensures
            text_result(res) == parse_dispatch_status(s@),
    {
        if str_equals(s, "in_progress") {
            Ok(DispatchStatus::InProgress)
        } else if str_equals(s, "completed") {
            Ok(DispatchStatus::Completed)
        } else if str_equals(s, "failed") {
            Ok(DispatchStatus::Failed)
        } else {
            let mut m = "invalid dispatch status '".to_owned();
            m.append(s);
            m.append("', expected one of: in_progress, completed, failed");
            Err(m)
        }
    }
}

impl std::str::FromStr for DispatchStatus {
    type Err = String;

    fn from_str(s: &str) -> (res: Result<DispatchStatus, String>)
        ensures
            text_result(res) == parse_dispatch_status(s@),
    {
        DispatchStatus::parse_str(s)
    }
}

/// Parsing the text of any `DispatchStatus` gives that value back, and the only texts that parse are
/// those texts.
pub proof fn dispatch_status_text_round_trip(v: DispatchStatus, s: Seq<char>)
    ensures
        parse_dispatch_status(dispatch_status_name(v)) == Ok::<DispatchStatus, Seq<char>>(v),
        parse_dispatch_status(s) matches Ok(w) ==> dispatch_status_name(w) == s,
{
    reveal_strlit("in_progress");
    reveal_strlit("completed");
    reveal_strlit("failed");
    assert("completed"@[0] != "in_progress"@[0]);
    assert("completed"@ != "in_progress"@);
    assert("failed"@[0] != "in_progress"@[0]);
    assert("failed"@ != "in_progress"@);
    assert("failed"@[0] != "completed"@[0]);
    assert("failed"@ != "completed"@);
}

/// Kind of event recorded inside a dispatch.
#[derive(Debug, Clone, Copy, PartialEq, Eq, Structural)]
pub enum EventType {
    Routing,
    Decision,
    Error,
    SelfCorrection,
    ApproachChange,
    ReviewFailure,
}

/// The text each `EventType` is written as.
pub open spec fn event_type_name(v: EventType) -> Seq<char> {
    match v {
        EventType::Routing => "routing"@,
        EventType::Decision => "decision"@,
        EventType::Error => "error"@,
        EventType::SelfCorrection => "self_correction"@,
        EventType::ApproachChange => "approach_change"@,
        EventType::ReviewFailure => "review_failure"@,
    }
}

/// What parsing `s` as a `EventType` gives: the variant whose text is exactly `s`, else an error naming `s`.
pub open spec fn parse_event_type(s: Seq<char>) -> Result<EventType, Seq<char>> {
    if s == "routing"@ {
        Ok(EventType::Routing)
    } else if s == "decision"@ {
        Ok(EventType::Decision)
    } else if s == "error"@ {
        Ok(EventType::Error)
    } else if s == "self_correction"@ {
        Ok(EventType::SelfCorrection)
    } else if s == "approach_change"@ {
        Ok(EventType::ApproachChange)
    } else if s == "review_failure"@ {
        Ok(EventType::ReviewFailure)
    } else {
        Err("invalid event type '"@ + s + "', expected one of: routing, decision, error, self_correction, approach_change, review_failure"@)
    }
}

impl EventType {
    /// The text of this value.
    pub fn to_string(&self) -> (res: String)
        ensures
            res@ == event_type_name(*self),
    {
        match self {
            EventType::Routing => "routing".to_owned(),
            EventType::Decision => "decision".to_owned(),
            EventType::Error => "error".to_owned(),
            EventType::SelfCorrection => "self_correction".to_owned(),
            EventType::ApproachChange => "approach_change".to_owned(),
            EventType::ReviewFailure => "review_failure".to_owned(),
        }
    }

    /// Parses the exact text of a value.
    pub fn parse_str(s: &str) -> (res: Result<EventType, String>)
        ensures
            text_result(res) == parse_event_type(s@),
    {
        if str_equals(s, "routing") {
            Ok(EventType::Routing)
        } else if str_equals(s, "decision") {
            Ok(EventType::Decision)
        } else if str_equals(s, "error") {
            Ok(EventType::Error)
        } else if str_equals(s, "self_correction") {
            Ok(EventType::SelfCorrection)
        } else if str_equals(s, "approach_change") {
            Ok(EventType::ApproachChange)
        } else if str_equals(s, "review_failure") {
            Ok(EventType::ReviewFailure)
        } else {
            let mut m = "invalid event type '".to_owned();
            m.append(s);
            m.append("', expected one of: routing, decision, error, self_correction, approach_change, review_failure");
            Err(m)
        }
    }
}

impl std::str::FromStr for EventType {
    type Err = String;

    fn from_str(s: &str) -> (res: Result<EventType, String>)
        ensures
            text_result(res) == parse_event_type(s@),
    {
        EventType::parse_str(s)
    }
}

/// Parsing the text of any `EventType` gives that value back, and the only texts that parse are
/// those texts.
pub proof fn event_type_text_round_trip(v: EventType, s: Seq<char>)
    ensures
        parse_event_type(event_type_name(v)) == Ok::<EventType, Seq<char>>(v),
        parse_event_type(s) matches Ok(w) ==> event_type_name(w) == s,
{
    reveal_strlit("routing");
    reveal_strlit("decision");
    reveal_strlit("error");
    reveal_strlit("self_correction");
    reveal_strlit("approach_change");
    reveal_strlit("review_failure");
    assert("decision"@[0] != "routing"@[0]);
    assert("decision"@ != "routing"@);
    assert("error"@[0] != "routing"@[0]);
    assert("error"@ != "routing"@);
    assert("error"@[0] != "decision"@[0]);
    assert("error"@ != "decision"@);
    assert("self_correction"@[0] != "routing"@[0]);
    assert("self_correction"@ != "routing"@);
    assert("self_correction"@[0] != "decision"@[0]);
    assert("self_correction"@ != "decision"@);
    assert("self_correction"@[0] != "error"@[0]);
    assert("self_correction"@ != "error"@);
    assert("approach_change"@[0] != "routing"@[0]);
    assert("approach_change"@ != "routing"@);
    assert("approach_change"@[0] != "decision"@[0]);
    assert("approach_change"@ != "decision"@);
    assert("approach_change"@[0] != "error"@[0]);
    assert("approach_change"@ != "error"@);
    assert("approach_change"@[0] != "self_correction"@[0]);
    assert("approach_change"@ != "self_correction"@);
    assert("review_failure"@[1] != "routing"@[1]);
    assert("review_failure"@ != "routing"@);
    assert("review_failure"@[0] != "decision"@[0]);
    assert("review_failure"@ != "decision"@);
    assert("review_failure"@[0] != "error"@[0]);
    assert("review_failure"@ != "error"@);
    assert("review_failure"@[0] != "self_correction"@[0]);
    assert("review_failure"@ != "self_correction"@);
    assert("review_failure"@[0] != "approach_change"@[0]);
    assert("review_failure"@ != "approach_change"@);
}

/// Severity of a dispatch event.
#[derive(Debug, Clone, Copy, PartialEq, Eq, Structural)]
pub enum Severity {
    Info,
    Warning,
    Error,
}

/// The text each `Severity` is written as.
pub open spec fn severity_name(v: Severity) -> Seq<char> {
    match v {
        Severity::Info => "info"@,
        Severity::Warning => "warning"@,
        Severity::Error => "error"@,
    }
}

/// What parsing `s` as a `Severity` gives: the variant whose text is exactly `s`, else an error naming `s`.
pub open spec fn parse_severity(s: Seq<char>) -> Result<Severity, Seq<char>> {
    if s == "info"@ {
        Ok(Severity::Info)
    } else if s == "warning"@ {
        Ok(Severity::Warning)
    } else if s == "error"@ {
        Ok(Severity::Error)
    } else {
        Err("invalid severity '"@ + s + "', expected one of: info, warning, error"@)
    }
}

impl Severity {
    /// The text of this value.
    pub fn to_string(&self) -> (res: String)
        ensures
            res@ == severity_name(*self),
    {
        match self {
            Severity::Info => "info".to_owned(),
            Severity::Warning => "warning".to_owned(),
            Severity::Error => "error".to_owned(),
        }
    }

    /// Parses the exact text of a value.
    pub fn parse_str(s: &str) -> (res: Result<Severity, String>)
        ensures
            text_result(res) == parse_severity(s@),
    {
        if str_equals(s, "info") {
            Ok(Severity::Info)
        } else if str_equals(s, "warning") {
            Ok(Severity::Warning)
        } else if str_equals(s, "error") {
            Ok(Severity::Error)
        } else {
            let mut m = "invalid severity '".to_owned();
            m.append(s);
            m.append("', expected one of: info, warning, error");
            Err(m)
        }
    }
}

impl std::str::FromStr for Severity {
    type Err = String;

    fn from_str(s: &str) -> (res: Result<Severity, String>)
        ensures
            text_result(res) == parse_severity(s@),
    {
        Severity::parse_str(s)
    }
}

/// Parsing the text of any `Severity` gives that value back, and the only texts that parse are
/// those texts.
pub proof fn severity_text_round_trip(v: Severity, s: Seq<char>)
    ensures
        parse_severity(severity_name(v)) == Ok::<Severity, Seq<char>>(v),
        parse_severity(s) matches Ok(w) ==> severity_name(w) == s,
{
    reveal_strlit("info");
    reveal_strlit("warning");
    reveal_strlit("error");
    assert("warning"@[0] != "info"@[0]);
    assert("warning"@ != "info"@);
    assert("error"@[0] != "info"@[0]);
    assert("error"@ != "info"@);
    assert("error"@[0] != "warning"@[0]);
    assert("error"@ != "warning"@);
}

/// Priority of a task.
#[derive(Debug, Clone, Copy, PartialEq, Eq, Structural)]
pub enum Priority {
    Low,
    Medium,
    High,
    Critical,
}

/// The text each `Priority` is written as.
pub open spec fn priority_name(v: Priority) -> Seq<char> {
    match v {
        Priority::Low => "low"@,
        Priority::Medium => "medium"@,
        Priority::High => "high"@,
        Priority::Critical => "critical"@,
    }
}

/// What parsing `s` as a `Priority` gives: the variant whose text is exactly `s`, else an error naming `s`.
pub open spec fn parse_priority(s: Seq<char>) -> Result<Priority, Seq<char>> {
    if s == "low"@ {
        Ok(Priority::Low)
    } else if s == "medium"@ {
        Ok(Priority::Medium)
    } else if s == "high"@ {
        Ok(Priority::High)
    } else if s == "critical"@ {
        Ok(Priority::Critical)
    } else {
        Err("invalid priority '"@ + s + "', expected one of: low, medium, high, critical"@)
    }
}

impl Priority {
    /// The text of this value.
    pub fn to_string(&self) -> (res: String)
        ensures
            res@ == priority_name(*self),
    {
        match self {
            Priority::Low => "low".to_owned(),
            Priority::Medium => "medium".to_owned(),
            Priority::High => "high".to_owned(),
            Priority::Critical => "critical".to_owned(),
        }
    }

    /// Parses the exact text of a value.
    pub fn parse_str(s: &str) -> (res: Result<Priority, String>)
        ensures
            text_result(res) == parse_priority(s@),
    {
        if str_equals(s, "low") {
            Ok(Priority::Low)
        } else if str_equals(s, "medium") {
            Ok(Priority::Medium)
        } else if str_equals(s, "high") {
            Ok(Priority::High)
        } else if str_equals(s, "critical") {
            Ok(Priority::Critical)
        } else {
            let mut m = "invalid priority '".to_owned();
            m.append(s);
            m.append("', expected one of: low, medium, high, critical");
            Err(m)
        }
    }
}

impl std::str::FromStr for Priority {
    type Err = String;

    fn from_str(s: &str) -> (res: Result<Priority, String>)
        ensures
            text_result(res) == parse_priority(s@),
    {
        Priority::parse_str(s)
    }
}

/// Parsing the text of any `Priority` gives that value back, and the only texts that parse are
/// those texts.
pub proof fn priority_text_round_trip(v: Priority, s: Seq<char>)
    ensures
        parse_priority(priority_name(v)) == Ok::<Priority, Seq<char>>(v),
        parse_priority(s) matches Ok(w) ==> priority_name(w) == s,
{
    reveal_strlit("low");
    reveal_strlit("medium");
    reveal_strlit("high");
    reveal_strlit("critical");
    assert("medium"@[0] != "low"@[0]);
    assert("medium"@ != "low"@);
    assert("high"@[0] != "low"@[0]);
    assert("high"@ != "low"@);
    assert("high"@[0] != "medium"@[0]);
    assert("high"@ != "medium"@);
    assert("critical"@[0] != "low"@[0]);
    assert("critical"@ != "low"@);
    assert("critical"@[0] != "medium"@[0]);
    assert("critical"@ != "medium"@);
    assert("critical"@[0] != "high"@[0]);
    assert("critical"@ != "high"@);
}

/// Kind of session event.
#[derive(Debug, Clone, Copy, PartialEq, Eq, Structural)]
pub enum SessionEventType {
    Clarification,
    Revision,
    CourseCorrection,
}

/// The text each `SessionEventType` is written as.
pub open spec fn session_event_type_name(v: SessionEventType) -> Seq<char> {
    match v {
        SessionEventType::Clarification => "clarification"@,
        SessionEventType::Revision => "revision"@,
        SessionEventType::CourseCorrection => "course_correction"@,
    }
}

/// What parsing `s` as a `SessionEventType` gives: the variant whose text is exactly `s`, else an error naming `s`.
pub open spec fn parse_session_event_type(s: Seq<char>) -> Result<SessionEventType, Seq<char>> {
    if s == "clarification"@ {
        Ok(SessionEventType::Clarification)
    } else if s == "revision"@ {
        Ok(SessionEventType::Revision)
    } else if s == "course_correction"@ {
        Ok(SessionEventType::CourseCorrection)
    } else {
        Err("invalid session event type '"@ + s + "', expected one of: clarification, revision, course_correction"@)
    }
}

impl SessionEventType {
    /// The text of this value.
    pub fn to_string(&self) -> (res: String)
        ensures
            res@ == session_event_type_name(*self),
    {
        match self {
            SessionEventType::Clarification => "clarification".to_owned(),
            SessionEventType::Revision => "revision".to_owned(),
            SessionEventType::CourseCorrection => "course_correction".to_owned(),
        }
    }

    /// Parses the exact text of a value.
    pub fn parse_str(s: &str) -> (res: Result<SessionEventType, String>)
        ensures
            text_result(res) == parse_session_event_type(s@),
    {
        if str_equals(s, "clarification") {
            Ok(SessionEventType::Clarification)
        } else if str_equals(s, "revision") {
            Ok(SessionEventType::Revision)
        } else if str_equals(s, "course_correction") {
            Ok(SessionEventType::CourseCorrection)
        } else {
            let mut m = "invalid session event type '".to_owned();
            m.append(s);
            m.append("', expected one of: clarification, revision, course_correction");
            Err(m)
        }
    }
}

impl std::str::FromStr for SessionEventType {
    type Err = String;

    fn from_str(s: &str) -> (res: Result<SessionEventType, String>)
        ensures
            text_result(res) == parse_session_event_type(s@),
    {
        SessionEventType::parse_str(s)
    }
}

/// Parsing the text of any `SessionEventType` gives that value back, and the only texts that parse are
/// those texts.
pub proof fn session_event_type_text_round_trip(v: SessionEventType, s: Seq<char>)
    ensures
        parse_session_event_type(session_event_type_name(v)) == Ok::<SessionEventType, Seq<char>>(v),
        parse_session_event_type(s) matches Ok(w) ==> session_event_type_name(w) == s,
{
    reveal_strlit("clarification");
    reveal_strlit("revision");
    reveal_strlit("course_correction");
    assert("revision"@[0] != "clarification"@[0]);
    assert("revision"@ != "clarification"@);
    assert("course_correction"@[1] != "clarification"@[1]);
    assert("course_correction"@ != "clarification"@);
    assert("course_correction"@[0] != "revision"@[0]);
    assert("course_correction"@ != "revision"@);
}

/// Topic a session event is about.
#[derive(Debug, Clone, Copy, PartialEq, Eq, Structural)]
pub enum SessionCategory {
    Scope,
    AcceptanceCriteria,
    Context,
    Routing,
    Priority,
}

/// The text each `SessionCategory` is written as.
pub open spec fn session_category_name(v: SessionCategory) -> Seq<char> {
    match v {
        SessionCategory::Scope => "scope"@,
        SessionCategory::AcceptanceCriteria => "acceptance_criteria"@,
        SessionCategory::Context => "context"@,
        SessionCategory::Routing => "routing"@,
        SessionCategory::Priority => "priority"@,
    }
}

/// What parsing `s` as a `SessionCategory` gives: the variant whose text is exactly `s`, else an error naming `s`.
pub open spec fn parse_session_category(s: Seq<char>) -> Result<SessionCategory, Seq<char>> {
    if s == "scope"@ {
        Ok(SessionCategory::Scope)
    } else if s == "acceptance_criteria"@ {
        Ok(SessionCategory::AcceptanceCriteria)
    } else if s == "context"@ {
        Ok(SessionCategory::Context)
    } else if s == "routing"@ {
        Ok(SessionCategory::Routing)
    } else if s == "priority"@ {
        Ok(SessionCategory::Priority)
    } else {
        Err("invalid session category '"@ + s + "', expected one of: scope, acceptance_criteria, context, routing, priority"@)
    }
}

impl SessionCategory {
    /// The text of this value.
    pub fn to_string(&self) -> (res: String)
        ensures
            res@ == session_category_name(*self),
    {
        match self {
            SessionCategory::Scope => "scope".to_owned(),
            SessionCategory::AcceptanceCriteria => "acceptance_criteria".to_owned(),
            SessionCategory::Context => "context".to_owned(),
            SessionCategory::Routing => "routing".to_owned(),
            SessionCategory::Priority => "priority".to_owned(),
        }
    }

    /// Parses the exact text of a value.
    pub fn parse_str(s: &str) -> (res: Result<SessionCategory, String>)
        ensures
            text_result(res) == parse_session_category(s@),
    {
        if str_equals(s, "scope") {
            Ok(SessionCategory::Scope)
        } else if str_equals(s, "acceptance_criteria") {
            Ok(SessionCategory::AcceptanceCriteria)
        } else if str_equals(s, "context") {
            Ok(SessionCategory::Context)
        } else if str_equals(s, "routing") {
            Ok(SessionCategory::Routing)
        } else if str_equals(s, "priority") {
            Ok(SessionCategory::Priority)
        } else {
            let mut m = "invalid session category '".to_owned();
            m.append(s);
            m.append("', expected one of: scope, acceptance_criteria, context, routing, priority");
            Err(m)
        }
    }
}

impl std::str::FromStr for SessionCategory {
    type Err = String;

    fn from_str(s: &str) -> (res: Result<SessionCategory, String>)
        ensures
            text_result(res) == parse_session_category(s@),
    {
        SessionCategory::parse_str(s)
    }
}

/// Parsing the text of any `SessionCategory` gives that value back, and the only texts that parse are
/// those texts.
pub proof fn session_category_text_round_trip(v: SessionCategory, s: Seq<char>)
    ensures
        parse_session_category(session_category_name(v)) == Ok::<SessionCategory, Seq<char>>(v),
        parse_session_category(s) matches Ok(w) ==> session_category_name(w) == s,
{
    reveal_strlit("scope");
    reveal_strlit("acceptance_criteria");
    reveal_strlit("context");
    reveal_strlit("routing");
    reveal_strlit("priority");
    assert("acceptance_criteria"@[0] != "scope"@[0]);
    assert("acceptance_criteria"@ != "scope"@);
    assert("context"@[0] != "scope"@[0]);
    assert("context"@ != "scope"@);
    assert("context"@[0] != "acceptance_criteria"@[0]);
    assert("context"@ != "acceptance_criteria"@);
    assert("routing"@[0] != "scope"@[0]);
    assert("routing"@ != "scope"@);
    assert("routing"@[0] != "acceptance_criteria"@[0]);
    assert("routing"@ != "acceptance_criteria"@);
    assert("routing"@[0] != "context"@[0]);
    assert("routing"@ != "context"@);
    assert("priority"@[0] != "scope"@[0]);
    assert("priority"@ != "scope"@);
    assert("priority"@[0] != "acceptance_criteria"@[0]);
    assert("priority"@ != "acceptance_criteria"@);
    assert("priority"@[0] != "context"@[0]);
    assert("priority"@ != "context"@);
    assert("priority"@[0] != "routing"@[0]);
    assert("priority"@ != "routing"@);
}

/// Kind of scope violation.
#[derive(Debug, Clone, Copy, PartialEq, Eq, Structural)]
pub enum ViolationType {
    Scope,
    PermissionDenied,
    CdRequired,
}

/// The text each `ViolationType` is written as.
pub open spec fn violation_type_name(v: ViolationType) -> Seq<char> {
    match v {
        ViolationType::Scope => "scope"@,
        ViolationType::PermissionDenied => "permission_denied"@,
        ViolationType::CdRequired => "cd_required"@,
    }
}

/// What parsing `s` as a `ViolationType` gives: the variant whose text is exactly `s`, else an error naming `s`.
pub open spec fn parse_violation_type(s: Seq<char>) -> Result<ViolationType, Seq<char>> {
    if s == "scope"@ {
        Ok(ViolationType::Scope)
    } else if s == "permission_denied"@ {
        Ok(ViolationType::PermissionDenied)
    } else if s == "cd_required"@ {
        Ok(ViolationType::CdRequired)
    } else {
        Err("invalid violation type '"@ + s + "', expected one of: scope, permission_denied, cd_required"@)
    }
}

impl ViolationType {
    /// The text of this value.
    pub fn to_string(&self) -> (res: String)
        ensures
            res@ == violation_type_name(*self),
    {
        match self {
            ViolationType::Scope => "scope".to_owned(),
            ViolationType::PermissionDenied => "permission_denied".to_owned(),
            ViolationType::CdRequired => "cd_required".to_owned(),
        }
    }

    /// Parses the exact text of a value.
    pub fn parse_str(s: &str) -> (res: Result<ViolationType, String>)
        ensures
            text_result(res) == parse_violation_type(s@),
    {
        if str_equals(s, "scope") {
            Ok(ViolationType::Scope)
        } else if str_equals(s, "permission_denied") {
            Ok(ViolationType::PermissionDenied)
        } else if str_equals(s, "cd_required") {
            Ok(ViolationType::CdRequired)
        } else {
            let mut m = "invalid violation type '".to_owned();
            m.append(s);
            m.append("', expected one of: scope, permission_denied, cd_required");
            Err(m)
        }
    }
}

impl std::str::FromStr for ViolationType {
    type Err = String;

    fn from_str(s: &str) -> (res: Result<ViolationType, String>)
        ensures
            text_result(res) == parse_violation_type(s@),
    {
        ViolationType::parse_str(s)
    }
}

/// Parsing the text of any `ViolationType` gives that value back, and the only texts that parse are
/// those texts.
pub proof fn violation_type_text_round_trip(v: ViolationType, s: Seq<char>)
    ensures
        parse_violation_type(violation_type_name(v)) == Ok::<ViolationType, Seq<char>>(v),
        parse_violation_type(s) matches Ok(w) ==> violation_type_name(w) == s,
{
    reveal_strlit("scope");
    reveal_strlit("permission_denied");
    reveal_strlit("cd_required");
    assert("permission_denied"@[0] != "scope"@[0]);
    assert("permission_denied"@ != "scope"@);
    assert("cd_required"@[0] != "scope"@[0]);
    assert("cd_required"@ != "scope"@);
    assert("cd_required"@[0] != "permission_denied"@[0]);
    assert("cd_required"@ != "permission_denied"@);
}

/// Model tier a dispatch ran on.
#[derive(Debug, Clone, Copy, PartialEq, Eq, Structural)]
pub enum DispatchTier {
    T1,
    T2,
    T3,
}

/// The text each `DispatchTier` is written as.
pub open spec fn dispatch_tier_name(v: DispatchTier) -> Seq<char> {
    match v {
        DispatchTier::T1 => "t1"@,
        DispatchTier::T2 => "t2"@,
        DispatchTier::T3 => "t3"@,
    }
}

/// What parsing `s` as a `DispatchTier` gives: the variant whose text is exactly `s`, else an error naming `s`.
pub open spec fn parse_dispatch_tier(s: Seq<char>) -> Result<DispatchTier, Seq<char>> {
    if s == "t1"@ {
        Ok(DispatchTier::T1)
    } else if s == "t2"@ {
        Ok(DispatchTier::T2)
    } else if s == "t3"@ {
        Ok(DispatchTier::T3)
    } else {
        Err("invalid dispatch tier '"@ + s + "', expected one of: t1, t2, t3"@)
    }
}

impl DispatchTier {
    /// The text of this value.
    pub fn to_string(&self) -> (res: String)
        ensures
            res@ == dispatch_tier_name(*self),
    {
        match self {
            DispatchTier::T1 => "t1".to_owned(),
            DispatchTier::T2 => "t2".to_owned(),
            DispatchTier::T3 => "t3".to_owned(),
        }
    }

    /// Parses the exact text of a value.
    pub fn parse_str(s: &str) -> (res: Result<DispatchTier, String>)
        ensures
            text_result(res) == parse_dispatch_tier(s@),
    {
        if str_equals(s, "t1") {
            Ok(DispatchTier::T1)
        } else if str_equals(s, "t2") {
            Ok(DispatchTier::T2)
        } else if str_equals(s, "t3") {
            Ok(DispatchTier::T3)
        } else {
            let mut m = "invalid dispatch tier '".to_owned();
            m.append(s);
            m.append("', expected one of: t1, t2, t3");
            Err(m)
        }
    }
}

impl std::str::FromStr for DispatchTier {
    type Err = String;

    fn from_str(s: &str) -> (res: Result<DispatchTier, String>)
        ensures
            text_result(res) == parse_dispatch_tier(s@),
    {
        DispatchTier::parse_str(s)
    }
}

/// Parsing the text of any `DispatchTier` gives that value back, and the only texts that parse are
/// those texts.
pub proof fn dispatch_tier_text_round_trip(v: DispatchTier, s: Seq<char>)
    ensures
        parse_dispatch_tier(dispatch_tier_name(v)) == Ok::<DispatchTier, Seq<char>>(v),
        parse_dispatch_tier(s) matches Ok(w) ==> dispatch_tier_name(w) == s,
{
    reveal_strlit("t1");
    reveal_strlit("t2");
    reveal_strlit("t3");
    assert("t2"@[1] != "t1"@[1]);
    assert("t2"@ != "t1"@);
    assert("t3"@[1] != "t1"@[1]);
    assert("t3"@ != "t1"@);
    assert("t3"@[1] != "t2"@[1]);
    assert("t3"@ != "t2"@);
}

/// Lifecycle state of a project.
#[derive(Debug, Clone, Copy, PartialEq, Eq, Structural)]
pub enum ProjectStatus {
    Active,
    Paused,
    Completed,
    Archived,
}

/// The text each `ProjectStatus` is written as.
pub open spec fn project_status_name(v: ProjectStatus) -> Seq<char> {
    match v {
        ProjectStatus::Active => "active"@,
        ProjectStatus::Paused => "paused"@,
        ProjectStatus::Completed => "completed"@,
        ProjectStatus::Archived => "archived"@,
    }
}

/// What parsing `s` as a `ProjectStatus` gives: the variant whose text is exactly `s`, else an error naming `s`.
pub open spec fn parse_project_status(s: Seq<char>) -> Result<ProjectStatus, Seq<char>> {
    if s == "active"@ {
        Ok(ProjectStatus::Active)
    } else if s == "paused"@ {
        Ok(ProjectStatus::Paused)
    } else if s == "completed"@ {
        Ok(ProjectStatus::Completed)
    } else if s == "archived"@ {
        Ok(ProjectStatus::Archived)
    } else {
        Err("invalid project status '"@ + s + "', expected one of: active, paused, completed, archived"@)
    }
}

impl ProjectStatus {
    /// The text of this value.
    pub fn to_string(&self) -> (res: String)
        ensures
            res@ == project_status_name(*self),
    {
        match self {
            ProjectStatus::Active => "active".to_owned(),
            ProjectStatus::Paused => "paused".to_owned(),
            ProjectStatus::Completed => "completed".to_owned(),
            ProjectStatus::Archived => "archived".to_owned(),
        }
    }

    /// Parses the exact text of a value.
    pub fn parse_str(s: &str) -> (res: Result<ProjectStatus, String>)
        ensures
            text_result(res) == parse_project_status(s@),
    {
        if str_equals(s, "active") {
            Ok(ProjectStatus::Active)
        } else if str_equals(s, "paused") {
            Ok(ProjectStatus::Paused)
        } else if str_equals(s, "completed") {
            Ok(ProjectStatus::Completed)
        } else if str_equals(s, "archived") {
            Ok(ProjectStatus::Archived)
        } else {
            let mut m = "invalid project status '".to_owned();
            m.append(s);
            m.append("', expected one of: active, paused, completed, archived");
            Err(m)
        }
    }
}

impl std::str::FromStr for ProjectStatus {
    type Err = String;

    fn from_str(s: &str) -> (res: Result<ProjectStatus, String>)
        ensures
            text_result(res) == parse_project_status(s@),
    {
        ProjectStatus::parse_str(s)
    }
}

/// Parsing the text of any `ProjectStatus` gives that value back, and the only texts that parse are
/// those texts.
pub proof fn project_status_text_round_trip(v: ProjectStatus, s: Seq<char>)
    ensures
        parse_project_status(project_status_name(v)) == Ok::<ProjectStatus, Seq<char>>(v),
        parse_project_status(s) matches Ok(w) ==> project_status_name(w) == s,
{
    reveal_strlit("active");
    reveal_strlit("paused");
    reveal_strlit("completed");
    reveal_strlit("archived");
    assert("paused"@[0] != "active"@[0]);
    assert("paused"@ != "active"@);
    assert("completed"@[0] != "active"@[0]);
    assert("completed"@ != "active"@);
    assert("completed"@[0] != "paused"@[0]);
    assert("completed"@ != "paused"@);
    assert("archived"@[1] != "active"@[1]);
    assert("archived"@ != "active"@);
    assert("archived"@[0] != "paused"@[0]);
    assert("archived"@ != "paused"@);
    assert("archived"@[0] != "completed"@[0]);
    assert("archived"@ != "completed"@);
}

} // verus!
