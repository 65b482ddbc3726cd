//! Dispatches: one row per agent dispatch, with its cost accounting and its event timeline.
use vstd::prelude::*;
use vstd::string::*;
use crate::error::BrainError;
use crate::json::{
    id_json, json_array, json_array_text, json_member, json_member_text, json_object,
    json_object_text, json_opt_i32, json_opt_i32_text, json_opt_int, json_opt_int_text,
    json_opt_raw, json_opt_raw_text, json_opt_string, json_opt_string_text, json_string,
    json_string_text, render_id_json,
};
use crate::sql::{
    add_filter, opt_integer, opt_integer_value, opt_real_bits, opt_text, opt_text_value, query_of,
    statement, with_opt_filter, Query, SqlValue, SqlValueView, Statement,
};
use crate::text::{decimal, decimal_string};
use crate::types::{
    dispatch_status_name, dispatch_tier_name, event_type_name, provider_name, severity_name, Agent,
    DispatchId, DispatchStatus, DispatchTier, EventType, Model, Provider, Severity, TaskId,
};

verus! {

/// One row of the `dispatch_metrics` table. The two floating-point columns are carried as the
/// JSON text of their value.
#[derive(Debug)]
pub struct DispatchRecord {
    pub id: i64,
    pub task_id: Option<i64>,
    pub agent: String,
    pub provider: Option<String>,
    pub model: String,
    pub dispatch_number: i64,
    pub status: String,
    pub tokens_input: Option<i64>,
    pub tokens_output: Option<i64>,
    pub tokens_total: Option<i64>,
    pub duration_ms: Option<i64>,
    pub cost_usd: Option<String>,
    pub tool_uses: Option<i32>,
    pub created_at: String,
    pub dispatch_tier: Option<String>,
    pub task_pattern: Option<String>,
    pub tier_justification: Option<String>,
    pub dispatch_context_kb: Option<String>,
}

/// The members of a dispatch's JSON object, by key.
pub open spec fn dispatch_members(d: DispatchRecord) -> Seq<Seq<char>> {
    seq![
        json_member("agent"@, json_string(d.agent@)),
        json_member("cost_usd"@, json_opt_raw(d.cost_usd.deep_view())),
        json_member("created_at"@, json_string(d.created_at@)),
        json_member("dispatch_context_kb"@, json_opt_raw(d.dispatch_context_kb.deep_view())),
        json_member("dispatch_number"@, decimal(d.dispatch_number as int)),
        json_member("dispatch_tier"@, json_opt_string(d.dispatch_tier.deep_view())),
        json_member("duration_ms"@, json_opt_int(d.duration_ms)),
        json_member("id"@, decimal(d.id as int)),
        json_member("model"@, json_string(d.model@)),
        json_member("provider"@, json_opt_string(d.provider.deep_view())),
        json_member("status"@, json_string(d.status@)),
        json_member("task_id"@, json_opt_int(d.task_id)),
        json_member("task_pattern"@, json_opt_string(d.task_pattern.deep_view())),
        json_member("tier_justification"@, json_opt_string(d.tier_justification.deep_view())),
        json_member("tokens_input"@, json_opt_int(d.tokens_input)),
        json_member("tokens_output"@, json_opt_int(d.tokens_output)),
        json_member("tokens_total"@, json_opt_int(d.tokens_total)),
        json_member("tool_uses"@, json_opt_i32(d.tool_uses)),
    ]
}

pub open spec fn dispatch_json(d: DispatchRecord) -> Seq<char> {
    json_object(dispatch_members(d))
}

/// The JSON object `dispatch get` prints.
pub fn render_dispatch(d: &DispatchRecord) -> (res: String)
    ensures
        res@ == dispatch_json(*d),
{
    let mut m: Vec<String> = Vec::new();
    m.push(json_member_text("agent", json_string_text(d.agent.as_str())));
    m.push(json_member_text("cost_usd", json_opt_raw_text(&d.cost_usd)));
    m.push(json_member_text("created_at", json_string_text(d.created_at.as_str())));
    m.push(json_member_text("dispatch_context_kb", json_opt_raw_text(&d.dispatch_context_kb)));
    m.push(json_member_text("dispatch_number", decimal_string(d.dispatch_number)));
    m.push(json_member_text("dispatch_tier", json_opt_string_text(&d.dispatch_tier)));
    m.push(json_member_text("duration_ms", json_opt_int_text(d.duration_ms)));
    m.push(json_member_text("id", decimal_string(d.id)));
    m.push(json_member_text("model", json_string_text(d.model.as_str())));
    m.push(json_member_text("provider", json_opt_string_text(&d.provider)));
    m.push(json_member_text("status", json_string_text(d.status.as_str())));
    m.push(json_member_text("task_id", json_opt_int_text(d.task_id)));
    m.push(json_member_text("task_pattern", json_opt_string_text(&d.task_pattern)));
    m.push(json_member_text("tier_justification", json_opt_string_text(&d.tier_justification)));
    m.push(json_member_text("tokens_input", json_opt_int_text(d.tokens_input)));
    m.push(json_member_text("tokens_output", json_opt_int_text(d.tokens_output)));
    m.push(json_member_text("tokens_total", json_opt_int_text(d.tokens_total)));
    m.push(json_member_text("tool_uses", json_opt_i32_text(d.tool_uses)));
    assert(m.deep_view() =~= dispatch_members(*d));
    json_object_text(&m)
}

/// The JSON array `dispatch list` prints.
pub fn render_dispatch_list(ds: &Vec<DispatchRecord>) -> (res: String)
    ensures
        res@ == json_array(ds@.map_values(|d: DispatchRecord| dispatch_json(d))),
{
    let mut items: Vec<String> = Vec::new();
    let mut i: usize = 0;
    while i < ds.len()
        invariant
            i <= ds.len(),
            items@.len() == i,
            forall|j: int| 0 <= j < i ==> (#[trigger] items@[j])@ == dispatch_json(ds@[j]),
        decreases ds.len() - i,
    {
        items.push(render_dispatch(&ds[i]));
        i = i + 1;
    }
    assert(items.deep_view() =~= ds@.map_values(|d: DispatchRecord| dispatch_json(d)));
    json_array_text(&items)
}

pub const DISPATCH_NUMBER_SQL: &'static str = "SELECT COALESCE(MAX(dispatch_number), 0) + 1 FROM dispatch_metrics WHERE task_id = ?1";

pub const DISPATCH_INSERT_SQL: &'static str = "INSERT INTO dispatch_metrics (task_id, agent, provider, model, dispatch_number, status,
                                       dispatch_tier, task_pattern, tier_justification, dispatch_context_kb)
         VALUES (?1, ?2, ?3, ?4, ?5, 'in_progress', ?6, ?7, ?8, ?9)
         RETURNING id";

pub const DISPATCH_COMPLETE_SQL: &'static str = "UPDATE dispatch_metrics
         SET status = ?1, tokens_input = ?2, tokens_output = ?3, tokens_total = ?4,
             duration_ms = ?5, tool_uses = ?6, cost_usd = ?7
         WHERE id = ?8";

pub const DISPATCH_EVENT_INSERT_SQL: &'static str = "INSERT INTO dispatch_events (dispatch_id, event_type, severity, description)
         VALUES (?1, ?2, ?3, ?4)
         RETURNING id";

pub const DISPATCH_SELECT_BY_ID_SQL: &'static str = "SELECT id, task_id, agent, provider, model, dispatch_number, status,
                tokens_input, tokens_output, tokens_total, duration_ms,
                cost_usd, tool_uses, created_at,
                dispatch_tier, task_pattern, tier_justification, dispatch_context_kb
         FROM dispatch_metrics WHERE id = ?1";

pub const DISPATCH_SELECT_ALL_SQL: &'static str = "SELECT id, task_id, agent, provider, model, dispatch_number, status,
                tokens_input, tokens_output, tokens_total, duration_ms,
                cost_usd, tool_uses, created_at,
                dispatch_tier, task_pattern, tier_justification, dispatch_context_kb
         FROM dispatch_metrics WHERE 1=1";

/// The next dispatch number of a task: one more than the highest so far, or 1.
pub fn dispatch_number_statement(task_id: TaskId) -> (res: Statement)
    ensures
        res@ == query_of(DISPATCH_NUMBER_SQL@, seq![SqlValueView::Integer(task_id.0)]),
{
    let mut st = statement(DISPATCH_NUMBER_SQL);
    st.params.push(SqlValue::Integer(task_id.0));
    assert(st@.1 =~= seq![SqlValueView::Integer(task_id.0)]);
    st
}

pub open spec fn opt_tier_text(o: Option<DispatchTier>) -> Option<Seq<char>> {
    match o {
        Some(t) => Some(dispatch_tier_name(t)),
        None => None,
    }
}

/// The insert of a started dispatch (status `in_progress`); the store answers with its id.
pub open spec fn dispatch_start_query(
    task_id: i64,
    agent: Seq<char>,
    provider: Seq<char>,
    model: Seq<char>,
    tier: Option<DispatchTier>,
    task_pattern: Option<Seq<char>>,
    tier_justification: Option<Seq<char>>,
    context_kb_bits: Option<u64>,
    dispatch_number: i64,
) -> Query {
    query_of(
        DISPATCH_INSERT_SQL@,
        seq![
            SqlValueView::Integer(task_id),
            SqlValueView::Text(agent),
            SqlValueView::Text(provider),
            SqlValueView::Text(model),
            SqlValueView::Integer(dispatch_number),
            opt_text(opt_tier_text(tier)),
            opt_text(task_pattern),
            opt_text(tier_justification),
            opt_real_bits(context_kb_bits),
        ],
    )
}

/// `dispatch_context_kb` is given as the bits of the floating-point value.
pub fn dispatch_start_statement(
    task_id: TaskId,
    agent: Agent,
    provider: Provider,
    model: Model,
    tier: Option<DispatchTier>,
    task_pattern: Option<String>,
    tier_justification: Option<String>,
    context_kb_bits: Option<u64>,
    dispatch_number: i64,
) -> (res: Statement)
    ensures
        res@ == dispatch_start_query(
            task_id.0,
            agent@,
            provider_name(provider@),
            model@,
            tier,
            task_pattern.deep_view(),
            tier_justification.deep_view(),
            context_kb_bits,
            dispatch_number,
        ),
{
    let ghost (a, m) = (agent@, model@);
    let ghost (tp, tj) = (task_pattern.deep_view(), tier_justification.deep_view());
    let p = provider.to_string();
    let t = match tier {
        Some(t) => SqlValue::Text(t.to_string()),
        None => SqlValue::Null,
    };
    let kb = match context_kb_bits {
        Some(b) => SqlValue::RealBits(b),
        None => SqlValue::Null,
    };
    let params = vec![
        SqlValue::Integer(task_id.0),
        SqlValue::Text(agent.0),
        SqlValue::Text(p),
        SqlValue::Text(model.0),
        SqlValue::Integer(dispatch_number),
        t,
        opt_text_value(task_pattern),
        opt_text_value(tier_justification),
        kb,
    ];
    let st = Statement { sql: DISPATCH_INSERT_SQL.to_owned(), params };
    assert(st@.1 =~= seq![
        SqlValueView::Integer(task_id.0),
        SqlValueView::Text(a),
        SqlValueView::Text(provider_name(provider@)),
        SqlValueView::Text(m),
        SqlValueView::Integer(dispatch_number),
        opt_text(opt_tier_text(tier)),
        opt_text(tp),
        opt_text(tj),
        opt_real_bits(context_kb_bits),
    ]);
    st
}

/// `{"dispatch_id":..,"dispatch_number":..}`, the answer to starting a dispatch.
pub open spec fn dispatch_started_json(id: i64, number: i64) -> Seq<char> {
    json_object(
        seq![
            json_member("dispatch_id"@, decimal(id as int)),
            json_member("dispatch_number"@, decimal(number as int)),
        ],
    )
}

pub fn render_dispatch_started(id: i64, number: i64) -> (res: String)
    ensures
        res@ == dispatch_started_json(id, number),
{
    let mut m: Vec<String> = Vec::new();
    m.push(json_member_text("dispatch_id", decimal_string(id)));
    m.push(json_member_text("dispatch_number", decimal_string(number)));
    assert(m.deep_view() =~= seq![
        json_member("dispatch_id"@, decimal(id as int)),
        json_member("dispatch_number"@, decimal(number as int)),
    ]);
    json_object_text(&m)
}

/// The total recorded when a dispatch completes: input plus output when both are given,
/// else the total given, else none.
pub open spec fn tokens_total_of(input: Option<u64>, output: Option<u64>, total: Option<u64>) -> Option<int> {
    match (input, output, total) {
        (Some(i), Some(o), _) => Some(i + o),
        (_, _, Some(t)) => Some(t as int),
        _ => None,
    }
}

/// Input plus output does not overflow when both are given.
pub open spec fn tokens_sum_fits(input: Option<u64>, output: Option<u64>) -> bool {
    match (input, output) {
        (Some(i), Some(o)) => i + o <= u64::MAX,
        _ => true,
    }
}

pub fn tokens_total(input: Option<u64>, output: Option<u64>, total: Option<u64>) -> (res: Option<u64>)
    requires
        tokens_sum_fits(input, output),
    ensures
        match res {
            Some(v) => tokens_total_of(input, output, total) == Some(v as int),
            None => tokens_total_of(input, output, total) is None,
        },
{
    match (input, output, total) {
        (Some(i), Some(o), _) => Some(i + o),
        (_, _, Some(t)) => Some(t),
        _ => None,
    }
}

/// A count as the store keeps it: the unsigned value reinterpreted as `i64` (wrapping above
/// `i64::MAX`).
pub open spec fn stored_count(o: Option<u64>) -> SqlValueView {
    match o {
        Some(v) => SqlValueView::Integer(v as i64),
        None => SqlValueView::Null,
    }
}

pub open spec fn stored_tool_uses(o: Option<u32>) -> SqlValueView {
    match o {
        Some(v) => SqlValueView::Integer((v as i32) as i64),
        None => SqlValueView::Null,
    }
}

fn stored_count_value(o: Option<u64>) -> (res: SqlValue)
    ensures
        res@ == stored_count(o),
{
    match o {
        Some(v) => SqlValue::Integer(#[verifier::truncate] (v as i64)),
        None => SqlValue::Null,
    }
}

/// The update that completes a dispatch; a `total` of `None` with both input and output given
/// is computed as their sum. `cost_bits` are the bits of the floating-point cost.
pub open spec fn dispatch_complete_query(
    id: i64,
    status: DispatchStatus,
    input: Option<u64>,
    output: Option<u64>,
    total: Option<u64>,
    duration_ms: Option<u64>,
    tool_uses: Option<u32>,
    cost_bits: Option<u64>,
) -> Query {
    let t = match tokens_total_of(input, output, total) {
        Some(v) => Some(v as u64),
        None => None,
    };
    query_of(
        DISPATCH_COMPLETE_SQL@,
        seq![
            SqlValueView::Text(dispatch_status_name(status)),
            stored_count(input),
            stored_count(output),
            stored_count(t),
            stored_count(duration_ms),
            stored_tool_uses(tool_uses),
            opt_real_bits(cost_bits),
            SqlValueView::Integer(id),
        ],
    )
}

/// The token total a completed dispatch records, bound at `?4` (`tokens_total`): input plus
/// output when both are given; otherwise exactly the total given, whatever else is missing;
/// `NULL` only when neither a total nor both counts are given. The other counts are bound as
/// given.
pub proof fn completed_dispatch_total(
    id: i64,
    status: DispatchStatus,
    input: Option<u64>,
    output: Option<u64>,
    total: Option<u64>,
    duration_ms: Option<u64>,
    tool_uses: Option<u32>,
    cost_bits: Option<u64>,
)
    requires
        tokens_sum_fits(input, output),
    ensures
        input is Some && output is Some ==> tokens_total_of(input, output, total) == Some(
            input->0 + output->0,
        ),
        !(input is Some && output is Some) ==> tokens_total_of(input, output, total) == match total {
            Some(t) => Some(t as int),
            None => None::<int>,
        },
        dispatch_complete_query(id, status, input, output, total, duration_ms, tool_uses, cost_bits).1[3]
            == stored_count(
            if input is Some && output is Some {
                Some((input->0 + output->0) as u64)
            } else {
                total
            },
        ),
        dispatch_complete_query(id, status, input, output, total, duration_ms, tool_uses, cost_bits).1[1]
            == stored_count(input),
        dispatch_complete_query(id, status, input, output, total, duration_ms, tool_uses, cost_bits).1[2]
            == stored_count(output),
{
}

pub fn dispatch_complete_statement(
    id: DispatchId,
    status: DispatchStatus,
    tokens_input: Option<u64>,
    tokens_output: Option<u64>,
    tokens_total_given: Option<u64>,
    duration_ms: Option<u64>,
    tool_uses: Option<u32>,
    cost_bits: Option<u64>,
) -> (res: Statement)
    requires
        tokens_sum_fits(tokens_input, tokens_output),
    ensures
        res@ == dispatch_complete_query(
            id.0,
            status,
            tokens_input,
            tokens_output,
            tokens_total_given,
            duration_ms,
            tool_uses,
            cost_bits,
        ),
{
    let total = tokens_total(tokens_input, tokens_output, tokens_total_given);
    let tools = match tool_uses {
        Some(v) => SqlValue::Integer((#[verifier::truncate] (v as i32)) as i64),
        None => SqlValue::Null,
    };
    let cost = match cost_bits {
        Some(b) => SqlValue::RealBits(b),
        None => SqlValue::Null,
    };
    let params = vec![
        SqlValue::Text(status.to_string()),
        stored_count_value(tokens_input),
        stored_count_value(tokens_output),
        stored_count_value(total),
        stored_count_value(duration_ms),
        tools,
        cost,
        SqlValue::Integer(id.0),
    ];
    let st = Statement { sql: DISPATCH_COMPLETE_SQL.to_owned(), params };
    let ghost t = match tokens_total_of(tokens_input, tokens_output, tokens_total_given) {
        Some(v) => Some(v as u64),
        None => None,
    };
    assert(t == total);
    assert(st@.1 =~= seq![
        SqlValueView::Text(dispatch_status_name(status)),
        stored_count(tokens_input),
        stored_count(tokens_output),
        stored_count(t),
        stored_count(duration_ms),
        stored_tool_uses(tool_uses),
        opt_real_bits(cost_bits),
        SqlValueView::Integer(id.0),
    ]);
    st
}

/// After an update or a lookup by id: nothing matched means there is no dispatch with that id.
pub fn check_dispatch_found(id: DispatchId, matched: usize) -> (res: Result<(), BrainError>)
    ensures
        matched == 0 ==> res == Err::<(), BrainError>(
            BrainError::NotFound { entity: "dispatch", id: id.0 },
        ),
        matched > 0 ==> res is Ok,
{
    if matched == 0 {
        Err(BrainError::NotFound { entity: "dispatch", id: id.0 })
    } else {
        Ok(())
    }
}

/// A lookup by id that found no row means there is no dispatch with that id.
pub fn require_dispatch(id: DispatchId, found: Option<DispatchRecord>) -> (res: Result<
    DispatchRecord,
    BrainError,
>)
    ensures
        match found {
            Some(d) => res == Ok::<DispatchRecord, BrainError>(d),
            None => res == Err::<DispatchRecord, BrainError>(
                BrainError::NotFound { entity: "dispatch", id: id.0 },
            ),
        },
{
    match found {
        Some(d) => Ok(d),
        None => Err(BrainError::NotFound { entity: "dispatch", id: id.0 }),
    }
}

/// `{"dispatch_id":..,"status":..}`, the answer to completing a dispatch.
pub open spec fn dispatch_completed_json(id: i64, status: DispatchStatus) -> Seq<char> {
    json_object(
        seq![
            json_member("dispatch_id"@, decimal(id as int)),
            json_member("status"@, json_string(dispatch_status_name(status))),
        ],
    )
}

pub fn render_dispatch_completed(id: DispatchId, status: DispatchStatus) -> (res: String)
    ensures
        res@ == dispatch_completed_json(id.0, status),
{
    let mut m: Vec<String> = Vec::new();
    m.push(json_member_text("dispatch_id", decimal_string(id.0)));
    let s = status.to_string();
    m.push(json_member_text("status", json_string_text(s.as_str())));
    assert(m.deep_view() =~= seq![
        json_member("dispatch_id"@, decimal(id.0 as int)),
        json_member("status"@, json_string(dispatch_status_name(status))),
    ]);
    json_object_text(&m)
}

/// The insert of a dispatch event; the store answers with the event's id.
pub open spec fn dispatch_event_query(
    dispatch_id: i64,
    event_type: EventType,
    severity: Severity,
    description: Seq<char>,
) -> Query {
    query_of(
        DISPATCH_EVENT_INSERT_SQL@,
        seq![
            SqlValueView::Integer(dispatch_id),
            SqlValueView::Text(event_type_name(event_type)),
            SqlValueView::Text(severity_name(severity)),
            SqlValueView::Text(description),
        ],
    )
}

pub fn dispatch_event_statement(
    dispatch_id: DispatchId,
    event_type: EventType,
    severity: Severity,
    description: String,
) -> (res: Statement)
    ensures
        res@ == dispatch_event_query(dispatch_id.0, event_type, severity, description@),
{
    let ghost d = description@;
    let params = vec![
        SqlValue::Integer(dispatch_id.0),
        SqlValue::Text(event_type.to_string()),
        SqlValue::Text(severity.to_string()),
        SqlValue::Text(description),
    ];
    let st = Statement { sql: DISPATCH_EVENT_INSERT_SQL.to_owned(), params };
    assert(st@.1 =~= seq![
        SqlValueView::Integer(dispatch_id.0),
        SqlValueView::Text(event_type_name(event_type)),
        SqlValueView::Text(severity_name(severity)),
        SqlValueView::Text(d),
    ]);
    st
}

/// `{"event_id":id}`, the answer to logging an event.
pub fn render_event_logged(id: i64) -> (res: String)
    ensures
        res@ == id_json("event_id"@, id),
{
    render_id_json("event_id", id)
}

/// Reads one dispatch.
pub fn dispatch_get_statement(id: DispatchId) -> (res: Statement)
    ensures
        res@ == query_of(DISPATCH_SELECT_BY_ID_SQL@, seq![SqlValueView::Integer(id.0)]),
{
    let mut st = statement(DISPATCH_SELECT_BY_ID_SQL);
    st.params.push(SqlValue::Integer(id.0));
    assert(st@.1 =~= seq![SqlValueView::Integer(id.0)]);
    st
}

/// The selection of dispatches by the given filters, newest first.
pub open spec fn dispatch_list_query(
    task_id: Option<i64>,
    agent: Option<Seq<char>>,
    status: Option<DispatchStatus>,
    tier: Option<DispatchTier>,
) -> Query {
    let q0 = query_of(DISPATCH_SELECT_ALL_SQL@, Seq::empty());
    let q1 = with_opt_filter(
        q0,
        " AND task_id = ?"@,
        match task_id {
            Some(t) => Some(SqlValueView::Integer(t)),
            None => None,
        },
    );
    let q2 = with_opt_filter(
        q1,
        " AND agent = ?"@,
        match agent {
            Some(a) => Some(SqlValueView::Text(a)),
            None => None,
        },
    );
    let q3 = with_opt_filter(
        q2,
        " AND status = ?"@,
        match status {
            Some(s) => Some(SqlValueView::Text(dispatch_status_name(s))),
            None => None,
        },
    );
    let q4 = with_opt_filter(
        q3,
        " AND dispatch_tier = ?"@,
        match tier {
            Some(t) => Some(SqlValueView::Text(dispatch_tier_name(t))),
            None => None,
        },
    );
    (q4.0 + " ORDER BY id DESC"@, q4.1)
}

pub fn dispatch_list_statement(
    task_id: Option<&TaskId>,
    agent: Option<&Agent>,
    status: Option<&DispatchStatus>,
    tier: Option<&DispatchTier>,
) -> (res: Statement)
    ensures
        res@ == dispatch_list_query(
            match task_id {
                Some(t) => Some(t.0),
                None => None,
            },
            match agent {
                Some(a) => Some(a@),
                None => None,
            },
            match status {
                Some(s) => Some(*s),
                None => None,
            },
            match tier {
                Some(t) => Some(*t),
                None => None,
            },
        ),
{
    let mut st = statement(DISPATCH_SELECT_ALL_SQL);
    if let Some(t) = task_id {
        add_filter(&mut st, " AND task_id = ?", SqlValue::Integer(t.0));
    }
    if let Some(a) = agent {
        add_filter(&mut st, " AND agent = ?", SqlValue::Text(a.0.clone()));
    }
    if let Some(s) = status {
        add_filter(&mut st, " AND status = ?", SqlValue::Text(s.to_string()));
    }
    if let Some(t) = tier {
        add_filter(&mut st, " AND dispatch_tier = ?", SqlValue::Text(t.to_string()));
    }
    st.sql.append(" ORDER BY id DESC");
    st
}

} // verus!
