//! Statements for the store: SQL text with numbered placeholders and the values bound to them.
use vstd::prelude::*;
use vstd::string::*;
use crate::text::{decimal, push_decimal};

verus! {

/// A value bound to a placeholder. A floating-point value travels as its IEEE-754 bits.
#[derive(Debug)]
pub enum SqlValue {
    Null,
    Integer(i64),
    Text(String),
    RealBits(u64),
}

pub enum SqlValueView {
    Null,
    Integer(i64),
    Text(Seq<char>),
    RealBits(u64),
}

impl View for SqlValue {
    type V = SqlValueView;

    open spec fn view(&self) -> SqlValueView {
        match self {
            SqlValue::Null => SqlValueView::Null,
            SqlValue::Integer(n) => SqlValueView::Integer(*n),
            SqlValue::Text(s) => SqlValueView::Text(s@),
            SqlValue::RealBits(b) => SqlValueView::RealBits(*b),
        }
    }
}

/// SQL text and the values for its placeholders `?1`, `?2`, ... in order.
#[derive(Debug)]
pub struct Statement {
    pub sql: String,
    pub params: Vec<SqlValue>,
}

/// A statement taken as its text and the views of its values.
pub type Query = (Seq<char>, Seq<SqlValueView>);

impl View for Statement {
    type V = Query;

    open spec fn view(&self) -> Query {
        (self.sql@, self.params@.map_values(|p: SqlValue| p@))
    }
}

pub open spec fn opt_text(o: Option<Seq<char>>) -> SqlValueView {
    match o {
        Some(s) => SqlValueView::Text(s),
        None => SqlValueView::Null,
    }
}

pub open spec fn opt_integer(o: Option<i64>) -> SqlValueView {
    match o {
        Some(n) => SqlValueView::Integer(n),
        None => SqlValueView::Null,
    }
}

pub open spec fn opt_real_bits(o: Option<u64>) -> SqlValueView {
    match o {
        Some(b) => SqlValueView::RealBits(b),
        None => SqlValueView::Null,
    }
}

pub fn opt_text_value(o: Option<String>) -> (res: SqlValue)
    ensures
        res@ == opt_text(o.deep_view()),
{
    match o {
        Some(s) => SqlValue::Text(s),
        None => SqlValue::Null,
    }
}

pub fn opt_integer_value(o: Option<i64>) -> (res: SqlValue)
    ensures
        res@ == opt_integer(o),
{
    match o {
        Some(n) => SqlValue::Integer(n),
        None => SqlValue::Null,
    }
}

/// A statement with the given fixed text and values.
pub open spec fn query_of(sql: Seq<char>, params: Seq<SqlValueView>) -> Query {
    (sql, params)
}

/// Appends `clause` followed by the number of the next placeholder, and binds `v` to it.
pub open spec fn with_filter(q: Query, clause: Seq<char>, v: SqlValueView) -> Query {
    (q.0 + clause + decimal(q.1.len() + 1int), q.1.push(v))
}

/// `with_filter` when a value is given, else `q` unchanged.
pub open spec fn with_opt_filter(q: Query, clause: Seq<char>, o: Option<SqlValueView>) -> Query {
    match o {
        Some(v) => with_filter(q, clause, v),
        None => q,
    }
}

/// A statement with no placeholders yet.
pub fn statement(sql: &str) -> (res: Statement)
    ensures
        res@ == query_of(sql@, Seq::empty()),
        res.params.len() == 0,
{
    let st = Statement { sql: sql.to_owned(), params: Vec::new() };
    assert(st@.1 =~= Seq::<SqlValueView>::empty());
    st
}

/// Appends `clause`, then the number of the placeholder that `v` takes.
pub fn add_filter(st: &mut Statement, clause: &str, v: SqlValue)
    requires
        old(st).params.len() < i64::MAX,
    ensures
        final(st)@ == with_filter(old(st)@, clause@, v@),
        final(st).params.len() == old(st).params.len() + 1,
{
    let ghost old_params = st.params@;
    st.params.push(v);
    st.sql.append(clause);
    let k = st.params.len();
    push_decimal(&mut st.sql, k as i64);
    assert(st.params@.map_values(|p: SqlValue| p@) =~= old_params.map_values(|p: SqlValue| p@).push(
        v@,
    ));
}

/// Appends fixed text.
pub fn add_text(st: &mut Statement, text: &str)
    ensures
        final(st)@ == (old(st)@.0 + text@, old(st)@.1),
        final(st).params.len() == old(st).params.len(),
{
    st.sql.append(text);
}

/// A `SET` item for the next placeholder, binding `v` to it.
pub open spec fn with_set(
    q: (Seq<Seq<char>>, Seq<SqlValueView>),
    clause: Seq<char>,
    v: Option<SqlValueView>,
) -> (Seq<Seq<char>>, Seq<SqlValueView>) {
    match v {
        Some(v) => (q.0.push(clause + decimal(q.1.len() + 1int)), q.1.push(v)),
        None => q,
    }
}

pub fn push_set(sets: &mut Vec<String>, params: &mut Vec<SqlValue>, clause: &str, v: SqlValue)
    requires
        old(params).len() < i64::MAX,
    ensures
        (final(sets).deep_view(), final(params)@.map_values(|p: SqlValue| p@)) == with_set(
            (old(sets).deep_view(), old(params)@.map_values(|p: SqlValue| p@)),
            clause@,
            Some(v@),
        ),
        final(params).len() == old(params).len() + 1,
{
    let ghost old_params = params@;
    let ghost old_sets = sets.deep_view();
    params.push(v);
    let mut item = clause.to_owned();
    push_decimal(&mut item, params.len() as i64);
    let ghost iv = item@;
    sets.push(item);
    assert(params@.map_values(|p: SqlValue| p@) =~= old_params.map_values(|p: SqlValue| p@).push(v@));
    assert(sets.deep_view() =~= old_sets.push(iv));
}

} // verus!
