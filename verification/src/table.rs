//! Plain-text tables of tasks: columns sized to their widest cell, as `task list --format
//! table` prints them.
use vstd::prelude::*;
use vstd::string::*;
use vstd::utf8::encode_utf8;
use crate::task::{TaskRecord, TaskTreeNode};
use crate::text::{decimal, decimal_string, joined, push_joined};

verus! {

/// The length of `s` in UTF-8 bytes, which is what sizes a column.
pub open spec fn byte_len(s: Seq<char>) -> nat {
    encode_utf8(s).len()
}

pub open spec fn max_nat(a: nat, b: nat) -> nat {
    if a < b {
        b
    } else {
        a
    }
}

/// The width of column `c`: the byte length of its widest cell, header included.
pub open spec fn column_width(header: Seq<char>, rows: Seq<Seq<Seq<char>>>, c: int) -> nat
    decreases rows.len(),
{
    if rows.len() == 0 {
        byte_len(header)
    } else {
        max_nat(column_width(header, rows.drop_last(), c), byte_len(rows.last()[c]))
    }
}

/// Each column is as wide as its header and as every cell in it (in UTF-8 bytes), and no
/// wider than the widest of them.
pub proof fn column_fits_cells(header: Seq<char>, rows: Seq<Seq<Seq<char>>>, c: int)
    ensures
        column_width(header, rows, c) >= byte_len(header),
        forall|r: int| 0 <= r < rows.len() ==> column_width(header, rows, c) >= byte_len(
            #[trigger] rows[r][c],
        ),
        column_width(header, rows, c) == byte_len(header) || exists|r: int|
            0 <= r < rows.len() && column_width(header, rows, c) == byte_len(#[trigger] rows[r][c]),
    decreases rows.len(),
{
    if rows.len() > 0 {
        let init = rows.drop_last();
        column_fits_cells(header, init, c);
        assert forall|r: int| 0 <= r < rows.len() implies column_width(header, rows, c) >= byte_len(
            #[trigger] rows[r][c],
        ) by {
            if r < rows.len() - 1 {
                assert(rows[r] == init[r]);
            }
        }
        if column_width(header, rows, c) != byte_len(header) {
            if column_width(header, rows, c) == byte_len(rows.last()[c]) {
                assert(rows[rows.len() - 1] == rows.last());
            } else {
                let r = choose|r: int|
                    0 <= r < init.len() && column_width(header, init, c) == byte_len(
                        #[trigger] init[r][c],
                    );
                assert(rows[r] == init[r]);
            }
        }
    }
}

pub open spec fn column_widths(header: Seq<Seq<char>>, rows: Seq<Seq<Seq<char>>>) -> Seq<nat> {
    Seq::new(header.len(), |c: int| column_width(header[c], rows, c))
}

pub open spec fn repeated(c: char, n: nat) -> Seq<char> {
    Seq::new(n, |i: int| c)
}

/// A cell filled with spaces on the right up to `w` characters (left-aligned, as `{:<w$}`).
pub open spec fn padded(s: Seq<char>, w: nat) -> Seq<char> {
    if s.len() < w {
        s + repeated(' ', (w - s.len()) as nat)
    } else {
        s
    }
}

/// `| a | b | ... |` with each cell padded to its column's width.
pub open spec fn table_row(cells: Seq<Seq<char>>, widths: Seq<nat>) -> Seq<char> {
    "| "@ + joined(Seq::new(cells.len(), |i: int| padded(cells[i], widths[i])), " | "@) + " |"@
}

/// `+-----+---+` with one run of dashes per column.
pub open spec fn table_rule(widths: Seq<nat>) -> Seq<char> {
    "+-"@ + joined(Seq::new(widths.len(), |i: int| repeated('-', widths[i])), "-+-"@) + "-+"@
}

pub open spec fn newline() -> Seq<char> {
    seq!['\n']
}

/// Rule, header, rule, one line per row, rule.
pub open spec fn table_text(header: Seq<Seq<char>>, rows: Seq<Seq<Seq<char>>>) -> Seq<char> {
    let widths = column_widths(header, rows);
    let rule = table_rule(widths);
    rule + newline() + table_row(header, widths) + newline() + rule + newline() + joined(
        Seq::new(rows.len(), |r: int| table_row(rows[r], widths) + newline()),
        Seq::empty(),
    ) + rule
}

proof fn lemma_bytes_at_least_chars(s: Seq<char>)
    ensures
        byte_len(s) >= s.len(),
    decreases s.len(),
{
    if s.len() > 0 {
        lemma_bytes_at_least_chars(s.drop_first());
        assert(vstd::utf8::encode_scalar(s[0] as u32).len() >= 1);
    }
}

proof fn lemma_joined_lengths_agree(
    a: Seq<Seq<char>>,
    b: Seq<Seq<char>>,
    sep_a: Seq<char>,
    sep_b: Seq<char>,
)
    requires
        a.len() == b.len(),
        sep_a.len() == sep_b.len(),
        forall|i: int| 0 <= i < a.len() ==> (#[trigger] a[i]).len() == b[i].len(),
    ensures
        joined(a, sep_a).len() == joined(b, sep_b).len(),
    decreases a.len(),
{
    if a.len() > 1 {
        lemma_joined_lengths_agree(a.drop_last(), b.drop_last(), sep_a, sep_b);
        assert(a.last().len() == b.last().len());
    } else if a.len() == 1 {
        assert(a[0].len() == b[0].len());
    }
}

/// The lines of a table line up: counted in characters, a row with one cell per column is as
/// long as the header line, and the header line is as long as the rule. Every cell is padded to
/// its column's width, and no cell is wider than that, even counted in UTF-8 bytes.
pub proof fn table_lines_align(header: Seq<Seq<char>>, rows: Seq<Seq<Seq<char>>>, r: int)
    requires
        0 <= r < rows.len(),
        rows[r].len() == header.len(),
    ensures
        table_row(rows[r], column_widths(header, rows)).len() == table_row(
            header,
            column_widths(header, rows),
        ).len(),
        table_row(header, column_widths(header, rows)).len() == table_rule(
            column_widths(header, rows),
        ).len(),
{
    let widths = column_widths(header, rows);
    let cells = Seq::new(rows[r].len(), |i: int| padded(rows[r][i], widths[i]));
    let heads = Seq::new(header.len(), |i: int| padded(header[i], widths[i]));
    let dashes = Seq::new(widths.len(), |i: int| repeated('-', widths[i]));
    assert forall|c: int| 0 <= c < header.len() implies (#[trigger] heads[c]).len() == widths[c]
        && cells[c].len() == widths[c] by {
        column_fits_cells(header[c], rows, c);
        lemma_bytes_at_least_chars(header[c]);
        lemma_bytes_at_least_chars(rows[r][c]);
        assert(byte_len(rows[r][c]) <= column_width(header[c], rows, c));
    }
    lemma_joined_lengths_agree(cells, heads, " | "@, " | "@);
    reveal_strlit(" | ");
    reveal_strlit("-+-");
    reveal_strlit("| ");
    reveal_strlit(" |");
    reveal_strlit("+-");
    reveal_strlit("-+");
    lemma_joined_lengths_agree(heads, dashes, " | "@, "-+-"@);
}

fn push_repeated(out: &mut String, piece: &str, n: usize)
    requires
        piece@.len() == 1,
    ensures
        final(out)@ == old(out)@ + repeated(piece@[0], n as nat),
{
    let ghost start = out@;
    let mut i: usize = 0;
    while i < n
        invariant
            piece@.len() == 1,
            i <= n,
            out@ == start + repeated(piece@[0], i as nat),
        decreases n - i,
    {
        out.append(piece);
        i = i + 1;
        assert(out@ =~= start + repeated(piece@[0], i as nat));
    }
}

fn padded_text(s: &str, w: usize) -> (res: String)
    ensures
        res@ == padded(s@, w as nat),
{
    let mut out = s.to_owned();
    let n = s.unicode_len();
    if n < w {
        proof {
            reveal_strlit(" ");
        }
        push_repeated(&mut out, " ", w - n);
    }
    out
}

fn row_text(cells: &Vec<String>, widths: &Vec<usize>) -> (res: String)
    requires
        cells.len() == widths.len(),
    ensures
        res@ == table_row(cells.deep_view(), widths@.map_values(|w: usize| w as nat)),
{
    let ghost wv = widths@.map_values(|w: usize| w as nat);
    let mut parts: Vec<String> = Vec::new();
    let mut i: usize = 0;
    while i < cells.len()
        invariant
            cells.len() == widths.len(),
            i <= cells.len(),
            wv == widths@.map_values(|w: usize| w as nat),
            parts@.len() == i,
            forall|j: int| 0 <= j < i ==> (#[trigger] parts@[j])@ == padded(cells@[j]@, wv[j]),
        decreases cells.len() - i,
    {
        parts.push(padded_text(cells[i].as_str(), widths[i]));
        i = i + 1;
    }
    let ghost cv = cells.deep_view();
    assert(parts.deep_view() =~= Seq::new(cv.len(), |k: int| padded(cv[k], wv[k])));
    let mut out = "| ".to_owned();
    push_joined(&mut out, &parts, " | ");
    out.append(" |");
    out
}

fn rule_text(widths: &Vec<usize>) -> (res: String)
    ensures
        res@ == table_rule(widths@.map_values(|w: usize| w as nat)),
{
    let ghost wv = widths@.map_values(|w: usize| w as nat);
    proof {
        reveal_strlit("-");
    }
    let mut parts: Vec<String> = Vec::new();
    let mut i: usize = 0;
    while i < widths.len()
        invariant
            i <= widths.len(),
            wv == widths@.map_values(|w: usize| w as nat),
            "-"@.len() == 1,
            "-"@[0] == '-',
            parts@.len() == i,
            forall|j: int| 0 <= j < i ==> (#[trigger] parts@[j])@ == repeated('-', wv[j]),
        decreases widths.len() - i,
    {
        let mut d = String::new();
        push_repeated(&mut d, "-", widths[i]);
        assert(d@ =~= repeated('-', wv[i as int]));
        parts.push(d);
        i = i + 1;
    }
    assert(parts.deep_view() =~= Seq::new(wv.len(), |k: int| repeated('-', wv[k])));
    let mut out = "+-".to_owned();
    push_joined(&mut out, &parts, "-+-");
    out.append("-+");
    out
}

/// All rows have one cell per header cell.
pub open spec fn well_shaped(header: Seq<Seq<char>>, rows: Seq<Seq<Seq<char>>>) -> bool {
    forall|r: int| 0 <= r < rows.len() ==> (#[trigger] rows[r]).len() == header.len()
}

fn widths_of(header: &Vec<String>, rows: &Vec<Vec<String>>) -> (res: Vec<usize>)
    requires
        well_shaped(header.deep_view(), rows.deep_view()),
    ensures
        res@.map_values(|w: usize| w as nat) == column_widths(header.deep_view(), rows.deep_view()),
{
    let ghost hv = header.deep_view();
    let ghost rv = rows.deep_view();
    let mut widths: Vec<usize> = Vec::new();
    let mut c: usize = 0;
    while c < header.len()
        invariant
            c <= header.len(),
            hv == header.deep_view(),
            rv == rows.deep_view(),
            well_shaped(hv, rv),
            widths@.len() == c,
            forall|k: int| 0 <= k < c ==> (#[trigger] widths@[k]) as nat == column_width(hv[k], rv, k),
        decreases header.len() - c,
    {
        let mut w: usize = header[c].as_str().as_bytes().len();
        let mut r: usize = 0;
        while r < rows.len()
            invariant
                c < header.len(),
                r <= rows.len(),
                hv == header.deep_view(),
                rv == rows.deep_view(),
                well_shaped(hv, rv),
                w as nat == column_width(hv[c as int], rv.take(r as int), c as int),
            decreases rows.len() - r,
        {
            assert(rv.take(r + 1).drop_last() =~= rv.take(r as int));
            assert(rows@[r as int]@.len() == header@.len()) by {
                assert(rv[r as int].len() == hv.len());
            }
            let l = rows[r][c].as_str().as_bytes().len();
            if w < l {
                w = l;
            }
            r = r + 1;
        }
        assert(rv.take(rows.len() as int) =~= rv);
        widths.push(w);
        c = c + 1;
    }
    assert(widths@.map_values(|w: usize| w as nat) =~= column_widths(hv, rv));
    widths
}

/// The table of the given header and rows.
pub fn render_table(header: &Vec<String>, rows: &Vec<Vec<String>>) -> (res: String)
    requires
        well_shaped(header.deep_view(), rows.deep_view()),
    ensures
        res@ == table_text(header.deep_view(), rows.deep_view()),
{
    let ghost hv = header.deep_view();
    let ghost rv = rows.deep_view();
    let widths = widths_of(header, rows);
    let ghost wv = widths@.map_values(|w: usize| w as nat);
    let rule = rule_text(&widths);
    let mut lines: Vec<String> = Vec::new();
    let mut r: usize = 0;
    while r < rows.len()
        invariant
            r <= rows.len(),
            hv == header.deep_view(),
            rv == rows.deep_view(),
            well_shaped(hv, rv),
            wv == widths@.map_values(|w: usize| w as nat),
            widths.len() == header.len(),
            lines@.len() == r,
            forall|j: int| 0 <= j < r ==> (#[trigger] lines@[j])@ == table_row(rv[j], wv) + newline(),
        decreases rows.len() - r,
    {
        assert(rows@[r as int]@.len() == header@.len()) by {
            assert(rv[r as int].len() == hv.len());
        }
        let mut line = row_text(&rows[r], &widths);
        line.append("\n");
        proof {
            reveal_strlit("\n");
        }
        assert(line@ =~= table_row(rv[r as int], wv) + newline());
        lines.push(line);
        r = r + 1;
    }
    assert(lines.deep_view() =~= Seq::new(rv.len(), |k: int| table_row(rv[k], wv) + newline()));
    proof {
        reveal_strlit("\n");
    }
    let mut out = rule.clone();
    out.append("\n");
    let head = row_text(header, &widths);
    out.append(head.as_str());
    out.append("\n");
    out.append(rule.as_str());
    out.append("\n");
    push_joined(&mut out, &lines, "");
    out.append(rule.as_str());
    assert(""@ =~= Seq::<char>::empty()) by {
        reveal_strlit("");
    }
    assert(out@ =~= table_text(hv, rv));
    out
}

// ---------------------------------------------------------------------------
// Task tables
// ---------------------------------------------------------------------------

/// The text of a cell, `-` standing for a missing value.
pub open spec fn or_dash(o: Option<Seq<char>>) -> Seq<char> {
    match o {
        Some(s) => s,
        None => "-"@,
    }
}

pub open spec fn decimal_or_dash(o: Option<i64>) -> Seq<char> {
    match o {
        Some(n) => decimal(n as int),
        None => "-"@,
    }
}

/// Some task has a parent, which makes the table show a PARENT column.
pub open spec fn any_parent(ts: Seq<TaskRecord>) -> bool {
    exists|i: int| 0 <= i < ts.len() && (#[trigger] ts[i]).parent_id is Some
}

pub open spec fn task_table_header(with_parent: bool) -> Seq<Seq<char>> {
    if with_parent {
        seq!["ID"@, "PARENT"@, "TITLE"@, "STATUS"@, "PRIORITY"@, "ASSIGNED"@]
    } else {
        seq!["ID"@, "TITLE"@, "STATUS"@, "PRIORITY"@, "ASSIGNED"@]
    }
}

/// The cells of a task's row, with the given title text.
pub open spec fn task_cells_titled(t: TaskRecord, with_parent: bool, title: Seq<char>) -> Seq<Seq<char>> {
    if with_parent {
        seq![
            decimal(t.id as int),
            decimal_or_dash(t.parent_id),
            title,
            t.status@,
            or_dash(t.priority.deep_view()),
            or_dash(t.assigned_to.deep_view()),
        ]
    } else {
        seq![
            decimal(t.id as int),
            title,
            t.status@,
            or_dash(t.priority.deep_view()),
            or_dash(t.assigned_to.deep_view()),
        ]
    }
}

pub open spec fn task_cells(t: TaskRecord, with_parent: bool) -> Seq<Seq<char>> {
    task_cells_titled(t, with_parent, t.title@)
}

pub open spec fn no_tasks_text() -> Seq<char> {
    "No tasks found."@
}

/// The table of a task list: a PARENT column when any task has a parent; or a short notice
/// when the list is empty.
pub open spec fn task_table(ts: Seq<TaskRecord>) -> Seq<char> {
    if ts.len() == 0 {
        no_tasks_text()
    } else {
        let p = any_parent(ts);
        table_text(task_table_header(p), Seq::new(ts.len(), |i: int| task_cells(ts[i], p)))
    }
}

fn header_cells(with_parent: bool) -> (res: Vec<String>)
    ensures
        res.deep_view() == task_table_header(with_parent),
{
    let mut h: Vec<String> = Vec::new();
    h.push("ID".to_owned());
    if with_parent {
        h.push("PARENT".to_owned());
    }
    h.push("TITLE".to_owned());
    h.push("STATUS".to_owned());
    h.push("PRIORITY".to_owned());
    h.push("ASSIGNED".to_owned());
    assert(h.deep_view() =~= task_table_header(with_parent));
    h
}

fn or_dash_text(o: &Option<String>) -> (res: String)
    ensures
        res@ == or_dash(o.deep_view()),
{
    match o {
        Some(s) => s.clone(),
        None => "-".to_owned(),
    }
}

fn task_cells_text(t: &TaskRecord, with_parent: bool, title: String) -> (res: Vec<String>)
    ensures
        res.deep_view() == task_cells_titled(*t, with_parent, title@),
{
    let ghost tv = title@;
    let mut c: Vec<String> = Vec::new();
    c.push(decimal_string(t.id));
    if with_parent {
        c.push(
            match t.parent_id {
                Some(p) => decimal_string(p),
                None => "-".to_owned(),
            },
        );
    }
    c.push(title);
    c.push(t.status.clone());
    c.push(or_dash_text(&t.priority));
    c.push(or_dash_text(&t.assigned_to));
    assert(c.deep_view() =~= task_cells_titled(*t, with_parent, tv));
    c
}

/// The table `task list --format table` prints.
pub fn render_task_table(ts: &Vec<TaskRecord>) -> (res: String)
    ensures
        res@ == task_table(ts@),
{
    if ts.len() == 0 {
        return "No tasks found.".to_owned();
    }
    let mut with_parent = false;
    let mut i: usize = 0;
    while i < ts.len()
        invariant
            i <= ts.len(),
            with_parent == exists|j: int| 0 <= j < i && (#[trigger] ts@[j]).parent_id is Some,
        decreases ts.len() - i,
    {
        if ts[i].parent_id.is_some() {
            with_parent = true;
        }
        i = i + 1;
    }
    let header = header_cells(with_parent);
    let mut rows: Vec<Vec<String>> = Vec::new();
    let mut r: usize = 0;
    while r < ts.len()
        invariant
            r <= ts.len(),
            with_parent == any_parent(ts@),
            rows@.len() == r,
            forall|j: int| 0 <= j < r ==> (#[trigger] rows@[j]).deep_view() == task_cells(ts@[j], with_parent),
        decreases ts.len() - r,
    {
        rows.push(task_cells_text(&ts[r], with_parent, ts[r].title.clone()));
        r = r + 1;
    }
    let ghost cells = Seq::new(ts@.len(), |k: int| task_cells(ts@[k], with_parent));
    assert(rows.deep_view() =~= cells);
    assert(well_shaped(header.deep_view(), rows.deep_view()));
    render_table(&header, &rows)
}

/// The rows of one tree node: the task, then each child with its title indented by `  └─ `.
pub open spec fn tree_node_rows(n: TaskTreeNode) -> Seq<Seq<Seq<char>>> {
    seq![task_cells(n.task, false)] + Seq::new(
        n.children@.len(),
        |i: int| task_cells_titled(n.children@[i], false, "  \u{2514}\u{2500} "@ + n.children@[i].title@),
    )
}

pub open spec fn tree_rows(nodes: Seq<TaskTreeNode>) -> Seq<Seq<Seq<char>>>
    decreases nodes.len(),
{
    if nodes.len() == 0 {
        Seq::empty()
    } else {
        tree_rows(nodes.drop_last()) + tree_node_rows(nodes.last())
    }
}

/// The table of a task tree, without a PARENT column; or a short notice when it is empty.
pub open spec fn task_tree_table(nodes: Seq<TaskTreeNode>) -> Seq<char> {
    if nodes.len() == 0 {
        no_tasks_text()
    } else {
        table_text(task_table_header(false), tree_rows(nodes))
    }
}

/// The table `task list --tree --format table` prints.
pub fn render_task_tree_table(nodes: &Vec<TaskTreeNode>) -> (res: String)
    ensures
        res@ == task_tree_table(nodes@),
{
    if nodes.len() == 0 {
        return "No tasks found.".to_owned();
    }
    let header = header_cells(false);
    let mut rows: Vec<Vec<String>> = Vec::new();
    let mut k: usize = 0;
    while k < nodes.len()
        invariant
            k <= nodes.len(),
            rows.deep_view() == tree_rows(nodes@.take(k as int)),
            forall|j: int| 0 <= j < rows.deep_view().len() ==> (#[trigger] rows.deep_view()[j]).len() == 5,
        decreases nodes.len() - k,
    {
        assert(nodes@.take(k + 1).drop_last() =~= nodes@.take(k as int));
        let ghost before = rows.deep_view();
        let n = &nodes[k];
        let first = task_cells_text(&n.task, false, n.task.title.clone());
        let ghost fv = first.deep_view();
        rows.push(first);
        assert(rows.deep_view() =~= before.push(fv));
        let mut c: usize = 0;
        while c < n.children.len()
            invariant
                c <= n.children.len(),
                n == nodes@[k as int],
                rows.deep_view() == before + seq![task_cells(n.task, false)] + Seq::new(
                    c as nat,
                    |i: int|
                        task_cells_titled(
                            n.children@[i],
                            false,
                            "  \u{2514}\u{2500} "@ + n.children@[i].title@,
                        ),
                ),
                forall|j: int| 0 <= j < rows.deep_view().len() ==> (#[trigger] rows.deep_view()[j]).len() == 5,
            decreases n.children.len() - c,
        {
            let ghost prev = rows.deep_view();
            let mut title = "  \u{2514}\u{2500} ".to_owned();
            title.append(n.children[c].title.as_str());
            let row = task_cells_text(&n.children[c], false, title);
            let ghost rv = row.deep_view();
            rows.push(row);
            c = c + 1;
            assert(rows.deep_view() =~= prev.push(rv));
            assert(rows.deep_view() =~= before + seq![task_cells(n.task, false)] + Seq::new(
                c as nat,
                |i: int|
                    task_cells_titled(
                        n.children@[i],
                        false,
                        "  \u{2514}\u{2500} "@ + n.children@[i].title@,
                    ),
            ));
        }
        k = k + 1;
        assert(rows.deep_view() =~= tree_rows(nodes@.take(k as int)));
    }
    assert(nodes@.take(nodes.len() as int) =~= nodes@);
    assert(well_shaped(header.deep_view(), rows.deep_view()));
    render_table(&header, &rows)
}

} // verus!
