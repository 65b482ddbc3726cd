//! Where the database lives, and the schema it is given.
use vstd::prelude::*;
use std::path::{Path, PathBuf};

verus! {

#[verifier::external_type_specification]
#[verifier::external_body]
pub struct ExPath(Path);

#[verifier::external_type_specification]
#[verifier::external_body]
pub struct ExPathBuf(PathBuf);

/// The ancestors of a path as `Path::ancestors` yields them: the path itself, then each parent
/// in turn.
pub uninterp spec fn path_ancestors(start: &Path) -> Seq<PathBuf>;

/// `dir` joined with `.config/brain.toml`, as `Path::join` builds it.
pub uninterp spec fn config_path_in(dir: PathBuf) -> PathBuf;

/// `Path::ancestors`, collected: the path itself, then each parent in turn.
///
/// Claimed: the result depends on `start` alone and is named `path_ancestors`; it holds at
/// least the path itself.
#[verifier::external_body]
fn ancestors_of(start: &Path) -> (res: Vec<PathBuf>)
    ensures
        res@ == path_ancestors(start),
        res.len() >= 1,
{
    start.ancestors().map(|p| p.to_path_buf()).collect()
}

/// `Path::join` of the configuration file's relative location.
///
/// Claimed: the result depends on `dir` alone and is named `config_path_in`.
#[verifier::external_body]
fn config_candidate(dir: &PathBuf) -> (res: PathBuf)
    ensures
        res == config_path_in(*dir),
{
    dir.join(".config/brain.toml")
}

/// `Path::exists`: whether the file system has an entry at the path right now.
#[verifier::external_body]
fn path_exists(p: &PathBuf) -> bool {
    p.exists()
}

/// The places the configuration file is looked for: `.config/brain.toml` in `start`, then in
/// each of its ancestors, nearest first.
pub open spec fn config_paths(start: &Path) -> Seq<PathBuf> {
    path_ancestors(start).map_values(|d: PathBuf| config_path_in(d))
}

/// The candidate configuration paths for `start`, nearest first.
pub fn config_candidates(start: &Path) -> (res: Vec<PathBuf>)
    ensures
        res@ == config_paths(start),
{
    let dirs = ancestors_of(start);
    let mut out: Vec<PathBuf> = Vec::new();
    let mut i: usize = 0;
    while i < dirs.len()
        invariant
            i <= dirs.len(),
            dirs@ == path_ancestors(start),
            out@ == dirs@.take(i as int).map_values(|d: PathBuf| config_path_in(d)),
        decreases dirs.len() - i,
    {
        out.push(config_candidate(&dirs[i]));
        i = i + 1;
        assert(out@ =~= dirs@.take(i as int).map_values(|d: PathBuf| config_path_in(d)));
    }
    assert(dirs@.take(i as int) =~= dirs@);
    out
}

/// `i` is the first position at which `exists` holds.
pub open spec fn is_first_existing(exists: Seq<bool>, i: int) -> bool {
    &&& 0 <= i < exists.len()
    &&& exists[i]
    &&& forall|j: int| 0 <= j < i ==> !exists[j]
}

/// Given for each candidate whether it exists, the first candidate that does; `None` when
/// none does.
pub fn first_existing(candidates: Vec<PathBuf>, exists: &Vec<bool>) -> (res: Option<PathBuf>)
    requires
        candidates.len() == exists.len(),
    ensures
        res is None <==> forall|i: int| 0 <= i < exists.len() ==> !exists@[i],
        res matches Some(p) ==> exists|i: int|
            is_first_existing(exists@, i) && p == #[trigger] candidates@[i],
{
    let mut i: usize = 0;
    while i < exists.len()
        invariant
            i <= exists.len(),
            candidates.len() == exists.len(),
            forall|j: int| 0 <= j < i ==> !exists@[j],
        decreases exists.len() - i,
    {
        if exists[i] {
            let mut rest = candidates;
            let found = rest.remove(i);
            assert(is_first_existing(exists@, i as int));
            return Some(found);
        }
        i = i + 1;
    }
    None
}

/// Asks `probe` about each of `config_paths(start)` in turn, nearest first, stopping at the
/// first it answers `true` for, and gives that path; `None` when it answers `false` for all.
pub fn find_config_file_with<F: Fn(&PathBuf) -> bool>(start: &Path, probe: F) -> (res: Option<
    PathBuf,
>)
    requires
        forall|p: &PathBuf| #[trigger] probe.requires((p,)),
    ensures
        res matches Some(p) ==> exists|i: int|
            {
                &&& 0 <= i < config_paths(start).len()
                &&& p == #[trigger] config_paths(start)[i]
                &&& probe.ensures((&config_paths(start)[i],), true)
                &&& forall|j: int|
                    0 <= j < i ==> probe.ensures((&#[trigger] config_paths(start)[j],), false)
            },
        res is None ==> forall|i: int|
            0 <= i < config_paths(start).len() ==> probe.ensures(
                (&#[trigger] config_paths(start)[i],),
                false,
            ),
{
    let mut candidates = config_candidates(start);
    let mut answers: Vec<bool> = Vec::new();
    let mut found = false;
    while !found && answers.len() < candidates.len()
        invariant
            answers.len() <= candidates.len(),
            candidates@ == config_paths(start),
            forall|p: &PathBuf| #[trigger] probe.requires((p,)),
            forall|j: int|
                0 <= j < answers.len() ==> probe.ensures((&candidates@[j],), #[trigger] answers@[j]),
            !found ==> forall|j: int| 0 <= j < answers.len() ==> !#[trigger] answers@[j],
            found ==> answers.len() > 0 && answers@[answers.len() - 1],
        decreases candidates.len() - answers.len(),
    {
        let e = probe(&candidates[answers.len()]);
        answers.push(e);
        found = e;
    }
    let n = answers.len();
    candidates.truncate(n);
    let ghost probed = candidates@;
    assert(probed =~= config_paths(start).subrange(0, n as int));
    let res = first_existing(candidates, &answers);
    proof {
        if res is Some {
            let p = res->0;
            let i = choose|i: int| is_first_existing(answers@, i) && p == #[trigger] probed[i];
            assert(p == config_paths(start)[i]);
            assert forall|j: int| 0 <= j < i implies probe.ensures(
                (&#[trigger] config_paths(start)[j],),
                false,
            ) by {
                assert(!answers@[j]);
            }
        } else {
            assert(!found);
            assert(n == config_paths(start).len());
            assert forall|i: int| 0 <= i < config_paths(start).len() implies probe.ensures(
                (&#[trigger] config_paths(start)[i],),
                false,
            ) by {
                assert(!answers@[i]);
            }
        }
    }
    res
}

/// Looks for `.config/brain.toml` in `start` and then in each of its ancestors, nearest first
/// (the order of `config_paths`), asking the file system about each in turn until one exists,
/// and gives that one (`find_config_file_with`, asking `Path::exists`). Which of them exist is
/// up to the file system, so `None` may come back whatever `start` is; what comes back
/// otherwise is one of `config_paths(start)`.
pub fn find_config_file_from(start: &Path) -> (res: Option<PathBuf>)
    ensures
        res matches Some(p) ==> exists|i: int|
            0 <= i < config_paths(start).len() && p == #[trigger] config_paths(start)[i],
{
    find_config_file_with(start, |p: &PathBuf| path_exists(p))
}

/// Where the database is when nothing names it.
pub const DEFAULT_DB_PATH: &'static str = "./vault/brain.db";

/// The database path: the one given explicitly, else the `BRAIN_DB_PATH` environment value,
/// else the path from the configuration file, else the default.
pub open spec fn chosen_db_path(
    explicit: Option<Seq<char>>,
    env_value: Option<Seq<char>>,
    config_value: Option<Seq<char>>,
) -> Seq<char> {
    match explicit {
        Some(p) => p,
        None => match env_value {
            Some(p) => p,
            None => match config_value {
                Some(p) => p,
                None => DEFAULT_DB_PATH@,
            },
        },
    }
}

pub fn choose_db_path(
    explicit: Option<&str>,
    env_value: Option<String>,
    config_value: Option<String>,
) -> (res: String)
    ensures
        res@ == chosen_db_path(
            match explicit {
                Some(p) => Some(p@),
                None => None,
            },
            env_value.deep_view(),
            config_value.deep_view(),
        ),
{
    if let Some(p) = explicit {
        return p.to_owned();
    }
    if let Some(p) = env_value {
        return p;
    }
    if let Some(p) = config_value {
        return p;
    }
    DEFAULT_DB_PATH.to_owned()
}

/// Settings applied to every connection: foreign keys on, write-ahead log, a busy timeout.
pub const CONNECTION_PRAGMAS_SQL: &'static str = "PRAGMA foreign_keys = ON; PRAGMA journal_mode = WAL; PRAGMA busy_timeout = 5000;";

/// The schema, parents first so that foreign keys resolve. Every statement is
/// `CREATE TABLE IF NOT EXISTS`, so running it on an existing database changes nothing.
pub const SCHEMA_SQL: &'static str = "\
CREATE TABLE IF NOT EXISTS projects (
    id INTEGER PRIMARY KEY AUTOINCREMENT,
    name TEXT NOT NULL UNIQUE,
    description TEXT,
    path TEXT,
    status TEXT NOT NULL DEFAULT 'active'
        CHECK(status IN ('active','paused','completed','archived')),
    created_at TEXT NOT NULL DEFAULT (datetime('now')),
    updated_at TEXT NOT NULL DEFAULT (datetime('now'))
);
CREATE TABLE IF NOT EXISTS tasks (
    id INTEGER PRIMARY KEY,
    parent_id INTEGER,
    title TEXT NOT NULL,
    description TEXT,
    status TEXT NOT NULL DEFAULT 'open',
    priority TEXT,
    assigned_to TEXT,
    created_by TEXT NOT NULL,
    due_date TEXT,
    created_at TEXT NOT NULL DEFAULT (datetime('now')),
    updated_at TEXT NOT NULL DEFAULT (datetime('now')),
    completed_at TEXT,
    project_id INTEGER
);
CREATE TABLE IF NOT EXISTS dispatch_metrics (
    id INTEGER PRIMARY KEY,
    task_id INTEGER,
    agent TEXT NOT NULL,
    model TEXT NOT NULL,
    provider TEXT,
    dispatch_number INTEGER NOT NULL DEFAULT 1,
    status TEXT NOT NULL,
    tokens_input INTEGER,
    tokens_output INTEGER,
    tokens_total INTEGER,
    duration_ms INTEGER,
    cost_usd REAL,
    spec_review_passed_first_try INTEGER,
    tool_uses INTEGER,
    tools_external TEXT,
    created_at TEXT NOT NULL DEFAULT CURRENT_TIMESTAMP,
    dispatch_tier TEXT,
    task_pattern TEXT,
    tier_justification TEXT,
    dispatch_context_kb REAL
);
CREATE TABLE IF NOT EXISTS dispatch_events (
    id INTEGER PRIMARY KEY,
    dispatch_id INTEGER NOT NULL,
    event_type TEXT NOT NULL,
    severity TEXT NOT NULL DEFAULT 'info',
    description TEXT NOT NULL,
    created_at TEXT NOT NULL DEFAULT CURRENT_TIMESTAMP,
    FOREIGN KEY (dispatch_id) REFERENCES dispatch_metrics(id)
);
CREATE TABLE IF NOT EXISTS activity_log (
    id INTEGER PRIMARY KEY AUTOINCREMENT,
    actor TEXT NOT NULL,
    action TEXT NOT NULL,
    task_id INTEGER,
    target_type TEXT,
    target_id INTEGER,
    summary TEXT,
    created_at TEXT NOT NULL DEFAULT (datetime('now'))
);
CREATE TABLE IF NOT EXISTS session_events (
    id INTEGER PRIMARY KEY AUTOINCREMENT,
    session_date TEXT NOT NULL,
    event_type TEXT NOT NULL,
    category TEXT,
    description TEXT NOT NULL,
    created_at TEXT NOT NULL DEFAULT (datetime('now'))
);
CREATE TABLE IF NOT EXISTS scope_violations (
    id INTEGER PRIMARY KEY,
    agent TEXT NOT NULL,
    task_id INTEGER,
    dispatch_id INTEGER,
    violation_type TEXT NOT NULL,
    command_attempted TEXT NOT NULL,
    context TEXT,
    reason TEXT NOT NULL,
    resolution TEXT,
    created_at INTEGER NOT NULL
);
";

} // verus!
