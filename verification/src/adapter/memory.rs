//! Long-term memory: task records and fix experiences kept in SQLite.
//!
//! The program around the library owns the database connection; this module
//! holds the records, the SQL it runs, the keywords a search uses and the
//! texts the search gives back.

use vstd::prelude::*;

use crate::config::MemoryConfig;
use crate::json::{json_array, json_list};
use crate::gitlab_api::pipelines::first_n;
use crate::text::{
    byte_len, char_len_utf8, chars_of, dec_spec, dec_string, join_spec, join_strings, split_words,
    str_views, string_in, string_of, utf8_len, views, words_spec,
};
use crate::tools::shell::int_text;

verus! {

/// A finished task.
#[derive(Debug, Clone)]
pub struct TaskRecord {
    pub task_description: String,
    pub result_summary: String,
    pub modified_files: Vec<String>,
    pub duration_secs: u64,
    pub token_consumption: u64,
    pub success: bool,
    pub created_at: String,
}

/// How a CI failure was fixed.
#[derive(Debug, Clone)]
pub struct FixExperience {
    pub failure_type: String,
    pub error_message: String,
    pub root_cause: String,
    pub fix_method: String,
    pub success: bool,
    pub created_at: String,
}

/// The memory store's settings: whether it is on, and its database.
#[derive(Debug, Clone)]
pub struct MemoryStore {
    pub config: MemoryConfig,
    pub db_path: String,
}

impl MemoryStore {
    /// The store the configuration describes.
    pub fn new(config: MemoryConfig) -> (r: Self)
        ensures
            r.db_path@ == config.db_path@,
            r.config == config,
    {
        let db_path = config.db_path.clone();
        MemoryStore { config, db_path }
    }

    /// Whether the store is used; a disabled store saves and finds nothing.
    pub fn enabled(&self) -> (r: bool)
        ensures
            r == self.config.enabled,
    {
        self.config.enabled
    }
}

/// The tables and indexes of the memory database.
pub const CREATE_TABLES_SQL: &'static str = "CREATE TABLE IF NOT EXISTS task_records (\n                id INTEGER PRIMARY KEY AUTOINCREMENT,\n                task_description TEXT NOT NULL,\n                result_summary TEXT NOT NULL,\n                modified_files TEXT NOT NULL,\n                duration_secs INTEGER NOT NULL,\n                token_consumption INTEGER NOT NULL,\n                success INTEGER NOT NULL,\n                created_at TEXT NOT NULL DEFAULT (datetime('now'))\n            );\n\n            CREATE TABLE IF NOT EXISTS fix_experiences (\n                id INTEGER PRIMARY KEY AUTOINCREMENT,\n                failure_type TEXT NOT NULL,\n                error_message TEXT NOT NULL,\n                root_cause TEXT NOT NULL,\n                fix_method TEXT NOT NULL,\n                success INTEGER NOT NULL,\n                created_at TEXT NOT NULL DEFAULT (datetime('now'))\n            );\n\n            CREATE INDEX IF NOT EXISTS idx_task_records_created\n                ON task_records(created_at DESC);\n            CREATE INDEX IF NOT EXISTS idx_fix_experiences_type\n                ON fix_experiences(failure_type);";

/// Inserts a task record.
pub const INSERT_TASK_SQL: &'static str = "INSERT INTO task_records\n                (task_description, result_summary, modified_files,\n                 duration_secs, token_consumption, success, created_at)\n             VALUES (?1, ?2, ?3, ?4, ?5, ?6, ?7)";

/// Inserts a fix experience.
pub const INSERT_FIX_SQL: &'static str = "INSERT INTO fix_experiences\n                (failure_type, error_message, root_cause, fix_method, success, created_at)\n             VALUES (?1, ?2, ?3, ?4, ?5, ?6)";

/// The task query, before its conditions.
pub const TASK_QUERY_HEAD: &'static str = "SELECT task_description, result_summary, modified_files,\n                    duration_secs, success, created_at\n             FROM task_records\n             WHERE ";

/// The task query, after its conditions.
pub const TASK_QUERY_TAIL: &'static str = "\n             ORDER BY created_at DESC\n             LIMIT 10";

/// The fix-experience query, before its conditions.
pub const FIX_QUERY_HEAD: &'static str = "SELECT failure_type, error_message, root_cause, fix_method, success, created_at\n             FROM fix_experiences\n             WHERE ";

/// The fix-experience query, after its conditions.
pub const FIX_QUERY_TAIL: &'static str = "\n             ORDER BY created_at DESC\n             LIMIT 10";


/// The words of a description longer than two bytes, in order.
pub open spec fn long_words(ws: Seq<Seq<char>>) -> Seq<Seq<char>>
    decreases ws.len(),
{
    if ws.len() == 0 {
        Seq::empty()
    } else {
        let r = long_words(ws.drop_last());
        if byte_len(ws.last()) > 2 {
            r.push(ws.last())
        } else {
            r
        }
    }
}

/// The search keywords of a task: its first five words longer than two bytes.
pub open spec fn keywords_spec(task: Seq<char>) -> Seq<Seq<char>> {
    first_n(long_words(words_spec(task)), 5)
}

/// Whether `w` takes more than `n` bytes in UTF-8.
fn longer_than(w: &Vec<char>, n: usize) -> (r: bool)
    requires
        n < usize::MAX - 4,
    ensures
        r == (byte_len(w@) > n),
{
    let mut acc: usize = 0;
    let mut i: usize = 0;
    while i < w.len()
        invariant
            i <= w.len(),
            n < usize::MAX - 4,
            acc as int == byte_len(w@.take(i as int)),
            acc <= n,
        decreases w.len() - i,
    {
        assert(w@.take(i + 1).drop_last() =~= w@.take(i as int));
        acc = acc + char_len_utf8(w[i]);
        i = i + 1;
        if acc > n {
            proof {
                byte_len_prefix(w@, i as int);
            }
            return true;
        }
    }
    assert(w@.take(w.len() as int) =~= w@);
    false
}

proof fn byte_len_prefix(s: Seq<char>, k: int)
    requires
        0 <= k <= s.len(),
    ensures
        byte_len(s.take(k)) <= byte_len(s),
    decreases s.len() - k,
{
    if k < s.len() {
        byte_len_prefix(s, k + 1);
        assert(s.take(k + 1).drop_last() =~= s.take(k));
    } else {
        assert(s.take(k) =~= s);
    }
}

/// The search keywords of a task description.
pub fn extract_keywords(task_description: &str) -> (r: Vec<String>)
    ensures
        str_views(r@) == keywords_spec(task_description@),
{
    let chars = chars_of(task_description);
    let words = split_words(chars.as_slice());
    let ghost wv = views(words@);
    let mut r: Vec<String> = Vec::new();
    let mut i: usize = 0;
    while i < words.len()
        invariant
            i <= words.len(),
            wv == views(words@),
            wv == words_spec(task_description@),
            str_views(r@) == first_n(long_words(wv.take(i as int)), 5),
        decreases words.len() - i,
    {
        let w = &words[i];
        proof {
            let t = wv.take(i + 1);
            assert(t.drop_last() =~= wv.take(i as int));
            assert(t.last() == w@);
        }
        if longer_than(w, 2) {
            let ghost lw = long_words(wv.take(i as int));
            if r.len() < 5 {
                let ghost before = str_views(r@);
                r.push(string_of(w.as_slice()));
                assert(str_views(r@) =~= before.push(w@));
                assert(lw.push(w@).take(5) =~= lw.push(w@) || lw.len() + 1 <= 5);
            } else {
                assert(lw.push(w@).take(5) =~= lw.take(5));
            }
        }
        i = i + 1;
    }
    assert(wv.take(wv.len() as int) =~= wv);
    r
}

/// `%<keyword>%`, for `LIKE`.
pub open spec fn like_pattern(k: Seq<char>) -> Seq<char> {
    "%"@ + k + "%"@
}

/// The `LIKE` patterns of the keywords.
pub fn like_patterns(keywords: &Vec<String>) -> (r: Vec<String>)
    ensures
        str_views(r@) == str_views(keywords@).map_values(|k: Seq<char>| like_pattern(k)),
{
    let ghost kv = str_views(keywords@);
    let mut r: Vec<String> = Vec::new();
    let mut i: usize = 0;
    while i < keywords.len()
        invariant
            i <= keywords.len(),
            kv == str_views(keywords@),
            str_views(r@) == kv.map_values(|k: Seq<char>| like_pattern(k)).take(i as int),
        decreases keywords.len() - i,
    {
        let mut p = String::from_str("%");
        p.append(keywords[i].as_str());
        p.append("%");
        let ghost before = str_views(r@);
        r.push(p);
        assert(str_views(r@) =~= before.push(like_pattern(kv[i as int])));
        assert(kv.map_values(|k: Seq<char>| like_pattern(k)).take(i + 1) =~= kv.map_values(
            |k: Seq<char>| like_pattern(k),
        ).take(i as int).push(like_pattern(kv[i as int])));
        i = i + 1;
    }
    assert(kv.map_values(|k: Seq<char>| like_pattern(k)).take(kv.len() as int) =~= kv.map_values(
        |k: Seq<char>| like_pattern(k),
    ));
    r
}

/// The conditions of the task query: one `LIKE` per pattern, numbered from 1.
pub open spec fn task_conditions(n: nat) -> Seq<Seq<char>> {
    Seq::new(n, |i: int| "task_description LIKE ?"@ + dec_spec((i + 1) as nat))
}

/// The conditions of the fix query: two `LIKE`s per pattern (type, then
/// message), numbered from 1.
pub open spec fn fix_conditions(n: nat) -> Seq<Seq<char>> {
    Seq::new(
        2 * n,
        |j: int|
            if j % 2 == 0 {
                "failure_type LIKE ?"@ + dec_spec((j + 1) as nat)
            } else {
                "error_message LIKE ?"@ + dec_spec((j + 1) as nat)
            },
    )
}

/// The task query for `n` patterns.
pub fn task_query_sql(n: usize) -> (r: String)
    ensures
        r@ == TASK_QUERY_HEAD@ + join_spec(task_conditions(n as nat), " OR "@) + TASK_QUERY_TAIL@,
{
    let mut conds: Vec<String> = Vec::new();
    let mut i: usize = 0;
    while i < n
        invariant
            i <= n,
            str_views(conds@) == task_conditions(n as nat).take(i as int),
        decreases n - i,
    {
        let mut c = String::from_str("task_description LIKE ?");
        let d = dec_string(i as u64 + 1);
        c.append(d.as_str());
        let ghost before = str_views(conds@);
        assert(task_conditions(n as nat)[i as int] == c@);
        conds.push(c);
        assert(str_views(conds@) =~= before.push(c@));
        assert(task_conditions(n as nat).take(i + 1) =~= task_conditions(n as nat).take(i as int).push(c@));
        i = i + 1;
    }
    assert(task_conditions(n as nat).take(n as int) =~= task_conditions(n as nat));
    let mut s = String::from_str(TASK_QUERY_HEAD);
    let j = join_strings(&conds, " OR ");
    s.append(j.as_str());
    s.append(TASK_QUERY_TAIL);
    s
}

/// The fix-experience query for `n` patterns.
pub fn fix_query_sql(n: usize) -> (r: String)
    requires
        n <= usize::MAX / 2,
    ensures
        r@ == FIX_QUERY_HEAD@ + join_spec(fix_conditions(n as nat), " OR "@) + FIX_QUERY_TAIL@,
{
    let mut conds: Vec<String> = Vec::new();
    let mut j: usize = 0;
    while j < 2 * n
        invariant
            j <= 2 * n,
            n <= usize::MAX / 2,
            str_views(conds@) == fix_conditions(n as nat).take(j as int),
        decreases 2 * n - j,
    {
        let mut c = if j % 2 == 0 {
            String::from_str("failure_type LIKE ?")
        } else {
            String::from_str("error_message LIKE ?")
        };
        let d = dec_string(j as u64 + 1);
        c.append(d.as_str());
        let ghost before = str_views(conds@);
        assert(fix_conditions(n as nat)[j as int] == c@);
        conds.push(c);
        assert(str_views(conds@) =~= before.push(c@));
        assert(fix_conditions(n as nat).take(j + 1) =~= fix_conditions(n as nat).take(j as int).push(c@));
        j = j + 1;
    }
    assert(fix_conditions(n as nat).take(2 * n as int) =~= fix_conditions(n as nat));
    let mut s = String::from_str(FIX_QUERY_HEAD);
    let jn = join_strings(&conds, " OR ");
    s.append(jn.as_str());
    s.append(FIX_QUERY_TAIL);
    s
}

/// The parameters of the fix query: each pattern twice.
pub fn fix_query_params(patterns: &Vec<String>) -> (r: Vec<String>)
    ensures
        r@.len() == 2 * patterns@.len(),
        forall|j: int| 0 <= j < r@.len() ==> #[trigger] r@[j]@ == patterns@[j / 2]@,
{
    let mut r: Vec<String> = Vec::new();
    let mut i: usize = 0;
    while i < patterns.len()
        invariant
            i <= patterns.len(),
            r@.len() == 2 * i,
            forall|j: int| 0 <= j < r@.len() ==> #[trigger] r@[j]@ == patterns@[j / 2]@,
        decreases patterns.len() - i,
    {
        r.push(patterns[i].clone());
        r.push(patterns[i].clone());
        i = i + 1;
    }
    r
}

/// `✓` for a success flag of 1, `✗` otherwise.
pub open spec fn mark(success: i64) -> Seq<char> {
    if success == 1 {
        "✓"@
    } else {
        "✗"@
    }
}

/// The text of a task record found by a search.
pub open spec fn task_row_text(
    created: Seq<char>,
    desc: Seq<char>,
    summary: Seq<char>,
    files: Seq<char>,
    duration: i64,
    success: i64,
) -> Seq<char> {
    "[任务] "@ + created + " | "@ + desc + "\n  结果: "@ + summary + "\n  文件: "@ + files + "\n  耗时: "@
        + int_text(duration as int) + "s | 状态: "@ + mark(success)
}

/// The text of a fix experience found by a search.
pub open spec fn fix_row_text(
    created: Seq<char>,
    ftype: Seq<char>,
    errmsg: Seq<char>,
    cause: Seq<char>,
    fix: Seq<char>,
    success: i64,
) -> Seq<char> {
    "[修复] "@ + created + " | "@ + ftype + "\n  错误: "@ + errmsg + "\n  根因: "@ + cause + "\n  修复: "@ + fix
        + "\n  状态: "@ + mark(success)
}

fn push_int(s: &mut String, v: i64)
    ensures
        final(s)@ == old(s)@ + int_text(v as int),
{
    if v < 0 {
        s.append("-");
        let d = dec_string((-(v as i128)) as u64);
        s.append(d.as_str());
    } else {
        let d = dec_string(v as u64);
        s.append(d.as_str());
    }
}

/// The text of a task record found by a search.
pub fn format_task_row(created: &str, desc: &str, summary: &str, files: &str, duration: i64, success: i64) -> (r: String)
    ensures
        r@ == task_row_text(created@, desc@, summary@, files@, duration, success),
{
    let mut s = String::from_str("[任务] ");
    s.append(created);
    s.append(" | ");
    s.append(desc);
    s.append("\n  结果: ");
    s.append(summary);
    s.append("\n  文件: ");
    s.append(files);
    s.append("\n  耗时: ");
    push_int(&mut s, duration);
    s.append("s | 状态: ");
    s.append(if success == 1 { "✓" } else { "✗" });
    s
}

/// The text of a fix experience found by a search.
pub fn format_fix_row(created: &str, ftype: &str, errmsg: &str, cause: &str, fix: &str, success: i64) -> (r: String)
    ensures
        r@ == fix_row_text(created@, ftype@, errmsg@, cause@, fix@, success),
{
    let mut s = String::from_str("[修复] ");
    s.append(created);
    s.append(" | ");
    s.append(ftype);
    s.append("\n  错误: ");
    s.append(errmsg);
    s.append("\n  根因: ");
    s.append(cause);
    s.append("\n  修复: ");
    s.append(fix);
    s.append("\n  状态: ");
    s.append(if success == 1 { "✓" } else { "✗" });
    s
}

/// Adds a search result unless it is already there.
pub fn push_unique(results: &mut Vec<String>, r: String)
    ensures
        if str_views(old(results)@).contains(r@) {
            final(results)@ == old(results)@
        } else {
            final(results)@ == old(results)@.push(r)
        },
{
    if !string_in(results, &r) {
        results.push(r);
    }
}

/// No two results are the same text.
pub open spec fn distinct_texts(v: Seq<Seq<char>>) -> bool {
    forall|i: int, j: int| 0 <= i < j < v.len() ==> v[i] != v[j]
}

/// Results gathered with `push_unique` and cut with `cap_results` stay
/// distinct: adding a result that is not there yet, or keeping a prefix,
/// never repeats a text.
pub proof fn law_results_stay_distinct(v: Seq<Seq<char>>, r: Seq<char>, n: int)
    requires
        distinct_texts(v),
        0 <= n,
    ensures
        !v.contains(r) ==> distinct_texts(v.push(r)),
        distinct_texts(first_n(v, n)),
{
    if !v.contains(r) {
        assert forall|i: int, j: int| 0 <= i < j < v.push(r).len() implies v.push(r)[i] != v.push(r)[j] by {
            if j == v.len() {
                assert(v.push(r)[i] == v[i]);
            }
        }
    }
    if n < v.len() {
        assert forall|i: int, j: int| 0 <= i < j < v.take(n).len() implies v.take(n)[i] != v.take(n)[j] by {
            assert(v.take(n)[i] == v[i] && v.take(n)[j] == v[j]);
        }
    }
}

/// The most results a search returns.
pub const MAX_RESULTS: usize = 10;

/// Keeps the first ten results.
pub fn cap_results(results: &mut Vec<String>)
    ensures
        final(results)@ == first_n(old(results)@, MAX_RESULTS as int),
{
    let ghost before = results@;
    results.truncate(MAX_RESULTS);
    proof {
        if (MAX_RESULTS as int) < before.len() {
            assert(results@ =~= before.take(MAX_RESULTS as int));
        } else {
            assert(results@ =~= before);
        }
    }
}

/// The texts in order, each kept only at its first occurrence.
pub open spec fn unique_in_order(s: Seq<Seq<char>>) -> Seq<Seq<char>>
    decreases s.len(),
{
    if s.len() == 0 {
        Seq::empty()
    } else {
        let u = unique_in_order(s.drop_last());
        if u.contains(s.last()) {
            u
        } else {
            u.push(s.last())
        }
    }
}

/// The results of a search: the past tasks' texts, then the fixes' texts,
/// each text once, the first ten.
pub open spec fn combined_results(task_rows: Seq<Seq<char>>, fix_rows: Seq<Seq<char>>) -> Seq<Seq<char>> {
    first_n(unique_in_order(task_rows + fix_rows), MAX_RESULTS as int)
}

proof fn lemma_unique_distinct(s: Seq<Seq<char>>)
    ensures
        distinct_texts(unique_in_order(s)),
    decreases s.len(),
{
    if s.len() > 0 {
        lemma_unique_distinct(s.drop_last());
        let u = unique_in_order(s.drop_last());
        law_results_stay_distinct(u, s.last(), 0);
    }
}

/// The results of a search, from the rows it read: past tasks first, then
/// fixes, no text twice, at most ten.
pub fn combine_results(task_rows: &Vec<String>, fix_rows: &Vec<String>) -> (r: Vec<String>)
    ensures
        str_views(r@) == combined_results(str_views(task_rows@), str_views(fix_rows@)),
        distinct_texts(str_views(r@)),
        r@.len() <= MAX_RESULTS,
{
    let ghost all = str_views(task_rows@) + str_views(fix_rows@);
    let mut results: Vec<String> = Vec::new();
    let mut i: usize = 0;
    while i < task_rows.len()
        invariant
            i <= task_rows.len(),
            all == str_views(task_rows@) + str_views(fix_rows@),
            str_views(results@) == unique_in_order(all.take(i as int)),
        decreases task_rows.len() - i,
    {
        proof {
            assert(all.take(i + 1).drop_last() =~= all.take(i as int));
            assert(all.take(i + 1).last() == task_rows@[i as int]@);
        }
        let ghost before = results@;
        push_unique(&mut results, task_rows[i].clone());
        proof {
            if str_views(before).contains(task_rows@[i as int]@) {
            } else {
                assert(str_views(results@) =~= str_views(before).push(task_rows@[i as int]@));
            }
        }
        i = i + 1;
    }
    let mut j: usize = 0;
    while j < fix_rows.len()
        invariant
            j <= fix_rows.len(),
            i == task_rows.len(),
            all == str_views(task_rows@) + str_views(fix_rows@),
            str_views(results@) == unique_in_order(all.take(i + j)),
        decreases fix_rows.len() - j,
    {
        proof {
            assert(all.take(i + j + 1).drop_last() =~= all.take(i + j));
            assert(all.take(i + j + 1).last() == fix_rows@[j as int]@);
        }
        let ghost before = results@;
        push_unique(&mut results, fix_rows[j].clone());
        proof {
            if str_views(before).contains(fix_rows@[j as int]@) {
            } else {
                assert(str_views(results@) =~= str_views(before).push(fix_rows@[j as int]@));
            }
        }
        j = j + 1;
    }
    assert(all.take(i + j) =~= all);
    let ghost full = results@;
    cap_results(&mut results);
    proof {
        lemma_unique_distinct(all);
        law_results_stay_distinct(str_views(full), Seq::empty(), MAX_RESULTS as int);
        if (MAX_RESULTS as int) < full.len() {
            assert(str_views(results@) =~= str_views(full).take(MAX_RESULTS as int));
        } else {
            assert(str_views(results@) =~= str_views(full));
        }
    }
    results
}

/// The stored form of a record's modified files: their JSON list (empty
/// should encoding fail, which it does not).
pub fn modified_files_json(record: &TaskRecord) -> (r: String)
    ensures
        r@ == json_array(str_views(record.modified_files@)),
{
    match json_list(&record.modified_files) {
        Some(j) => j,
        None => String::new(),
    }
}

} // verus!
