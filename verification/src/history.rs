//! Command and SKILL history: the records that are appended, one JSON line
//! each, to the history files, and the selection of records to show.
//!
//! Reading and writing the files, stamping the time and the JSON encoding
//! stand outside the library; what is decided about the records stands here.
use vstd::prelude::*;

use crate::text::{chars_of, push_char};

verus! {

broadcast use vstd::string::group_string_axioms;

/// The directory, under the home directory, that holds the history files.
pub const HISTORY_SUBDIR: &'static str = ".cache/virtuoso_bridge/history";

/// The file, in the history directory, of the command history.
pub const CMD_HISTORY_FILE: &'static str = "cmd.jsonl";

/// How many characters of a SKILL command's output a history record keeps.
pub const MAX_OUTPUT_CHARS: usize = 512;

/// One SKILL command sent to a session, and what it gave back.
#[derive(Debug, Clone)]
pub struct SkillEntry {
    pub ts: String,
    pub skill: String,
    pub ok: bool,
    pub output: String,
}

/// One command line run through the tool.
#[derive(Debug, Clone)]
pub struct CmdEntry {
    pub ts: String,
    pub session: Option<String>,
    pub cmd: Vec<String>,
    pub exit_code: i32,
}

/// What a `SkillEntry` holds, as text.
pub struct SkillEntryView {
    pub ts: Seq<char>,
    pub skill: Seq<char>,
    pub ok: bool,
    pub output: Seq<char>,
}

/// What a `CmdEntry` holds, as text.
pub struct CmdEntryView {
    pub ts: Seq<char>,
    pub session: Option<Seq<char>>,
    pub cmd: Seq<Seq<char>>,
    pub exit_code: i32,
}

impl View for SkillEntry {
    type V = SkillEntryView;

    open spec fn view(&self) -> SkillEntryView {
        SkillEntryView { ts: self.ts@, skill: self.skill@, ok: self.ok, output: self.output@ }
    }
}

pub open spec fn option_view(o: Option<String>) -> Option<Seq<char>> {
    match o {
        Some(s) => Some(s@),
        None => None,
    }
}

pub open spec fn strings_view(v: Seq<String>) -> Seq<Seq<char>> {
    v.map_values(|s: String| s@)
}

impl View for CmdEntry {
    type V = CmdEntryView;

    open spec fn view(&self) -> CmdEntryView {
        CmdEntryView {
            ts: self.ts@,
            session: option_view(self.session),
            cmd: strings_view(self.cmd@),
            exit_code: self.exit_code,
        }
    }
}

/// The first `MAX_OUTPUT_CHARS` characters of `s` (all of them when it is
/// shorter).
pub open spec fn truncated_output(s: Seq<char>) -> Seq<char> {
    if s.len() > MAX_OUTPUT_CHARS {
        s.take(MAX_OUTPUT_CHARS as int)
    } else {
        s
    }
}

/// The name of the file that holds the SKILL history of a session.
pub open spec fn skill_history_file_name(session_id: Seq<char>) -> Seq<char> {
    session_id + ".jsonl"@
}

/// The name of the file that holds the SKILL history of a session.
pub fn skill_history_file(session_id: &str) -> (r: String)
    ensures
        r@ == skill_history_file_name(session_id@),
{
    let mut r = String::from_str(session_id);
    r.append(".jsonl");
    r
}

impl SkillEntry {
    /// The record of a SKILL command: its output is cut to its first
    /// `MAX_OUTPUT_CHARS` characters.
    pub fn record(ts: String, skill: &str, ok: bool, output: &str) -> (r: Self)
        ensures
            r@ == (SkillEntryView {
                ts: ts@,
                skill: skill@,
                ok,
                output: truncated_output(output@),
            }),
    {
        let v = chars_of(output);
        let n = if v.len() > MAX_OUTPUT_CHARS {
            MAX_OUTPUT_CHARS
        } else {
            v.len()
        };
        let mut kept = String::new();
        let mut i: usize = 0;
        while i < n
            invariant
                n <= v@.len(),
                i <= n,
                kept@ == v@.take(i as int),
            decreases n - i,
        {
            push_char(&mut kept, v[i]);
            i = i + 1;
            assert(kept@ =~= v@.take(i as int));
        }
        assert(kept@ =~= truncated_output(output@));
        SkillEntry { ts, skill: String::from_str(skill), ok, output: kept }
    }
}

impl CmdEntry {
    /// The record of a command line run with `args`, for `session` if one was
    /// named, and how it exited.
    pub fn record(ts: String, args: &[String], session: Option<&str>, exit_code: i32) -> (r: Self)
        ensures
            r@ == (CmdEntryView {
                ts: ts@,
                session: match session {
                    Some(s) => Some(s@),
                    None => None,
                },
                cmd: strings_view(args@),
                exit_code,
            }),
    {
        let mut cmd: Vec<String> = Vec::new();
        let mut i: usize = 0;
        while i < args.len()
            invariant
                i <= args@.len(),
                cmd@.len() == i,
                forall|k: int| 0 <= k < i ==> cmd@[k]@ == args@[k]@,
            decreases args@.len() - i,
        {
            cmd.push(args[i].clone());
            i = i + 1;
        }
        assert(strings_view(cmd@) =~= strings_view(args@));
        let session = match session {
            Some(s) => Some(String::from_str(s)),
            None => None,
        };
        CmdEntry { ts, session, cmd, exit_code }
    }
}

/// The last `limit` items of `s`, or all of them when `limit` is 0 or there
/// are no more than `limit`.
pub open spec fn last_entries<T>(s: Seq<T>, limit: nat) -> Seq<T> {
    if limit > 0 && s.len() > limit {
        s.skip(s.len() - limit)
    } else {
        s
    }
}

/// Keeps the last `limit` items of `v` (all of them when `limit` is 0).
pub fn keep_last<T>(v: Vec<T>, limit: usize) -> (r: Vec<T>)
    ensures
        r@ == last_entries(v@, limit as nat),
{
    let mut v = v;
    let n = v.len();
    if limit > 0 && n > limit {
        let tail = v.split_off(n - limit);
        tail
    } else {
        v
    }
}

/// Whether a command record passes the session filter: with no filter every
/// record does; with one, the records made for that session do.
pub open spec fn cmd_selected(e: CmdEntryView, session_filter: Option<Seq<char>>) -> bool {
    match session_filter {
        Some(id) => e.session == Some(id),
        None => true,
    }
}

/// The session filter as a predicate on command records.
pub open spec fn cmd_filter(session_filter: Option<Seq<char>>) -> spec_fn(CmdEntryView) -> bool {
    |e: CmdEntryView| cmd_selected(e, session_filter)
}

pub open spec fn str_option_view(o: Option<&str>) -> Option<Seq<char>> {
    match o {
        Some(s) => Some(s@),
        None => None,
    }
}

pub open spec fn cmd_views(v: Seq<CmdEntry>) -> Seq<CmdEntryView> {
    v.map_values(|e: CmdEntry| e@)
}

/// The command records to show: those that pass the session filter, in
/// their order, of which the last `limit` (all when `limit` is 0).
pub fn select_cmd_entries(all: Vec<CmdEntry>, session_filter: Option<&str>, limit: usize) -> (r: Vec<
    CmdEntry,
>)
    ensures
        cmd_views(r@) == last_entries(
            cmd_views(all@).filter(cmd_filter(str_option_view(session_filter))),
            limit as nat,
        ),
{
    let ghost filter = str_option_view(session_filter);
    let ghost pred = cmd_filter(filter);
    let ghost orig = all@;
    let mut rest = all;
    let mut kept: Vec<CmdEntry> = Vec::new();
    let mut i: usize = 0;
    let n = rest.len();
    while i < n
        invariant
            n == orig.len(),
            i <= n,
            filter == str_option_view(session_filter),
            pred == cmd_filter(filter),
            rest@ == orig.skip(i as int),
            cmd_views(kept@) == cmd_views(orig.take(i as int)).filter(pred),
        decreases n - i,
    {
        let e = rest.remove(0);
        assert(e == orig[i as int]);
        let selected = match session_filter {
            Some(id) => match &e.session {
                Some(s) => {
                    string_is(s, id)
                },
                None => false,
            },
            None => true,
        };
        assert(selected == cmd_selected(e@, filter));
        proof {
            let prefix = cmd_views(orig.take(i + 1));
            assert(prefix.drop_last() =~= cmd_views(orig.take(i as int)));
            assert(prefix.last() == e@);
        }
        let ghost before = kept@;
        let ghost ev = e@;
        if selected {
            kept.push(e);
            assert(cmd_views(kept@) =~= cmd_views(before).push(ev));
        }
        proof {
            let prefix = cmd_views(orig.take(i + 1));
            assert(pred(ev) == selected);
            assert(prefix =~= prefix.drop_last().push(prefix.last()));
            prefix.drop_last().lemma_filter_push(prefix.last(), pred);
            assert(cmd_views(kept@) =~= prefix.filter(pred));
            assert(rest@ =~= orig.skip(i + 1));
        }
        i = i + 1;
    }
    assert(orig.take(n as int) =~= orig);
    let r = keep_last(kept, limit);
    assert(cmd_views(r@) =~= last_entries(cmd_views(kept@), limit as nat));
    r
}

/// Whether `s` holds the text `t`.
fn string_is(s: &String, t: &str) -> (r: bool)
    ensures
        r == (s@ == t@),
{
    let a = chars_of(s.as_str());
    crate::text::chars_equal(&a, t)
}

/// What `select_cmd_entries` keeps for a session filter `id`: only records of
/// that session, no more than `limit` of them when `limit` is not 0, and all
/// of the matching records when `limit` is 0.
pub proof fn law_selected_commands(all: Seq<CmdEntryView>, session_filter: Option<Seq<char>>, limit: nat)
    ensures
        ({
            let kept = last_entries(all.filter(cmd_filter(session_filter)), limit);
            &&& forall|k: int| 0 <= k < kept.len() ==> cmd_selected(#[trigger] kept[k], session_filter)
            &&& limit > 0 ==> kept.len() <= limit
            &&& limit == 0 ==> kept == all.filter(cmd_filter(session_filter))
        }),
{
    let pred = cmd_filter(session_filter);
    let matching = all.filter(pred);
    let kept = last_entries(matching, limit);
    assert forall|k: int| 0 <= k < kept.len() implies cmd_selected(#[trigger] kept[k], session_filter) by {
        let j = if limit > 0 && matching.len() > limit { k + matching.len() - limit } else { k };
        assert(kept[k] == matching[j]);
        all.lemma_filter_pred(pred, j);
    }
}

/// A history record keeps the beginning of a command's output: its first
/// characters, as many as the output has up to `MAX_OUTPUT_CHARS`, each in
/// its place.
pub proof fn law_output_keeps_its_beginning(output: Seq<char>)
    ensures
        truncated_output(output).len() == if output.len() > MAX_OUTPUT_CHARS {
            MAX_OUTPUT_CHARS as nat
        } else {
            output.len()
        },
        forall|k: int|
            0 <= k < truncated_output(output).len() ==> #[trigger] truncated_output(output)[k]
                == output[k],
{
}

/// With a session filter `id`, the records shown are exactly those made for
/// session `id`: each shown record's session is `id`, and when no limit is
/// set (0) every record of session `id` is shown, in the order they came.
pub proof fn law_filter_shows_exactly_the_session(
    all: Seq<CmdEntryView>,
    id: Seq<char>,
    limit: nat,
)
    ensures
        ({
            let kept = last_entries(all.filter(cmd_filter(Some(id))), limit);
            &&& forall|k: int| 0 <= k < kept.len() ==> (#[trigger] kept[k]).session == Some(id)
            &&& limit == 0 ==> forall|j: int|
                0 <= j < all.len() && (#[trigger] all[j]).session == Some(id) ==> kept.contains(
                    all[j],
                )
        }),
{
    let pred = cmd_filter(Some(id));
    let matching = all.filter(pred);
    let kept = last_entries(matching, limit);
    assert forall|k: int| 0 <= k < kept.len() implies (#[trigger] kept[k]).session == Some(id) by {
        let j = if limit > 0 && matching.len() > limit {
            k + matching.len() - limit
        } else {
            k
        };
        assert(kept[k] == matching[j]);
        all.lemma_filter_pred(pred, j);
    }
    if limit == 0 {
        assert forall|j: int| 0 <= j < all.len() && (#[trigger] all[j]).session == Some(id) implies kept.contains(all[j]) by {
            all.lemma_filter_contains(pred, j);
        }
    }
}

/// With no session filter and no limit, every record is shown, in order.
pub proof fn law_no_filter_shows_everything(all: Seq<CmdEntryView>)
    ensures
        last_entries(all.filter(cmd_filter(None)), 0) == all,
    decreases all.len(),
{
    if all.len() > 0 {
        law_no_filter_shows_everything(all.drop_last());
        assert(all.drop_last().push(all.last()) =~= all);
        all.drop_last().lemma_filter_push(all.last(), cmd_filter(None));
        assert(cmd_filter(None)(all.last()));
    } else {
        assert(all.filter(cmd_filter(None)) =~= all);
    }
}

} // verus!
