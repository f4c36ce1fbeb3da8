//! The decisions of the history processor: which readings are cached, how
//! long the caches grow, which rows survive the folding, when a folding is
//! due, and where each history file lies.

use vstd::prelude::*;

use crate::charge::ChargeState;
use crate::config::{joined_path, main_separator, join_path};
use crate::text::owned_text;

verus! {

/// The kind of a history file.
#[derive(Clone, Copy, Debug, PartialEq, Eq, Structural)]
pub enum HistoryType {
    Battery,
    Power,
}

impl HistoryType {
    /// The name of the kind in file names.
    pub open spec fn name_text(self) -> Seq<char> {
        match self {
            HistoryType::Battery => "battery"@,
            HistoryType::Power => "power"@,
        }
    }

    /// The name of the kind in file names.
    pub fn to_text(&self) -> (s: String)
        ensures
            s@ == self.name_text(),
    {
        match self {
            HistoryType::Battery => owned_text("battery"),
            HistoryType::Power => owned_text("power"),
        }
    }
}

/// One history file: its kind, the width of its buckets (as polars reads a
/// duration, such as "10s"), and how many rows it keeps.
#[derive(Debug)]
pub struct IntervalConfig {
    pub htype: HistoryType,
    pub interval: String,
    pub limit: usize,
}

/// The file name of a history file: kind, underscore, bucket width, `.parquet`.
pub open spec fn history_file_name(htype: HistoryType, interval: Seq<char>) -> Seq<char> {
    htype.name_text() + "_"@ + interval + ".parquet"@
}

impl IntervalConfig {
    /// The file name of this history file.
    pub fn filename(&self) -> (s: String)
        ensures
            s@ == history_file_name(self.htype, self.interval@),
    {
        let mut s = self.htype.to_text();
        s.append("_");
        s.append(self.interval.as_str());
        s.append(".parquet");
        s
    }

    /// The path of this history file in the `data` directory next to the
    /// executable, whose directory is `exe_dir`.
    pub fn filepath(&self, exe_dir: &str) -> (p: String)
        ensures
            exists|sep: char|
                (sep == '/' || sep == '\\') && p@ == joined_path(
                    joined_path(exe_dir@, sep, "data"@),
                    sep,
                    history_file_name(self.htype, self.interval@),
                ),
    {
        let sep = main_separator();
        let dir = join_path(exe_dir, sep, "data");
        let name = self.filename();
        join_path(dir.as_str(), sep, name.as_str())
    }
}

/// The history files that the processor keeps: battery and power, each in
/// ten-second buckets, each up to 360 rows.
pub fn default_interval_configs() -> (v: Vec<IntervalConfig>)
    ensures
        v@.len() == 2,
        v@[0].htype == HistoryType::Battery,
        v@[0].interval@ == "10s"@,
        v@[0].limit == 360,
        v@[1].htype == HistoryType::Power,
        v@[1].interval@ == "10s"@,
        v@[1].limit == 360,
{
    let mut v: Vec<IntervalConfig> = Vec::new();
    v.push(IntervalConfig { htype: HistoryType::Battery, interval: owned_text("10s"), limit: 360 });
    v.push(IntervalConfig { htype: HistoryType::Power, interval: owned_text("10s"), limit: 360 });
    v
}

/// Where a table of `height` rows is cut so that its last `limit` rows
/// remain: `None` when it is no longer than `limit`.
pub fn retained_start(height: usize, limit: usize) -> (start: Option<usize>)
    ensures
        height <= limit ==> start is None,
        height > limit ==> start == Some((height - limit) as usize),
{
    if height > limit {
        Some(height - limit)
    } else {
        None
    }
}

/// The rows that remain of a table of `height` rows cut at `start`.
pub open spec fn rows_after_cut(height: int, start: Option<usize>) -> int {
    match start {
        Some(s) => height - s,
        None => height,
    }
}

/// A cut table never holds more than `limit` rows, and keeps all rows of one
/// that was not longer.
pub proof fn lemma_cut_bounds_rows(height: usize, limit: usize, start: Option<usize>)
    requires
        height <= limit ==> start is None,
        height > limit ==> start == Some((height - limit) as usize),
    ensures
        rows_after_cut(height as int, start) <= limit,
        height <= limit ==> rows_after_cut(height as int, start) == height,
        rows_after_cut(height as int, start) == if height < limit { height as int } else { limit as int },
{
}

/// A battery reading is cached when its state is known.
pub fn should_cache_battery(state: ChargeState) -> (r: bool)
    ensures
        r == (state != ChargeState::Unknown),
{
    !state.is_unknown()
}

/// A power reading is cached when the processor family is known.
pub fn should_cache_power(cpu_family: u32) -> (r: bool)
    ensures
        r == (cpu_family > 0),
{
    cpu_family > 0
}

/// Row `i` of a state column survives the folding when it is the first row or
/// its state differs from the row before.
pub open spec fn state_row_kept(states: Seq<Seq<char>>, i: int) -> bool {
    i == 0 || states[i] != states[i - 1]
}

/// Which rows of the state column survive the folding.
pub fn state_change_mask(states: &Vec<String>) -> (keep: Vec<bool>)
    ensures
        keep@.len() == states@.len(),
        forall|i: int|
            0 <= i < states@.len() ==> #[trigger] keep@[i] == state_row_kept(
                states@.map_values(|s: String| s@),
                i,
            ),
        states@.len() > 0 ==> keep@[0],
        forall|i: int|
            0 < i < states@.len() ==> #[trigger] keep@[i] == (states@[i]@ != states@[i - 1]@),
{
    let ghost views = states@.map_values(|s: String| s@);
    let n = states.len();
    let mut keep: Vec<bool> = Vec::new();
    let mut i: usize = 0;
    while i < n
        invariant
            n == states@.len(),
            views == states@.map_values(|s: String| s@),
            i <= n,
            keep@.len() == i,
            forall|k: int| 0 <= k < i ==> #[trigger] keep@[k] == state_row_kept(views, k),
        decreases n - i,
    {
        if i == 0 {
            keep.push(true);
        } else {
            let differs = states[i] != states[i - 1];
            assert(views[i as int] == states@[i as int]@);
            assert(views[i - 1] == states@[i - 1]@);
            keep.push(differs);
        }
        i = i + 1;
    }
    keep
}

/// After the folding, no two kept rows in a row share a state.
pub proof fn lemma_kept_rows_alternate(states: Seq<Seq<char>>, i: int)
    requires
        0 < i < states.len(),
        state_row_kept(states, i),
    ensures
        states[i] != states[i - 1],
{
}

/// The first row is always kept, and any later row is kept exactly when its
/// state differs from the row just before it: rows further back play no part.
pub proof fn lemma_row_kept_exactly_on_change(states: Seq<Seq<char>>, others: Seq<Seq<char>>, i: int)
    requires
        0 < i < states.len(),
        0 < i < others.len(),
        states[i] == others[i],
        states[i - 1] == others[i - 1],
    ensures
        state_row_kept(states, 0),
        state_row_kept(states, i) <==> states[i] != states[i - 1],
        state_row_kept(states, i) == state_row_kept(others, i),
{
}

/// When the processor last folded its caches.
#[derive(Debug)]
pub struct ProcessorSchedule {
    pub last_update_at: i64,
}

impl ProcessorSchedule {
    /// A folding is due when more than ten seconds have passed since the last.
    pub open spec fn merge_due_at(self, now: int) -> bool {
        now - self.last_update_at > 10
    }

    /// Takes the time of an update: says whether a folding is due and, when it
    /// is, restarts the wait from `now`.
    pub fn tick(&mut self, now: i64) -> (merge: bool)
        ensures
            merge == old(self).merge_due_at(now as int),
            merge ==> final(self).last_update_at == now,
            !merge ==> final(self).last_update_at == old(self).last_update_at,
    {
        let merge = (now as i128) - (self.last_update_at as i128) > 10;
        if merge {
            self.last_update_at = now;
        }
        merge
    }
}

} // verus!
