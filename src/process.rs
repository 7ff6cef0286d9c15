//! The table of background processes: commands started to outlive the tool
//! call that launched them, with their captured output and completion.

use crate::text::{decimal, decimal_text, views};
use vstd::prelude::*;

verus! {

/// One background process, as the table records it.
pub struct BackgroundProcess {
    /// The table's own id, shown to the model as `proc_<id>`.
    pub id: u64,
    /// The operating system's process id.
    pub pid: u32,
    pub command: String,
    /// Captured output lines, oldest first.
    pub output: Vec<String>,
    pub completed: bool,
    pub exit_code: Option<i32>,
}

/// The label under which the model refers to process `id`.
pub open spec fn process_label(id: u64) -> Seq<char> {
    "proc_"@ + decimal(id as nat)
}

/// The first record of `records` with id `id`.
pub open spec fn record_in(records: Seq<BackgroundProcess>, id: u64) -> Option<BackgroundProcess>
    decreases records.len(),
{
    if records.len() == 0 {
        None
    } else if records[0].id == id {
        Some(records[0])
    } else {
        record_in(records.drop_first(), id)
    }
}

/// `p` is a freshly started record: running, with no output yet.
pub open spec fn is_fresh(p: BackgroundProcess, id: u64, pid: u32, command: Seq<char>) -> bool {
    &&& p.id == id
    &&& p.pid == pid
    &&& p.command@ == command
    &&& p.output@.len() == 0
    &&& !p.completed
    &&& p.exit_code is None
}

/// `after` is `before` with one fresh record appended.
pub open spec fn spawned(
    before: Seq<BackgroundProcess>,
    after: Seq<BackgroundProcess>,
    id: u64,
    pid: u32,
    command: Seq<char>,
) -> bool {
    &&& after.len() == before.len() + 1
    &&& after.drop_last() == before
    &&& is_fresh(after.last(), id, pid, command)
}

/// The first record of `records` whose label is `label`.
pub open spec fn record_labelled(records: Seq<BackgroundProcess>, label: Seq<char>) -> Option<BackgroundProcess>
    decreases records.len(),
{
    if records.len() == 0 {
        None
    } else if process_label(records[0].id) == label {
        Some(records[0])
    } else {
        record_labelled(records.drop_first(), label)
    }
}

/// `records` with the record of `id` changed by `f`.
pub open spec fn updated(
    records: Seq<BackgroundProcess>,
    id: u64,
    f: spec_fn(BackgroundProcess) -> BackgroundProcess,
) -> Seq<BackgroundProcess> {
    records.map_values(|p: BackgroundProcess| if p.id == id { f(p) } else { p })
}

/// The record marked completed.
pub open spec fn as_killed(p: BackgroundProcess) -> BackgroundProcess {
    BackgroundProcess { completed: true, ..p }
}

/// The record marked completed with its exit code.
pub open spec fn as_exited(p: BackgroundProcess, code: Option<i32>) -> BackgroundProcess {
    BackgroundProcess { completed: true, exit_code: code, ..p }
}

/// The last `n` lines of `lines`, in the order they came.
pub open spec fn last_lines(lines: Seq<Seq<char>>, n: nat) -> Seq<Seq<char>> {
    if n >= lines.len() {
        lines
    } else {
        lines.subrange(lines.len() - n, lines.len() as int)
    }
}

/// The views of the output lines of a record.
pub open spec fn output_of(p: BackgroundProcess) -> Seq<Seq<char>> {
    views(p.output@)
}

/// A point lookup of one process.
#[derive(Debug)]
pub struct ProcessStatus {
    pub running: bool,
    pub pid: u32,
    pub command: String,
    pub exit_code: Option<i32>,
}

/// The table of background processes. Ids are handed out in increasing
/// order and never reused: an id is reserved before its process starts and
/// recorded once it has.
pub struct ProcessManager {
    processes: Vec<BackgroundProcess>,
    last_id: u64,
}

impl ProcessManager {
    /// The records, oldest first.
    pub closed spec fn records(&self) -> Seq<BackgroundProcess> {
        self.processes@
    }

    /// The last id handed out, or 0 before the first.
    pub closed spec fn last_id(&self) -> u64 {
        self.last_id
    }

    /// Ids are positive, distinct, and at most the last one handed out.
    pub open spec fn wf(&self) -> bool {
        &&& forall|i: int|
            0 <= i < self.records().len() ==> 1 <= #[trigger] self.records()[i].id <= self.last_id()
        &&& forall|i: int, j: int|
            0 <= i < self.records().len() && 0 <= j < self.records().len() && i != j
                ==> self.records()[i].id != self.records()[j].id
    }

    /// An empty table.
    pub fn new() -> (r: ProcessManager)
        ensures
            r.wf(),
            r.records() == Seq::<BackgroundProcess>::empty(),
            r.last_id() == 0,
    {
        ProcessManager { processes: Vec::new(), last_id: 0 }
    }

    /// The records, oldest first.
    pub fn processes(&self) -> (r: &Vec<BackgroundProcess>)
        ensures
            r@ == self.records(),
    {
        &self.processes
    }

    /// Hands out a fresh id for a process about to start: one that no
    /// record has, nor will get from another reservation. `None` when the
    /// ids are used up.
    pub fn reserve_id(&mut self) -> (r: Option<u64>)
        requires
            old(self).wf(),
        ensures
            final(self).wf(),
            final(self).records() == old(self).records(),
            match r {
                Some(id) => {
                    &&& id == old(self).last_id() + 1
                    &&& final(self).last_id() == id
                    &&& record_in(old(self).records(), id) is None
                },
                None => old(self).last_id() == u64::MAX && *final(self) == *old(self),
            },
    {
        if self.last_id == u64::MAX {
            return None;
        }
        let id = self.last_id + 1;
        proof {
            lemma_absent_above(self.processes@, id);
        }
        self.last_id = id;
        Some(id)
    }

    /// Gives back reserved id `id` for a process that failed to start, while
    /// it is still the last id handed out and no record has it; the next
    /// reservation then gets it again. False, and nothing changes, otherwise.
    pub fn release_id(&mut self, id: u64) -> (r: bool)
        requires
            old(self).wf(),
        ensures
            final(self).wf(),
            final(self).records() == old(self).records(),
            r == (id >= 1 && id == old(self).last_id() && record_in(old(self).records(), id) is None),
            final(self).last_id() == (if r {
                (old(self).last_id() - 1) as u64
            } else {
                old(self).last_id()
            }),
    {
        if id == 0 || id != self.last_id || self.position(id).is_some() {
            return false;
        }
        proof {
            lemma_record_none(self.processes@, id);
        }
        self.last_id = id - 1;
        true
    }

    /// Records a process that started under reserved id `id`, running with
    /// no output. False, and nothing changes, when `id` was not reserved or
    /// is already recorded.
    pub fn spawn(&mut self, id: u64, pid: u32, command: String) -> (r: bool)
        requires
            old(self).wf(),
        ensures
            final(self).wf(),
            final(self).last_id() == old(self).last_id(),
            r == (1 <= id <= old(self).last_id() && record_in(old(self).records(), id) is None),
            r ==> spawned(old(self).records(), final(self).records(), id, pid, command@),
            !r ==> final(self).records() == old(self).records(),
    {
        if id == 0 || id > self.last_id {
            return false;
        }
        if self.position(id).is_some() {
            return false;
        }
        proof {
            lemma_record_none(self.processes@, id);
        }
        self.processes.push(
            BackgroundProcess { id, pid, command, output: Vec::new(), completed: false, exit_code: None },
        );
        assert(self.processes@.drop_last() =~= old(self).processes@);
        true
    }

    /// The position of the record with id `id`.
    pub fn position(&self, id: u64) -> (r: Option<usize>)
        ensures
            match r {
                Some(i) => i < self.records().len() && self.records()[i as int].id == id
                    && record_in(self.records(), id) == Some(self.records()[i as int]),
                None => record_in(self.records(), id) is None,
            },
    {
        let mut i: usize = 0;
        assert(self.processes@.skip(0) =~= self.processes@);
        while i < self.processes.len()
            invariant
                i <= self.processes@.len(),
                record_in(self.processes@, id) == record_in(self.processes@.skip(i as int), id),
            decreases self.processes@.len() - i,
        {
            assert(self.processes@.skip(i as int).drop_first() =~= self.processes@.skip(i + 1));
            if self.processes[i].id == id {
                return Some(i);
            }
            i = i + 1;
        }
        None
    }

    /// The position of the record whose label is `label`.
    pub fn position_of_label(&self, label: &str) -> (r: Option<usize>)
        ensures
            match r {
                Some(i) => i < self.records().len() && record_labelled(self.records(), label@) == Some(
                    self.records()[i as int],
                ),
                None => record_labelled(self.records(), label@) is None,
            },
    {
        let mut i: usize = 0;
        assert(self.processes@.skip(0) =~= self.processes@);
        while i < self.processes.len()
            invariant
                i <= self.processes@.len(),
                record_labelled(self.processes@, label@) == record_labelled(self.processes@.skip(i as int), label@),
            decreases self.processes@.len() - i,
        {
            assert(self.processes@.skip(i as int).drop_first() =~= self.processes@.skip(i + 1));
            let l = label_text(self.processes[i].id);
            if crate::text::str_eq(l.as_str(), label) {
                return Some(i);
            }
            i = i + 1;
        }
        None
    }

    /// Whether process `id` is running or completed, with its pid, command
    /// and exit code; `None` when there is no such process.
    pub fn status(&self, id: u64) -> (r: Option<ProcessStatus>)
        ensures
            match record_in(self.records(), id) {
                Some(p) => r matches Some(s) && s.running == !p.completed && s.pid == p.pid && s.command
                    == p.command && s.exit_code == p.exit_code,
                None => r is None,
            },
    {
        match self.position(id) {
            Some(i) => {
                let p = &self.processes[i];
                Some(ProcessStatus { running: !p.completed, pid: p.pid, command: p.command.clone(), exit_code: p.exit_code })
            },
            None => None,
        }
    }

    /// The last `max_lines` output lines of process `id`, in the order they
    /// came; `None` when there is no such process.
    pub fn output(&self, id: u64, max_lines: usize) -> (r: Option<Vec<String>>)
        ensures
            match record_in(self.records(), id) {
                Some(p) => r matches Some(v) && views(v@) == last_lines(output_of(p), max_lines as nat),
                None => r is None,
            },
    {
        match self.position(id) {
            Some(i) => Some(last_of(&self.processes[i].output, max_lines)),
            None => None,
        }
    }

    /// Appends one captured output line to process `id`; false when there
    /// is no such process.
    pub fn append_output(&mut self, id: u64, line: String) -> (r: bool)
        requires
            old(self).wf(),
        ensures
            final(self).wf(),
            final(self).last_id() == old(self).last_id(),
            r == record_in(old(self).records(), id) is Some,
            final(self).records().len() == old(self).records().len(),
            forall|i: int| 0 <= i < old(self).records().len() ==> {
                let (a, b) = (old(self).records()[i], #[trigger] final(self).records()[i]);
                if a.id == id {
                    b == BackgroundProcess { output: b.output, ..a } && b.output@ == a.output@.push(line)
                } else {
                    b == a
                }
            },
    {
        match self.position(id) {
            Some(i) => {
                proof {
                    lemma_ids_unique(self.processes@, i as int);
                }
                let mut p = self.processes.remove(i);
                p.output.push(line);
                self.processes.insert(i, p);
                true
            },
            None => {
                proof {
                    lemma_record_none(self.processes@, id);
                }
                false
            },
        }
    }

    /// Marks process `id` completed; the table does not wait for the
    /// operating system to confirm it. False when there is no such process.
    pub fn mark_killed(&mut self, id: u64) -> (r: bool)
        requires
            old(self).wf(),
        ensures
            final(self).wf(),
            final(self).last_id() == old(self).last_id(),
            r == record_in(old(self).records(), id) is Some,
            final(self).records() == updated(old(self).records(), id, |p: BackgroundProcess| as_killed(p)),
    {
        self.finish(id, None, false)
    }

    /// Marks process `id` completed with the exit code that the operating
    /// system reported. False when there is no such process.
    pub fn mark_exited(&mut self, id: u64, code: Option<i32>) -> (r: bool)
        requires
            old(self).wf(),
        ensures
            final(self).wf(),
            final(self).last_id() == old(self).last_id(),
            r == record_in(old(self).records(), id) is Some,
            final(self).records() == updated(
                old(self).records(),
                id,
                |p: BackgroundProcess| as_exited(p, code),
            ),
    {
        self.finish(id, code, true)
    }

    fn finish(&mut self, id: u64, code: Option<i32>, set_code: bool) -> (r: bool)
        requires
            old(self).wf(),
        ensures
            final(self).wf(),
            final(self).last_id() == old(self).last_id(),
            r == record_in(old(self).records(), id) is Some,
            set_code ==> final(self).records() == updated(
                old(self).records(),
                id,
                |p: BackgroundProcess| as_exited(p, code),
            ),
            !set_code ==> final(self).records() == updated(
                old(self).records(),
                id,
                |p: BackgroundProcess| as_killed(p),
            ),
    {
        match self.position(id) {
            Some(i) => {
                proof {
                    lemma_ids_unique(self.processes@, i as int);
                }
                let mut p = self.processes.remove(i);
                p.completed = true;
                if set_code {
                    p.exit_code = code;
                }
                self.processes.insert(i, p);
                proof {
                    if set_code {
                        assert(self.processes@ =~= updated(old(self).processes@, id, |p: BackgroundProcess| as_exited(p, code)));
                    } else {
                        assert(self.processes@ =~= updated(old(self).processes@, id, |p: BackgroundProcess| as_killed(p)));
                    }
                }
                true
            },
            None => {
                proof {
                    lemma_record_none(self.processes@, id);
                    assert(self.processes@ =~= updated(old(self).processes@, id, |p: BackgroundProcess| as_exited(p, code)));
                    assert(self.processes@ =~= updated(old(self).processes@, id, |p: BackgroundProcess| as_killed(p)));
                }
                false
            },
        }
    }
}

/// Renders the label `proc_<id>`.
pub fn label_text(id: u64) -> (r: String)
    ensures
        r@ == process_label(id),
{
    let mut r = String::from_str("proc_");
    let digits = decimal_text(id);
    r.append(digits.as_str());
    r
}

pub(crate) fn last_of(lines: &Vec<String>, n: usize) -> (r: Vec<String>)
    ensures
        views(r@) == last_lines(views(lines@), n as nat),
{
    let len = lines.len();
    let start: usize = if n >= len { 0 } else { len - n };
    let mut r: Vec<String> = Vec::new();
    let mut i: usize = start;
    while i < len
        invariant
            len == lines@.len(),
            start <= i <= len,
            views(r@) == views(lines@).subrange(start as int, i as int),
        decreases len - i,
    {
        let line = lines[i].clone();
        assert(line@ == views(lines@)[i as int]);
        let ghost prev = r@;
        r.push(line);
        assert(views(r@) =~= views(prev).push(line@));
        assert(views(lines@).subrange(start as int, i + 1) =~= views(lines@).subrange(start as int, i as int).push(line@));
        i = i + 1;
    }
    assert(views(lines@).subrange(0, len as int) =~= views(lines@));
    r
}

proof fn lemma_record_pushed(records: Seq<BackgroundProcess>, p: BackgroundProcess)
    requires
        record_in(records, p.id) is None,
    ensures
        record_in(records.push(p), p.id) == Some(p),
    decreases records.len(),
{
    if records.len() > 0 {
        lemma_record_pushed(records.drop_first(), p);
        assert(records.push(p).drop_first() =~= records.drop_first().push(p));
    }
}

proof fn lemma_record_updated(records: Seq<BackgroundProcess>, id: u64, f: spec_fn(BackgroundProcess) -> BackgroundProcess)
    requires
        record_in(records, id) is Some,
        forall|p: BackgroundProcess| #[trigger] f(p).id == p.id,
    ensures
        record_in(updated(records, id, f), id) == Some(f(record_in(records, id)->0)),
    decreases records.len(),
{
    if records[0].id != id {
        lemma_record_updated(records.drop_first(), id, f);
        assert(updated(records, id, f).drop_first() =~= updated(records.drop_first(), id, f));
    }
}

/// A spawned process gets an id that no live record has; asked right
/// after, its status is running; once killed, it is completed.
pub proof fn lemma_spawn_then_kill(
    before: Seq<BackgroundProcess>,
    after: Seq<BackgroundProcess>,
    id: u64,
    pid: u32,
    command: Seq<char>,
)
    requires
        record_in(before, id) is None,
        spawned(before, after, id, pid, command),
    ensures
        record_in(after, id) matches Some(p) && !p.completed && p.pid == pid && p.command@ == command,
        record_in(updated(after, id, |p: BackgroundProcess| as_killed(p)), id) matches Some(p) && p.completed,
{
    assert(after =~= before.push(after.last()));
    lemma_record_pushed(before, after.last());
    lemma_record_updated(after, id, |p: BackgroundProcess| as_killed(p));
}

/// Distinct ids have distinct labels.
pub proof fn lemma_label_injective(a: u64, b: u64)
    requires
        process_label(a) == process_label(b),
    ensures
        a == b,
{
    let p = "proc_"@;
    assert(process_label(a).subrange(p.len() as int, process_label(a).len() as int) =~= decimal(a as nat));
    assert(process_label(b).subrange(p.len() as int, process_label(b).len() as int) =~= decimal(b as nat));
    crate::text::lemma_decimal_injective(a as nat, b as nat);
}

proof fn lemma_labelled_pushed(records: Seq<BackgroundProcess>, p: BackgroundProcess)
    requires
        record_in(records, p.id) is None,
    ensures
        record_labelled(records.push(p), process_label(p.id)) == Some(p),
    decreases records.len(),
{
    if records.len() > 0 {
        if process_label(records[0].id) == process_label(p.id) {
            lemma_label_injective(records[0].id, p.id);
        }
        lemma_labelled_pushed(records.drop_first(), p);
        assert(records.push(p).drop_first() =~= records.drop_first().push(p));
    }
}

proof fn lemma_labelled_updated(records: Seq<BackgroundProcess>, id: u64, f: spec_fn(BackgroundProcess) -> BackgroundProcess)
    requires
        record_in(records, id) is Some,
        forall|p: BackgroundProcess| #[trigger] f(p).id == p.id,
    ensures
        record_labelled(updated(records, id, f), process_label(id)) == Some(f(record_in(records, id)->0)),
    decreases records.len(),
{
    if records[0].id != id {
        if process_label(records[0].id) == process_label(id) {
            lemma_label_injective(records[0].id, id);
        }
        lemma_labelled_updated(records.drop_first(), id, f);
        assert(updated(records, id, f).drop_first() =~= updated(records.drop_first(), id, f));
    }
}

/// Asked by its label right after it was spawned, a process is found
/// running with its pid and command; once killed, it is found completed.
pub proof fn lemma_label_after_spawn_and_kill(
    before: Seq<BackgroundProcess>,
    after: Seq<BackgroundProcess>,
    id: u64,
    pid: u32,
    command: Seq<char>,
)
    requires
        record_in(before, id) is None,
        spawned(before, after, id, pid, command),
    ensures
        record_labelled(after, process_label(id)) matches Some(p) && is_fresh(p, id, pid, command),
        record_labelled(updated(after, id, |p: BackgroundProcess| as_killed(p)), process_label(id)) matches Some(
            p,
        ) && p.completed && p.id == id && p.pid == pid && p.command@ == command && p.exit_code is None,
{
    assert(after =~= before.push(after.last()));
    lemma_labelled_pushed(before, after.last());
    lemma_record_pushed(before, after.last());
    lemma_labelled_updated(after, id, |p: BackgroundProcess| as_killed(p));
}

proof fn lemma_absent_above(records: Seq<BackgroundProcess>, id: u64)
    requires
        forall|i: int| 0 <= i < records.len() ==> #[trigger] records[i].id < id,
    ensures
        record_in(records, id) is None,
    decreases records.len(),
{
    if records.len() > 0 {
        assert(records[0].id < id);
        let rest = records.drop_first();
        assert forall|i: int| 0 <= i < rest.len() implies #[trigger] rest[i].id < id by {
            assert(rest[i] == records[i + 1]);
        }
        lemma_absent_above(rest, id);
    }
}

proof fn lemma_record_none(records: Seq<BackgroundProcess>, id: u64)
    requires
        record_in(records, id) is None,
    ensures
        forall|i: int| 0 <= i < records.len() ==> #[trigger] records[i].id != id,
    decreases records.len(),
{
    if records.len() > 0 {
        let rest = records.drop_first();
        lemma_record_none(rest, id);
        assert forall|i: int| 0 <= i < records.len() implies #[trigger] records[i].id != id by {
            if i > 0 {
                assert(records[i] == rest[i - 1]);
            }
        }
    }
}

proof fn lemma_ids_unique(records: Seq<BackgroundProcess>, k: int)
    requires
        0 <= k < records.len(),
        forall|i: int, j: int|
            0 <= i < records.len() && 0 <= j < records.len() && i != j ==> records[i].id != records[j].id,
    ensures
        forall|i: int| 0 <= i < records.len() && i != k ==> #[trigger] records[i].id != records[k].id,
{
}

} // verus!
