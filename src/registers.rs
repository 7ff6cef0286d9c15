//! The register store: named values that one tool call leaves for later
//! calls of the same run.

use crate::text::str_eq;
use vstd::prelude::*;

verus! {

/// One register: its name, its value and the tool that wrote it.
pub struct RegisterEntry {
    pub name: String,
    pub value: String,
    pub source_tool: String,
}

/// The entry that a lookup of `name` finds: the first one with that name.
pub open spec fn entry_in(entries: Seq<RegisterEntry>, name: Seq<char>) -> Option<RegisterEntry>
    decreases entries.len(),
{
    if entries.len() == 0 {
        None
    } else if entries[0].name@ == name {
        Some(entries[0])
    } else {
        entry_in(entries.drop_first(), name)
    }
}

/// The value of register `name`, if it was set.
pub open spec fn value_in(entries: Seq<RegisterEntry>, name: Seq<char>) -> Option<Seq<char>> {
    match entry_in(entries, name) {
        Some(e) => Some(e.value@),
        None => None,
    }
}

/// `after` holds what `before` holds, except that register `name` now has
/// `value`, written by `source`.
pub open spec fn set_in(
    before: Seq<RegisterEntry>,
    after: Seq<RegisterEntry>,
    name: Seq<char>,
    value: Seq<char>,
    source: Seq<char>,
) -> bool {
    forall|n: Seq<char>|
        #[trigger] entry_in(after, n) == if n == name {
            entry_in(after, name)
        } else {
            entry_in(before, n)
        } && (entry_in(after, name) matches Some(e) && e.value@ == value && e.source_tool@ == source)
}

/// Named values of one run; the last write to a name wins.
pub struct RegisterStore {
    entries: Vec<RegisterEntry>,
}

impl RegisterStore {
    /// The entries, newest first.
    pub closed spec fn entries(&self) -> Seq<RegisterEntry> {
        self.entries@
    }

    /// A store with no registers.
    pub fn new() -> (r: RegisterStore)
        ensures
            r.entries() == Seq::<RegisterEntry>::empty(),
    {
        RegisterStore { entries: Vec::new() }
    }

    /// Creates or overwrites register `name`.
    pub fn set(&mut self, name: &str, value: String, source_tool: &str)
        ensures
            set_in(old(self).entries(), final(self).entries(), name@, value@, source_tool@),
    {
        let ghost before = self.entries@;
        let mut i: usize = 0;
        let mut found = false;
        assert(self.entries@.skip(0) =~= self.entries@);
        while i < self.entries.len()
            invariant_except_break
                !found,
            invariant
                self.entries@ == before,
                i <= before.len(),
                entry_in(before, name@) == entry_in(before.skip(i as int), name@),
                forall|j: int| 0 <= j < i ==> (#[trigger] before[j]).name@ != name@,
            ensures
                self.entries@ == before,
                found ==> i < before.len() && before[i as int].name@ == name@,
                forall|j: int| 0 <= j < i ==> (#[trigger] before[j]).name@ != name@,
                !found ==> i == before.len(),
            decreases before.len() - i,
        {
            assert(before.skip(i as int).drop_first() =~= before.skip(i + 1));
            if str_eq(self.entries[i].name.as_str(), name) {
                found = true;
                break;
            }
            i = i + 1;
        }
        if found {
            proof {
                lemma_remove_first_match(before, i as int, name@);
            }
            self.entries.remove(i);
        } else {
            proof {
                lemma_no_match(before, name@);
            }
        }
        let ghost kept = self.entries@;
        let entry = RegisterEntry { name: String::from_str(name), value, source_tool: String::from_str(source_tool) };
        self.entries.insert(0, entry);
        proof {
            let after = self.entries@;
            assert(after.drop_first() =~= kept);
            assert(after[0].name@ == name@);
            assert forall|n: Seq<char>| n != name@ implies #[trigger] entry_in(after, n) == entry_in(before, n) by {
                assert(entry_in(after, n) == entry_in(kept, n));
            }
            assert(entry_in(after, name@) == Some(after[0]));
        }
    }

    /// The value of register `name`; `None` when it was never set.
    pub fn get(&self, name: &str) -> (r: Option<String>)
        ensures
            match r {
                Some(v) => value_in(self.entries(), name@) == Some(v@),
                None => value_in(self.entries(), name@) is None,
            },
    {
        let mut i: usize = 0;
        assert(self.entries@.skip(0) =~= self.entries@);
        while i < self.entries.len()
            invariant
                i <= self.entries@.len(),
                entry_in(self.entries@, name@) == entry_in(self.entries@.skip(i as int), name@),
            decreases self.entries@.len() - i,
        {
            assert(self.entries@.skip(i as int).drop_first() =~= self.entries@.skip(i + 1));
            if str_eq(self.entries[i].name.as_str(), name) {
                return Some(self.entries[i].value.clone());
            }
            i = i + 1;
        }
        None
    }
}

proof fn lemma_no_match(entries: Seq<RegisterEntry>, name: Seq<char>)
    requires
        forall|j: int| 0 <= j < entries.len() ==> (#[trigger] entries[j]).name@ != name,
    ensures
        entry_in(entries, name) is None,
    decreases entries.len(),
{
    if entries.len() > 0 {
        let rest = entries.drop_first();
        assert forall|j: int| 0 <= j < rest.len() implies (#[trigger] rest[j]).name@ != name by {
            assert(rest[j] == entries[j + 1]);
        }
        lemma_no_match(rest, name);
    }
}

proof fn lemma_remove_first_match(entries: Seq<RegisterEntry>, i: int, name: Seq<char>)
    requires
        0 <= i < entries.len(),
        entries[i].name@ == name,
        forall|j: int| 0 <= j < i ==> (#[trigger] entries[j]).name@ != name,
    ensures
        forall|n: Seq<char>| n != name ==> #[trigger] entry_in(entries.remove(i), n) == entry_in(entries, n),
    decreases i,
{
    assert forall|n: Seq<char>| n != name implies #[trigger] entry_in(entries.remove(i), n) == entry_in(entries, n) by {
        if i == 0 {
            assert(entries.remove(0) =~= entries.drop_first());
        } else {
            let rest = entries.drop_first();
            assert forall|j: int| 0 <= j < i - 1 implies (#[trigger] rest[j]).name@ != name by {
                assert(rest[j] == entries[j + 1]);
            }
            lemma_remove_first_match(rest, i - 1, name);
            assert(entries.remove(i).drop_first() =~= rest.remove(i - 1));
            assert(entries.remove(i)[0] == entries[0]);
            assert(entry_in(rest.remove(i - 1), n) == entry_in(rest, n));
            assert(entries.remove(i).len() > 0);
        }
    }
}

/// Last write wins: after `x` is set to `v1` and then to `v2`, reading `x`
/// gives `v2`; and a store that was never written holds no register.
pub proof fn lemma_last_write_wins(
    s0: Seq<RegisterEntry>,
    s1: Seq<RegisterEntry>,
    s2: Seq<RegisterEntry>,
    x: Seq<char>,
    v1: Seq<char>,
    v2: Seq<char>,
    source: Seq<char>,
    unset: Seq<char>,
)
    requires
        set_in(s0, s1, x, v1, source),
        set_in(s1, s2, x, v2, source),
    ensures
        value_in(s2, x) == Some(v2),
        value_in(Seq::<RegisterEntry>::empty(), unset) is None,
{
}

} // verus!
