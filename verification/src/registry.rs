use vstd::prelude::*;
use vstd::string::StringExecFns;
use crate::text::same_text;
use crate::window::{after_ops, apply_all, Probe, WindowOp, WindowState};

verus! {

/// What a host that holds `windows` answers when asked about `label`.
pub open spec fn probe_of(windows: Map<Seq<char>, WindowState>, label: Seq<char>) -> Probe {
    if !windows.contains_key(label) {
        Probe::Missing
    } else if windows[label].visible {
        Probe::Visible
    } else {
        Probe::Hidden
    }
}

struct Entry {
    label: String,
    state: WindowState,
}

/// The entry at index `i` belongs to `label`.
spec fn at(entries: Seq<Entry>, i: int, label: Seq<char>) -> bool {
    0 <= i < entries.len() && entries[i].label@ == label
}

/// No label occurs twice.
spec fn distinct(entries: Seq<Entry>) -> bool {
    forall|i: int, j: int| 0 <= i < j < entries.len() ==> entries[i].label@ != entries[j].label@
}

/// The entries as a map from labels to states.
spec fn as_map(entries: Seq<Entry>) -> Map<Seq<char>, WindowState> {
    Map::new(
        |label: Seq<char>| exists|i: int| at(entries, i, label),
        |label: Seq<char>| entries[choose|i: int| at(entries, i, label)].state,
    )
}

/// A label is mapped to the state of the one entry that carries it.
proof fn lemma_found(entries: Seq<Entry>, i: int, label: Seq<char>)
    requires
        distinct(entries),
        at(entries, i, label),
    ensures
        as_map(entries).contains_key(label),
        as_map(entries)[label] == entries[i].state,
{
}

/// Writing a state over the entry of a label gives the map with that label
/// set to the state.
proof fn lemma_update(entries: Seq<Entry>, i: int, entry: Entry)
    requires
        distinct(entries),
        at(entries, i, entry.label@),
    ensures
        distinct(entries.update(i, entry)),
        as_map(entries.update(i, entry)) == as_map(entries).insert(entry.label@, entry.state),
{
    let updated = entries.update(i, entry);
    assert forall|l: Seq<char>, k: int| at(updated, k, l) == at(entries, k, l) by {}
}

/// Adding an entry under a label that is not there yet gives the map with
/// that label set to the entry's state.
proof fn lemma_push(entries: Seq<Entry>, entry: Entry)
    requires
        distinct(entries),
        forall|i: int| !at(entries, i, entry.label@),
    ensures
        distinct(entries.push(entry)),
        as_map(entries.push(entry)) == as_map(entries).insert(entry.label@, entry.state),
{
    let pushed = entries.push(entry);
    let n = entries.len() as int;
    assert forall|i: int, j: int| 0 <= i < j < pushed.len() implies pushed[i].label@
        != pushed[j].label@ by {
        if j == n {
            assert(!at(entries, i, entry.label@));
        }
    }
    lemma_found(pushed, n, entry.label@);
    let target = as_map(entries).insert(entry.label@, entry.state);
    assert forall|l: Seq<char>| #[trigger] as_map(pushed).contains_key(l) implies target.contains_key(
        l,
    ) && as_map(pushed)[l] == target[l] by {
        if l != entry.label@ {
            let k = choose|k: int| at(pushed, k, l);
            lemma_found(pushed, k, l);
            lemma_found(entries, k, l);
        }
    }
    assert forall|l: Seq<char>| #[trigger] target.contains_key(l) implies as_map(pushed).contains_key(
        l,
    ) by {
        if l != entry.label@ {
            let k = choose|k: int| at(entries, k, l);
            assert(at(pushed, k, l));
        }
    }
}

/// Taking the entry of a label out gives the map without that label.
proof fn lemma_remove(entries: Seq<Entry>, i: int, label: Seq<char>)
    requires
        distinct(entries),
        at(entries, i, label),
    ensures
        distinct(entries.remove(i)),
        as_map(entries.remove(i)) == as_map(entries).remove(label),
{
    let removed = entries.remove(i);
    let target = as_map(entries).remove(label);
    assert forall|l: Seq<char>| #[trigger] as_map(removed).contains_key(l) implies target.contains_key(
        l,
    ) && as_map(removed)[l] == target[l] by {
        let k = choose|k: int| at(removed, k, l);
        let k0 = if k < i { k } else { k + 1 };
        lemma_found(removed, k, l);
        lemma_found(entries, k0, l);
    }
    assert forall|l: Seq<char>| #[trigger] target.contains_key(l) implies as_map(removed).contains_key(
        l,
    ) by {
        let k = choose|k: int| at(entries, k, l);
        let k1 = if k < i { k } else { k - 1 };
        assert(at(removed, k1, l));
    }
}

/// The windows a host manages, each under its own label.
///
/// Seen from outside, the registry is a map from labels to window states.
pub struct WindowRegistry {
    entries: Vec<Entry>,
}

impl View for WindowRegistry {
    type V = Map<Seq<char>, WindowState>;

    closed spec fn view(&self) -> Map<Seq<char>, WindowState> {
        as_map(self.entries@)
    }
}

impl WindowRegistry {
    #[verifier::type_invariant]
    closed spec fn well_formed(&self) -> bool {
        distinct(self.entries@)
    }

    /// A host without windows.
    pub fn new() -> (registry: WindowRegistry)
        ensures
            registry@ == Map::<Seq<char>, WindowState>::empty(),
    {
        WindowRegistry { entries: Vec::new() }
    }

    /// The index of the entry that belongs to `label`.
    fn find(&self, label: &str) -> (found: Option<usize>)
        ensures
            match found {
                Some(i) => at(self.entries@, i as int, label@),
                None => forall|i: int| !at(self.entries@, i, label@),
            },
    {
        let mut i: usize = 0;
        while i < self.entries.len()
            invariant
                i <= self.entries@.len(),
                forall|k: int| 0 <= k < i ==> !at(self.entries@, k, label@),
            decreases self.entries@.len() - i,
        {
            if same_text(self.entries[i].label.as_str(), label) {
                return Some(i);
            }
            i += 1;
        }
        None
    }

    /// Hands the entries out and leaves the registry empty.
    fn take_entries(&mut self) -> (entries: Vec<Entry>)
        ensures
            entries@ == old(self).entries@,
            distinct(entries@),
    {
        proof {
            use_type_invariant(&*self);
        }
        let mut entries: Vec<Entry> = Vec::new();
        core::mem::swap(&mut self.entries, &mut entries);
        entries
    }

    /// Takes the entries in, in place of those that were there.
    fn put_entries(&mut self, entries: Vec<Entry>)
        requires
            distinct(entries@),
        ensures
            final(self).entries@ == entries@,
    {
        let mut entries = entries;
        core::mem::swap(&mut self.entries, &mut entries);
    }

    /// Puts a window under `label`, in place of the one that was there.
    pub fn declare(&mut self, label: &str, state: WindowState)
        ensures
            final(self)@ == old(self)@.insert(label@, state),
    {
        let found = self.find(label);
        let mut entries = self.take_entries();
        let entry = Entry { label: String::from_str(label), state };
        match found {
            Some(i) => {
                proof {
                    lemma_update(entries@, i as int, entry);
                }
                entries.set(i, entry);
            },
            None => {
                proof {
                    lemma_push(entries@, entry);
                }
                entries.push(entry);
            },
        }
        self.put_entries(entries);
    }

    /// The state of the window under `label`, if there is one.
    pub fn get(&self, label: &str) -> (state: Option<WindowState>)
        ensures
            state == if self@.contains_key(label@) {
                Some(self@[label@])
            } else {
                None
            },
    {
        proof {
            use_type_invariant(self);
        }
        match self.find(label) {
            Some(i) => {
                proof {
                    lemma_found(self.entries@, i as int, label@);
                }
                Some(self.entries[i].state)
            },
            None => None,
        }
    }

    /// Answers as a host does that is asked whether a window is visible.
    pub fn probe(&self, label: &str) -> (probe: Probe)
        ensures
            probe == probe_of(self@, label@),
    {
        match self.get(label) {
            None => Probe::Missing,
            Some(state) => if state.visible {
                Probe::Visible
            } else {
                Probe::Hidden
            },
        }
    }

    /// Carries the requests out on the window under `label`, in order.
    /// Without such a window every request fails and nothing changes; the
    /// result says whether the window was there.
    pub fn perform(&mut self, label: &str, ops: &Vec<WindowOp>) -> (found: bool)
        ensures
            found == old(self)@.contains_key(label@),
            final(self)@ == if found {
                old(self)@.insert(label@, after_ops(old(self)@[label@], ops@))
            } else {
                old(self)@
            },
    {
        match self.get(label) {
            Some(state) => {
                self.declare(label, apply_all(state, ops));
                true
            },
            None => false,
        }
    }

    /// Destroys the window under `label`, if there is one.
    pub fn destroy(&mut self, label: &str)
        ensures
            final(self)@ == old(self)@.remove(label@),
    {
        let found = self.find(label);
        let mut entries = self.take_entries();
        if let Some(i) = found {
            proof {
                lemma_remove(entries@, i as int, label@);
            }
            entries.remove(i);
        }
        self.put_entries(entries);
    }
}

} // verus!
