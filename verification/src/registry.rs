//! The window registry: the one place that knows which windows are live.
//! It holds at most one window under each label.

use vstd::prelude::*;
use crate::model::{
    label_views, lists_windows, set_visibility, track, tracked_state, well_formed, WindowState,
    Windows,
};
use crate::policy::{close_policy_for, policy_for, same_label, ClosePolicy};
use crate::window::WindowDescriptor;

verus! {

/// One tracked window.
#[derive(Clone, Debug, PartialEq, Eq)]
pub struct WindowEntry {
    pub descriptor: WindowDescriptor,
    pub visible: bool,
    pub policy: ClosePolicy,
}

impl View for WindowEntry {
    type V = WindowState;

    open spec fn view(&self) -> WindowState {
        WindowState { descriptor: self.descriptor@, visible: self.visible, policy: self.policy }
    }
}

impl WindowEntry {
    /// A copy with the same value.
    pub fn duplicate(&self) -> (copy: WindowEntry)
        ensures
            copy@ == self@,
    {
        WindowEntry {
            descriptor: self.descriptor.duplicate(),
            visible: self.visible,
            policy: self.policy,
        }
    }
}

/// The label of the entry at position `i`.
spec fn label_at(entries: Seq<WindowEntry>, i: int) -> Seq<char> {
    entries[i].descriptor.label@
}

/// Whether some entry carries `label`.
spec fn holds(entries: Seq<WindowEntry>, label: Seq<char>) -> bool {
    exists|i: int| 0 <= i < entries.len() && #[trigger] label_at(entries, i) == label
}

/// A position at which `label` stands, where there is one.
spec fn slot(entries: Seq<WindowEntry>, label: Seq<char>) -> int {
    choose|i: int| 0 <= i < entries.len() && #[trigger] label_at(entries, i) == label
}

/// No label stands at two positions.
spec fn distinct(entries: Seq<WindowEntry>) -> bool {
    forall|i: int, j: int|
        0 <= i < j < entries.len() ==> #[trigger] label_at(entries, i) != #[trigger] label_at(
            entries,
            j,
        )
}

/// Every entry carries the policy that its label calls for.
spec fn policies_fit(entries: Seq<WindowEntry>) -> bool {
    forall|i: int|
        0 <= i < entries.len() ==> entries[i].policy == policy_for(#[trigger] label_at(entries, i))
}

/// The entries as a map by label.
spec fn by_label(entries: Seq<WindowEntry>) -> Windows {
    Map::new(
        |label: Seq<char>| holds(entries, label),
        |label: Seq<char>| entries[slot(entries, label)]@,
    )
}

/// The labels in the order of the entries.
spec fn labels_of(entries: Seq<WindowEntry>) -> Seq<Seq<char>> {
    Seq::new(entries.len(), |i: int| label_at(entries, i))
}

proof fn lemma_slot(entries: Seq<WindowEntry>, i: int)
    requires
        distinct(entries),
        0 <= i < entries.len(),
    ensures
        holds(entries, label_at(entries, i)),
        slot(entries, label_at(entries, i)) == i,
{
    let label = label_at(entries, i);
    let k = slot(entries, label);
    assert(0 <= k < entries.len() && label_at(entries, k) == label);
}

proof fn lemma_push(entries: Seq<WindowEntry>, entry: WindowEntry)
    requires
        distinct(entries),
        !holds(entries, entry.descriptor.label@),
    ensures
        distinct(entries.push(entry)),
        by_label(entries.push(entry)) == by_label(entries).insert(entry.descriptor.label@, entry@),
{
    let grown = entries.push(entry);
    let last = entries.len() as int;
    assert forall|i: int, j: int| 0 <= i < j < grown.len() implies #[trigger] label_at(grown, i)
        != #[trigger] label_at(grown, j) by {
        assert(label_at(grown, i) == label_at(entries, i));
        if j < last {
            assert(label_at(grown, j) == label_at(entries, j));
        }
    }
    assert(label_at(grown, last) == entry.descriptor.label@);
    assert forall|label: Seq<char>| holds(grown, label) <==> (holds(entries, label) || label
        == entry.descriptor.label@) by {
        if holds(grown, label) {
            let k = slot(grown, label);
            if k < last {
                assert(label_at(entries, k) == label);
            }
        }
        if holds(entries, label) {
            let k = slot(entries, label);
            assert(label_at(grown, k) == label);
        }
    }
    assert forall|label: Seq<char>| holds(grown, label) implies #[trigger] by_label(grown)[label]
        == by_label(entries).insert(entry.descriptor.label@, entry@)[label] by {
        let k = slot(grown, label);
        lemma_slot(grown, k);
        if k < last {
            assert(label_at(entries, k) == label);
            lemma_slot(entries, k);
        }
    }
    assert(by_label(grown) =~= by_label(entries).insert(entry.descriptor.label@, entry@));
}

proof fn lemma_update(entries: Seq<WindowEntry>, i: int, entry: WindowEntry)
    requires
        distinct(entries),
        0 <= i < entries.len(),
        entry.descriptor.label@ == label_at(entries, i),
    ensures
        distinct(entries.update(i, entry)),
        by_label(entries.update(i, entry)) == by_label(entries).insert(
            label_at(entries, i),
            entry@,
        ),
{
    let changed = entries.update(i, entry);
    assert forall|k: int| 0 <= k < entries.len() implies #[trigger] label_at(changed, k)
        == label_at(entries, k) by {}
    assert forall|a: int, b: int| 0 <= a < b < changed.len() implies #[trigger] label_at(
        changed,
        a,
    ) != #[trigger] label_at(changed, b) by {
        assert(label_at(entries, a) != label_at(entries, b));
    }
    assert forall|label: Seq<char>| holds(changed, label) <==> holds(entries, label) by {
        if holds(changed, label) {
            let k = slot(changed, label);
            assert(label_at(entries, k) == label);
        }
        if holds(entries, label) {
            let k = slot(entries, label);
            assert(label_at(changed, k) == label);
        }
    }
    lemma_slot(entries, i);
    assert forall|label: Seq<char>| holds(changed, label) implies #[trigger] by_label(
        changed,
    )[label] == by_label(entries).insert(label_at(entries, i), entry@)[label] by {
        let k = slot(changed, label);
        lemma_slot(changed, k);
        lemma_slot(entries, k);
    }
    assert(by_label(changed) =~= by_label(entries).insert(label_at(entries, i), entry@));
}

proof fn lemma_remove(entries: Seq<WindowEntry>, i: int)
    requires
        distinct(entries),
        0 <= i < entries.len(),
    ensures
        distinct(entries.remove(i)),
        by_label(entries.remove(i)) == by_label(entries).remove(label_at(entries, i)),
{
    let rest = entries.remove(i);
    let gone = label_at(entries, i);
    assert forall|k: int| 0 <= k < rest.len() implies #[trigger] label_at(rest, k) == label_at(
        entries,
        if k < i {
            k
        } else {
            k + 1
        },
    ) by {}
    assert forall|a: int, b: int| 0 <= a < b < rest.len() implies #[trigger] label_at(rest, a)
        != #[trigger] label_at(rest, b) by {
        let a0 = if a < i { a } else { a + 1 };
        let b0 = if b < i { b } else { b + 1 };
        assert(label_at(entries, a0) != label_at(entries, b0));
    }
    assert forall|label: Seq<char>| holds(rest, label) <==> (holds(entries, label) && label
        != gone) by {
        if holds(rest, label) {
            let k = slot(rest, label);
            let k0 = if k < i { k } else { k + 1 };
            assert(label_at(entries, k0) == label);
            if k0 < i {
                assert(label_at(entries, k0) != label_at(entries, i));
            } else {
                assert(label_at(entries, i) != label_at(entries, k0));
            }
        }
        if holds(entries, label) && label != gone {
            let k = slot(entries, label);
            let k1 = if k < i { k } else { k - 1 };
            assert(label_at(rest, k1) == label);
        }
    }
    assert forall|label: Seq<char>| holds(rest, label) implies #[trigger] by_label(rest)[label]
        == by_label(entries).remove(gone)[label] by {
        let k = slot(rest, label);
        let k0 = if k < i { k } else { k + 1 };
        lemma_slot(rest, k);
        assert(label_at(entries, k0) == label);
        lemma_slot(entries, k0);
    }
    assert(by_label(rest) =~= by_label(entries).remove(gone));
}

proof fn lemma_domain(entries: Seq<WindowEntry>)
    requires
        distinct(entries),
    ensures
        labels_of(entries).no_duplicates(),
        by_label(entries).dom() == labels_of(entries).to_set(),
        by_label(entries).dom().finite(),
        by_label(entries).dom().len() == entries.len(),
{
    let labels = labels_of(entries);
    assert forall|i: int, j: int| 0 <= i < labels.len() && 0 <= j < labels.len() && i
        != j implies labels[i] != labels[j] by {
        if i < j {
            assert(label_at(entries, i) != label_at(entries, j));
        } else {
            assert(label_at(entries, j) != label_at(entries, i));
        }
    }
    assert forall|label: Seq<char>| holds(entries, label) <==> labels.contains(label) by {
        if holds(entries, label) {
            let k = slot(entries, label);
            assert(labels[k] == label);
        }
        if labels.contains(label) {
            let k = choose|k: int| 0 <= k < labels.len() && labels[k] == label;
            assert(label_at(entries, k) == label);
        }
    }
    assert(by_label(entries).dom() =~= labels.to_set());
    vstd::seq_lib::seq_to_set_is_finite(labels);
    labels.unique_seq_to_set();
}

/// The live windows of the application, by label.
pub struct WindowRegistry {
    entries: Vec<WindowEntry>,
}

impl View for WindowRegistry {
    type V = Windows;

    closed spec fn view(&self) -> Windows {
        by_label(self.entries@)
    }
}

impl WindowRegistry {
    /// The registry's invariant: no label is held twice, and each window
    /// carries the policy of its label.
    pub closed spec fn wf(&self) -> bool {
        &&& distinct(self.entries@)
        &&& policies_fit(self.entries@)
    }

    /// A registry in good order presents a well-formed set of windows.
    pub proof fn lemma_well_formed(&self)
        requires
            self.wf(),
        ensures
            well_formed(self@),
    {
        let entries = self.entries@;
        lemma_domain(entries);
        assert forall|label: Seq<char>| #[trigger] self@.contains_key(label) implies self@[label].descriptor.label
            == label && self@[label].policy == policy_for(label) by {
            let k = slot(entries, label);
            assert(label_at(entries, k) == label);
        }
    }

    /// An empty registry.
    pub fn new() -> (registry: WindowRegistry)
        ensures
            registry.wf(),
            registry@ == Map::<Seq<char>, WindowState>::empty(),
    {
        let registry = WindowRegistry { entries: Vec::new() };
        assert(registry@ =~= Map::<Seq<char>, WindowState>::empty());
        registry
    }

    /// The position of `label` among the entries.
    fn position(&self, label: &str) -> (found: Option<usize>)
        ensures
            match found {
                Some(i) => i < self.entries@.len() && label_at(self.entries@, i as int) == label@,
                None => !holds(self.entries@, label@),
            },
    {
        let mut i: usize = 0;
        while i < self.entries.len()
            invariant
                i <= self.entries@.len(),
                forall|k: int| 0 <= k < i ==> #[trigger] label_at(self.entries@, k) != label@,
            decreases self.entries@.len() - i,
        {
            if same_label(self.entries[i].descriptor.label.as_str(), label) {
                return Some(i);
            }
            i += 1;
        }
        None
    }

    /// How many windows are live.
    pub fn len(&self) -> (count: usize)
        requires
            self.wf(),
        ensures
            count == self@.dom().len(),
    {
        proof {
            lemma_domain(self.entries@);
        }
        self.entries.len()
    }

    /// Whether no window is live.
    pub fn is_empty(&self) -> (empty: bool)
        requires
            self.wf(),
        ensures
            empty == (self@ == Map::<Seq<char>, WindowState>::empty()),
    {
        proof {
            lemma_domain(self.entries@);
            if self.entries@.len() == 0 {
                assert(self@ =~= Map::<Seq<char>, WindowState>::empty());
            }
        }
        self.entries.len() == 0
    }

    /// Whether a window is live under `label`.
    pub fn contains(&self, label: &str) -> (present: bool)
        ensures
            present == self@.contains_key(label@),
    {
        self.position(label).is_some()
    }

    /// The window that is live under `label`, if there is one.
    pub fn lookup(&self, label: &str) -> (found: Option<&WindowEntry>)
        requires
            self.wf(),
        ensures
            match found {
                Some(entry) => self@.contains_key(label@) && entry@ == self@[label@],
                None => !self@.contains_key(label@),
            },
    {
        match self.position(label) {
            Some(i) => {
                proof {
                    lemma_slot(self.entries@, i as int);
                }
                Some(&self.entries[i])
            },
            None => None,
        }
    }

    /// The labels of the live windows, each once. Their order is the
    /// registry's own and means nothing.
    pub fn labels(&self) -> (labels: Vec<String>)
        requires
            self.wf(),
        ensures
            lists_windows(label_views(labels@), self@),
    {
        let mut labels: Vec<String> = Vec::new();
        let mut i: usize = 0;
        while i < self.entries.len()
            invariant
                i <= self.entries@.len(),
                labels@.len() == i,
                forall|k: int| 0 <= k < i ==> (#[trigger] labels@[k])@ == label_at(self.entries@, k),
            decreases self.entries@.len() - i,
        {
            labels.push(self.entries[i].descriptor.label.clone());
            i += 1;
        }
        proof {
            lemma_domain(self.entries@);
            assert(label_views(labels@) =~= labels_of(self.entries@));
        }
        labels
    }

    /// Starts tracking a window, unless one is live under its label already:
    /// then nothing changes. Returns the policy of the close observer that
    /// the new window needs, and `None` where no window was added.
    pub fn insert(&mut self, descriptor: WindowDescriptor, visible: bool) -> (observer: Option<
        ClosePolicy,
    >)
        requires
            old(self).wf(),
        ensures
            final(self).wf(),
            final(self)@ == track(old(self)@, descriptor@, visible),
            observer == if old(self)@.contains_key(descriptor@.label) {
                None
            } else {
                Some(policy_for(descriptor@.label))
            },
    {
        match self.position(descriptor.label.as_str()) {
            Some(_) => None,
            None => {
                let policy = close_policy_for(descriptor.label.as_str());
                let entry = WindowEntry { descriptor, visible, policy };
                proof {
                    lemma_push(self.entries@, entry);
                    assert(entry@ == tracked_state(descriptor@, visible));
                }
                let ghost before = self.entries@;
                self.entries.push(entry);
                proof {
                    let after = self.entries@;
                    assert forall|i: int| 0 <= i < after.len() implies after[i].policy
                        == policy_for(#[trigger] label_at(after, i)) by {
                        if i < before.len() {
                            assert(label_at(before, i) == label_at(after, i));
                        }
                    }
                }
                Some(policy)
            },
        }
    }

    /// Records that the window under `label` was shown or hidden. Returns
    /// whether such a window is live; where none is, nothing changes.
    pub fn set_visible(&mut self, label: &str, visible: bool) -> (present: bool)
        requires
            old(self).wf(),
        ensures
            final(self).wf(),
            final(self)@ == set_visibility(old(self)@, label@, visible),
            present == old(self)@.contains_key(label@),
    {
        match self.position(label) {
            Some(i) => {
                let ghost before = self.entries@;
                let taken = self.entries.remove(i);
                let entry = WindowEntry {
                    descriptor: taken.descriptor,
                    visible,
                    policy: taken.policy,
                };
                self.entries.insert(i, entry);
                proof {
                    let after = self.entries@;
                    assert(after =~= before.update(i as int, entry));
                    lemma_slot(before, i as int);
                    lemma_update(before, i as int, entry);
                    assert forall|k: int| 0 <= k < after.len() implies after[k].policy
                        == policy_for(#[trigger] label_at(after, k)) by {
                        assert(label_at(before, k) == label_at(after, k));
                    }
                }
                true
            },
            None => false,
        }
    }

    /// Stops tracking the window under `label`, which is then absent.
    /// Returns whether it was live.
    pub fn remove(&mut self, label: &str) -> (present: bool)
        requires
            old(self).wf(),
        ensures
            final(self).wf(),
            final(self)@ == old(self)@.remove(label@),
            present == old(self)@.contains_key(label@),
    {
        match self.position(label) {
            Some(i) => {
                let ghost before = self.entries@;
                proof {
                    lemma_remove(before, i as int);
                }
                let _ = self.entries.remove(i);
                proof {
                    let after = self.entries@;
                    assert forall|k: int| 0 <= k < after.len() implies after[k].policy
                        == policy_for(#[trigger] label_at(after, k)) by {
                        let k0 = if k < i { k } else { k + 1 };
                        assert(label_at(before, k0) == label_at(after, k));
                    }
                }
                true
            },
            None => {
                assert(self@.remove(label@) =~= self@);
                false
            },
        }
    }
}

} // verus!
