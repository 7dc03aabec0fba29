//! The process registry: which processes are alive and controllable, and who
//! currently owns each non-shareable handle.
use vstd::hash_map::StringHashMap;
use vstd::prelude::*;

verus! {

/// The registry's record of one external process.
///
/// `C` is the handle of the operating-system process and `S` the handle of its
/// writable input stream. Both are single-owner resources: a slot is either
/// full or empty, and a handle leaves its slot only by being moved out.
#[derive(Debug, PartialEq, Eq)]
pub struct ManagedProcess<C, S> {
    pub child: Option<C>,
    pub stdin: Option<S>,
}

impl<C, S> ManagedProcess<C, S> {
    /// A record that owns `child` and has no input stream yet.
    pub fn new(child: C) -> (process: Self)
        ensures
            process.child == Some(child),
            process.stdin is None,
    {
        ManagedProcess { child: Some(child), stdin: None }
    }

    /// The same record with `stdin` in its input slot.
    pub fn with_stdin(self, stdin: S) -> (process: Self)
        ensures
            process.child == self.child,
            process.stdin == Some(stdin),
    {
        let mut process = self;
        process.stdin = Some(stdin);
        process
    }

    /// Moves the process handle out, leaving its slot empty.
    pub fn take_child(&mut self) -> (child: Option<C>)
        ensures
            child == old(self).child,
            final(self).child is None,
            final(self).stdin == old(self).stdin,
    {
        self.child.take()
    }

    /// Gives up the record and keeps only the process handle, if it is still there.
    pub fn into_child(self) -> (child: Option<C>)
        ensures
            child == self.child,
    {
        self.child
    }

    /// Moves the input stream out, leaving its slot empty.
    pub fn take_stdin(&mut self) -> (stdin: Option<S>)
        ensures
            stdin == old(self).stdin,
            final(self).stdin is None,
            final(self).child == old(self).child,
    {
        self.stdin.take()
    }

    /// Puts `stdin` back if the input slot is empty. A full slot is never
    /// overwritten: the handle then comes back to the caller.
    pub fn restore_stdin(&mut self, stdin: S) -> (rejected: Option<S>)
        ensures
            final(self).child == old(self).child,
            old(self).stdin is None ==> rejected is None && final(self).stdin == Some(stdin),
            old(self).stdin is Some ==> rejected == Some(stdin) && final(self).stdin == old(
                self,
            ).stdin,
    {
        if self.stdin.is_none() {
            self.stdin = Some(stdin);
            None
        } else {
            Some(stdin)
        }
    }
}

/// What a registry holds, as a map from identifier to record.
pub type Registered<C, S> = Map<Seq<char>, ManagedProcess<C, S>>;

/// What acquiring the lock that guards a registry gave: the registry, for the
/// length of one critical section, or the text of the failure where the lock
/// was found corrupted by an earlier failure inside a critical section.
pub type Locked<'a, C, S> = Result<&'a mut ProcessRegistry<C, S>, String>;

/// One slot of the registry: a record and the identifier it is filed under.
struct Entry<C, S> {
    id: String,
    process: ManagedProcess<C, S>,
}

/// The mapping from process identifier to [`ManagedProcess`].
///
/// Records lie densely in `entries`; `index` finds the position of an
/// identifier in expected constant time. Seen from outside, the registry is
/// the map given by its view.
pub struct ProcessRegistry<C, S> {
    index: StringHashMap<usize>,
    entries: Vec<Entry<C, S>>,
}

impl<C, S> View for ProcessRegistry<C, S> {
    type V = Registered<C, S>;

    closed spec fn view(&self) -> Self::V {
        contents(self.index@, self.entries@)
    }
}

impl<C, S> ProcessRegistry<C, S> {
    /// Every record is indexed under its own identifier, and the index names
    /// nothing else.
    #[verifier::type_invariant]
    spec fn well_formed(self) -> bool {
        consistent(self.index@, self.entries@)
    }

    /// A registry without entries.
    pub fn new() -> (registry: Self)
        ensures
            registry@ == Map::<Seq<char>, ManagedProcess<C, S>>::empty(),
    {
        ProcessRegistry { index: StringHashMap::new(), entries: Vec::new() }
    }

    /// The number of records.
    pub fn len(&self) -> (count: usize)
        ensures
            count == self@.len(),
    {
        proof {
            assert(self@.dom() =~= self.index@.dom());
        }
        self.index.len()
    }

    /// Whether the registry holds no record at all.
    pub fn is_empty(&self) -> (empty: bool)
        ensures
            empty == (self@ == Map::<Seq<char>, ManagedProcess<C, S>>::empty()),
    {
        proof {
            use_type_invariant(self);
            if self.entries@.len() == 0 {
                assert(self@ =~= Map::<Seq<char>, ManagedProcess<C, S>>::empty());
            } else {
                assert(self@.contains_key(self.entries@[0].id@));
            }
        }
        self.entries.len() == 0
    }

    /// Whether a record is filed under `id`.
    pub fn contains(&self, id: &str) -> (present: bool)
        ensures
            present == self@.contains_key(id@),
    {
        self.index.contains_key(id)
    }

    /// Files `process` under `id`. A record already filed under `id` is
    /// replaced and dropped, so the caller should hand in a fresh identifier.
    pub fn insert(&mut self, id: String, process: ManagedProcess<C, S>)
        ensures
            final(self)@ == old(self)@.insert(id@, process),
    {
        proof {
            use_type_invariant(&*self);
        }
        let mut taken = ProcessRegistry::new();
        core::mem::swap(self, &mut taken);
        let ProcessRegistry { mut index, mut entries } = taken;
        file(&mut index, &mut entries, id, process);
        *self = ProcessRegistry { index, entries };
    }

    /// Removes the record filed under `id` and hands it out, if there is one.
    /// Removing twice is harmless: the second call finds nothing.
    pub fn remove(&mut self, id: &str) -> (removed: Option<ManagedProcess<C, S>>)
        ensures
            final(self)@ == old(self)@.remove(id@),
            removed == (if old(self)@.contains_key(id@) {
                Some(old(self)@[id@])
            } else {
                None
            }),
    {
        proof {
            use_type_invariant(&*self);
        }
        let mut taken = ProcessRegistry::new();
        core::mem::swap(self, &mut taken);
        let ProcessRegistry { mut index, mut entries } = taken;
        let removed = unfile(&mut index, &mut entries, id);
        *self = ProcessRegistry { index, entries };
        removed
    }

    /// Runs `f` on the record filed under `id`, in place, and hands out what
    /// `f` returned; `None`, with nothing changed, where no record is filed
    /// under `id`. This is the one way to change a record inside the registry.
    pub fn with_entry<R, F>(&mut self, id: &str, f: F) -> (outcome: Option<R>) where
        F: FnOnce(&mut ManagedProcess<C, S>) -> R,

        requires
            old(self)@.contains_key(id@) ==> forall|process: &mut ManagedProcess<C, S>|
                *process == old(self)@[id@] ==> call_requires(f, (process,)),
        ensures
            !old(self)@.contains_key(id@) ==> outcome is None && final(self)@ == old(self)@,
            old(self)@.contains_key(id@) ==> outcome is Some && exists|
                process: &mut ManagedProcess<C, S>,
            |
                {
                    &&& *process == old(self)@[id@]
                    &&& call_ensures(f, (process,), outcome->0)
                    &&& final(self)@ == old(self)@.insert(id@, *final(process))
                },
    {
        proof {
            use_type_invariant(&*self);
        }
        let mut taken = ProcessRegistry::new();
        core::mem::swap(self, &mut taken);
        let ProcessRegistry { index, mut entries } = taken;
        let ghost before = entries@;
        let outcome = match position(&index, id) {
            Some(i) => {
                let process = &mut entries[i].process;
                let result = f(process);
                assert(contents(index@, entries@) =~= contents(index@, before).insert(
                    id@,
                    entries@[i as int].process,
                ));
                Some(result)
            },
            None => None,
        };
        *self = ProcessRegistry { index, entries };
        outcome
    }
}

impl<C, S> Default for ProcessRegistry<C, S> {
    /// A registry without entries.
    fn default() -> (registry: Self)
        ensures
            registry@ == Map::<Seq<char>, ManagedProcess<C, S>>::empty(),
    {
        ProcessRegistry::new()
    }
}

/// The map that an index and its records stand for.
spec fn contents<C, S>(index: Map<Seq<char>, usize>, entries: Seq<Entry<C, S>>) -> Map<
    Seq<char>,
    ManagedProcess<C, S>,
> {
    Map::new(|id: Seq<char>| index.contains_key(id), |id: Seq<char>| entries[index[id] as int].process)
}

/// The relation between the index and the records that the registry maintains.
spec fn consistent<C, S>(index: Map<Seq<char>, usize>, entries: Seq<Entry<C, S>>) -> bool {
    &&& forall|i: int|
        0 <= i < entries.len() ==> index.contains_key((#[trigger] entries[i]).id@)
            && index[entries[i].id@] == i
    &&& forall|id: Seq<char>| #[trigger]
        index.contains_key(id) ==> index[id] < entries.len() && entries[index[id] as int].id@
            == id
}

/// The position that `index` gives for `id`, if any.
fn position(index: &StringHashMap<usize>, id: &str) -> (found: Option<usize>)
    ensures
        found == (if index@.contains_key(id@) {
            Some(index@[id@])
        } else {
            None
        }),
{
    match index.get(id) {
        Some(i) => Some(*i),
        None => None,
    }
}

/// Files `process` under `id`: in the slot that `id` has already, or in a new
/// slot at the end.
fn file<C, S>(
    index: &mut StringHashMap<usize>,
    entries: &mut Vec<Entry<C, S>>,
    id: String,
    process: ManagedProcess<C, S>,
)
    requires
        consistent(old(index)@, old(entries)@),
    ensures
        consistent(final(index)@, final(entries)@),
        contents(final(index)@, final(entries)@) == contents(old(index)@, old(entries)@).insert(
            id@,
            process,
        ),
{
    match position(index, id.as_str()) {
        Some(i) => {
            entries[i] = Entry { id, process };
        },
        None => {
            let i = entries.len();
            index.insert(id.clone(), i);
            entries.push(Entry { id, process });
        },
    }
}

/// Takes the record of `id` out. The last record moves into the gap, so that
/// the records stay dense, and the index follows it.
fn unfile<C, S>(index: &mut StringHashMap<usize>, entries: &mut Vec<Entry<C, S>>, id: &str) -> (removed:
    Option<ManagedProcess<C, S>>)
    requires
        consistent(old(index)@, old(entries)@),
    ensures
        consistent(final(index)@, final(entries)@),
        contents(final(index)@, final(entries)@) == contents(old(index)@, old(entries)@).remove(
            id@,
        ),
        removed == (if contents(old(index)@, old(entries)@).contains_key(id@) {
            Some(contents(old(index)@, old(entries)@)[id@])
        } else {
            None
        }),
{
    match position(index, id) {
        Some(i) => {
            let entry = entries.swap_remove(i);
            index.remove(id);
            if i < entries.len() {
                index.insert(entries[i].id.clone(), i);
            }
            Some(entry.process)
        },
        None => None,
    }
}

} // verus!
