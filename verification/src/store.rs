use crate::errors::Error;
use vstd::prelude::*;

verus! {

/// The mathematical value of a stored entry: its identifier, payload,
/// protection flag and optional key, as sequences.
pub ghost struct EntryModel {
    pub id: Seq<char>,
    pub content: Seq<u8>,
    pub protected: bool,
    pub key: Option<Seq<u8>>,
}

impl EntryModel {
    /// Well-formedness of an entry: the key is present exactly when the
    /// entry is protected, and then has the same length as the content.
    pub open spec fn wf(self) -> bool {
        &&& self.protected <==> self.key is Some
        &&& match self.key {
            Some(k) => k.len() == self.content.len(),
            None => true,
        }
    }
}

/// A stored clipboard entry. The store returns the full record, key
/// included; stripping key material before a caller sees it is the
/// service's job.
pub struct Entry {
    /// The caller-chosen identifier, unique within a store.
    pub id: String,
    /// The payload: plaintext bytes if unprotected, pad-encoded bytes if
    /// protected.
    pub content: Vec<u8>,
    /// Whether `key` is set and `content` is pad-encoded.
    pub protected: bool,
    /// The secret, of the same byte length as `content`; present iff
    /// `protected`.
    pub key: Option<Vec<u8>>,
}

impl View for Entry {
    type V = EntryModel;

    open spec fn view(&self) -> EntryModel {
        EntryModel {
            id: self.id@,
            content: self.content@,
            protected: self.protected,
            key: match self.key {
                Some(k) => Some(k@),
                None => None,
            },
        }
    }
}

/// No two entries of the sequence share an identifier.
spec fn unique_ids(s: Seq<EntryModel>) -> bool {
    forall|i: int, j: int| 0 <= i < j < s.len() ==> s[i].id != s[j].id
}

/// The id-to-entry relation held by a sequence of entries; on duplicate
/// ids the later entry wins, but the store never produces duplicates.
spec fn entries_map(s: Seq<EntryModel>) -> Map<Seq<char>, EntryModel>
    decreases s.len(),
{
    if s.len() == 0 {
        Map::empty()
    } else {
        entries_map(s.drop_last()).insert(s.last().id, s.last())
    }
}

proof fn lemma_entries_map_membership(s: Seq<EntryModel>)
    ensures
        forall|id: Seq<char>|
            #[trigger] entries_map(s).contains_key(id) <==> exists|i: int|
                0 <= i < s.len() && s[i].id == id,
    decreases s.len(),
{
    if s.len() > 0 {
        lemma_entries_map_membership(s.drop_last());
        assert forall|id: Seq<char>| #[trigger]
            entries_map(s).contains_key(id) implies exists|i: int|
            0 <= i < s.len() && s[i].id == id by {
            if id == s.last().id {
                assert(s[s.len() - 1].id == id);
            } else {
                assert(entries_map(s.drop_last()).contains_key(id));
                let i = choose|i: int| 0 <= i < s.drop_last().len() && s.drop_last()[i].id == id;
                assert(s[i].id == id);
            }
        }
        assert forall|id: Seq<char>|
            (exists|i: int| 0 <= i < s.len() && s[i].id == id) implies #[trigger]
            entries_map(s).contains_key(id) by {
            let i = choose|i: int| 0 <= i < s.len() && s[i].id == id;
            if i == s.len() - 1 {
                assert(entries_map(s).contains_key(s.last().id));
            } else {
                assert(s.drop_last()[i].id == id);
                assert(entries_map(s.drop_last()).contains_key(id));
            }
        }
    }
}

proof fn lemma_entries_map_value(s: Seq<EntryModel>, i: int)
    requires
        unique_ids(s),
        0 <= i < s.len(),
    ensures
        entries_map(s).contains_key(s[i].id),
        entries_map(s)[s[i].id] == s[i],
    decreases s.len(),
{
    if i == s.len() - 1 {
    } else {
        assert(s.drop_last()[i] == s[i]);
        lemma_entries_map_value(s.drop_last(), i);
        assert(s[i].id != s.last().id);
    }
}

proof fn lemma_entries_map_push(s: Seq<EntryModel>, e: EntryModel)
    ensures
        entries_map(s.push(e)) == entries_map(s).insert(e.id, e),
{
    assert(s.push(e).drop_last() =~= s);
    assert(s.push(e).last() == e);
}

/// Keyed storage of clipboard entries with insert-once semantics and
/// lookup by identifier. Entries are immutable once stored: there is no
/// update or delete.
pub struct EntryStore {
    entries: Vec<Entry>,
}

impl View for EntryStore {
    type V = Map<Seq<char>, EntryModel>;

    closed spec fn view(&self) -> Map<Seq<char>, EntryModel> {
        entries_map(self.models())
    }
}

impl EntryStore {
    spec fn models(&self) -> Seq<EntryModel> {
        self.entries@.map_values(|e: Entry| e@)
    }

    #[verifier::type_invariant]
    spec fn well_formed(&self) -> bool {
        unique_ids(self.models()) && forall|i: int|
            0 <= i < self.models().len() ==> (#[trigger] self.models()[i]).wf()
    }

    /// Creates an empty store.
    pub fn new() -> (s: Self)
        ensures
            s@ == Map::<Seq<char>, EntryModel>::empty(),
    {
        EntryStore { entries: Vec::new() }
    }

    /// Returns the full stored record under `id`, or `None` if the id is
    /// absent. Performs no decoding. Every record the store hands out is
    /// well-formed: the store only ever accepts well-formed entries.
    pub fn lookup<'a>(&'a self, id: &String) -> (r: Option<&'a Entry>)
        ensures
            match r {
                Some(e) => self@.contains_key(id@) && e@ == self@[id@] && e@.wf(),
                None => !self@.contains_key(id@),
            },
    {
        proof {
            use_type_invariant(self);
            lemma_entries_map_membership(self.models());
        }
        let n = self.entries.len();
        let mut i: usize = 0;
        while i < n
            invariant
                i <= n,
                n == self.entries@.len(),
                forall|j: int| 0 <= j < i ==> self.models()[j].id != id@,
            decreases n - i,
        {
            if self.entries[i].id == *id {
                proof {
                    use_type_invariant(self);
                    lemma_entries_map_value(self.models(), i as int);
                }
                return Some(&self.entries[i]);
            }
            i = i + 1;
        }
        None
    }

    /// Inserts `entry` if its id is absent; fails with `Duplicate` and
    /// leaves the store unchanged if the id is already present. Never
    /// overwrites. Exclusive access through `&mut` serializes inserts, so
    /// the uniqueness check is atomic: of two inserts with the same id,
    /// exactly one succeeds.
    pub fn insert(&mut self, entry: Entry) -> (r: Result<(), Error>)
        requires
            entry@.wf(),
        ensures
            old(self)@.contains_key(entry@.id) ==> r == Err::<(), Error>(Error::Duplicate)
                && final(self)@ == old(self)@,
            !old(self)@.contains_key(entry@.id) ==> r == Ok::<(), Error>(()) && final(self)@
                == old(self)@.insert(entry@.id, entry@),
    {
        proof {
            use_type_invariant(&*self);
            lemma_entries_map_membership(self.models());
        }
        let n = self.entries.len();
        let mut i: usize = 0;
        while i < n
            invariant
                i <= n,
                n == self.entries@.len(),
                forall|j: int| 0 <= j < i ==> self.models()[j].id != entry@.id,
            decreases n - i,
        {
            if self.entries[i].id == entry.id {
                proof {
                    lemma_entries_map_membership(self.models());
                    assert(self.models()[i as int].id == entry@.id);
                    assert(self@.contains_key(entry@.id));
                }
                return Err(Error::Duplicate);
            }
            i = i + 1;
        }
        proof {
            assert(!self@.contains_key(entry@.id));
        }
        let ghost old_models = self.models();
        // The entries are moved out, extended, and moved back in, so that
        // the store satisfies its invariant at every point of the call.
        let mut entries: Vec<Entry> = Vec::new();
        core::mem::swap(&mut entries, &mut self.entries);
        entries.push(entry);
        proof {
            assert(entries@.map_values(|e: Entry| e@) =~= old_models.push(entry@));
            lemma_entries_map_push(old_models, entry@);
        }
        core::mem::swap(&mut entries, &mut self.entries);
        Ok(())
    }
}

} // verus!
