use crate::codec::{codec_result_view, lemma_pad_involution, pad, xor_seq};
use crate::errors::Error;
use crate::hexstr::{bytes_of_hex, hex_decode, hex_encode, hex_of, is_hex};
use crate::keycmp::{compare, Outcome};
use crate::store::{Entry, EntryModel, EntryStore};
use vstd::prelude::*;
use vstd::slice::slice_to_vec;

verus! {

/// The redacted result of a plain read: metadata always, content only
/// when the entry is unprotected. There is no key field, so a plain read
/// can never leak key material.
#[derive(Debug)]
pub struct PlainEntry {
    pub id: String,
    pub content: Option<Vec<u8>>,
    pub protected: bool,
}

/// The mathematical value of a redacted read result.
pub ghost struct PlainModel {
    pub id: Seq<char>,
    pub content: Option<Seq<u8>>,
    pub protected: bool,
}

impl View for PlainEntry {
    type V = PlainModel;

    open spec fn view(&self) -> PlainModel {
        PlainModel {
            id: self.id@,
            content: match self.content {
                Some(c) => Some(c@),
                None => None,
            },
            protected: self.protected,
        }
    }
}

/// The view of an optional borrowed key.
pub open spec fn opt_key_view(key: Option<&[u8]>) -> Option<Seq<u8>> {
    match key {
        Some(k) => Some(k@),
        None => None,
    }
}

/// Lifts an executable plain-read result to its mathematical counterpart.
pub open spec fn plain_result_view(r: Result<PlainEntry, Error>) -> Result<PlainModel, Error> {
    match r {
        Ok(p) => Ok(p@),
        Err(e) => Err(e),
    }
}

/// Lifts an executable string result to its mathematical counterpart.
pub open spec fn str_result_view(r: Result<String, Error>) -> Result<Seq<char>, Error> {
    match r {
        Ok(s) => Ok(s@),
        Err(e) => Err(e),
    }
}

/// The entry a successful write stores: pad-encoded and protected when a
/// key is given, verbatim and unprotected otherwise.
pub open spec fn stored_entry(id: Seq<char>, content: Seq<u8>, key: Option<Seq<u8>>) -> EntryModel {
    match key {
        Some(k) => EntryModel { id, content: xor_seq(k, content), protected: true, key: Some(k) },
        None => EntryModel { id, content, protected: false, key: None },
    }
}

/// What a write returns: a `LengthMismatch` carrying both lengths when a
/// key of the wrong length is given, `Duplicate` when the id is taken,
/// success otherwise.
pub open spec fn write_result(
    m: Map<Seq<char>, EntryModel>,
    id: Seq<char>,
    content: Seq<u8>,
    key: Option<Seq<u8>>,
) -> Result<(), Error> {
    match key {
        Some(k) => if k.len() != content.len() {
            Err(
                Error::LengthMismatch {
                    expected: content.len() as usize,
                    actual: k.len() as usize,
                },
            )
        } else if m.contains_key(id) {
            Err(Error::Duplicate)
        } else {
            Ok(())
        },
        None => if m.contains_key(id) {
            Err(Error::Duplicate)
        } else {
            Ok(())
        },
    }
}

/// The store after a write: extended by the encoded entry on success,
/// unchanged on any failure.
pub open spec fn write_map(
    m: Map<Seq<char>, EntryModel>,
    id: Seq<char>,
    content: Seq<u8>,
    key: Option<Seq<u8>>,
) -> Map<Seq<char>, EntryModel> {
    if write_result(m, id, content, key) is Ok {
        m.insert(id, stored_entry(id, content, key))
    } else {
        m
    }
}

/// What a plain read returns: `NotFound` on an absent id; otherwise the
/// redacted record, whose content is present exactly when the entry is
/// unprotected, and then verbatim.
pub open spec fn read_plain_spec(m: Map<Seq<char>, EntryModel>, id: Seq<char>) -> Result<
    PlainModel,
    Error,
> {
    if !m.contains_key(id) {
        Err(Error::NotFound)
    } else {
        Ok(
            (PlainModel {
                id: id,
                content: if m[id].protected {
                    None
                } else {
                    Some(m[id].content)
                },
                protected: m[id].protected,
            }),
        )
    }
}

/// What a reveal returns: `NotFound` on an absent id, `NotEncrypted` on an
/// unprotected entry, the decoded plaintext when the presented key equals
/// the stored key, and `InvalidKey` otherwise — with no hint of where or
/// how much differed.
pub open spec fn reveal_spec(
    m: Map<Seq<char>, EntryModel>,
    id: Seq<char>,
    presented: Seq<u8>,
) -> Result<Seq<u8>, Error> {
    if !m.contains_key(id) {
        Err(Error::NotFound)
    } else if !m[id].protected {
        Err(Error::NotEncrypted)
    } else {
        match m[id].key {
            Some(k) => if presented == k {
                Ok(xor_seq(k, m[id].content))
            } else {
                Err(Error::InvalidKey)
            },
            None => Err(Error::InvalidKey),
        }
    }
}

/// What a reveal through the hexadecimal transport returns: as `reveal_spec`,
/// with the presented key decoded from hex and the plaintext encoded to
/// hex; a presented key that is not hexadecimal can match no stored key.
pub open spec fn reveal_hex_spec(
    m: Map<Seq<char>, EntryModel>,
    id: Seq<char>,
    presented_hex: Seq<char>,
) -> Result<Seq<char>, Error> {
    if !m.contains_key(id) {
        Err(Error::NotFound)
    } else if !m[id].protected {
        Err(Error::NotEncrypted)
    } else if !is_hex(presented_hex) {
        Err(Error::InvalidKey)
    } else {
        match reveal_spec(m, id, bytes_of_hex(presented_hex)) {
            Ok(pt) => Ok(hex_of(pt)),
            Err(e) => Err(e),
        }
    }
}

/// The clipboard service: encodes on write, redacts on plain read, and
/// decodes on verified reveal, over an insert-once entry store.
pub struct ClipboardService {
    store: EntryStore,
}

impl View for ClipboardService {
    type V = Map<Seq<char>, EntryModel>;

    closed spec fn view(&self) -> Map<Seq<char>, EntryModel> {
        self.store@
    }
}

impl ClipboardService {
    /// Creates a service over an empty store.
    pub fn new() -> (s: Self)
        ensures
            s@ == Map::<Seq<char>, EntryModel>::empty(),
    {
        ClipboardService { store: EntryStore::new() }
    }

    /// Stores `content` under `id`, pad-encoded with `key` if one is
    /// given. Fails with `LengthMismatch` on a key of the wrong length and
    /// with `Duplicate` on a taken id; on any failure the store is
    /// unchanged.
    pub fn write(&mut self, id: &str, content: &[u8], key: Option<&[u8]>) -> (r: Result<
        (),
        Error,
    >)
        ensures
            r == write_result(old(self)@, id@, content@, opt_key_view(key)),
            final(self)@ == write_map(old(self)@, id@, content@, opt_key_view(key)),
    {
        match key {
            Some(k) => {
                let encoded = match pad(k, content) {
                    Ok(v) => v,
                    Err(e) => {
                        return Err(e);
                    },
                };
                let entry = Entry {
                    id: id.to_owned(),
                    content: encoded,
                    protected: true,
                    key: Some(slice_to_vec(k)),
                };
                self.store.insert(entry)
            },
            None => {
                let entry = Entry {
                    id: id.to_owned(),
                    content: slice_to_vec(content),
                    protected: false,
                    key: None,
                };
                self.store.insert(entry)
            },
        }
    }

    /// Reads the entry under `id` with key material stripped: an
    /// unprotected entry's content is returned verbatim, a protected
    /// entry yields only metadata — never its key, never its ciphertext.
    pub fn read_plain(&self, id: &str) -> (r: Result<PlainEntry, Error>)
        ensures
            plain_result_view(r) == read_plain_spec(self@, id@),
    {
        let id_s: String = id.to_owned();
        match self.store.lookup(&id_s) {
            None => Err(Error::NotFound),
            Some(entry) => {
                let content: Option<Vec<u8>> = if entry.protected {
                    None
                } else {
                    Some(slice_to_vec(entry.content.as_slice()))
                };
                Ok(PlainEntry { id: id_s, content, protected: entry.protected })
            },
        }
    }

    /// Reveals the plaintext of the protected entry under `id` to a caller
    /// presenting the matching key. The comparison runs in constant time,
    /// and a mismatch reports nothing but `InvalidKey`.
    pub fn decrypt(&self, id: &str, presented: &[u8]) -> (r: Result<Vec<u8>, Error>)
        ensures
            codec_result_view(r) == reveal_spec(self@, id@, presented@),
    {
        let id_s: String = id.to_owned();
        match self.store.lookup(&id_s) {
            None => Err(Error::NotFound),
            Some(entry) => {
                if !entry.protected {
                    return Err(Error::NotEncrypted);
                }
                match &entry.key {
                    // The store only holds well-formed entries, so a
                    // protected entry always carries a key: unreachable.
                    None => Err(Error::NotEncrypted),
                    Some(stored_key) => {
                        match compare(presented, stored_key.as_slice()) {
                            Outcome::Mismatch => Err(Error::InvalidKey),
                            Outcome::Match => {
                                match pad(presented, entry.content.as_slice()) {
                                    Ok(pt) => Ok(pt),
                                    // A matching key has the content's
                                    // length, so the codec cannot fail
                                    // here: unreachable.
                                    Err(_) => Err(Error::InvalidOutput),
                                }
                            },
                        }
                    },
                }
            },
        }
    }

    /// As `decrypt`, for a hexadecimal transport: the presented key
    /// arrives hex-encoded and the plaintext is returned hex-encoded.
    pub fn decrypt_hex(&self, id: &str, presented_hex: &str) -> (r: Result<String, Error>)
        ensures
            str_result_view(r) == reveal_hex_spec(self@, id@, presented_hex@),
    {
        let id_s: String = id.to_owned();
        match self.store.lookup(&id_s) {
            None => {
                return Err(Error::NotFound);
            },
            Some(entry) => {
                if !entry.protected {
                    return Err(Error::NotEncrypted);
                }
            },
        }
        let key_bytes = match hex_decode(presented_hex) {
            Ok(b) => b,
            Err(_) => {
                return Err(Error::InvalidKey);
            },
        };
        match self.decrypt(id, key_bytes.as_slice()) {
            Ok(pt) => Ok(hex_encode(pt.as_slice())),
            Err(e) => Err(e),
        }
    }
}

/// The create-once law: once a write has succeeded for an id, any further
/// write under the same id is rejected — with `Duplicate` whenever its key
/// length is not itself at fault — and the store stays exactly as the
/// first write left it.
pub proof fn lemma_second_write_rejected(
    m: Map<Seq<char>, EntryModel>,
    id: Seq<char>,
    content1: Seq<u8>,
    key1: Option<Seq<u8>>,
    content2: Seq<u8>,
    key2: Option<Seq<u8>>,
)
    requires
        write_result(m, id, content1, key1) is Ok,
        match key2 {
            Some(k) => k.len() == content2.len(),
            None => true,
        },
    ensures
        write_result(write_map(m, id, content1, key1), id, content2, key2) == Err::<
            (),
            Error,
        >(Error::Duplicate),
        write_map(write_map(m, id, content1, key1), id, content2, key2) == write_map(
            m,
            id,
            content1,
            key1,
        ),
{
}

/// The round-trip law: after a successful protected write, revealing with
/// the key used at write time returns the original plaintext exactly, and
/// revealing with any other key returns `InvalidKey` — never partial
/// plaintext.
pub proof fn lemma_write_then_reveal(
    m: Map<Seq<char>, EntryModel>,
    id: Seq<char>,
    content: Seq<u8>,
    key: Seq<u8>,
)
    requires
        key.len() == content.len(),
        !m.contains_key(id),
    ensures
        reveal_spec(write_map(m, id, content, Some(key)), id, key) == Ok::<
            Seq<u8>,
            Error,
        >(content),
        forall|other: Seq<u8>|
            other != key ==> reveal_spec(write_map(m, id, content, Some(key)), id, other) == Err::<
                Seq<u8>,
                Error,
            >(Error::InvalidKey),
{
    lemma_pad_involution(key, content);
}

/// The redaction law: a plain read of a protected entry returns metadata
/// only — no key field exists in the result, and its content is absent;
/// a plain read of an unprotected entry returns the stored bytes exactly.
pub proof fn lemma_read_plain_redacts(m: Map<Seq<char>, EntryModel>, id: Seq<char>)
    requires
        m.contains_key(id),
    ensures
        m[id].protected ==> read_plain_spec(m, id) == Ok::<PlainModel, Error>(
            (PlainModel { id: id, content: None, protected: true }),
        ),
        !m[id].protected ==> read_plain_spec(m, id) == Ok::<PlainModel, Error>(
            (PlainModel { id: id, content: Some(m[id].content), protected: false }),
        ),
{
}

} // verus!
