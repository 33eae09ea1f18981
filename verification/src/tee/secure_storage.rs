//! Sealed key-value storage inside an enclave: encrypted values stored
//! under string keys, each key held at most once.

use vstd::prelude::*;

verus! {

/// An encrypted value together with its nonce and authentication tag.
#[derive(Debug, Clone)]
pub struct EncryptedData {
    pub ciphertext: Vec<u8>,
    pub nonce: [u8; 12],
    pub tag: [u8; 16],
}

impl EncryptedData {
    /// Wrap a ciphertext with a zero nonce and tag.
    pub fn new(ciphertext: Vec<u8>) -> (data: Self)
        ensures
            data.ciphertext@ == ciphertext@,
            data.nonce@ == Seq::new(12, |i: int| 0u8),
            data.tag@ == Seq::new(16, |i: int| 0u8),
    {
        let nonce: [u8; 12] = [0u8; 12];
        let tag: [u8; 16] = [0u8; 16];
        proof {
            vstd::array::axiom_spec_array_fill_for_copy_type::<u8, 12>(0u8);
            vstd::array::axiom_spec_array_fill_for_copy_type::<u8, 16>(0u8);
            assert(nonce@ =~= Seq::new(12, |i: int| 0u8));
            assert(tag@ =~= Seq::new(16, |i: int| 0u8));
        }
        EncryptedData { ciphertext, nonce, tag }
    }
}

/// Whether two encrypted values hold the same bytes.
pub open spec fn enc_data_matches(a: EncryptedData, b: EncryptedData) -> bool {
    &&& a.ciphertext@ == b.ciphertext@
    &&& a.nonce == b.nonce
    &&& a.tag == b.tag
}

/// Whether some entry holds the key.
pub open spec fn storage_has(entries: Seq<(String, EncryptedData)>, key: Seq<char>) -> bool {
    exists|i: int| 0 <= i < entries.len() && (#[trigger] entries[i]).0@ == key
}

/// A failure reported by a storage operation.
#[derive(Debug)]
pub struct StorageError {
    message: String,
}

impl StorageError {
    /// Describe the error.
    pub fn message(&self) -> String {
        self.message.clone()
    }
}

/// The enclave's key-value store.
#[derive(Debug)]
pub struct SecureStorage {
    /// The store's name.
    name: String,
    /// The stored entries, each key held at most once.
    data: Vec<(String, EncryptedData)>,
}

impl SecureStorage {
    /// The stored entries.
    pub closed spec fn spec_entries(self) -> Seq<(String, EncryptedData)> {
        self.data@
    }

    /// The store's invariant: no key is held twice.
    pub open spec fn wf(self) -> bool {
        forall|i: int, j: int|
            0 <= i < j < self.spec_entries().len() ==> (#[trigger] self.spec_entries()[i]).0@ != (
            #[trigger] self.spec_entries()[j]).0@
    }

    /// An empty named store.
    pub fn new(name: String) -> (storage: Self)
        ensures
            storage.wf(),
            storage.spec_entries() == Seq::<(String, EncryptedData)>::empty(),
    {
        SecureStorage { name, data: Vec::new() }
    }

    /// Store a value under a key, replacing any previous value.
    pub fn write(&mut self, key: &str, value: &EncryptedData) -> (r: Result<(), StorageError>)
        requires
            old(self).wf(),
        ensures
            r is Ok,
            final(self).wf(),
            storage_has(old(self).spec_entries(), key@) ==> {
                &&& final(self).spec_entries().len() == old(self).spec_entries().len()
                &&& forall|j: int|
                    0 <= j < old(self).spec_entries().len() && (#[trigger] old(
                        self,
                    ).spec_entries()[j]).0@ != key@ ==> final(self).spec_entries()[j] == old(
                        self,
                    ).spec_entries()[j]
                &&& exists|i: int|
                    0 <= i < old(self).spec_entries().len() && (#[trigger] old(
                        self,
                    ).spec_entries()[i]).0@ == key@ && final(self).spec_entries()[i].0 == old(
                        self,
                    ).spec_entries()[i].0 && enc_data_matches(
                        final(self).spec_entries()[i].1,
                        *value,
                    )
            },
            !storage_has(old(self).spec_entries(), key@) ==> {
                &&& final(self).spec_entries().len() == old(self).spec_entries().len() + 1
                &&& forall|j: int|
                    0 <= j < old(self).spec_entries().len() ==> final(self).spec_entries()[j]
                        == old(self).spec_entries()[j]
                &&& final(self).spec_entries()[old(self).spec_entries().len() as int].0@ == key@
                &&& enc_data_matches(
                    final(self).spec_entries()[old(self).spec_entries().len() as int].1,
                    *value,
                )
            },
    {
        let copy = EncryptedData {
            ciphertext: vstd::slice::slice_to_vec(value.ciphertext.as_slice()),
            nonce: value.nonce,
            tag: value.tag,
        };
        let key_string = key.to_owned();
        let ghost s0 = self.spec_entries();
        let mut i: usize = 0;
        while i < self.data.len()
            invariant
                i <= s0.len(),
                old(self).wf(),
                *self == *old(self),
                self.spec_entries() == s0,
                key_string@ == key@,
                enc_data_matches(copy, *value),
                forall|j: int| 0 <= j < i ==> (#[trigger] s0[j]).0@ != key@,
            decreases s0.len() - i,
        {
            if self.data[i].0 == key_string {
                proof {
                    assert(s0[i as int].0@ == key@);
                    assert(storage_has(s0, key@));
                }
                let stored_key = self.data[i].0.clone();
                self.data[i] = (stored_key, copy);
                proof {
                    let snew = self.data@;
                    assert(snew == s0.update(i as int, snew[i as int]));
                    assert(forall|j: int|
                        0 <= j < snew.len() ==> (#[trigger] snew[j]).0@ == s0[j].0@);
                    assert(forall|a: int, b: int|
                        0 <= a < b < s0.len() ==> (#[trigger] s0[a]).0@ != (#[trigger] s0[b]).0@);
                    assert(forall|a: int, b: int|
                        0 <= a < b < snew.len() ==> (#[trigger] snew[a]).0@ != (
                        #[trigger] snew[b]).0@);
                    assert(final(self).wf());
                    assert(snew.len() == s0.len());
                    assert(snew[i as int].0 == s0[i as int].0);
                    assert(enc_data_matches(snew[i as int].1, *value));
                    assert(forall|j: int|
                        0 <= j < s0.len() && (#[trigger] s0[j]).0@ != key@ ==> snew[j] == s0[j]);
                }
                return Ok(());
            }
            i = i + 1;
        }
        proof {
            assert(!storage_has(s0, key@));
        }
        self.data.push((key_string, copy));
        proof {
            assert(forall|j: int| 0 <= j < s0.len() ==> self.data@[j] == s0[j]);
            assert(final(self).wf());
        }
        Ok(())
    }

    /// Read the value stored under a key, if any.
    pub fn read(&self, key: &str) -> (r: Result<Option<EncryptedData>, StorageError>)
        ensures
            r matches Ok(found),
            r matches Ok(found) ==> (found is Some <==> storage_has(self.spec_entries(), key@)),
            r matches Ok(found) ==> (found matches Some(v) ==> exists|i: int|
                0 <= i < self.spec_entries().len() && (#[trigger] self.spec_entries()[i]).0@
                    == key@ && enc_data_matches(v, self.spec_entries()[i].1)),
    {
        let key_string = key.to_owned();
        let mut i: usize = 0;
        while i < self.data.len()
            invariant
                i <= self.spec_entries().len(),
                key_string@ == key@,
                forall|j: int| 0 <= j < i ==> (#[trigger] self.spec_entries()[j]).0@ != key@,
            decreases self.spec_entries().len() - i,
        {
            if self.data[i].0 == key_string {
                let found = EncryptedData {
                    ciphertext: vstd::slice::slice_to_vec(self.data[i].1.ciphertext.as_slice()),
                    nonce: self.data[i].1.nonce,
                    tag: self.data[i].1.tag,
                };
                return Ok(Some(found));
            }
            i = i + 1;
        }
        proof {
            assert(!storage_has(self.spec_entries(), key@));
        }
        Ok(None)
    }

    /// Remove the value stored under a key; an absent key is ignored.
    pub fn delete(&mut self, key: &str) -> (r: Result<(), StorageError>)
        requires
            old(self).wf(),
        ensures
            r is Ok,
            final(self).wf(),
            !storage_has(old(self).spec_entries(), key@) ==> final(self).spec_entries() == old(
                self,
            ).spec_entries(),
            storage_has(old(self).spec_entries(), key@) ==> exists|i: int|
                0 <= i < old(self).spec_entries().len() && (#[trigger] old(
                    self,
                ).spec_entries()[i]).0@ == key@ && final(self).spec_entries() == old(
                    self,
                ).spec_entries().remove(i),
    {
        let key_string = key.to_owned();
        let ghost s0 = self.spec_entries();
        let mut i: usize = 0;
        while i < self.data.len()
            invariant
                i <= s0.len(),
                old(self).wf(),
                *self == *old(self),
                self.spec_entries() == s0,
                key_string@ == key@,
                forall|j: int| 0 <= j < i ==> (#[trigger] s0[j]).0@ != key@,
            decreases s0.len() - i,
        {
            if self.data[i].0 == key_string {
                proof {
                    assert(s0[i as int].0@ == key@);
                    assert(storage_has(s0, key@));
                }
                self.data.remove(i);
                proof {
                    let snew = self.data@;
                    assert(snew =~= s0.remove(i as int));
                    assert(forall|j: int| 0 <= j < i ==> (#[trigger] snew[j]) == s0[j]);
                    assert(forall|j: int|
                        i <= j < snew.len() ==> (#[trigger] snew[j]) == s0[j + 1]);
                    assert(forall|a: int, b: int|
                        0 <= a < b < s0.len() ==> (#[trigger] s0[a]).0@ != (#[trigger] s0[b]).0@);
                    assert(forall|a: int, b: int|
                        0 <= a < b < snew.len() ==> (#[trigger] snew[a]).0@ != (
                        #[trigger] snew[b]).0@);
                    assert(final(self).wf());
                }
                return Ok(());
            }
            i = i + 1;
        }
        proof {
            assert(!storage_has(s0, key@));
        }
        Ok(())
    }

    /// Whether a key is present.
    pub fn contains(&self, key: &str) -> (r: Result<bool, StorageError>)
        ensures
            r == Ok::<bool, StorageError>(storage_has(self.spec_entries(), key@)),
    {
        let key_string = key.to_owned();
        let mut i: usize = 0;
        while i < self.data.len()
            invariant
                i <= self.spec_entries().len(),
                key_string@ == key@,
                forall|j: int| 0 <= j < i ==> (#[trigger] self.spec_entries()[j]).0@ != key@,
            decreases self.spec_entries().len() - i,
        {
            if self.data[i].0 == key_string {
                proof {
                    assert(storage_has(self.spec_entries(), key@));
                }
                return Ok(true);
            }
            i = i + 1;
        }
        proof {
            assert(!storage_has(self.spec_entries(), key@));
        }
        Ok(false)
    }

    /// Remove every stored entry.
    pub fn clear(&mut self) -> (r: Result<(), StorageError>)
        ensures
            r is Ok,
            final(self).wf(),
            final(self).spec_entries() == Seq::<(String, EncryptedData)>::empty(),
    {
        self.data.clear();
        Ok(())
    }
}

} // verus!
