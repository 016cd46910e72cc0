use vstd::prelude::*;

verus! {

/// One persisted deployment fact: for a contract alias in one environment,
/// the artifact hash that was last deployed and the on-chain identifier it
/// received.  Created on first successful deploy, overwritten on redeploy,
/// never deleted automatically.
pub struct FingerprintRecord {
    pub contract_name: String,
    pub alias: String,
    pub artifact_hash: String,
    pub on_chain_id: String,
}

pub ghost struct FingerprintRecordView {
    pub contract_name: Seq<char>,
    pub alias: Seq<char>,
    pub artifact_hash: Seq<char>,
    pub on_chain_id: Seq<char>,
}

impl View for FingerprintRecord {
    type V = FingerprintRecordView;

    open spec fn view(&self) -> FingerprintRecordView {
        FingerprintRecordView {
            contract_name: self.contract_name@,
            alias: self.alias@,
            artifact_hash: self.artifact_hash@,
            on_chain_id: self.on_chain_id@,
        }
    }
}

pub fn clone_record(r: &FingerprintRecord) -> (c: FingerprintRecord)
    ensures
        c@ == r@,
{
    FingerprintRecord {
        contract_name: r.contract_name.clone(),
        alias: r.alias.clone(),
        artifact_hash: r.artifact_hash.clone(),
        on_chain_id: r.on_chain_id.clone(),
    }
}

pub struct StoreEntry {
    pub environment: String,
    pub record: FingerprintRecord,
}

pub ghost struct StoreEntryView {
    pub environment: Seq<char>,
    pub record: FingerprintRecordView,
}

impl View for StoreEntry {
    type V = StoreEntryView;

    open spec fn view(&self) -> StoreEntryView {
        StoreEntryView { environment: self.environment@, record: self.record@ }
    }
}

/// The project-local fingerprint store: a mapping from (environment, alias)
/// to the last-deployed record.  Identity is scoped by (environment, alias),
/// so a different environment or a fresh project directory starts with no
/// history for a contract.
pub struct FingerprintStore {
    entries: Vec<StoreEntry>,
}

impl View for FingerprintStore {
    type V = Seq<StoreEntryView>;

    closed spec fn view(&self) -> Seq<StoreEntryView> {
        self.entries@.map_values(|e: StoreEntry| e@)
    }
}

pub open spec fn entry_matches(e: StoreEntryView, env: Seq<char>, alias: Seq<char>) -> bool {
    e.environment == env && e.record.alias == alias
}

/// The record stored under (environment, alias), if any: the first entry with
/// that key.  Under `wf` there is at most one.
pub open spec fn stored_at(
    s: Seq<StoreEntryView>,
    env: Seq<char>,
    alias: Seq<char>,
) -> Option<FingerprintRecordView>
    decreases s.len(),
{
    if s.len() == 0 {
        None
    } else if entry_matches(s[0], env, alias) {
        Some(s[0].record)
    } else {
        stored_at(s.skip(1), env, alias)
    }
}

impl FingerprintStore {
    /// Keys are unique: no two entries share (environment, alias).
    pub open spec fn wf(&self) -> bool {
        forall|i: int, j: int|
            0 <= i < j < self@.len() ==> !(self@[i].environment == self@[j].environment
                && self@[i].record.alias == self@[j].record.alias)
    }

    /// An empty store: the state of a freshly created (or freshly copied)
    /// project directory, with no deployment history.
    pub fn new_store() -> (r: FingerprintStore)
        ensures
            r@.len() == 0,
            r.wf(),
    {
        FingerprintStore { entries: Vec::new() }
    }

    pub fn entry_count(&self) -> (n: usize)
        ensures
            n == self@.len(),
    {
        self.entries.len()
    }

    pub fn entry_at(&self, k: usize) -> (e: &StoreEntry)
        requires
            k < self@.len(),
        ensures
            e@ == self@[k as int],
    {
        &self.entries[k]
    }

    /// Read the record for (environment, alias); `None` means this contract
    /// has never been successfully deployed in this environment from this
    /// project directory.
    #[verifier::loop_isolation(false)]
    pub fn get(&self, environment: &String, alias: &String) -> (r: Option<&FingerprintRecord>)
        ensures
            match r {
                Some(rec) => stored_at(self@, environment@, alias@) == Some(rec@),
                None => stored_at(self@, environment@, alias@) is None,
            },
    {
        let mut k: usize = 0;
        let n = self.entries.len();
        while k < n
            invariant
                k <= n,
                forall|i: int| 0 <= i < k ==> !entry_matches(self@[i], environment@, alias@),
            decreases n - k,
        {
            if self.entries[k].environment == *environment && self.entries[k].record.alias
                == *alias {
                proof {
                    lemma_stored_at_first(self@, environment@, alias@, k as int);
                }
                return Some(&self.entries[k].record);
            }
            k += 1;
        }
        proof {
            lemma_stored_at_none(self@, environment@, alias@);
        }
        None
    }

    /// Write the record for (environment, record.alias), replacing any
    /// previous record under that key and leaving every other key untouched.
    /// Called only after the corresponding deploy step fully succeeded.
    #[verifier::loop_isolation(false)]
    pub fn put(&mut self, environment: &String, record: FingerprintRecord)
        requires
            old(self).wf(),
        ensures
            final(self).wf(),
            stored_at(final(self)@, environment@, record.alias@) == Some(record@),
            forall|e: Seq<char>, a: Seq<char>|
                !(e == environment@ && a == record.alias@) ==> stored_at(final(self)@, e, a)
                    == stored_at(old(self)@, e, a),
    {
        let ghost key_env = environment@;
        let ghost key_alias = record.alias@;
        let ghost rec_v = record@;
        let mut k: usize = 0;
        let n = self.entries.len();
        let mut found: bool = false;
        let mut idx: usize = 0;
        while k < n
            invariant
                k <= n,
                found ==> idx < k && entry_matches(self@[idx as int], key_env, key_alias),
                !found ==> forall|i: int|
                    0 <= i < k ==> !entry_matches(self@[i], key_env, key_alias),
            decreases n - k,
        {
            if !found && self.entries[k].environment == *environment
                && self.entries[k].record.alias == record.alias {
                found = true;
                idx = k;
            }
            k += 1;
        }
        if found {
            proof {
                lemma_removed_key_absent(self@, idx as int, key_env, key_alias);
                lemma_remove_keeps_wf(self@, idx as int);
            }
            self.entries.remove(idx);
            proof {
                assert(self@ =~= old(self)@.remove(idx as int));
            }
        } else {
            proof {
                lemma_stored_at_none(self@, key_env, key_alias);
            }
        }
        let ghost mid = self@;
        proof {
            assert forall|e: Seq<char>, a: Seq<char>|
                !(e == key_env && a == key_alias) implies stored_at(mid, e, a) == stored_at(
                old(self)@,
                e,
                a,
            ) by {
                if found {
                    lemma_remove_preserves_other_at(old(self)@, idx as int, e, a);
                }
            }
            assert(stored_at(mid, key_env, key_alias) is None);
            lemma_none_means_no_match(mid, key_env, key_alias);
        }
        self.entries.push(StoreEntry { environment: environment.clone(), record });
        proof {
            let xv = StoreEntryView { environment: key_env, record: rec_v };
            assert(self@ =~= mid.push(xv));
            assert forall|e: Seq<char>, a: Seq<char>|
                !(e == key_env && a == key_alias) implies stored_at(self@, e, a) == stored_at(
                old(self)@,
                e,
                a,
            ) by {
                lemma_stored_at_push(mid, xv, e, a);
            }
            assert(stored_at(self@, key_env, key_alias) == Some(rec_v)) by {
                lemma_stored_at_push(mid, xv, key_env, key_alias);
            }
            assert forall|i: int, j: int| 0 <= i < j < self@.len() implies !(
            self@[i].environment == self@[j].environment && self@[i].record.alias
                == self@[j].record.alias) by {
                if j < mid.len() {
                    assert(self@[i] == mid[i]);
                    assert(self@[j] == mid[j]);
                } else {
                    assert(self@[j] == xv);
                    assert(self@[i] == mid[i]);
                    assert(!entry_matches(mid[i], key_env, key_alias));
                }
            }
        }
    }
}

proof fn lemma_stored_at_first(s: Seq<StoreEntryView>, env: Seq<char>, alias: Seq<char>, k: int)
    requires
        0 <= k < s.len(),
        entry_matches(s[k], env, alias),
        forall|i: int| 0 <= i < k ==> !entry_matches(s[i], env, alias),
    ensures
        stored_at(s, env, alias) == Some(s[k].record),
    decreases k,
{
    if k > 0 {
        lemma_stored_at_first(s.skip(1), env, alias, k - 1);
        assert(s.skip(1)[k - 1] == s[k]);
        assert(forall|i: int| 0 <= i < k - 1 ==> s.skip(1)[i] == s[i + 1]);
    }
}

proof fn lemma_stored_at_none(s: Seq<StoreEntryView>, env: Seq<char>, alias: Seq<char>)
    requires
        forall|i: int| 0 <= i < s.len() ==> !entry_matches(s[i], env, alias),
    ensures
        stored_at(s, env, alias) is None,
    decreases s.len(),
{
    if s.len() > 0 {
        assert(forall|i: int| 0 <= i < s.len() - 1 ==> s.skip(1)[i] == s[i + 1]);
        lemma_stored_at_none(s.skip(1), env, alias);
    }
}

proof fn lemma_none_means_no_match(s: Seq<StoreEntryView>, env: Seq<char>, alias: Seq<char>)
    requires
        stored_at(s, env, alias) is None,
    ensures
        forall|i: int| 0 <= i < s.len() ==> !entry_matches(s[i], env, alias),
    decreases s.len(),
{
    if s.len() > 0 {
        lemma_none_means_no_match(s.skip(1), env, alias);
        assert forall|i: int| 0 <= i < s.len() implies !entry_matches(s[i], env, alias) by {
            if i > 0 {
                assert(s.skip(1)[i - 1] == s[i]);
            }
        }
    }
}

proof fn lemma_remove_preserves_other_at(
    s: Seq<StoreEntryView>,
    k: int,
    env: Seq<char>,
    alias: Seq<char>,
)
    requires
        0 <= k < s.len(),
        !entry_matches(s[k], env, alias),
    ensures
        stored_at(s.remove(k), env, alias) == stored_at(s, env, alias),
    decreases k,
{
    if k == 0 {
        assert(s.remove(0) =~= s.skip(1));
    } else {
        if entry_matches(s[0], env, alias) {
            assert(s.remove(k)[0] == s[0]);
        } else {
            lemma_remove_preserves_other_at(s.skip(1), k - 1, env, alias);
            assert(s.remove(k).skip(1) =~= s.skip(1).remove(k - 1));
            assert(s.remove(k)[0] == s[0]);
        }
    }
}

/// After removing the (unique, given wf) entry with this key, the key is
/// absent.
proof fn lemma_removed_key_absent(s: Seq<StoreEntryView>, k: int, env: Seq<char>, alias: Seq<char>)
    requires
        0 <= k < s.len(),
        entry_matches(s[k], env, alias),
        forall|i: int, j: int|
            0 <= i < j < s.len() ==> !(s[i].environment == s[j].environment && s[i].record.alias
                == s[j].record.alias),
    ensures
        stored_at(s.remove(k), env, alias) is None,
{
    assert forall|i: int| 0 <= i < s.remove(k).len() implies !entry_matches(
        s.remove(k)[i],
        env,
        alias,
    ) by {
        if i < k {
            assert(s.remove(k)[i] == s[i]);
        } else {
            assert(s.remove(k)[i] == s[i + 1]);
        }
    }
    lemma_stored_at_none(s.remove(k), env, alias);
}

proof fn lemma_remove_keeps_wf(s: Seq<StoreEntryView>, k: int)
    requires
        0 <= k < s.len(),
        forall|i: int, j: int|
            0 <= i < j < s.len() ==> !(s[i].environment == s[j].environment && s[i].record.alias
                == s[j].record.alias),
    ensures
        forall|i: int, j: int|
            0 <= i < j < s.remove(k).len() ==> !(s.remove(k)[i].environment
                == s.remove(k)[j].environment && s.remove(k)[i].record.alias
                == s.remove(k)[j].record.alias),
{
    assert forall|i: int, j: int| 0 <= i < j < s.remove(k).len() implies !(
    s.remove(k)[i].environment == s.remove(k)[j].environment && s.remove(k)[i].record.alias
        == s.remove(k)[j].record.alias) by {
        let i0: int = if i < k { i } else { i + 1 };
        let j0: int = if j < k { j } else { j + 1 };
        assert(s.remove(k)[i] == s[i0]);
        assert(s.remove(k)[j] == s[j0]);
    }
}

/// Pushing an entry at the end: a key already present keeps its record; the
/// pushed entry's key gains it if it was absent; other keys stay absent.
proof fn lemma_stored_at_push(s: Seq<StoreEntryView>, x: StoreEntryView, e: Seq<char>, a: Seq<char>)
    ensures
        stored_at(s.push(x), e, a) == (if stored_at(s, e, a) is Some {
            stored_at(s, e, a)
        } else if entry_matches(x, e, a) {
            Some(x.record)
        } else {
            None
        }),
    decreases s.len(),
{
    if s.len() == 0 {
        assert(s.push(x)[0] == x);
        assert(s.push(x).skip(1) =~= s);
        assert(stored_at(s, e, a) is None);
    } else {
        lemma_stored_at_push(s.skip(1), x, e, a);
        assert(s.push(x)[0] == s[0]);
        assert(s.push(x).skip(1) =~= s.skip(1).push(x));
    }
}

} // verus!
