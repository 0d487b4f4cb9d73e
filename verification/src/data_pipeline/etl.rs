//! ETL records flowing through the Stellar data pipeline.
//!
//! A record carries its JSON payload as the top-level object fields the
//! pipeline reads: text values, numbers (as their IEEE-754 binary64 encoding,
//! the form in which JSON numbers are read, together with their printed
//! forms) and anything else.
use crate::text::text_eq;
use vstd::prelude::*;

verus! {

/// Index of the first entry whose key is `key`, or `entries.len()`.
pub open spec fn key_pos<V>(entries: Seq<(String, V)>, key: Seq<char>) -> nat
    decreases entries.len(),
{
    if entries.len() == 0 {
        0
    } else if entries[0].0@ == key {
        0
    } else {
        1 + key_pos(entries.drop_first(), key)
    }
}

/// The value stored under `key`: the first entry with that key.
pub open spec fn lookup<V>(entries: Seq<(String, V)>, key: Seq<char>) -> Option<V> {
    if key_pos(entries, key) < entries.len() {
        Some(entries[key_pos(entries, key) as int].1)
    } else {
        None
    }
}

proof fn lemma_key_pos<V>(entries: Seq<(String, V)>, key: Seq<char>, k: int)
    requires
        0 <= k <= entries.len(),
        forall|j: int| 0 <= j < k ==> entries[j].0@ != key,
        k < entries.len() ==> entries[k].0@ == key,
    ensures
        key_pos(entries, key) == k,
    decreases k,
{
    if k > 0 {
        let t = entries.drop_first();
        assert forall|j: int| 0 <= j < k - 1 implies t[j].0@ != key by {
            assert(t[j] == entries[j + 1]);
        }
        lemma_key_pos(t, key, k - 1);
    }
}

proof fn lemma_key_pos_facts<V>(entries: Seq<(String, V)>, key: Seq<char>)
    ensures
        key_pos(entries, key) <= entries.len(),
        key_pos(entries, key) < entries.len() ==> entries[key_pos(entries, key) as int].0@ == key,
        forall|j: int| 0 <= j < key_pos(entries, key) ==> entries[j].0@ != key,
    decreases entries.len(),
{
    if entries.len() > 0 && entries[0].0@ != key {
        let t = entries.drop_first();
        lemma_key_pos_facts(t, key);
        assert forall|j: int| 0 <= j < key_pos(entries, key) implies entries[j].0@ != key by {
            if j > 0 {
                assert(entries[j] == t[j - 1]);
            }
        }
    }
}

/// A string-keyed map kept as an ordered list of entries (the first entry
/// with a key is the one that counts; `insert` keeps keys unique).
#[derive(Clone, Debug)]
pub struct FieldMap<V> {
    pub entries: Vec<(String, V)>,
}

impl<V> FieldMap<V> {
    /// The value stored under `key`.
    pub open spec fn get_spec(&self, key: Seq<char>) -> Option<V> {
        lookup(self.entries@, key)
    }

    /// An empty map.
    pub fn new() -> (m: Self)
        ensures
            m.entries@.len() == 0,
            forall|k: Seq<char>| #[trigger] m.get_spec(k) is None,
    {
        FieldMap { entries: Vec::new() }
    }

    fn position(&self, key: &str) -> (j: usize)
        ensures
            j == key_pos(self.entries@, key@),
            j <= self.entries@.len(),
    {
        let mut j: usize = 0;
        while j < self.entries.len()
            invariant
                j <= self.entries@.len(),
                forall|i: int| 0 <= i < j ==> self.entries@[i].0@ != key@,
            decreases self.entries.len() - j,
        {
            if text_eq(self.entries[j].0.as_str(), key) {
                proof {
                    lemma_key_pos(self.entries@, key@, j as int);
                }
                return j;
            }
            j = j + 1;
        }
        proof {
            lemma_key_pos(self.entries@, key@, j as int);
        }
        j
    }

    /// Looks up `key` (`HashMap::get`).
    pub fn get(&self, key: &str) -> (r: Option<&V>)
        ensures
            match r {
                Some(v) => self.get_spec(key@) == Some(*v),
                None => self.get_spec(key@) is None,
            },
    {
        let j = self.position(key);
        if j < self.entries.len() {
            Some(&self.entries[j].1)
        } else {
            None
        }
    }

    /// Stores `value` under `key`, replacing any earlier value
    /// (`HashMap::insert`); other keys keep their values.
    pub fn insert(&mut self, key: String, value: V)
        ensures
            final(self).get_spec(key@) == Some(value),
            forall|k: Seq<char>| k != key@ ==> #[trigger] final(self).get_spec(k) == old(self).get_spec(k),
    {
        let j = self.position(key.as_str());
        let ghost old_entries = self.entries@;
        proof {
            lemma_key_pos_facts(old_entries, key@);
        }
        if j < self.entries.len() {
            self.entries[j].1 = value;
            proof {
                let e = self.entries@;
                assert forall|i: int| 0 <= i < e.len() implies e[i].0@ == old_entries[i].0@ by {}
                lemma_key_pos(e, key@, j as int);
                assert forall|k: Seq<char>| k != key@ implies #[trigger] lookup(e, k) == lookup(
                    old_entries,
                    k,
                ) by {
                    lemma_key_pos_facts(old_entries, k);
                    lemma_key_pos(e, k, key_pos(old_entries, k) as int);
                }
            }
        } else {
            self.entries.push((key, value));
            proof {
                let e = self.entries@;
                lemma_key_pos(e, key@, j as int);
                assert forall|k: Seq<char>| k != key@ implies #[trigger] lookup(e, k) == lookup(
                    old_entries,
                    k,
                ) by {
                    lemma_key_pos_facts(old_entries, k);
                    let p = key_pos(old_entries, k) as int;
                    if p < old_entries.len() {
                        lemma_key_pos(e, k, p);
                    } else {
                        lemma_key_pos(e, k, e.len() as int);
                    }
                }
            }
        }
    }
}

/// A JSON number as the pipeline reads it: the IEEE-754 binary64 encoding of
/// its value, with the value's `Display` form and its `{:.1}` form.
#[derive(Clone, Debug)]
pub struct JsonNumber {
    pub bits: u64,
    pub display: String,
    pub display_one_decimal: String,
}

/// A top-level field of a record's JSON payload.
#[derive(Clone, Debug)]
pub enum PayloadValue {
    /// A JSON string.
    Text(String),
    /// A JSON number.
    Number(JsonNumber),
    /// `null`, a boolean, an array or an object.
    Other,
}

/// A record produced by the ETL stage.
#[derive(Clone, Debug)]
pub struct EtlRecord {
    pub id: String,
    pub source_topic: String,
    pub partition: i32,
    pub offset: i64,
    /// Top-level fields of the JSON payload (empty when it is not an object).
    pub payload: FieldMap<PayloadValue>,
    pub metadata: FieldMap<String>,
    /// Pipeline timestamp in ISO-8601 form.
    pub pipeline_ts: String,
    pub ledger_seq: Option<u64>,
}

/// The ledger sequence of a record, 0 when absent.
pub open spec fn sequence_of(r: EtlRecord) -> nat {
    match r.ledger_seq {
        Some(s) => s as nat,
        None => 0,
    }
}

/// The payload field `key` as text, if it is a JSON string
/// (`payload.get(key).and_then(Value::as_str)`).
pub open spec fn payload_text(p: FieldMap<PayloadValue>, key: Seq<char>) -> Option<Seq<char>> {
    match p.get_spec(key) {
        Some(PayloadValue::Text(s)) => Some(s@),
        _ => None,
    }
}

} // verus!
