//! Data partitioning and indexing strategies for the Stellar data pipeline.
use crate::data_pipeline::etl::{payload_text, sequence_of, EtlRecord, PayloadValue};
use crate::text::{
    after, all_digits, before, char_pos, decimal, digits_value, is_digit, lemma_char_pos_bound,
    lemma_char_pos_concat, unsigned_value, padded_decimal, parse_bounded, parse_unsigned, replace_char,
    replace_char_with, string_of, text_after, text_before, to_lowercase, unicode_lowercase,
    zero_pad,
};
use vstd::prelude::*;

verus! {

/// Partition key computed for a record.
#[derive(Clone, Debug, PartialEq, Eq, Hash)]
pub struct PartitionKey {
    pub strategy: String,
    pub value: String,
}

/// A partition key as a pair of character sequences (strategy, value).
pub type KeyView = (Seq<char>, Seq<char>);

impl PartitionKey {
    pub open spec fn key_view(&self) -> KeyView {
        (self.strategy@, self.value@)
    }

    /// Storage path `strategy/value`, with every `:` of the value turned into `/`.
    pub fn storage_path(&self) -> (p: String)
        ensures
            p@ == self.strategy@ + "/"@ + replace_char(self.value@, ':', "/"@),
    {
        let mut p = self.strategy.clone();
        p.append("/");
        let v = replace_char_with(self.value.as_str(), ':', "/");
        p.append(v.as_str());
        p
    }
}

/// Partitioning strategy.
#[derive(Clone, Debug, PartialEq, Eq)]
pub enum PartitionStrategy {
    /// Partition by date: YYYY/MM/DD
    ByDate,
    /// Partition by date + hour: YYYY/MM/DD/HH
    ByDateHour,
    /// Partition by ledger range bucket (N ledgers per bucket)
    ByLedgerRange { bucket_size: u64 },
    /// Partition by size category
    BySizeCategory,
}

/// The strategy name stored in a key: the lower-cased variant name.
pub open spec fn strategy_label(s: PartitionStrategy) -> Seq<char> {
    match s {
        PartitionStrategy::ByDate => "bydate"@,
        PartitionStrategy::ByDateHour => "bydatehour"@,
        PartitionStrategy::ByLedgerRange { .. } => "byledgerrange"@,
        PartitionStrategy::BySizeCategory => "bysizecategory"@,
    }
}

/// The date part of an ISO-8601 timestamp (before the first `T`), with `-` turned into `/`.
pub open spec fn date_value(ts: Seq<char>) -> Seq<char> {
    replace_char(before(ts, 'T'), '-', "/"@)
}

/// The hour of a timestamp: the text between the first `T` and the next `:`
/// (or `T`), parsed as a `u8`; 0 when missing or not a `u8`.
pub open spec fn hour_of(ts: Seq<char>) -> nat {
    match after(ts, 'T') {
        Some(rest) => match parse_bounded(before(before(rest, 'T'), ':'), 255) {
            Some(h) => h,
            None => 0,
        },
        None => 0,
    }
}

/// First ledger of the bucket of size `b` holding ledger `seq`.
pub open spec fn bucket_start(seq: nat, b: nat) -> nat {
    (seq / b) * b
}

/// The size category of a record: metadata `size_category`, else the payload
/// text `ledger_size_category`, else `unknown`.
pub open spec fn size_category(r: EtlRecord) -> Seq<char> {
    match r.metadata.get_spec("size_category"@) {
        Some(v) => v@,
        None => match payload_text(r.payload, "ledger_size_category"@) {
            Some(t) => t,
            None => "unknown"@,
        },
    }
}

/// The partition value of a record under a strategy.
pub open spec fn partition_value(s: PartitionStrategy, r: EtlRecord) -> Seq<char> {
    match s {
        PartitionStrategy::ByDate => date_value(r.pipeline_ts@),
        PartitionStrategy::ByDateHour => date_value(r.pipeline_ts@) + "/"@ + zero_pad(
            decimal(hour_of(r.pipeline_ts@)),
            2,
        ),
        PartitionStrategy::ByLedgerRange { bucket_size } => {
            let start = bucket_start(sequence_of(r), bucket_size as nat);
            zero_pad(decimal(start), 10) + "-"@ + zero_pad(
                decimal((start + bucket_size - 1) as nat),
                10,
            )
        },
        PartitionStrategy::BySizeCategory => unicode_lowercase(size_category(r)),
    }
}

/// The key of a record under a strategy.
pub open spec fn partition_key(s: PartitionStrategy, r: EtlRecord) -> KeyView {
    (strategy_label(s), partition_value(s, r))
}

/// A key can be computed without arithmetic overflow or division by zero:
/// a ledger-range bucket is non-empty and its last ledger fits in a `u64`.
pub open spec fn key_computable(s: PartitionStrategy, r: EtlRecord) -> bool {
    match s {
        PartitionStrategy::ByLedgerRange { bucket_size } => bucket_size > 0 && bucket_start(
            sequence_of(r),
            bucket_size as nat,
        ) + bucket_size <= u64::MAX,
        _ => true,
    }
}

/// Index of the first group whose key is `k`, or `groups.len()`.
pub open spec fn group_slot(groups: Seq<(KeyView, Seq<EtlRecord>)>, k: KeyView) -> nat
    decreases groups.len(),
{
    if groups.len() == 0 {
        0
    } else if groups[0].0 == k {
        0
    } else {
        1 + group_slot(groups.drop_first(), k)
    }
}

/// Records grouped by key: groups in order of first appearance of their
/// key, each holding its records in input order.
pub open spec fn grouping(s: PartitionStrategy, rs: Seq<EtlRecord>) -> Seq<(KeyView, Seq<EtlRecord>)>
    decreases rs.len(),
{
    if rs.len() == 0 {
        Seq::empty()
    } else {
        let g = grouping(s, rs.drop_last());
        let r = rs.last();
        let k = partition_key(s, r);
        let j = group_slot(g, k);
        if j < g.len() {
            g.update(j as int, (k, g[j as int].1.push(r)))
        } else {
            g.push((k, seq![r]))
        }
    }
}

/// The groups returned by [`PartitionStrategy::group`] as keys and records.
pub open spec fn groups_view<'a>(g: Seq<(PartitionKey, Vec<&'a EtlRecord>)>) -> Seq<
    (KeyView, Seq<EtlRecord>),
> {
    g.map_values(
        |p: (PartitionKey, Vec<&'a EtlRecord>)|
            (p.0.key_view(), p.1@.map_values(|r: &'a EtlRecord| *r)),
    )
}

proof fn lemma_group_slot(groups: Seq<(KeyView, Seq<EtlRecord>)>, k: KeyView, j: int)
    requires
        0 <= j <= groups.len(),
        forall|i: int| 0 <= i < j ==> groups[i].0 != k,
        j < groups.len() ==> groups[j].0 == k,
    ensures
        group_slot(groups, k) == j,
    decreases j,
{
    if j > 0 {
        let t = groups.drop_first();
        assert forall|i: int| 0 <= i < j - 1 implies t[i].0 != k by {
            assert(t[i] == groups[i + 1]);
        }
        lemma_group_slot(t, k, j - 1);
    }
}

pub proof fn lemma_group_slot_facts(groups: Seq<(KeyView, Seq<EtlRecord>)>, k: KeyView)
    ensures
        group_slot(groups, k) <= groups.len(),
        group_slot(groups, k) < groups.len() ==> groups[group_slot(groups, k) as int].0 == k,
        forall|i: int| 0 <= i < group_slot(groups, k) ==> groups[i].0 != k,
    decreases groups.len(),
{
    if groups.len() > 0 && groups[0].0 != k {
        let t = groups.drop_first();
        lemma_group_slot_facts(t, k);
        assert forall|i: int| 0 <= i < group_slot(groups, k) implies groups[i].0 != k by {
            if i > 0 {
                assert(groups[i] == t[i - 1]);
            }
        }
    }
}

/// Position of the group whose key is `k`, or `groups.len()`.
fn find_group<'a>(groups: &Vec<(PartitionKey, Vec<&'a EtlRecord>)>, k: &PartitionKey) -> (j: usize)
    ensures
        j == group_slot(groups_view(groups@), k.key_view()),
        j <= groups@.len(),
{
    let ghost view = groups_view(groups@);
    let mut j: usize = 0;
    while j < groups.len()
        invariant
            j <= groups@.len(),
            view == groups_view(groups@),
            forall|n: int| 0 <= n < j ==> view[n].0 != k.key_view(),
        decreases groups.len() - j,
    {
        if groups[j].0.strategy == k.strategy && groups[j].0.value == k.value {
            proof {
                lemma_group_slot(view, k.key_view(), j as int);
            }
            return j;
        }
        j = j + 1;
    }
    proof {
        lemma_group_slot(view, k.key_view(), j as int);
    }
    j
}

impl PartitionStrategy {
    /// Computes the partition key of a record.
    pub fn compute_key(&self, record: &EtlRecord) -> (k: PartitionKey)
        requires
            key_computable(*self, *record),
        ensures
            k.key_view() == partition_key(*self, *record),
    {
        let value = match self {
            PartitionStrategy::ByDate => {
                let date = text_before(record.pipeline_ts.as_str(), 'T');
                replace_char_with(date.as_str(), '-', "/")
            },
            PartitionStrategy::ByDateHour => {
                let date = text_before(record.pipeline_ts.as_str(), 'T');
                let mut out = replace_char_with(date.as_str(), '-', "/");
                let hour: u64 = match text_after(record.pipeline_ts.as_str(), 'T') {
                    Some(rest) => {
                        let segment = text_before(rest.as_str(), 'T');
                        let digits = text_before(segment.as_str(), ':');
                        match parse_unsigned(digits.as_str(), 255) {
                            Some(h) => h,
                            None => 0,
                        }
                    },
                    None => 0,
                };
                out.append("/");
                let hh = string_of(&padded_decimal(hour, 2));
                out.append(hh.as_str());
                out
            },
            PartitionStrategy::ByLedgerRange { bucket_size } => {
                let sequence: u64 = match record.ledger_seq {
                    Some(s) => s,
                    None => 0,
                };
                let bucket: u64 = sequence / *bucket_size;
                proof {
                    vstd::arithmetic::div_mod::lemma_fundamental_div_mod(
                        sequence as int,
                        *bucket_size as int,
                    );
                }
                let start: u64 = bucket * *bucket_size;
                let end: u64 = start + *bucket_size - 1;
                let mut out = string_of(&padded_decimal(start, 10));
                out.append("-");
                let tail = string_of(&padded_decimal(end, 10));
                out.append(tail.as_str());
                out
            },
            PartitionStrategy::BySizeCategory => {
                match record.metadata.get("size_category") {
                    Some(v) => to_lowercase(v.as_str()),
                    None => match record.payload.get("ledger_size_category") {
                        Some(PayloadValue::Text(t)) => to_lowercase(t.as_str()),
                        _ => to_lowercase("unknown"),
                    },
                }
            },
        };
        let strategy = match self {
            PartitionStrategy::ByDate => String::from_str("bydate"),
            PartitionStrategy::ByDateHour => String::from_str("bydatehour"),
            PartitionStrategy::ByLedgerRange { .. } => String::from_str("byledgerrange"),
            PartitionStrategy::BySizeCategory => String::from_str("bysizecategory"),
        };
        PartitionKey { strategy, value }
    }

    /// Groups records by their partition keys, in order of first appearance
    /// of each key; each group keeps its records in input order.
    pub fn group<'a>(&self, records: &'a [EtlRecord]) -> (groups: Vec<
        (PartitionKey, Vec<&'a EtlRecord>),
    >)
        requires
            forall|i: int| 0 <= i < records@.len() ==> key_computable(*self, #[trigger] records@[i]),
        ensures
            groups_view(groups@) == grouping(*self, records@),
    {
        let mut groups: Vec<(PartitionKey, Vec<&'a EtlRecord>)> = Vec::new();
        let mut i: usize = 0;
        while i < records.len()
            invariant
                i <= records@.len(),
                forall|n: int| 0 <= n < records@.len() ==> key_computable(*self, #[trigger] records@[n]),
                groups_view(groups@) == grouping(*self, records@.take(i as int)),
            decreases records.len() - i,
        {
            let r: &'a EtlRecord = &records[i];
            let k = self.compute_key(r);
            let ghost before_groups = groups_view(groups@);
            let ghost prefix = records@.take(i as int);
            proof {
                assert(records@.take(i as int + 1).drop_last() == prefix);
                assert(records@.take(i as int + 1).last() == *r);
            }
            let j = find_group(&groups, &k);
            proof {
                lemma_group_slot_facts(before_groups, k.key_view());
            }
            let ghost old_groups = groups@;
            if j < groups.len() {
                groups[j].1.push(r);
                proof {
                    assert(groups@[j as int].1@ == old_groups[j as int].1@.push(r));
                    assert(groups@[j as int].1@.map_values(|x: &'a EtlRecord| *x) =~= old_groups[j as int].1@.map_values(|x: &'a EtlRecord| *x).push(*r));
                    assert(groups@[j as int].0.key_view() == k.key_view());
                    let expected = before_groups.update(
                        j as int,
                        (k.key_view(), before_groups[j as int].1.push(*r)),
                    );
                    assert(groups_view(groups@) =~= expected);
                }
            } else {
                groups.push((k, vec![r]));
                proof {
                    assert(groups@.last().1@.map_values(|x: &'a EtlRecord| *x) =~= seq![*r]);
                    let expected = before_groups.push((k.key_view(), seq![*r]));
                    assert(groups_view(groups@) =~= expected);
                }
            }
            i = i + 1;
        }
        proof {
            assert(records@.take(records@.len() as int) == records@);
        }
        groups
    }
}

/// The number of records held by the groups.
pub open spec fn member_total(g: Seq<(KeyView, Seq<EtlRecord>)>) -> nat
    decreases g.len(),
{
    if g.len() == 0 {
        0
    } else {
        member_total(g.drop_last()) + g.last().1.len()
    }
}

proof fn lemma_member_total_update(
    g: Seq<(KeyView, Seq<EtlRecord>)>,
    j: int,
    x: (KeyView, Seq<EtlRecord>),
)
    requires
        0 <= j < g.len(),
        x.1.len() == g[j].1.len() + 1,
    ensures
        member_total(g.update(j, x)) == member_total(g) + 1,
    decreases g.len(),
{
    let u = g.update(j, x);
    if j == g.len() - 1 {
        assert(u.drop_last() == g.drop_last());
    } else {
        assert(u.drop_last() == g.drop_last().update(j, x));
        lemma_member_total_update(g.drop_last(), j, x);
    }
}

proof fn lemma_grouping_facts(s: PartitionStrategy, rs: Seq<EtlRecord>)
    ensures
        ({
            let g = grouping(s, rs);
            &&& forall|i: int, j: int| 0 <= i < j < g.len() ==> g[i].0 != g[j].0
            &&& forall|i: int, m: int|
                0 <= i < g.len() && 0 <= m < g[i].1.len() ==> partition_key(s, #[trigger] g[i].1[m])
                    == g[i].0
            &&& forall|i: int| 0 <= i < g.len() ==> (#[trigger] g[i]).1.len() > 0
            &&& member_total(g) == rs.len()
        }),
    decreases rs.len(),
{
    if rs.len() > 0 {
        let prev = grouping(s, rs.drop_last());
        lemma_grouping_facts(s, rs.drop_last());
        let r = rs.last();
        let k = partition_key(s, r);
        lemma_group_slot_facts(prev, k);
        let j = group_slot(prev, k);
        let g = grouping(s, rs);
        if j < prev.len() {
            lemma_member_total_update(prev, j as int, (k, prev[j as int].1.push(r)));
            assert forall|i: int, m: int|
                0 <= i < g.len() && 0 <= m < g[i].1.len() implies partition_key(s, #[trigger] g[i].1[m])
                    == g[i].0 by {
                if i == j && m == prev[i].1.len() {
                    assert(g[i].1[m] == r);
                } else if i == j {
                    assert(g[i].1[m] == prev[i].1[m]);
                }
            }
        } else {
            assert(g.drop_last() == prev);
            assert forall|i: int, m: int|
                0 <= i < g.len() && 0 <= m < g[i].1.len() implies partition_key(s, #[trigger] g[i].1[m])
                    == g[i].0 by {
                if i == prev.len() {
                    assert(g[i].1 == seq![r]);
                }
            }
        }
    }
}

/// Grouping never puts two groups under the same key.
pub proof fn law_group_keys_distinct(s: PartitionStrategy, rs: Seq<EtlRecord>)
    ensures
        forall|i: int, j: int|
            0 <= i < j < grouping(s, rs).len() ==> grouping(s, rs)[i].0 != grouping(s, rs)[j].0,
{
    lemma_grouping_facts(s, rs);
}

/// Every record of a group has that group's partition key, and no group is empty.
pub proof fn law_group_members_share_key(s: PartitionStrategy, rs: Seq<EtlRecord>)
    ensures
        forall|i: int, m: int|
            0 <= i < grouping(s, rs).len() && 0 <= m < grouping(s, rs)[i].1.len() ==> partition_key(
                s,
                #[trigger] grouping(s, rs)[i].1[m],
            ) == grouping(s, rs)[i].0,
        forall|i: int| 0 <= i < grouping(s, rs).len() ==> (#[trigger] grouping(s, rs)[i]).1.len() > 0,
{
    lemma_grouping_facts(s, rs);
}

/// The groups together hold exactly as many records as were grouped.
pub proof fn law_groups_hold_every_record(s: PartitionStrategy, rs: Seq<EtlRecord>)
    ensures
        member_total(grouping(s, rs)) == rs.len(),
{
    lemma_grouping_facts(s, rs);
}

/// The records of `rs` whose key under `s` is `k`, in input order.
pub open spec fn records_with_key(s: PartitionStrategy, rs: Seq<EtlRecord>, k: KeyView) -> Seq<EtlRecord>
    decreases rs.len(),
{
    if rs.len() == 0 {
        Seq::empty()
    } else {
        let p = records_with_key(s, rs.drop_last(), k);
        if partition_key(s, rs.last()) == k {
            p.push(rs.last())
        } else {
            p
        }
    }
}

proof fn lemma_no_record_with_key(s: PartitionStrategy, rs: Seq<EtlRecord>, k: KeyView)
    requires
        forall|n: int| 0 <= n < rs.len() ==> partition_key(s, #[trigger] rs[n]) != k,
    ensures
        records_with_key(s, rs, k) == Seq::<EtlRecord>::empty(),
    decreases rs.len(),
{
    if rs.len() > 0 {
        let r0 = rs.drop_last();
        assert forall|n: int| 0 <= n < r0.len() implies partition_key(s, #[trigger] r0[n]) != k by {
            assert(r0[n] == rs[n]);
        }
        lemma_no_record_with_key(s, r0, k);
        assert(partition_key(s, rs[rs.len() - 1]) != k);
    }
}

proof fn lemma_grouping_is_filter(s: PartitionStrategy, rs: Seq<EtlRecord>)
    ensures
        forall|i: int|
            0 <= i < grouping(s, rs).len() ==> (#[trigger] grouping(s, rs)[i]).1 == records_with_key(
                s,
                rs,
                grouping(s, rs)[i].0,
            ),
        forall|n: int|
            0 <= n < rs.len() ==> group_slot(grouping(s, rs), partition_key(s, #[trigger] rs[n]))
                < grouping(s, rs).len(),
    decreases rs.len(),
{
    if rs.len() > 0 {
        let r0 = rs.drop_last();
        let prev = grouping(s, r0);
        lemma_grouping_is_filter(s, r0);
        lemma_grouping_facts(s, r0);
        let r = rs.last();
        let k = partition_key(s, r);
        lemma_group_slot_facts(prev, k);
        let j = group_slot(prev, k);
        let g = grouping(s, rs);
        assert forall|i: int| 0 <= i < g.len() implies (#[trigger] g[i]).1 == records_with_key(s, rs, g[i].0) by {
            if i < prev.len() && i != j {
                assert(g[i] == prev[i]);
                if j < prev.len() {
                    assert(prev[i].0 != prev[j as int].0);
                }
                assert(prev[i].0 != k);
            } else if i == j && j < prev.len() {
                assert(g[i] == (k, prev[j as int].1.push(r)));
            } else {
                assert(i == prev.len() && j == prev.len());
                assert(g[i] == (k, seq![r]));
                assert forall|n: int| 0 <= n < r0.len() implies partition_key(s, #[trigger] r0[n]) != k by {
                    lemma_group_slot_facts(prev, partition_key(s, r0[n]));
                    if partition_key(s, r0[n]) == k {
                        let q = group_slot(prev, k);
                        assert(q < prev.len());
                    }
                }
                lemma_no_record_with_key(s, r0, k);
                assert(records_with_key(s, rs, k) =~= seq![r]);
            }
        }
        assert forall|n: int| 0 <= n < rs.len() implies group_slot(g, partition_key(s, #[trigger] rs[n])) < g.len() by {
            let kn = partition_key(s, rs[n]);
            let q = if n < r0.len() {
                assert(rs[n] == r0[n]);
                lemma_group_slot_facts(prev, kn);
                group_slot(prev, kn) as int
            } else {
                if j < prev.len() { j as int } else { prev.len() as int }
            };
            assert(0 <= q < g.len());
            assert(g[q].0 == kn);
            lemma_group_slot_facts(g, kn);
            if group_slot(g, kn) >= g.len() {
                assert(g[q].0 != kn);
            }
        }
    }
}

/// Each group holds exactly the records with its key, in input order, and
/// every record's key has a group.
pub proof fn law_group_is_records_with_its_key(s: PartitionStrategy, rs: Seq<EtlRecord>)
    ensures
        forall|i: int|
            0 <= i < grouping(s, rs).len() ==> (#[trigger] grouping(s, rs)[i]).1 == records_with_key(
                s,
                rs,
                grouping(s, rs)[i].0,
            ),
        forall|n: int|
            0 <= n < rs.len() ==> exists|i: int|
                0 <= i < grouping(s, rs).len() && (#[trigger] grouping(s, rs)[i]).0 == partition_key(
                    s,
                    #[trigger] rs[n],
                ),
{
    lemma_grouping_is_filter(s, rs);
    let g = grouping(s, rs);
    assert forall|n: int| 0 <= n < rs.len() implies exists|i: int|
        0 <= i < g.len() && (#[trigger] g[i]).0 == partition_key(s, #[trigger] rs[n]) by {
        let kn = partition_key(s, rs[n]);
        lemma_group_slot_facts(g, kn);
        let q = group_slot(g, kn) as int;
        assert(g[q].0 == kn);
    }
}

/// The date-and-hour key of a record stamped `<date>T<hh>:<rest>`, where the
/// date has no `T`, `hh` is a decimal number of at most 255 and `rest` has no
/// `T`: the date with `-` turned into `/`, then `/` and that number written
/// in decimal, zero-padded to two digits (hour 14 gives `/14`, hour 9 `/09`).
pub proof fn law_date_hour_key_shows_the_hour(
    r: EtlRecord,
    date: Seq<char>,
    hh: Seq<char>,
    rest: Seq<char>,
)
    requires
        r.pipeline_ts@ == date + "T"@ + hh + ":"@ + rest,
        forall|i: int| 0 <= i < date.len() ==> date[i] != 'T',
        forall|i: int| 0 <= i < rest.len() ==> rest[i] != 'T',
        hh.len() > 0,
        forall|i: int| 0 <= i < hh.len() ==> '0' <= #[trigger] hh[i] <= '9',
        digits_value(hh) <= 255,
    ensures
        partition_key(PartitionStrategy::ByDateHour, r) == (
            "bydatehour"@,
            replace_char(date, '-', "/"@) + "/"@ + zero_pad(decimal(digits_value(hh)), 2),
        ),
{
    reveal_strlit("T");
    reveal_strlit(":");
    let ts = r.pipeline_ts@;
    let tail = hh + ":"@ + rest;
    assert(ts =~= date + (seq!['T'] + tail));
    lemma_char_pos_concat(date, seq!['T'] + tail, 'T');
    assert(char_pos(seq!['T'] + tail, 'T') == 0);
    assert(before(ts, 'T') =~= date);
    assert(after(ts, 'T') == Some(tail)) by {
        assert(ts.skip(date.len() as int + 1) =~= tail);
    }
    let tail2 = seq![':'] + rest;
    assert(tail =~= hh + tail2);
    assert forall|i: int| 0 <= i < hh.len() implies hh[i] != 'T' && hh[i] != ':' by {
        assert('0' <= hh[i] <= '9');
    }
    lemma_char_pos_concat(hh, tail2, 'T');
    lemma_char_pos_concat(seq![':'], rest, 'T');
    lemma_char_pos_bound(rest, 'T');
    let cut = before(tail, 'T');
    assert(cut =~= hh + tail2.take(char_pos(tail2, 'T') as int));
    assert(cut =~= hh + seq![':'] + rest.take(char_pos(rest, 'T') as int));
    let colon_tail = seq![':'] + rest.take(char_pos(rest, 'T') as int);
    lemma_char_pos_concat(hh, colon_tail, ':');
    assert(colon_tail[0] == ':');
    assert(char_pos(colon_tail, ':') == 0);
    assert(cut =~= hh + colon_tail);
    assert(char_pos(cut, ':') == hh.len());
    assert(before(cut, ':') =~= hh);
    assert(all_digits(hh)) by {
        assert forall|i: int| 0 <= i < hh.len() implies is_digit(#[trigger] hh[i]) by {
            assert('0' <= hh[i] <= '9');
        }
    }
    assert(hh[0] != '+') by {
        assert('0' <= hh[0] <= '9');
    }
    assert(unsigned_value(hh) == Some(digits_value(hh)));
    assert(hour_of(ts) == digits_value(hh));
}

} // verus!
