//! Data quality validation rules for the Stellar data pipeline.
use crate::data_pipeline::binary64::{
    compare_with, f64_gt, f64_ge, f64_le, f64_lt, scaled_constant, Comparison,
};
use crate::data_pipeline::etl::{sequence_of, EtlRecord, FieldMap, JsonNumber, PayloadValue};
use crate::text::{before, chars_of, text_before};
use vstd::prelude::*;
use vstd::string::*;

verus! {

/// Severity level for quality failures.
#[derive(Clone, Copy, Debug, PartialEq, Eq, PartialOrd, Ord, Structural)]
pub enum Severity {
    Info,
    Warning,
    Error,
    Critical,
}

/// A single quality violation found during validation.
#[derive(Clone, Debug)]
pub struct QualityViolation {
    pub rule_name: String,
    pub severity: Severity,
    pub field: String,
    pub message: String,
    pub record_sequence: u64,
}

/// The check a validation rule applies to a record.
#[derive(Clone, Copy, Debug, PartialEq, Eq, Structural)]
pub enum RuleCheck {
    /// The ledger sequence is positive.
    PositiveSequence,
    /// The ledger hash is non-empty.
    NonEmptyHash,
    /// The base fee is at least 100 stroops (0.00001 XLM).
    MinBaseFee,
    /// The transaction success rate lies in `[0, 1]`.
    ValidSuccessRate,
    /// The date partition has the shape `YYYY-MM-DD`.
    DatePartitionFormat,
    /// The average number of operations per transaction is at most 100.
    OpsPerTxSanity,
}

/// 100 stroops, `0.000_01` XLM as an `f64`: 5902958103587057 · 2^-69,
/// scaled by 2^1074.
pub open spec fn min_base_fee() -> int {
    scaled_constant(5902958103587057, 1005)
}

/// `1.0` scaled by 2^1074.
pub open spec fn one() -> int {
    scaled_constant(1, 1074)
}

/// `100.0` scaled by 2^1074.
pub open spec fn hundred() -> int {
    scaled_constant(100, 1074)
}

/// The ledger hash: payload text `hash`, else `ledger_hash`, else empty.
pub open spec fn hash_of(r: EtlRecord) -> Seq<char> {
    let v = match r.payload.get_spec("hash"@) {
        Some(x) => Some(x),
        None => r.payload.get_spec("ledger_hash"@),
    };
    match v {
        Some(PayloadValue::Text(s)) => s@,
        _ => Seq::empty(),
    }
}

/// The payload number under `k1`, else under `k2` (the first key present decides).
pub open spec fn number_field(r: EtlRecord, k1: Seq<char>, k2: Seq<char>) -> Option<JsonNumber> {
    let v = match r.payload.get_spec(k1) {
        Some(x) => Some(x),
        None => r.payload.get_spec(k2),
    };
    match v {
        Some(PayloadValue::Number(n)) => Some(n),
        _ => None,
    }
}

/// The printed form of a number read with a default of `0.0`.
pub open spec fn shown(n: Option<JsonNumber>) -> Seq<char> {
    match n {
        Some(x) => x.display@,
        None => "0"@,
    }
}

/// The date partition: metadata `date_partition`, else the timestamp before `T`.
pub open spec fn date_partition_of(r: EtlRecord) -> Seq<char> {
    match r.metadata.get_spec("date_partition"@) {
        Some(v) => v@,
        None => before(r.pipeline_ts@, 'T'),
    }
}

/// Ten bytes long with `-` as its fifth and eighth characters.
pub open spec fn well_formed_date(d: Seq<char>) -> bool {
    &&& vstd::utf8::encode_utf8(d).len() == 10
    &&& d.len() > 4 && d[4] == '-'
    &&& d.len() > 7 && d[7] == '-'
}

/// The `(field, message)` a check reports for a record, or `None` when it passes.
pub open spec fn check_outcome(c: RuleCheck, r: EtlRecord) -> Option<(Seq<char>, Seq<char>)> {
    match c {
        RuleCheck::PositiveSequence => if sequence_of(r) == 0 {
            Some(("sequence"@, "Ledger sequence must be > 0"@))
        } else {
            None
        },
        RuleCheck::NonEmptyHash => if hash_of(r).len() == 0 {
            Some(("hash"@, "Ledger hash must not be empty"@))
        } else {
            None
        },
        RuleCheck::MinBaseFee => {
            let n = number_field(r, "base_fee_xlm"@, "base_fee"@);
            let low = match n {
                Some(x) => f64_lt(x.bits, min_base_fee()),
                None => true,
            };
            if low {
                Some(("base_fee_xlm"@, "Base fee too low: "@ + shown(n)))
            } else {
                None
            }
        },
        RuleCheck::ValidSuccessRate => {
            let n = number_field(r, "tx_success_rate"@, "success_rate"@);
            let in_range = match n {
                Some(x) => f64_ge(x.bits, 0) && f64_le(x.bits, one()),
                None => true,
            };
            if !in_range {
                Some(("tx_success_rate"@, "Success rate out of range: "@ + shown(n)))
            } else {
                None
            }
        },
        RuleCheck::DatePartitionFormat => {
            let d = date_partition_of(r);
            if !well_formed_date(d) {
                Some(("date_partition"@, "Invalid date partition format: "@ + d))
            } else {
                None
            }
        },
        RuleCheck::OpsPerTxSanity => {
            let n = number_field(r, "avg_ops_per_tx"@, "operations_per_transaction"@);
            match n {
                Some(x) => if f64_gt(x.bits, hundred()) {
                    Some(("avg_ops_per_tx"@, "Unusually high ops/tx: "@ + x.display_one_decimal@))
                } else {
                    None
                },
                None => None,
            }
        },
    }
}

/// The ops-per-transaction check reads `avg_ops_per_tx`, and
/// `operations_per_transaction` when that key is absent: a number found
/// there above 100 draws a violation on field `avg_ops_per_tx` whose message
/// shows the number with one decimal; a number of at most 100 draws none.
pub proof fn law_ops_per_tx_reads_either_key(r: EtlRecord, n: JsonNumber)
    requires
        r.payload.get_spec("avg_ops_per_tx"@) == Some(PayloadValue::Number(n)) || (
        r.payload.get_spec("avg_ops_per_tx"@) is None && r.payload.get_spec(
            "operations_per_transaction"@,
        ) == Some(PayloadValue::Number(n))),
    ensures
        hundred() == 100 * vstd::arithmetic::power2::pow2(1074),
        f64_gt(n.bits, hundred()) ==> check_outcome(RuleCheck::OpsPerTxSanity, r) == Some(
            ("avg_ops_per_tx"@, "Unusually high ops/tx: "@ + n.display_one_decimal@),
        ),
        !f64_gt(n.bits, hundred()) ==> check_outcome(RuleCheck::OpsPerTxSanity, r) is None,
{
}

/// A violation as plain values: rule name, severity, field, message, ledger sequence.
pub type ViolationView = (Seq<char>, Severity, Seq<char>, Seq<char>, nat);

pub open spec fn violation_view(v: QualityViolation) -> ViolationView {
    (v.rule_name@, v.severity, v.field@, v.message@, v.record_sequence as nat)
}

/// A validation rule applied to ETL records.
#[derive(Clone, Debug)]
pub struct ValidationRule {
    pub name: String,
    pub severity: Severity,
    pub check: RuleCheck,
}

/// The violation a rule reports for a record, if any.
pub open spec fn rule_outcome(rule: ValidationRule, r: EtlRecord) -> Option<ViolationView> {
    match check_outcome(rule.check, r) {
        Some(fm) => Some((rule.name@, rule.severity, fm.0, fm.1, sequence_of(r))),
        None => None,
    }
}

fn lookup_number(payload: &FieldMap<PayloadValue>, k1: &str, k2: &str) -> (n: Option<
    JsonNumber,
>)
    ensures
        ({
            let v = match payload.get_spec(k1@) {
                Some(x) => Some(x),
                None => payload.get_spec(k2@),
            };
            n == match v {
                Some(PayloadValue::Number(m)) => Some(m),
                _ => None::<JsonNumber>,
            }
        }),
{
    let v = match payload.get(k1) {
        Some(x) => Some(x),
        None => payload.get(k2),
    };
    match v {
        Some(PayloadValue::Number(m)) => Some(JsonNumber {
            bits: m.bits,
            display: m.display.clone(),
            display_one_decimal: m.display_one_decimal.clone(),
        }),
        _ => None,
    }
}

fn shown_text(n: &Option<JsonNumber>) -> (s: String)
    ensures
        s@ == shown(*n),
{
    match n {
        Some(x) => x.display.clone(),
        None => String::from_str("0"),
    }
}

fn message(prefix: &str, rest: &str) -> (s: String)
    ensures
        s@ == prefix@ + rest@,
{
    let mut s = prefix.to_owned();
    s.append(rest);
    s
}

fn pair(field: &str, msg: String) -> (p: (String, String))
    ensures
        p.0@ == field@,
        p.1@ == msg@,
{
    (field.to_owned(), msg)
}

fn check_sequence(r: &EtlRecord) -> (out: Option<(String, String)>)
    ensures
        match out {
            Some(fm) => check_outcome(RuleCheck::PositiveSequence, *r) == Some((fm.0@, fm.1@)),
            None => check_outcome(RuleCheck::PositiveSequence, *r) is None,
        },
{
    let sequence = get_sequence(r);
    if sequence == 0 {
        Some(pair("sequence", String::from_str("Ledger sequence must be > 0")))
    } else {
        None
    }
}

fn get_sequence(r: &EtlRecord) -> (n: u64)
    ensures
        n == sequence_of(*r),
{
    match r.ledger_seq {
        Some(s) => s,
        None => 0,
    }
}

fn get_hash(r: &EtlRecord) -> (h: String)
    ensures
        h@ == hash_of(*r),
{
    let v = match r.payload.get("hash") {
        Some(x) => Some(x),
        None => r.payload.get("ledger_hash"),
    };
    match v {
        Some(PayloadValue::Text(s)) => s.clone(),
        _ => String::new(),
    }
}

fn get_date_partition(r: &EtlRecord) -> (d: String)
    ensures
        d@ == date_partition_of(*r),
{
    match r.metadata.get("date_partition") {
        Some(v) => v.clone(),
        None => text_before(r.pipeline_ts.as_str(), 'T'),
    }
}

fn check_hash(r: &EtlRecord) -> (out: Option<(String, String)>)
    ensures
        match out {
            Some(fm) => check_outcome(RuleCheck::NonEmptyHash, *r) == Some((fm.0@, fm.1@)),
            None => check_outcome(RuleCheck::NonEmptyHash, *r) is None,
        },
{
    let hash = get_hash(r);
    if hash.as_str().is_empty() {
        Some(pair("hash", String::from_str("Ledger hash must not be empty")))
    } else {
        None
    }
}

fn check_base_fee(r: &EtlRecord) -> (out: Option<(String, String)>)
    ensures
        match out {
            Some(fm) => check_outcome(RuleCheck::MinBaseFee, *r) == Some((fm.0@, fm.1@)),
            None => check_outcome(RuleCheck::MinBaseFee, *r) is None,
        },
{
    let n = lookup_number(&r.payload, "base_fee_xlm", "base_fee");
    let low = match &n {
        Some(x) => compare_with(x.bits, 5902958103587057, 1005) == Comparison::Below,
        None => true,
    };
    if low {
        let t = shown_text(&n);
        Some(pair("base_fee_xlm", message("Base fee too low: ", t.as_str())))
    } else {
        None
    }
}

fn check_success_rate(r: &EtlRecord) -> (out: Option<(String, String)>)
    ensures
        match out {
            Some(fm) => check_outcome(RuleCheck::ValidSuccessRate, *r) == Some((fm.0@, fm.1@)),
            None => check_outcome(RuleCheck::ValidSuccessRate, *r) is None,
        },
{
    let n = lookup_number(&r.payload, "tx_success_rate", "success_rate");
    let in_range = match &n {
        Some(x) => {
            let lo = compare_with(x.bits, 0, 0);
            let hi = compare_with(x.bits, 1, 1074);
            (lo == Comparison::Above || lo == Comparison::Equal) && (hi == Comparison::Below
                || hi == Comparison::Equal)
        },
        None => true,
    };
    if !in_range {
        let t = shown_text(&n);
        Some(pair("tx_success_rate", message("Success rate out of range: ", t.as_str())))
    } else {
        None
    }
}

fn check_date_partition(r: &EtlRecord) -> (out: Option<(String, String)>)
    ensures
        match out {
            Some(fm) => check_outcome(RuleCheck::DatePartitionFormat, *r) == Some((fm.0@, fm.1@)),
            None => check_outcome(RuleCheck::DatePartitionFormat, *r) is None,
        },
{
    let d = get_date_partition(r);
    let cs = chars_of(d.as_str());
    let bytes: &[u8] = d.as_str().as_bytes();
    let byte_len: usize = bytes.len();
    let valid = byte_len == 10 && cs.len() > 4 && cs[4] == '-' && cs.len() > 7
        && cs[7] == '-';
    if !valid {
        Some(
            pair("date_partition", message("Invalid date partition format: ", d.as_str())),
        )
    } else {
        None
    }
}

fn check_ops_per_tx(r: &EtlRecord) -> (out: Option<(String, String)>)
    ensures
        match out {
            Some(fm) => check_outcome(RuleCheck::OpsPerTxSanity, *r) == Some((fm.0@, fm.1@)),
            None => check_outcome(RuleCheck::OpsPerTxSanity, *r) is None,
        },
{
    let n = lookup_number(&r.payload, "avg_ops_per_tx", "operations_per_transaction");
    match &n {
        Some(x) => if compare_with(x.bits, 100, 1074) == Comparison::Above {
            Some(
                pair(
                    "avg_ops_per_tx",
                    message("Unusually high ops/tx: ", x.display_one_decimal.as_str()),
                ),
            )
        } else {
            None
        },
        None => None,
    }
}

/// Runs one check on a record.
pub fn run_check(c: RuleCheck, r: &EtlRecord) -> (out: Option<(String, String)>)
    ensures
        match out {
            Some(fm) => check_outcome(c, *r) == Some((fm.0@, fm.1@)),
            None => check_outcome(c, *r) is None,
        },
{
    match c {
        RuleCheck::PositiveSequence => check_sequence(r),
        RuleCheck::NonEmptyHash => check_hash(r),
        RuleCheck::MinBaseFee => check_base_fee(r),
        RuleCheck::ValidSuccessRate => check_success_rate(r),
        RuleCheck::DatePartitionFormat => check_date_partition(r),
        RuleCheck::OpsPerTxSanity => check_ops_per_tx(r),
    }
}

impl ValidationRule {
    /// A rule named `name` that reports with `severity` when `check` fails.
    pub fn new(name: &str, severity: Severity, check: RuleCheck) -> (r: Self)
        ensures
            r.name@ == name@,
            r.severity == severity,
            r.check == check,
    {
        ValidationRule { name: name.to_owned(), severity, check }
    }

    /// Applies the rule to a record.
    pub fn validate(&self, record: &EtlRecord) -> (v: Option<QualityViolation>)
        ensures
            match v {
                Some(x) => rule_outcome(*self, *record) == Some(violation_view(x)),
                None => rule_outcome(*self, *record) is None,
            },
    {
        match run_check(self.check, record) {
            Some((field, message)) => Some(
                QualityViolation {
                    rule_name: self.name.clone(),
                    severity: self.severity,
                    field,
                    message,
                    record_sequence: get_sequence(record),
                },
            ),
            None => None,
        }
    }
}

/// The violations the rules report for a record, in rule order.
pub open spec fn expected_violations(rules: Seq<ValidationRule>, r: EtlRecord) -> Seq<ViolationView>
    decreases rules.len(),
{
    if rules.len() == 0 {
        Seq::empty()
    } else {
        let prev = expected_violations(rules.drop_last(), r);
        match rule_outcome(rules.last(), r) {
            Some(v) => prev.push(v),
            None => prev,
        }
    }
}

/// A record draws no violation exactly when every rule's check passes on it.
pub proof fn law_record_passes_iff_every_check_passes(rules: Seq<ValidationRule>, r: EtlRecord)
    ensures
        (expected_violations(rules, r).len() == 0) <==> (forall|i: int|
            0 <= i < rules.len() ==> #[trigger] check_outcome(rules[i].check, r) is None),
    decreases rules.len(),
{
    if rules.len() > 0 {
        let r0 = rules.drop_last();
        law_record_passes_iff_every_check_passes(r0, r);
        if forall|i: int| 0 <= i < rules.len() ==> #[trigger] check_outcome(rules[i].check, r) is None {
            assert forall|i: int| 0 <= i < r0.len() implies #[trigger] check_outcome(r0[i].check, r) is None by {
                assert(r0[i] == rules[i]);
                assert(check_outcome(rules[i].check, r) is None);
            }
            assert(check_outcome(rules[rules.len() - 1].check, r) is None);
        }
        if expected_violations(rules, r).len() == 0 {
            assert forall|i: int| 0 <= i < rules.len() implies #[trigger] check_outcome(rules[i].check, r) is None by {
                if i < rules.len() - 1 {
                    assert(r0[i] == rules[i]);
                    assert(check_outcome(r0[i].check, r) is None);
                }
            }
        }
    }
}

proof fn lemma_violations_of_prefix(rules: Seq<ValidationRule>, r: EtlRecord, k: int)
    requires
        0 <= k <= rules.len(),
    ensures
        expected_violations(rules.take(k), r).len() <= expected_violations(rules, r).len(),
        expected_violations(rules.take(k), r) == expected_violations(rules, r).take(
            expected_violations(rules.take(k), r).len() as int,
        ),
    decreases rules.len(),
{
    if k == rules.len() {
        assert(rules.take(k) == rules);
    } else {
        let r0 = rules.drop_last();
        assert(rules.take(k) == r0.take(k));
        lemma_violations_of_prefix(r0, r, k);
    }
}

/// Under the default rules, a record without a positive ledger sequence
/// always draws a critical violation, reported first: `positive_sequence`
/// on field `sequence`.
pub proof fn law_zero_sequence_is_critical(rules: Seq<ValidationRule>, r: EtlRecord)
    requires
        default_rule_set(rules),
        sequence_of(r) == 0,
    ensures
        expected_violations(rules, r).len() > 0,
        expected_violations(rules, r)[0] == (
            "positive_sequence"@,
            Severity::Critical,
            "sequence"@,
            "Ledger sequence must be > 0"@,
            0nat,
        ),
{
    lemma_violations_of_prefix(rules, r, 1);
    let first = rules.take(1);
    assert(first.drop_last() =~= Seq::<ValidationRule>::empty());
    assert(first.last() == rules[0]);
    assert(expected_violations(first.drop_last(), r) =~= Seq::<ViolationView>::empty());
    let w: ViolationView = (
        "positive_sequence"@,
        Severity::Critical,
        "sequence"@,
        "Ledger sequence must be > 0"@,
        0nat,
    );
    assert(check_outcome(rules[0].check, r) == Some(("sequence"@, "Ledger sequence must be > 0"@)));
    assert(rule_outcome(rules[0], r) == Some(w));
    assert(expected_violations(first, r) =~= seq![w]);
    let all = expected_violations(rules, r);
    assert(all.take(1)[0] == all[0]);
}

/// `rule` is named `name`, reports with `severity` and applies `check`.
pub open spec fn rule_is(rule: ValidationRule, name: Seq<char>, severity: Severity, check: RuleCheck) -> bool {
    rule.name@ == name && rule.severity == severity && rule.check == check
}

/// The six default Stellar ledger quality rules, in order.
pub open spec fn default_rule_set(rs: Seq<ValidationRule>) -> bool {
    &&& rs.len() == 6
    &&& rule_is(rs[0], "positive_sequence"@, Severity::Critical, RuleCheck::PositiveSequence)
    &&& rule_is(rs[1], "non_empty_hash"@, Severity::Critical, RuleCheck::NonEmptyHash)
    &&& rule_is(rs[2], "min_base_fee"@, Severity::Warning, RuleCheck::MinBaseFee)
    &&& rule_is(rs[3], "valid_success_rate"@, Severity::Error, RuleCheck::ValidSuccessRate)
    &&& rule_is(rs[4], "date_partition_format"@, Severity::Error, RuleCheck::DatePartitionFormat)
    &&& rule_is(rs[5], "ops_per_tx_sanity"@, Severity::Warning, RuleCheck::OpsPerTxSanity)
}

/// Engine that applies all validation rules and produces quality reports.
pub struct DataQualityEngine {
    rules: Vec<ValidationRule>,
}

impl DataQualityEngine {
    /// The rules the engine applies, in order.
    pub closed spec fn rules(&self) -> Seq<ValidationRule> {
        self.rules@
    }

    /// An engine with the default Stellar ledger quality rules.
    pub fn with_default_rules() -> (e: Self)
        ensures
            default_rule_set(e.rules()),
    {
        let mut engine = DataQualityEngine { rules: Vec::new() };
        engine.add_default_rules();
        proof {
            assert(engine.rules() =~= engine.rules().skip(0));
        }
        engine
    }

    /// Appends a rule; it runs after the rules already present.
    pub fn add_rule(&mut self, rule: ValidationRule)
        ensures
            final(self).rules() == old(self).rules().push(rule),
    {
        self.rules.push(rule);
    }

    fn add_default_rules(&mut self)
        ensures
            final(self).rules().take(old(self).rules().len() as int) == old(self).rules(),
            default_rule_set(final(self).rules().skip(old(self).rules().len() as int)),
    {
        let ghost start = self.rules@;
        self.add_rule(ValidationRule::new("positive_sequence", Severity::Critical, RuleCheck::PositiveSequence));
        self.add_rule(ValidationRule::new("non_empty_hash", Severity::Critical, RuleCheck::NonEmptyHash));
        self.add_rule(ValidationRule::new("min_base_fee", Severity::Warning, RuleCheck::MinBaseFee));
        self.add_rule(ValidationRule::new("valid_success_rate", Severity::Error, RuleCheck::ValidSuccessRate));
        self.add_rule(ValidationRule::new("date_partition_format", Severity::Error, RuleCheck::DatePartitionFormat));
        self.add_rule(ValidationRule::new("ops_per_tx_sanity", Severity::Warning, RuleCheck::OpsPerTxSanity));
        proof {
            assert(self.rules@.take(start.len() as int) =~= start);
            let added = self.rules@.skip(start.len() as int);
            assert(added.len() == 6);
            assert(added[0] == self.rules@[start.len() as int]);
        }
    }

    /// Validates a single record: the violations of the rules, in rule order.
    pub fn validate(&self, record: &EtlRecord) -> (vs: Vec<QualityViolation>)
        ensures
            vs@.map_values(|v: QualityViolation| violation_view(v)) == expected_violations(
                self.rules(),
                *record,
            ),
    {
        let mut vs: Vec<QualityViolation> = Vec::new();
        let mut i: usize = 0;
        while i < self.rules.len()
            invariant
                i <= self.rules@.len(),
                vs@.map_values(|v: QualityViolation| violation_view(v)) == expected_violations(
                    self.rules@.take(i as int),
                    *record,
                ),
            decreases self.rules.len() - i,
        {
            proof {
                assert(self.rules@.take(i as int + 1).drop_last() == self.rules@.take(i as int));
                assert(self.rules@.take(i as int + 1).last() == self.rules@[i as int]);
            }
            let ghost before = vs@;
            match self.rules[i].validate(record) {
                Some(v) => {
                    vs.push(v);
                    proof {
                        assert(vs@.map_values(|v: QualityViolation| violation_view(v)) =~= before.map_values(
                            |v: QualityViolation| violation_view(v),
                        ).push(violation_view(vs@.last())));
                    }
                },
                None => {},
            }
            i = i + 1;
        }
        proof {
            assert(self.rules@.take(self.rules@.len() as int) == self.rules@);
        }
        vs
    }
}

/// The violations of a batch, record by record and rule by rule.
pub open spec fn batch_violations(rules: Seq<ValidationRule>, rs: Seq<EtlRecord>) -> Seq<ViolationView>
    decreases rs.len(),
{
    if rs.len() == 0 {
        Seq::empty()
    } else {
        batch_violations(rules, rs.drop_last()) + expected_violations(rules, rs.last())
    }
}

/// The number of records of a batch with at least one violation.
pub open spec fn failing_count(rules: Seq<ValidationRule>, rs: Seq<EtlRecord>) -> nat
    decreases rs.len(),
{
    if rs.len() == 0 {
        0
    } else {
        failing_count(rules, rs.drop_last()) + (if expected_violations(rules, rs.last()).len() > 0 {
            1nat
        } else {
            0nat
        })
    }
}

/// The number of violations reported by the rule named `name`.
pub open spec fn count_rule(vs: Seq<ViolationView>, name: Seq<char>) -> nat
    decreases vs.len(),
{
    if vs.len() == 0 {
        0
    } else {
        count_rule(vs.drop_last(), name) + (if vs.last().0 == name {
            1nat
        } else {
            0nat
        })
    }
}

/// The per-rule count as stored in a tally: absent when zero.
pub open spec fn stored_count(vs: Seq<ViolationView>, name: Seq<char>) -> Option<usize> {
    if count_rule(vs, name) > 0 {
        Some(count_rule(vs, name) as usize)
    } else {
        None
    }
}

proof fn lemma_count_rule_bound(vs: Seq<ViolationView>, name: Seq<char>)
    ensures
        count_rule(vs, name) <= vs.len(),
    decreases vs.len(),
{
    if vs.len() > 0 {
        lemma_count_rule_bound(vs.drop_last(), name);
    }
}

proof fn lemma_failing_bound(rules: Seq<ValidationRule>, rs: Seq<EtlRecord>)
    ensures
        failing_count(rules, rs) <= rs.len(),
    decreases rs.len(),
{
    if rs.len() > 0 {
        lemma_failing_bound(rules, rs.drop_last());
    }
}

/// Counts of a validated batch (everything of a quality report but its pass rate).
pub struct QualityTally {
    pub total_records: usize,
    pub passed: usize,
    pub failed: usize,
    pub violations: Vec<QualityViolation>,
    pub violation_counts_by_rule: FieldMap<usize>,
}

impl QualityTally {
    /// Whether any violation is critical.
    pub fn has_critical(&self) -> (b: bool)
        ensures
            b == exists|i: int|
                0 <= i < self.violations@.len() && #[trigger] self.violations@[i].severity
                    == Severity::Critical,
    {
        let mut i: usize = 0;
        while i < self.violations.len()
            invariant
                i <= self.violations@.len(),
                forall|j: int| 0 <= j < i ==> self.violations@[j].severity != Severity::Critical,
            decreases self.violations.len() - i,
        {
            if self.violations[i].severity == Severity::Critical {
                return true;
            }
            i = i + 1;
        }
        false
    }
}

fn copy_violation(v: &QualityViolation) -> (c: QualityViolation)
    ensures
        violation_view(c) == violation_view(*v),
{
    QualityViolation {
        rule_name: v.rule_name.clone(),
        severity: v.severity,
        field: v.field.clone(),
        message: v.message.clone(),
        record_sequence: v.record_sequence,
    }
}

impl DataQualityEngine {
    /// Validates a batch: how many records pass and fail, every violation in
    /// record order, and the number of violations of each rule.
    pub fn tally_batch(&self, records: &[EtlRecord]) -> (t: QualityTally)
        ensures
            t.total_records == records@.len(),
            t.failed == failing_count(self.rules(), records@),
            t.passed + t.failed == t.total_records,
            t.violations@.map_values(|v: QualityViolation| violation_view(v)) == batch_violations(
                self.rules(),
                records@,
            ),
            forall|k: Seq<char>|
                #[trigger] t.violation_counts_by_rule.get_spec(k) == stored_count(
                    batch_violations(self.rules(), records@),
                    k,
                ),
    {
        let mut violations: Vec<QualityViolation> = Vec::new();
        let mut counts: FieldMap<usize> = FieldMap::new();
        let mut passed: usize = 0;
        let mut failed: usize = 0;
        let mut i: usize = 0;
        while i < records.len()
            invariant
                i <= records@.len(),
                passed + failed == i,
                failed == failing_count(self.rules(), records@.take(i as int)),
                violations@.map_values(|v: QualityViolation| violation_view(v)) == batch_violations(
                    self.rules(),
                    records@.take(i as int),
                ),
                forall|k: Seq<char>|
                    #[trigger] counts.get_spec(k) == stored_count(
                        batch_violations(self.rules(), records@.take(i as int)),
                        k,
                    ),
            decreases records.len() - i,
        {
            let ghost prev = batch_violations(self.rules(), records@.take(i as int));
            proof {
                assert(records@.take(i as int + 1).drop_last() == records@.take(i as int));
                assert(records@.take(i as int + 1).last() == records@[i as int]);
            }
            let vs = self.validate(&records[i]);
            let ghost cur = expected_violations(self.rules(), records@[i as int]);
            if vs.len() == 0 {
                passed = passed + 1;
            } else {
                proof {
                    lemma_failing_bound(self.rules(), records@.take(i as int));
                }
                failed = failed + 1;
            }
            let mut j: usize = 0;
            while j < vs.len()
                invariant
                    j <= vs@.len(),
                    vs@.map_values(|v: QualityViolation| violation_view(v)) == cur,
                    violations@.map_values(|v: QualityViolation| violation_view(v)) == prev + cur.take(
                        j as int,
                    ),
                    forall|k: Seq<char>|
                        #[trigger] counts.get_spec(k) == stored_count(prev + cur.take(j as int), k),
                decreases vs.len() - j,
            {
                let ghost seen = prev + cur.take(j as int);
                let v = copy_violation(&vs[j]);
                let name = v.rule_name.clone();
                let ghost w = violation_view(v);
                assert(w == cur[j as int]);
                let ghost before_push = violations@;
                violations.push(v);
                let total: usize = violations.len();
                proof {
                    assert(violations@.map_values(|v: QualityViolation| violation_view(v)).len() == total);
                    lemma_count_rule_bound(seen, name@);
                    assert(cur.take(j as int + 1) == cur.take(j as int).push(w));
                    assert(prev + cur.take(j as int + 1) == seen.push(w));
                    assert(violations@.map_values(|v: QualityViolation| violation_view(v)) =~= seen.push(w));
                    assert(seen.push(w).drop_last() == seen);
                    lemma_count_rule_bound(seen.push(w), name@);
                }
                let c: usize = match counts.get(name.as_str()) {
                    Some(n) => *n,
                    None => 0,
                };
                proof {
                    assert(c == count_rule(seen, name@));
                }
                counts.insert(name, c + 1);
                proof {
                    assert forall|k: Seq<char>| #[trigger] counts.get_spec(k) == stored_count(seen.push(w), k) by {
                        assert(seen.push(w).drop_last() == seen);
                    }
                }
                j = j + 1;
            }
            proof {
                assert(cur.take(vs@.len() as int) == cur);
                assert(vs@.len() == cur.len());
            }
            i = i + 1;
        }
        proof {
            assert(records@.take(records@.len() as int) == records@);
        }
        QualityTally {
            total_records: records.len(),
            passed,
            failed,
            violations,
            violation_counts_by_rule: counts,
        }
    }
}

} // verus!
