//! Master data management: data-quality rules and their evaluation, record
//! similarity and duplicate detection, import job bookkeeping.
use vstd::prelude::*;
use vstd::utf8::encode_utf8;
use vstd::string::{StringExecFns, StringSliceAdditionalSpecFns};
use crate::common::{chars_of, clone_opt_string, compact_utc_stamp, in_time_range, lemma_concat_contains,
    lemma_push_contains, lowercase, new_id,
    parse_i32, parsed_i32, text_eq, unicode_lowercase, utc_stamp};

verus! {

#[derive(Debug, Clone, Copy, PartialEq, Eq, Structural)]
pub enum DataQualityScore {
    Excellent,
    Good,
    Fair,
    Poor,
    Critical,
}

#[derive(Debug, Clone, Copy, PartialEq, Eq, Structural)]
pub enum MatchStatus {
    Pending,
    Matched,
    Unmatched,
    Confirmed,
    Rejected,
}

#[derive(Debug, Clone, Copy, PartialEq, Eq, Structural)]
pub enum GovernanceStatus {
    Active,
    InReview,
    Deprecated,
    Archived,
}

#[derive(Debug, Clone)]
pub struct CreateDataQualityRuleRequest {
    pub rule_code: String,
    pub name: String,
    pub description: Option<String>,
    pub entity_type: String,
    pub field_name: String,
    pub rule_type: String,
    pub rule_expression: String,
    pub severity: String,
    pub auto_fix: bool,
    pub fix_expression: Option<String>,
}

/// Storage handle of the master-data module (holds no state).
pub struct SqliteMDMRepository;

/// Master-data operations.
pub struct MDMService {
    repo: SqliteMDMRepository,
}

/// A data-quality rule. Instants are milliseconds since the Unix epoch.
#[derive(Debug, Clone)]
pub struct DataQualityRule {
    pub id: u128,
    pub rule_code: String,
    pub name: String,
    pub description: Option<String>,
    pub entity_type: String,
    pub field_name: String,
    pub rule_type: String,
    pub rule_expression: String,
    pub severity: String,
    pub is_active: bool,
    pub auto_fix: bool,
    pub fix_expression: Option<String>,
    pub created_at_ms: i64,
    pub updated_at_ms: i64,
}

/// A master data record, as the quality and duplicate rules read it.
#[derive(Debug, Clone)]
pub struct MasterDataEntity {
    pub id: u128,
    pub entity_type: String,
    pub entity_code: String,
    pub entity_name: String,
    pub source_system: String,
    pub source_id: String,
    pub golden_record_id: Option<u128>,
    pub quality_score: i32,
    pub completeness_score: i32,
    pub accuracy_score: i32,
    pub timeliness_score: i32,
    pub consistency_score: i32,
    pub status: GovernanceStatus,
}

#[derive(Debug, Clone)]
pub struct DataQualityViolation {
    pub id: u128,
    pub rule_id: u128,
    pub entity_id: u128,
    pub entity_type: String,
    pub field_name: String,
    pub current_value: Option<String>,
    pub expected_value: Option<String>,
    pub severity: String,
    pub status: String,
    pub detected_at_ms: i64,
    pub resolved_at_ms: Option<i64>,
    pub resolved_by: Option<u128>,
    pub resolution_notes: Option<String>,
    pub created_at_ms: i64,
}

/// A suspected duplicate pair (the matched-field summary travels beside it).
#[derive(Debug, Clone)]
pub struct DuplicateRecord {
    pub id: u128,
    pub entity_type: String,
    pub primary_entity_id: u128,
    pub duplicate_entity_id: u128,
    pub similarity_score: i32,
    pub status: String,
    pub merge_initiated_by: Option<u128>,
    pub merge_initiated_at_ms: Option<i64>,
    pub created_at_ms: i64,
}

#[derive(Debug, Clone)]
pub struct DataImportJob {
    pub id: u128,
    pub job_name: String,
    pub entity_type: String,
    pub source_file: String,
    pub total_records: i32,
    pub processed_records: i32,
    pub success_records: i32,
    pub failed_records: i32,
    pub duplicate_records: i32,
    pub status: String,
    pub started_at_ms: Option<i64>,
    pub completed_at_ms: Option<i64>,
    pub error_log: Option<String>,
    pub created_at_ms: i64,
    pub updated_at_ms: i64,
}

/// The merged, authoritative version of a master record (its attributes
/// travel beside it).
#[derive(Debug, Clone)]
pub struct GoldenRecord {
    pub id: u128,
    pub entity_type: String,
    pub golden_code: String,
    pub name: String,
    pub source_count: i32,
    pub confidence_score: i32,
    pub steward_id: Option<u128>,
    pub status: GovernanceStatus,
    pub version: i32,
    pub created_at_ms: i64,
    pub updated_at_ms: i64,
}

/// A record that contributed to a golden record.
#[derive(Debug, Clone, Copy, PartialEq, Eq, Structural)]
pub struct GoldenRecordSource {
    pub id: u128,
    pub golden_record_id: u128,
    pub source_entity_id: u128,
    pub match_score: i32,
    pub is_primary: bool,
    pub contributed_at_ms: i64,
    pub created_at_ms: i64,
}

/// What is asked for when a golden record is created (its attributes travel
/// beside it).
#[derive(Debug, Clone)]
pub struct CreateGoldenRecordRequest {
    pub entity_type: String,
    pub name: String,
    pub source_entity_ids: Vec<u128>,
}

/// The `GovernanceStatus` a stored text denotes (`Archived` for any other
/// text).
pub open spec fn governance_status_from_text(s: Seq<char>) -> GovernanceStatus {
    if s == "Active"@ {
        GovernanceStatus::Active
    } else if s == "InReview"@ {
        GovernanceStatus::InReview
    } else if s == "Deprecated"@ {
        GovernanceStatus::Deprecated
    } else {
        GovernanceStatus::Archived
    }
}

/// Reads a stored `GovernanceStatus` (`Archived` for any other text).
pub fn parse_governance_status(s: &str) -> (r: GovernanceStatus)
    ensures
        r == governance_status_from_text(s@),
{
    if text_eq(s, "Active") {
        GovernanceStatus::Active
    } else if text_eq(s, "InReview") {
        GovernanceStatus::InReview
    } else if text_eq(s, "Deprecated") {
        GovernanceStatus::Deprecated
    } else {
        GovernanceStatus::Archived
    }
}

/// Whether `pattern` compiles as a `regex` pattern.
pub uninterp spec fn regex_compiles(pattern: Seq<char>) -> bool;

/// Whether the compiled `pattern` matches somewhere in `text`.
pub uninterp spec fn regex_is_match(pattern: Seq<char>, text: Seq<char>) -> bool;

/// Compiles `pattern` with `regex::Regex::new` and, when it compiles, tests
/// `text` with `Regex::is_match`. Both results are named.
#[verifier::external_body]
fn regex_test(pattern: &str, text: &str) -> (r: Option<bool>)
    ensures
        r is Some <==> regex_compiles(pattern@),
        r matches Some(b) ==> b == regex_is_match(pattern@, text@),
{
    match regex::Regex::new(pattern) {
        Ok(re) => Some(re.is_match(text)),
        Err(_) => None,
    }
}

/// Number of `-` characters of `s`.
pub open spec fn dash_count(s: Seq<char>) -> nat
    decreases s.len(),
{
    if s.len() == 0 {
        0
    } else {
        dash_count(s.drop_last()) + if s.last() == '-' { 1nat } else { 0nat }
    }
}

/// Position of the `-` of a text with exactly one (meaningful then).
pub open spec fn dash_at(s: Seq<char>) -> int {
    choose|i: int| 0 <= i < s.len() && s[i] == '-'
}

/// A parsed number, or `default` when the text does not parse.
pub open spec fn parsed_or(s: Seq<char>, default: i32) -> i32 {
    match parsed_i32(s) {
        Some(v) => v,
        None => default,
    }
}

/// Whether `entity` breaks `rule`:
/// `required`: the name is empty;
/// `regex`: the pattern compiles and does not match the code;
/// `length`: the name is longer (in UTF-8 bytes) than the expression's number
/// (255 when it does not parse; a negative number is never exceeded);
/// `range`: the expression is `min-max` (one dash; 0 and 100 where a side does
/// not parse) and the quality score lies outside it;
/// any other rule type is never broken.
pub open spec fn rule_violated(entity: MasterDataEntity, rule: DataQualityRule) -> bool {
    let t = rule.rule_type@;
    let e = rule.rule_expression@;
    if t == "required"@ {
        entity.entity_name@.len() == 0
    } else if t == "regex"@ {
        regex_compiles(e) && !regex_is_match(e, entity.entity_code@)
    } else if t == "length"@ {
        let max_len = parsed_or(e, 255);
        max_len >= 0 && encode_utf8(entity.entity_name@).len() > max_len
    } else if t == "range"@ {
        if dash_count(e) == 1 {
            let min = parsed_or(e.take(dash_at(e)), 0);
            let max = parsed_or(e.skip(dash_at(e) + 1), 100);
            entity.quality_score < min || entity.quality_score > max
        } else {
            false
        }
    } else {
        false
    }
}

proof fn lemma_dash_unique(s: Seq<char>, i: int)
    requires
        0 <= i < s.len(),
        s[i] == '-',
        dash_count(s) == 1,
    ensures
        dash_at(s) == i,
{
    let j = dash_at(s);
    assert(0 <= j < s.len() && s[j] == '-');
    if j != i {
        lemma_two_dashes(s, i, j);
    }
}

proof fn lemma_two_dashes(s: Seq<char>, i: int, j: int)
    requires
        0 <= i < s.len(),
        0 <= j < s.len(),
        i != j,
        s[i] == '-',
        s[j] == '-',
    ensures
        dash_count(s) >= 2,
    decreases s.len(),
{
    let n = s.len() - 1;
    if i == n {
        lemma_one_dash(s.drop_last(), j);
    } else if j == n {
        lemma_one_dash(s.drop_last(), i);
    } else {
        lemma_two_dashes(s.drop_last(), i, j);
    }
}

proof fn lemma_one_dash(s: Seq<char>, i: int)
    requires
        0 <= i < s.len(),
        s[i] == '-',
    ensures
        dash_count(s) >= 1,
    decreases s.len(),
{
    if i < s.len() - 1 {
        lemma_one_dash(s.drop_last(), i);
    }
}

fn count_dashes(s: &Vec<char>) -> (r: (usize, usize))
    ensures
        r.0 == dash_count(s@),
        r.0 >= 1 ==> r.1 < s.len() && s@[r.1 as int] == '-',
{
    let mut count: usize = 0;
    let mut last: usize = 0;
    let mut i: usize = 0;
    while i < s.len()
        invariant
            i <= s.len(),
            count == dash_count(s@.take(i as int)),
            count <= i,
            count >= 1 ==> last < i && s@[last as int] == '-',
        decreases s.len() - i,
    {
        assert(s@.take(i + 1).drop_last() =~= s@.take(i as int));
        if s[i] == '-' {
            count = count + 1;
            last = i;
        }
        i = i + 1;
    }
    assert(s@.take(s.len() as int) =~= s@);
    (count, last)
}

fn sub_chars(s: &Vec<char>, from: usize, to: usize) -> (r: Vec<char>)
    requires
        from <= to <= s.len(),
    ensures
        r@ == s@.subrange(from as int, to as int),
{
    let mut r: Vec<char> = Vec::new();
    let mut i = from;
    while i < to
        invariant
            from <= i <= to,
            to <= s.len(),
            r@ == s@.subrange(from as int, i as int),
        decreases to - i,
    {
        r.push(s[i]);
        i = i + 1;
    }
    r
}

fn parse_or(s: &Vec<char>, default: i32) -> (r: i32)
    ensures
        r == parsed_or(s@, default),
{
    match parse_i32(s) {
        Some(v) => v,
        None => default,
    }
}

/// Whether `entity` breaks `rule` (see `rule_violated`).
pub fn is_rule_violated(entity: &MasterDataEntity, rule: &DataQualityRule) -> (r: bool)
    ensures
        r == rule_violated(*entity, *rule),
{
    let t = rule.rule_type.as_str();
    if text_eq(t, "required") {
        entity.entity_name.as_str().is_empty()
    } else if text_eq(t, "regex") {
        match regex_test(rule.rule_expression.as_str(), entity.entity_code.as_str()) {
            Some(m) => !m,
            None => false,
        }
    } else if text_eq(t, "length") {
        let e = chars_of(rule.rule_expression.as_str());
        let max_len = parse_or(&e, 255);
        if max_len < 0 {
            false
        } else {
            entity.entity_name.as_str().as_bytes().len() > max_len as usize
        }
    } else if text_eq(t, "range") {
        let e = chars_of(rule.rule_expression.as_str());
        let (count, dash) = count_dashes(&e);
        if count == 1 {
            proof {
                lemma_dash_unique(e@, dash as int);
            }
            let lo = sub_chars(&e, 0, dash);
            let hi = sub_chars(&e, dash + 1, e.len());
            assert(lo@ =~= e@.take(dash as int));
            assert(hi@ =~= e@.skip(dash + 1));
            let min = parse_or(&lo, 0);
            let max = parse_or(&hi, 100);
            entity.quality_score < min || entity.quality_score > max
        } else {
            false
        }
    } else {
        false
    }
}



/// `v` is the open violation of `rule` by `entity` found at `now_ms`: it
/// shows the entity's name and the rule's expression, and is not resolved.
pub open spec fn is_violation_of(v: DataQualityViolation, entity: MasterDataEntity, rule: DataQualityRule, now_ms: i64) -> bool {
    &&& v.rule_id == rule.id
    &&& v.entity_id == entity.id
    &&& v.entity_type == entity.entity_type
    &&& v.field_name == rule.field_name
    &&& v.current_value == Some(entity.entity_name)
    &&& v.expected_value == Some(rule.rule_expression)
    &&& v.severity == rule.severity
    &&& v.status@ == "Open"@
    &&& v.detected_at_ms == now_ms
    &&& v.resolved_at_ms is None
    &&& v.resolved_by is None
    &&& v.resolution_notes is None
    &&& v.created_at_ms == now_ms
}

/// Checks `entity` against `rule`; when it breaks the rule, the open
/// violation to record, which shows the entity's name and the rule's
/// expression.
pub fn evaluate_rule(entity: &MasterDataEntity, rule: &DataQualityRule, now_ms: i64) -> (r: Option<DataQualityViolation>)
    ensures
        r is Some <==> rule_violated(*entity, *rule),
        r matches Some(v) ==> is_violation_of(v, *entity, *rule, now_ms),
{
    if is_rule_violated(entity, rule) {
        Some(DataQualityViolation {
            id: new_id(),
            rule_id: rule.id,
            entity_id: entity.id,
            entity_type: entity.entity_type.clone(),
            field_name: rule.field_name.clone(),
            current_value: Some(entity.entity_name.clone()),
            expected_value: Some(rule.rule_expression.clone()),
            severity: rule.severity.clone(),
            status: String::from_str("Open"),
            detected_at_ms: now_ms,
            resolved_at_ms: None,
            resolved_by: None,
            resolution_notes: None,
            created_at_ms: now_ms,
        })
    } else {
        None
    }
}

/// Similarity of two records: 50 when their names are equal ignoring case,
/// 30 when their codes are, 20 when they come from the same source system.
pub open spec fn similarity(a: MasterDataEntity, b: MasterDataEntity) -> int {
    (if unicode_lowercase(a.entity_name@) == unicode_lowercase(b.entity_name@) { 50int } else { 0int })
    + (if unicode_lowercase(a.entity_code@) == unicode_lowercase(b.entity_code@) { 30int } else { 0int })
    + (if a.source_system@ == b.source_system@ { 20int } else { 0int })
}

/// Similarity does not depend on the order of the two records, and a record
/// is fully similar (100) to itself.
pub proof fn law_similarity_symmetric(a: MasterDataEntity, b: MasterDataEntity)
    ensures
        similarity(a, b) == similarity(b, a),
        similarity(a, a) == 100,
{
}

/// Names and codes are compared ignoring case, source systems exactly:
/// records whose names and codes agree ignoring case and whose source
/// systems are equal are fully similar (100), and changing a record's name
/// or code to another text with the same lower-case form leaves its
/// similarity to any record unchanged.
pub proof fn law_similarity_ignores_case(a: MasterDataEntity, b: MasterDataEntity, c: MasterDataEntity)
    ensures
        unicode_lowercase(a.entity_name@) == unicode_lowercase(b.entity_name@)
            && unicode_lowercase(a.entity_code@) == unicode_lowercase(b.entity_code@)
            && a.source_system@ == b.source_system@ ==> similarity(a, b) == 100,
        unicode_lowercase(b.entity_name@) == unicode_lowercase(c.entity_name@)
            && unicode_lowercase(b.entity_code@) == unicode_lowercase(c.entity_code@)
            && b.source_system@ == c.source_system@ ==> similarity(a, b) == similarity(a, c),
{
}

/// The weight of each agreement: the name counts 50, the code 30 and the
/// source system 20; records that agree on none of them score 0.
pub proof fn law_similarity_weights(a: MasterDataEntity, b: MasterDataEntity)
    ensures
        0 <= similarity(a, b) <= 100,
        unicode_lowercase(a.entity_name@) != unicode_lowercase(b.entity_name@)
            && unicode_lowercase(a.entity_code@) != unicode_lowercase(b.entity_code@)
            && a.source_system@ != b.source_system@ ==> similarity(a, b) == 0,
        unicode_lowercase(a.entity_name@) == unicode_lowercase(b.entity_name@)
            && unicode_lowercase(a.entity_code@) != unicode_lowercase(b.entity_code@)
            && a.source_system@ != b.source_system@ ==> similarity(a, b) == 50,
        unicode_lowercase(a.entity_name@) != unicode_lowercase(b.entity_name@)
            && unicode_lowercase(a.entity_code@) == unicode_lowercase(b.entity_code@)
            && a.source_system@ != b.source_system@ ==> similarity(a, b) == 30,
        unicode_lowercase(a.entity_name@) != unicode_lowercase(b.entity_name@)
            && unicode_lowercase(a.entity_code@) != unicode_lowercase(b.entity_code@)
            && a.source_system@ == b.source_system@ ==> similarity(a, b) == 20,
{
}

/// Similarity of two records (see `similarity`).
pub fn calculate_similarity(a: &MasterDataEntity, b: &MasterDataEntity) -> (r: i32)
    ensures
        r == similarity(*a, *b),
        0 <= r <= 100,
{
    let name_sim: i32 = if lowercase(a.entity_name.as_str()) == lowercase(b.entity_name.as_str()) { 50 } else { 0 };
    let code_sim: i32 = if lowercase(a.entity_code.as_str()) == lowercase(b.entity_code.as_str()) { 30 } else { 0 };
    let source_sim: i32 = if a.source_system == b.source_system { 20 } else { 0 };
    name_sim + code_sim + source_sim
}

/// Pairs `(i, j)` with `i < j < es.len()` and `j < bound`, for the fixed
/// first record `i`, whose similarity reaches 80, by increasing `j`.
pub open spec fn row_pairs(es: Seq<MasterDataEntity>, i: int, bound: int) -> Seq<(int, int)>
    decreases bound - i,
{
    if bound <= i + 1 {
        Seq::empty()
    } else {
        let rest = row_pairs(es, i, bound - 1);
        if similarity(es[i], es[bound - 1]) >= 80 { rest.push((i, bound - 1)) } else { rest }
    }
}

/// The suspected duplicate pairs whose first record comes before `n`,
/// ordered by first record, then by second.
pub open spec fn duplicate_pairs(es: Seq<MasterDataEntity>, n: int) -> Seq<(int, int)>
    decreases n,
{
    if n <= 0 {
        Seq::empty()
    } else {
        duplicate_pairs(es, n - 1) + row_pairs(es, n - 1, es.len() as int)
    }
}

proof fn lemma_row_pairs(es: Seq<MasterDataEntity>, i: int, bound: int, p: (int, int))
    requires
        0 <= i,
        bound <= es.len(),
    ensures
        row_pairs(es, i, bound).contains(p) <==> p.0 == i && i < p.1 < bound && similarity(es[i], es[p.1]) >= 80,
    decreases bound - i,
{
    if bound > i + 1 {
        lemma_row_pairs(es, i, bound - 1, p);
        lemma_push_contains(row_pairs(es, i, bound - 1), (i, bound - 1), p);
    }
}

proof fn lemma_duplicate_pairs(es: Seq<MasterDataEntity>, n: int, p: (int, int))
    requires
        n <= es.len(),
    ensures
        duplicate_pairs(es, n).contains(p) <==> 0 <= p.0 < n && p.0 < p.1 < es.len()
            && similarity(es[p.0], es[p.1]) >= 80,
    decreases n,
{
    if n > 0 {
        lemma_duplicate_pairs(es, n - 1, p);
        lemma_row_pairs(es, n - 1, es.len() as int, p);
        lemma_concat_contains(duplicate_pairs(es, n - 1), row_pairs(es, n - 1, es.len() as int), p);
    }
}

/// The suspected duplicates of a list of records are exactly its pairs of
/// records, the first before the second, whose similarity is at least 80.
pub proof fn law_duplicates_are_similar_pairs(es: Seq<MasterDataEntity>)
    ensures
        forall|i: int, j: int| duplicate_pairs(es, es.len() as int).contains((i, j))
            <==> 0 <= i < j < es.len() && similarity(es[i], es[j]) >= 80,
{
    assert forall|i: int, j: int| duplicate_pairs(es, es.len() as int).contains((i, j))
        <==> 0 <= i < j < es.len() && similarity(es[i], es[j]) >= 80 by {
        lemma_duplicate_pairs(es, es.len() as int, (i, j));
    }
}







impl MDMService {
    /// The rule created from a request: active, stamped with `now_ms`.
    pub fn create_quality_rule(&self, req: CreateDataQualityRuleRequest, now_ms: i64) -> (r: DataQualityRule)
        ensures
            r.rule_code == req.rule_code,
            r.name == req.name,
            r.description == req.description,
            r.entity_type == req.entity_type,
            r.field_name == req.field_name,
            r.rule_type == req.rule_type,
            r.rule_expression == req.rule_expression,
            r.severity == req.severity,
            r.is_active,
            r.auto_fix == req.auto_fix,
            r.fix_expression == req.fix_expression,
            r.created_at_ms == now_ms,
            r.updated_at_ms == now_ms,
    {
        DataQualityRule {
            id: new_id(),
            rule_code: req.rule_code,
            name: req.name,
            description: req.description,
            entity_type: req.entity_type,
            field_name: req.field_name,
            rule_type: req.rule_type,
            rule_expression: req.rule_expression,
            severity: req.severity,
            is_active: true,
            auto_fix: req.auto_fix,
            fix_expression: req.fix_expression,
            created_at_ms: now_ms,
            updated_at_ms: now_ms,
        }
    }

    /// Every pair of records (the first before the second) whose similarity
    /// reaches 80, as a pending duplicate of type `entity_type`.
    pub fn find_duplicates(&self, entities: &Vec<MasterDataEntity>, entity_type: &str, now_ms: i64) -> (r: Vec<DuplicateRecord>)
        ensures
            r.len() == duplicate_pairs(entities@, entities.len() as int).len(),
            forall|k: int| 0 <= k < r.len() ==> {
                let (i, j) = duplicate_pairs(entities@, entities.len() as int)[k];
                &&& (#[trigger] r[k]).primary_entity_id == entities[i].id
                &&& r[k].duplicate_entity_id == entities[j].id
                &&& r[k].similarity_score == similarity(entities[i], entities[j])
                &&& r[k].entity_type@ == entity_type@
                &&& r[k].status@ == "Pending"@
                &&& r[k].merge_initiated_by is None
                &&& r[k].merge_initiated_at_ms is None
                &&& r[k].created_at_ms == now_ms
            },
    {
        let ghost es = entities@;
        let mut out: Vec<DuplicateRecord> = Vec::new();
        let mut i: usize = 0;
        while i < entities.len()
            invariant
                i <= entities.len(),
                es == entities@,
                out.len() == duplicate_pairs(es, i as int).len(),
                forall|k: int| 0 <= k < out.len() ==> {
                    let (a, b) = duplicate_pairs(es, i as int)[k];
                    &&& (#[trigger] out[k]).primary_entity_id == entities[a].id
                    &&& out[k].duplicate_entity_id == entities[b].id
                    &&& out[k].similarity_score == similarity(entities[a], entities[b])
                    &&& out[k].entity_type@ == entity_type@
                    &&& out[k].status@ == "Pending"@
                    &&& out[k].merge_initiated_by is None
                    &&& out[k].merge_initiated_at_ms is None
                    &&& out[k].created_at_ms == now_ms
                },
            decreases entities.len() - i,
        {
            let ghost before = duplicate_pairs(es, i as int);
            let mut j: usize = i + 1;
            while j < entities.len()
                invariant
                    i < entities.len(),
                    i + 1 <= j <= entities.len(),
                    es == entities@,
                    before == duplicate_pairs(es, i as int),
                    out.len() == before.len() + row_pairs(es, i as int, j as int).len(),
                    forall|k: int| 0 <= k < out.len() ==> {
                        let (a, b) = (before + row_pairs(es, i as int, j as int))[k];
                        &&& (#[trigger] out[k]).primary_entity_id == entities[a].id
                        &&& out[k].duplicate_entity_id == entities[b].id
                        &&& out[k].similarity_score == similarity(entities[a], entities[b])
                        &&& out[k].entity_type@ == entity_type@
                        &&& out[k].status@ == "Pending"@
                        &&& out[k].merge_initiated_by is None
                        &&& out[k].merge_initiated_at_ms is None
                        &&& out[k].created_at_ms == now_ms
                    },
                decreases entities.len() - j,
            {
                let sim = calculate_similarity(&entities[i], &entities[j]);
                let ghost row = row_pairs(es, i as int, j as int);
                assert(row_pairs(es, i as int, j + 1) == if sim >= 80 { row.push((i as int, j as int)) } else { row });
                if sim >= 80 {
                    out.push(DuplicateRecord {
                        id: new_id(),
                        entity_type: String::from_str(entity_type),
                        primary_entity_id: entities[i].id,
                        duplicate_entity_id: entities[j].id,
                        similarity_score: sim,
                        status: String::from_str("Pending"),
                        merge_initiated_by: None,
                        merge_initiated_at_ms: None,
                        created_at_ms: now_ms,
                    });
                    assert((before + row.push((i as int, j as int))) =~= (before + row).push((i as int, j as int)));
                }
                j = j + 1;
            }
            assert(duplicate_pairs(es, i + 1) == before + row_pairs(es, i as int, es.len() as int));
            i = i + 1;
        }
        out
    }

    /// An import job once it starts running at `now_ms`.
    pub fn start_import_job(&self, job: DataImportJob, now_ms: i64) -> (r: DataImportJob)
        ensures
            r.status@ == "Running"@,
            r.started_at_ms == Some(now_ms),
            r.updated_at_ms == now_ms,
            r == (DataImportJob { status: r.status, started_at_ms: Some(now_ms), updated_at_ms: now_ms, ..job }),
    {
        let mut job = job;
        job.status = String::from_str("Running");
        job.started_at_ms = Some(now_ms);
        job.updated_at_ms = now_ms;
        job
    }

    /// An import job once it completes at `now_ms` with the given counts; it has
    /// processed every record it counted.
    pub fn complete_import_job(&self, job: DataImportJob, success: i32, failed: i32, duplicates: i32, now_ms: i64)
        -> (r: DataImportJob)
        requires
            i32::MIN <= success + failed + duplicates <= i32::MAX,
            i32::MIN <= success + failed <= i32::MAX,
        ensures
            r.status@ == "Completed"@,
            r.processed_records == success + failed + duplicates,
            r == (DataImportJob {
                status: r.status,
                success_records: success,
                failed_records: failed,
                duplicate_records: duplicates,
                processed_records: r.processed_records,
                completed_at_ms: Some(now_ms),
                updated_at_ms: now_ms,
                ..job
            }),
    {
        let mut job = job;
        job.status = String::from_str("Completed");
        job.success_records = success;
        job.failed_records = failed;
        job.duplicate_records = duplicates;
        job.processed_records = success + failed + duplicates;
        job.completed_at_ms = Some(now_ms);
        job.updated_at_ms = now_ms;
        job
    }
}

/// Number of records whose quality score is below 80.
pub open spec fn records_with_issues(es: Seq<MasterDataEntity>) -> int
    decreases es.len(),
{
    if es.len() == 0 {
        0
    } else {
        records_with_issues(es.drop_last()) + if es.last().quality_score < 80 { 1int } else { 0int }
    }
}

/// Number of records whose quality score is below 80.
pub fn count_records_with_issues(entities: &Vec<MasterDataEntity>) -> (r: i64)
    requires
        entities.len() <= i64::MAX,
    ensures
        r == records_with_issues(entities@),
{
    let ghost es = entities@;
    let mut n: i64 = 0;
    let mut i: usize = 0;
    while i < entities.len()
        invariant
            i <= entities.len(),
            es == entities@,
            n == records_with_issues(es.take(i as int)),
            0 <= n <= i,
            entities.len() <= i64::MAX,
        decreases entities.len() - i,
    {
        assert(es.take(i + 1).drop_last() =~= es.take(i as int));
        if entities[i].quality_score < 80 {
            n = n + 1;
        }
        i = i + 1;
    }
    assert(es.take(entities.len() as int) =~= es);
    n
}

/// Positions of the rules of `rules` that `entity` breaks, in order.
pub open spec fn broken_rules(entity: MasterDataEntity, rules: Seq<DataQualityRule>) -> Seq<int>
    decreases rules.len(),
{
    if rules.len() == 0 {
        Seq::empty()
    } else {
        let r = broken_rules(entity, rules.drop_last());
        if rule_violated(entity, rules.last()) { r.push(rules.len() - 1) } else { r }
    }
}

proof fn lemma_broken_rules_bounded(entity: MasterDataEntity, rules: Seq<DataQualityRule>)
    ensures
        broken_rules(entity, rules).len() <= rules.len(),
        forall|k: int| 0 <= k < broken_rules(entity, rules).len() ==>
            0 <= #[trigger] broken_rules(entity, rules)[k] < rules.len(),
    decreases rules.len(),
{
    if rules.len() > 0 {
        lemma_broken_rules_bounded(entity, rules.drop_last());
    }
}

/// `GR-` followed by `middle` and the UTC stamp of `ms`.
pub open spec fn golden_code_of(middle: Seq<char>, ms: i64) -> Seq<char> {
    seq!['G', 'R', '-'] + middle + compact_utc_stamp(ms)
}

/// A master record linked to golden record `golden_id`, with status `status`.
pub open spec fn linked(e: MasterDataEntity, golden_id: u128, status: GovernanceStatus) -> MasterDataEntity {
    MasterDataEntity { golden_record_id: Some(golden_id), status, ..e }
}

fn link_entity(e: &MasterDataEntity, golden_id: u128, status: GovernanceStatus) -> (r: MasterDataEntity)
    ensures
        r == linked(*e, golden_id, status),
{
    MasterDataEntity {
        id: e.id,
        entity_type: e.entity_type.clone(),
        entity_code: e.entity_code.clone(),
        entity_name: e.entity_name.clone(),
        source_system: e.source_system.clone(),
        source_id: e.source_id.clone(),
        golden_record_id: Some(golden_id),
        quality_score: e.quality_score,
        completeness_score: e.completeness_score,
        accuracy_score: e.accuracy_score,
        timeliness_score: e.timeliness_score,
        consistency_score: e.consistency_score,
        status,
    }
}

impl MDMService {
    /// The one value of the service, which holds no state.
    pub closed spec fn the_service() -> Self {
        MDMService { repo: SqliteMDMRepository }
    }
}

/// `MDMService` holds no state: every value of it is the one that `new`
/// gives, so any two of them answer every call alike.
pub proof fn law_mdm_service_is_stateless(a: MDMService)
    ensures
        a == MDMService::the_service(),
{
}

impl MDMService {
    pub fn new() -> (s: Self)
        ensures
            s == MDMService::the_service(),
    {
        MDMService { repo: SqliteMDMRepository }
    }

    /// The open violations `entity` shows against `rules`, one per broken
    /// rule, in the rules' order (see `evaluate_rule`).
    pub fn run_quality_check(&self, entity: &MasterDataEntity, rules: &Vec<DataQualityRule>, now_ms: i64)
        -> (r: Vec<DataQualityViolation>)
        ensures
            r.len() == broken_rules(*entity, rules@).len(),
            forall|k: int| 0 <= k < r.len() ==>
                is_violation_of(#[trigger] r[k], *entity, rules@[broken_rules(*entity, rules@)[k]], now_ms),
    {
        let ghost rs = rules@;
        let mut out: Vec<DataQualityViolation> = Vec::new();
        let mut i: usize = 0;
        while i < rules.len()
            invariant
                i <= rules.len(),
                rs == rules@,
                out.len() == broken_rules(*entity, rs.take(i as int)).len(),
                forall|k: int| 0 <= k < out.len() ==>
                    is_violation_of(#[trigger] out[k], *entity, rs[broken_rules(*entity, rs.take(i as int))[k]], now_ms),
            decreases rules.len() - i,
        {
            let ghost t = rs.take(i + 1);
            assert(t.drop_last() =~= rs.take(i as int));
            assert(t.last() == rs[i as int]);
            proof {
                lemma_broken_rules_bounded(*entity, rs.take(i as int));
                assert forall|k: int| 0 <= k < broken_rules(*entity, rs.take(i as int)).len() implies
                    rs[#[trigger] broken_rules(*entity, rs.take(i as int))[k]] == rs.take(i as int)[broken_rules(*entity, rs.take(i as int))[k]] by {
                }
            }
            match evaluate_rule(entity, &rules[i], now_ms) {
                Some(v) => {
                    out.push(v);
                },
                None => {},
            }
            i = i + 1;
        }
        assert(rs.take(rules.len() as int) =~= rs);
        out
    }

    /// A violation resolved at `now_ms` by `resolved_by`, with the given
    /// notes.
    pub fn resolve_violation(&self, violation: DataQualityViolation, resolved_by: u128, notes: Option<String>, now_ms: i64)
        -> (r: DataQualityViolation)
        ensures
            r.status@ == "Resolved"@,
            r == (DataQualityViolation {
                status: r.status,
                resolved_at_ms: Some(now_ms),
                resolved_by: Some(resolved_by),
                resolution_notes: notes,
                ..violation
            }),
    {
        let mut v = violation;
        v.status = String::from_str("Resolved");
        v.resolved_at_ms = Some(now_ms);
        v.resolved_by = Some(resolved_by);
        v.resolution_notes = notes;
        v
    }

    /// A new pending import job with no records counted yet.
    pub fn create_import_job(&self, job_name: String, entity_type: String, source_file: String, now_ms: i64)
        -> (j: DataImportJob)
        ensures
            j.job_name == job_name,
            j.entity_type == entity_type,
            j.source_file == source_file,
            j.total_records == 0,
            j.processed_records == 0,
            j.success_records == 0,
            j.failed_records == 0,
            j.duplicate_records == 0,
            j.status@ == "Pending"@,
            j.started_at_ms is None,
            j.completed_at_ms is None,
            j.error_log is None,
            j.created_at_ms == now_ms,
            j.updated_at_ms == now_ms,
    {
        DataImportJob {
            id: new_id(),
            job_name,
            entity_type,
            source_file,
            total_records: 0,
            processed_records: 0,
            success_records: 0,
            failed_records: 0,
            duplicate_records: 0,
            status: String::from_str("Pending"),
            started_at_ms: None,
            completed_at_ms: None,
            error_log: None,
            created_at_ms: now_ms,
            updated_at_ms: now_ms,
        }
    }

    /// A golden record made at `now_ms` from the requested source records,
    /// coded `GR-<entity type>-<UTC stamp>`, fully confident and active, and
    /// one source link per requested record, in order, the first of them
    /// primary. Its source count is the number of sources as a 32-bit
    /// integer (wrapping as the cast `as i32` does).
    pub fn create_golden_record(&self, req: CreateGoldenRecordRequest, now_ms: i64)
        -> (r: (GoldenRecord, Vec<GoldenRecordSource>))
        requires
            in_time_range(now_ms as int),
        ensures
            r.0.entity_type == req.entity_type,
            r.0.golden_code@ == golden_code_of(req.entity_type@ + seq!['-'], now_ms),
            r.0.name == req.name,
            r.0.source_count == req.source_entity_ids.len() as i32,
            r.0.confidence_score == 100,
            r.0.steward_id is None,
            r.0.status == GovernanceStatus::Active,
            r.0.version == 1,
            r.0.created_at_ms == now_ms,
            r.0.updated_at_ms == now_ms,
            r.1.len() == req.source_entity_ids.len(),
            forall|i: int| 0 <= i < r.1.len() ==> {
                &&& (#[trigger] r.1[i]).golden_record_id == r.0.id
                &&& r.1[i].source_entity_id == req.source_entity_ids[i]
                &&& r.1[i].match_score == 100
                &&& r.1[i].is_primary == (i == 0)
                &&& r.1[i].contributed_at_ms == now_ms
                &&& r.1[i].created_at_ms == now_ms
            },
    {
        let code = String::from_str("GR-").concat(req.entity_type.as_str()).concat("-").concat(
            utc_stamp(now_ms).as_str(),
        );
        proof {
            reveal_strlit("GR-");
            reveal_strlit("-");
            assert(code@ =~= golden_code_of(req.entity_type@ + seq!['-'], now_ms));
        }
        #[verifier::truncate]
        let source_count: i32 = req.source_entity_ids.len() as i32;
        let record = GoldenRecord {
            id: new_id(),
            entity_type: req.entity_type,
            golden_code: code,
            name: req.name,
            source_count,
            confidence_score: 100,
            steward_id: None,
            status: GovernanceStatus::Active,
            version: 1,
            created_at_ms: now_ms,
            updated_at_ms: now_ms,
        };
        let mut sources: Vec<GoldenRecordSource> = Vec::new();
        let mut i: usize = 0;
        while i < req.source_entity_ids.len()
            invariant
                i <= req.source_entity_ids.len(),
                sources.len() == i,
                forall|k: int| 0 <= k < i ==> {
                    &&& (#[trigger] sources[k]).golden_record_id == record.id
                    &&& sources[k].source_entity_id == req.source_entity_ids[k]
                    &&& sources[k].match_score == 100
                    &&& sources[k].is_primary == (k == 0)
                    &&& sources[k].contributed_at_ms == now_ms
                    &&& sources[k].created_at_ms == now_ms
                },
            decreases req.source_entity_ids.len() - i,
        {
            sources.push(GoldenRecordSource {
                id: new_id(),
                golden_record_id: record.id,
                source_entity_id: req.source_entity_ids[i],
                match_score: 100,
                is_primary: i == 0,
                contributed_at_ms: now_ms,
                created_at_ms: now_ms,
            });
            i = i + 1;
        }
        (record, sources)
    }

    /// Merging duplicates into `primary` at `now_ms` under steward
    /// `merged_by`: a new active golden record named and typed after the
    /// primary, coded `GR-<UTC stamp>`, counting the primary and every
    /// requested duplicate (`requested` of them; the count wraps as the cast
    /// `as i32` does); the primary linked to it; every duplicate found linked
    /// to it and archived.
    pub fn merge_records(
        &self,
        primary: &MasterDataEntity,
        duplicates: &Vec<MasterDataEntity>,
        requested: usize,
        merged_by: u128,
        now_ms: i64,
    ) -> (r: (GoldenRecord, MasterDataEntity, Vec<MasterDataEntity>))
        requires
            in_time_range(now_ms as int),
            requested < usize::MAX,
        ensures
            r.0.entity_type == primary.entity_type,
            r.0.golden_code@ == golden_code_of(Seq::empty(), now_ms),
            r.0.name == primary.entity_name,
            r.0.source_count == (requested + 1) as i32,
            r.0.confidence_score == 100,
            r.0.steward_id == Some(merged_by),
            r.0.status == GovernanceStatus::Active,
            r.0.version == 1,
            r.0.created_at_ms == now_ms,
            r.0.updated_at_ms == now_ms,
            r.1 == linked(*primary, r.0.id, primary.status),
            r.2.len() == duplicates.len(),
            forall|i: int| 0 <= i < r.2.len() ==>
                #[trigger] r.2[i] == linked(duplicates[i], r.0.id, GovernanceStatus::Archived),
    {
        let code = String::from_str("GR-").concat(utc_stamp(now_ms).as_str());
        proof {
            reveal_strlit("GR-");
            assert(code@ =~= golden_code_of(Seq::empty(), now_ms));
        }
        #[verifier::truncate]
        let source_count: i32 = (requested + 1) as i32;
        let golden = GoldenRecord {
            id: new_id(),
            entity_type: primary.entity_type.clone(),
            golden_code: code,
            name: primary.entity_name.clone(),
            source_count,
            confidence_score: 100,
            steward_id: Some(merged_by),
            status: GovernanceStatus::Active,
            version: 1,
            created_at_ms: now_ms,
            updated_at_ms: now_ms,
        };
        let mut merged: Vec<MasterDataEntity> = Vec::new();
        let mut i: usize = 0;
        while i < duplicates.len()
            invariant
                i <= duplicates.len(),
                merged.len() == i,
                forall|k: int| 0 <= k < i ==>
                    #[trigger] merged[k] == linked(duplicates[k], golden.id, GovernanceStatus::Archived),
            decreases duplicates.len() - i,
        {
            merged.push(link_entity(&duplicates[i], golden.id, GovernanceStatus::Archived));
            i = i + 1;
        }
        let primary_linked = link_entity(primary, golden.id, primary.status);
        (golden, primary_linked, merged)
    }
}

/// After a merge, the primary and every merged duplicate point to the new
/// golden record; the duplicates are archived and the primary keeps its
/// status.
pub proof fn law_merge_links_everything(
    golden: GoldenRecord,
    primary: MasterDataEntity,
    duplicates: Seq<MasterDataEntity>,
    primary_after: MasterDataEntity,
    duplicates_after: Seq<MasterDataEntity>,
)
    requires
        primary_after == linked(primary, golden.id, primary.status),
        duplicates_after.len() == duplicates.len(),
        forall|i: int| 0 <= i < duplicates.len() ==>
            #[trigger] duplicates_after[i] == linked(duplicates[i], golden.id, GovernanceStatus::Archived),
    ensures
        primary_after.golden_record_id == Some(golden.id),
        primary_after.status == primary.status,
        primary_after.id == primary.id,
        forall|i: int| 0 <= i < duplicates_after.len() ==> {
            &&& (#[trigger] duplicates_after[i]).golden_record_id == Some(golden.id)
            &&& duplicates_after[i].status == GovernanceStatus::Archived
            &&& duplicates_after[i].id == duplicates[i].id
        },
{
    assert forall|i: int| 0 <= i < duplicates_after.len() implies {
        &&& (#[trigger] duplicates_after[i]).golden_record_id == Some(golden.id)
        &&& duplicates_after[i].status == GovernanceStatus::Archived
        &&& duplicates_after[i].id == duplicates[i].id
    } by {
        assert(duplicates_after[i] == linked(duplicates[i], golden.id, GovernanceStatus::Archived));
    }
}

/// A golden record made from sources has exactly one primary source link
/// when it has any: the first.
pub proof fn law_one_primary_source(sources: Seq<GoldenRecordSource>)
    requires
        forall|i: int| 0 <= i < sources.len() ==> (#[trigger] sources[i]).is_primary == (i == 0),
    ensures
        sources.len() > 0 ==> sources[0].is_primary,
        forall|i: int, j: int| 0 <= i < sources.len() && 0 <= j < sources.len() && sources[i].is_primary
            && sources[j].is_primary ==> i == j,
{
}

} // verus!
