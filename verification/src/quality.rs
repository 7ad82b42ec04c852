//! The quality-gate scoring engine.
//!
//! A [`QualityGate`] is a named collection of weighted [`QualityCriterion`]s
//! with its own pass threshold.  Scoring an entity evaluates every criterion
//! of every enabled gate against the entity's [`EntityData`], rolls the
//! criterion scores into a per-gate weighted mean, and rolls per-gate scores
//! into one overall weighted mean with a pass/fail verdict against the
//! global [`OVERALL_PASS_THRESHOLD`].
//!
//! All scores, weights and thresholds are fixed-point fractions of
//! [`SCALE`](crate::score::SCALE): `10_000` stands for 1.0.
//!
//! Evaluation is total: a criterion whose measurement is missing or out of
//! range scores 0 with a diagnostic message, it never fails the whole run.

use vstd::prelude::*;

use crate::providers::{new_uuid_string, now_timestamp_millis, random_below};
use crate::score::{compute_weighted_mean, pairs_bounded, weighted_mean, ScorePair, SCALE};

verus! {

/// The fixed global threshold an overall score must reach for the whole
/// report to pass.  It is deliberately distinct from the per-gate
/// thresholds: a gate can fail its own threshold while the weighted
/// overall score still clears this one, and the other way round.
pub const OVERALL_PASS_THRESHOLD: u32 = 8_000;

/// The quality dimension a gate examines.
#[derive(Debug, Clone, Copy, PartialEq, Eq, Structural)]
pub enum GateType {
    Technical,
    Functional,
    Security,
    Usability,
    Performance,
    Compliance,
    Documentation,
    Accessibility,
}

/// The machine-readable name of each gate type.
pub open spec fn gate_type_str_spec(t: GateType) -> Seq<char> {
    match t {
        GateType::Technical => "technical"@,
        GateType::Functional => "functional"@,
        GateType::Security => "security"@,
        GateType::Usability => "usability"@,
        GateType::Performance => "performance"@,
        GateType::Compliance => "compliance"@,
        GateType::Documentation => "documentation"@,
        GateType::Accessibility => "accessibility"@,
    }
}

/// The display name of each gate type.
pub open spec fn gate_type_display_spec(t: GateType) -> Seq<char> {
    match t {
        GateType::Technical => "الجودة التقنية"@,
        GateType::Functional => "الجودة الوظيفية"@,
        GateType::Security => "الجودة الأمنية"@,
        GateType::Usability => "قابلية الاستخدام"@,
        GateType::Performance => "الأداء"@,
        GateType::Compliance => "الامتثال للمعايير"@,
        GateType::Documentation => "التوثيق"@,
        GateType::Accessibility => "إمكانية الوصول"@,
    }
}

impl GateType {
    /// The machine-readable name of this gate type.
    pub fn as_str(&self) -> (r: &'static str)
        ensures
            r@ == gate_type_str_spec(*self),
    {
        match self {
            GateType::Technical => "technical",
            GateType::Functional => "functional",
            GateType::Security => "security",
            GateType::Usability => "usability",
            GateType::Performance => "performance",
            GateType::Compliance => "compliance",
            GateType::Documentation => "documentation",
            GateType::Accessibility => "accessibility",
        }
    }

    /// The display name of this gate type.
    pub fn display_name(&self) -> (r: &'static str)
        ensures
            r@ == gate_type_display_spec(*self),
    {
        match self {
            GateType::Technical => "الجودة التقنية",
            GateType::Functional => "الجودة الوظيفية",
            GateType::Security => "الجودة الأمنية",
            GateType::Usability => "قابلية الاستخدام",
            GateType::Performance => "الأداء",
            GateType::Compliance => "الامتثال للمعايير",
            GateType::Documentation => "التوثيق",
            GateType::Accessibility => "إمكانية الوصول",
        }
    }
}

/// What kind of check a criterion performs.  Classification only: it does
/// not change the aggregation arithmetic.
#[derive(Debug, Clone, Copy, PartialEq, Eq, Structural)]
pub enum CheckType {
    Existence,
    Format,
    Content,
    Performance,
    Security,
    Compliance,
    Custom,
}

/// One measurable check inside a gate.
///
/// `weight` is the criterion's relative contribution within its gate in
/// units of [`SCALE`]; the weights of a gate's criteria need not sum to
/// `SCALE`, the aggregation normalises by the weight sum.  `required` is
/// informational and does not change the aggregation.
#[derive(Debug, Clone)]
pub struct QualityCriterion {
    pub id: String,
    pub name: String,
    pub description: String,
    pub required: bool,
    pub weight: u32,
    pub check_type: CheckType,
    pub parameters: Vec<(String, i64)>,
}

impl QualityCriterion {
    /// A well-formed criterion has a weight in `[0, SCALE]`.
    pub open spec fn wf(self) -> bool {
        self.weight <= SCALE
    }
}

/// A named collection of weighted criteria with its own pass threshold.
///
/// `weight` is this gate's contribution to the overall score; `enabled`
/// gates take part in scoring, disabled ones are skipped entirely.
/// `auto_run` is informational (an orchestration concern only).
#[derive(Debug, Clone)]
pub struct QualityGate {
    pub id: String,
    pub name: String,
    pub description: String,
    pub gate_type: GateType,
    pub criteria: Vec<QualityCriterion>,
    pub threshold: u32,
    pub weight: u32,
    pub enabled: bool,
    pub auto_run: bool,
}

impl QualityGate {
    /// A well-formed gate has threshold and weight in `[0, SCALE]` and
    /// only well-formed criteria.
    pub open spec fn wf(self) -> bool {
        &&& self.threshold <= SCALE
        &&& self.weight <= SCALE
        &&& forall|i: int| 0 <= i < self.criteria@.len() ==> (#[trigger] self.criteria@[i]).wf()
    }
}

/// One measured outcome supplied by the caller's measurement layer:
/// the evaluated score of the criterion named `criterion_id`, in units of
/// [`SCALE`], and whether the measurement layer judged the check passed.
#[derive(Debug, Clone)]
pub struct Measurement {
    pub criterion_id: String,
    pub score: u32,
    pub passed: bool,
}

/// The entity payload scored by a quality check: whatever the measurement
/// layer found out about the entity, keyed by criterion id.  The engine
/// reads it only through the criterion evaluator; missing or out-of-range
/// entries become zero-score failing results, never errors.
#[derive(Debug, Clone)]
pub struct EntityData {
    pub measurements: Vec<Measurement>,
}

/// The first measurement recorded for `id`, if any.
pub open spec fn lookup_measurement(ms: Seq<Measurement>, id: Seq<char>) -> Option<Measurement>
    decreases ms.len(),
{
    if ms.len() == 0 {
        None
    } else if ms.first().criterion_id@ == id {
        Some(ms.first())
    } else {
        lookup_measurement(ms.drop_first(), id)
    }
}

/// The score a criterion earns from the measurements: the recorded score
/// when one exists and lies in `[0, SCALE]`, otherwise 0.
pub open spec fn criterion_score_spec(c: QualityCriterion, ms: Seq<Measurement>) -> u32 {
    match lookup_measurement(ms, c.id@) {
        Some(m) => if m.score <= SCALE {
            m.score
        } else {
            0
        },
        None => 0,
    }
}

/// Whether a criterion counts as passed: its measurement exists, is in
/// range, and the measurement layer judged it passed.
pub open spec fn criterion_passed_spec(c: QualityCriterion, ms: Seq<Measurement>) -> bool {
    match lookup_measurement(ms, c.id@) {
        Some(m) => m.score <= SCALE && m.passed,
        None => false,
    }
}

/// The message attached to a criterion result.
pub open spec fn criterion_message_spec(c: QualityCriterion, ms: Seq<Measurement>) -> Seq<char> {
    match lookup_measurement(ms, c.id@) {
        Some(m) => if m.score > SCALE {
            "⚠️ تعذر تقييم المعيار"@
        } else if m.passed {
            "✅ اجتاز الاختبار"@
        } else {
            "❌ لم يجتز الاختبار"@
        },
        None => "⚠️ تعذر تقييم المعيار"@,
    }
}

/// Outcome of evaluating one criterion against entity data.
#[derive(Debug, Clone)]
pub struct CriterionResult {
    pub criterion_id: String,
    pub criterion_name: String,
    pub passed: bool,
    pub score: u32,
    pub message: String,
    pub details: String,
}

/// What the evaluator promises of a criterion result.
pub open spec fn criterion_result_matches(
    c: QualityCriterion,
    ms: Seq<Measurement>,
    r: CriterionResult,
) -> bool {
    &&& r.criterion_id@ == c.id@
    &&& r.criterion_name@ == c.name@
    &&& r.score == criterion_score_spec(c, ms)
    &&& r.passed == criterion_passed_spec(c, ms)
    &&& r.message@ == criterion_message_spec(c, ms)
    &&& r.details@ == ""@
}

/// Evaluates one criterion against the entity data: a pure function of its
/// inputs.  A missing or out-of-range measurement yields a zero-score
/// failing result with a diagnostic message; evaluation never fails.
pub fn evaluate_criterion(criterion: &QualityCriterion, data: &EntityData) -> (r: CriterionResult)
    ensures
        criterion_result_matches(*criterion, data.measurements@, r),
{
    let ghost ms = data.measurements@;
    let ghost id = criterion.id@;
    let n = data.measurements.len();
    let mut i: usize = 0;
    proof {
        assert(ms.skip(0) =~= ms);
    }
    while i < n
        invariant
            0 <= i <= n,
            n == ms.len(),
            ms == data.measurements@,
            id == criterion.id@,
            lookup_measurement(ms, id) == lookup_measurement(ms.skip(i as int), id),
        decreases n - i,
    {
        let m = &data.measurements[i];
        if m.criterion_id == criterion.id {
            proof {
                assert(ms.skip(i as int).first() == ms[i as int]);
                assert(lookup_measurement(ms, id) == Some(ms[i as int]));
            }
            let (score, passed, message): (u32, bool, &'static str) = if m.score > SCALE {
                (0, false, "⚠️ تعذر تقييم المعيار")
            } else if m.passed {
                (m.score, true, "✅ اجتاز الاختبار")
            } else {
                (m.score, false, "❌ لم يجتز الاختبار")
            };
            return CriterionResult {
                criterion_id: criterion.id.clone(),
                criterion_name: criterion.name.clone(),
                passed,
                score,
                message: message.to_owned(),
                details: "".to_owned(),
            };
        }
        proof {
            assert(ms.skip(i as int).drop_first() =~= ms.skip(i + 1));
        }
        i = i + 1;
    }
    proof {
        assert(ms.skip(n as int).len() == 0);
    }
    CriterionResult {
        criterion_id: criterion.id.clone(),
        criterion_name: criterion.name.clone(),
        passed: false,
        score: 0,
        message: "⚠️ تعذر تقييم المعيار".to_owned(),
        details: "".to_owned(),
    }
}

/// The `(score, weight)` pairs a gate's criteria contribute, in the order
/// the criteria are configured.
pub open spec fn criteria_pairs(cs: Seq<QualityCriterion>, ms: Seq<Measurement>) -> Seq<
    ScorePair,
> {
    cs.map(|i: int, c: QualityCriterion| (criterion_score_spec(c, ms), c.weight))
}

/// A gate's score: the weighted mean of its criteria's scores, `0` when
/// the criteria are absent or all zero-weighted.
pub open spec fn gate_score_spec(g: QualityGate, ms: Seq<Measurement>) -> u32 {
    weighted_mean(criteria_pairs(g.criteria@, ms)) as u32
}

/// The criteria pairs of a well-formed gate are bounded, so a gate's
/// score is exactly the weighted mean of the criteria — the fixed-point
/// form of `sum(score_i * weight_i) / sum(weight_i)`.
pub proof fn lemma_gate_score_is_weighted_mean(g: QualityGate, ms: Seq<Measurement>)
    requires
        g.wf(),
    ensures
        pairs_bounded(criteria_pairs(g.criteria@, ms)),
        gate_score_spec(g, ms) == weighted_mean(criteria_pairs(g.criteria@, ms)),
        gate_score_spec(g, ms) <= SCALE,
{
    crate::score::lemma_weighted_mean_bounded(criteria_pairs(g.criteria@, ms));
}

/// The recommendation texts generated from a gate verdict, exactly as a
/// function of the verdict and the score.
pub open spec fn recommendations_spec(passed: bool, score: u32) -> Seq<Seq<char>> {
    if !passed {
        seq!["تحسين الجودة لتجاوز الحد الأدنى المطلوب"@].push(
            if score < 5_000 {
                "مراجعة شاملة للمنتج وإعادة التصميم إذا لزم الأمر"@
            } else if score < 7_000 {
                "تحسين النقاط الضعيفة في المنتج"@
            } else {
                "تحسينات طفيفة لتجاوز الحد الأدنى"@
            },
        )
    } else if score >= 9_000 {
        seq!["✅ الجودة ممتازة - يمكن المضي قدماً"@]
    } else if score >= 8_000 {
        seq!["👌 الجودة جيدة - بعض التحسينات الطفيفة ممكنة"@]
    } else {
        Seq::empty()
    }
}

/// The views of a vector of strings.
pub open spec fn string_views(v: Seq<String>) -> Seq<Seq<char>> {
    v.map_values(|s: String| s@)
}

/// Generates the recommendations for a gate verdict.
pub fn generate_recommendations(passed: bool, score: u32) -> (r: Vec<String>)
    ensures
        string_views(r@) == recommendations_spec(passed, score),
{
    let mut r: Vec<String> = Vec::new();
    if !passed {
        r.push("تحسين الجودة لتجاوز الحد الأدنى المطلوب".to_owned());
        if score < 5_000 {
            r.push("مراجعة شاملة للمنتج وإعادة التصميم إذا لزم الأمر".to_owned());
        } else if score < 7_000 {
            r.push("تحسين النقاط الضعيفة في المنتج".to_owned());
        } else {
            r.push("تحسينات طفيفة لتجاوز الحد الأدنى".to_owned());
        }
    } else if score >= 9_000 {
        r.push("✅ الجودة ممتازة - يمكن المضي قدماً".to_owned());
    } else if score >= 8_000 {
        r.push("👌 الجودة جيدة - بعض التحسينات الطفيفة ممكنة".to_owned());
    }
    proof {
        assert(string_views(r@) =~= recommendations_spec(passed, score));
    }
    r
}

/// Outcome of one gate: the verdict, the aggregated score, the
/// per-criterion results in the order of its gate's criteria, and the
/// generated recommendations.
#[derive(Debug, Clone)]
pub struct GateResult {
    pub gate_id: String,
    pub gate_name: String,
    pub passed: bool,
    pub score: u32,
    pub details: Vec<CriterionResult>,
    pub execution_time_ms: u64,
    pub timestamp: i64,
    pub recommendations: Vec<String>,
}

/// What a gate check promises of its result: everything but the
/// timestamp is a function of its gate and the measurements.
pub open spec fn gate_result_matches(
    g: QualityGate,
    ms: Seq<Measurement>,
    r: GateResult,
) -> bool {
    &&& r.gate_id@ == g.id@
    &&& r.gate_name@ == g.name@
    &&& r.score == gate_score_spec(g, ms)
    &&& r.passed == (gate_score_spec(g, ms) >= g.threshold)
    &&& r.details.len() == g.criteria@.len()
    &&& forall|j: int|
        0 <= j < g.criteria@.len() ==> criterion_result_matches(
            g.criteria@[j],
            ms,
            #[trigger] r.details@[j],
        )
    &&& string_views(r.recommendations@) == recommendations_spec(r.passed, r.score)
    &&& r.execution_time_ms == 100
}

/// Evaluates every criterion of a gate and aggregates the weighted mean
/// score; a gate passes exactly when its score reaches its threshold
/// (`>=`, so a score equal to the threshold passes).
fn run_gate_check(gate: &QualityGate, data: &EntityData) -> (r: GateResult)
    requires
        gate.wf(),
    ensures
        gate_result_matches(*gate, data.measurements@, r),
{
    let ghost ms = data.measurements@;
    let ghost cp = criteria_pairs(gate.criteria@, ms);
    let mut details: Vec<CriterionResult> = Vec::new();
    let mut pairs: Vec<ScorePair> = Vec::new();
    let n = gate.criteria.len();
    let mut i: usize = 0;
    while i < n
        invariant
            0 <= i <= n,
            n == gate.criteria@.len(),
            gate.wf(),
            ms == data.measurements@,
            cp == criteria_pairs(gate.criteria@, ms),
            details@.len() == i,
            pairs@.len() == i,
            forall|j: int|
                0 <= j < i ==> criterion_result_matches(
                    gate.criteria@[j],
                    ms,
                    #[trigger] details@[j],
                ),
            forall|j: int| 0 <= j < i ==> #[trigger] pairs@[j] == cp[j],
        decreases n - i,
    {
        let criterion = &gate.criteria[i];
        let result = evaluate_criterion(criterion, data);
        pairs.push((result.score, criterion.weight));
        details.push(result);
        i = i + 1;
    }
    proof {
        assert(pairs@ =~= cp);
        lemma_gate_score_is_weighted_mean(*gate, ms);
    }
    let score = compute_weighted_mean(&pairs);
    let passed = score >= gate.threshold;
    let recommendations = generate_recommendations(passed, score);
    GateResult {
        gate_id: gate.id.clone(),
        gate_name: gate.name.clone(),
        passed,
        score,
        details,
        execution_time_ms: 100,
        timestamp: now_timestamp_millis(),
        recommendations,
    }
}

/// The enabled gates of a configuration, in configuration order.
pub open spec fn enabled_gates(gates: Seq<QualityGate>) -> Seq<QualityGate>
    decreases gates.len(),
{
    if gates.len() == 0 {
        Seq::empty()
    } else {
        let rest = enabled_gates(gates.drop_last());
        if gates.last().enabled {
            rest.push(gates.last())
        } else {
            rest
        }
    }
}

/// The `(score, weight)` pairs the enabled gates contribute to the
/// overall score.  Disabled gates appear in neither the numerator nor
/// the denominator of the overall weighted mean.
pub open spec fn overall_pairs(gates: Seq<QualityGate>, ms: Seq<Measurement>) -> Seq<ScorePair> {
    enabled_gates(gates).map(|i: int, g: QualityGate| (gate_score_spec(g, ms), g.weight))
}

/// The overall score of a configuration against the measurements: the
/// weighted mean of the enabled gates' scores, `0` when no gate is
/// enabled.
pub open spec fn overall_score_spec(gates: Seq<QualityGate>, ms: Seq<Measurement>) -> u32 {
    weighted_mean(overall_pairs(gates, ms)) as u32
}

/// A well-formed configuration: every gate well-formed, gate ids unique.
pub open spec fn gates_wf(gates: Seq<QualityGate>) -> bool {
    &&& forall|i: int| 0 <= i < gates.len() ==> (#[trigger] gates[i]).wf()
    &&& forall|i: int, j: int|
        0 <= i < j < gates.len() ==> (#[trigger] gates[i]).id@ != (#[trigger] gates[j]).id@
}

/// Every enabled gate is one of the configuration's gates.
proof fn lemma_enabled_gates_are_gates(gates: Seq<QualityGate>)
    ensures
        forall|i: int|
            0 <= i < enabled_gates(gates).len() ==> exists|j: int|
                0 <= j < gates.len() && #[trigger] enabled_gates(gates)[i] == gates[j],
    decreases gates.len(),
{
    if gates.len() > 0 {
        let dl = gates.drop_last();
        let en = enabled_gates(gates);
        let rest = enabled_gates(dl);
        lemma_enabled_gates_are_gates(dl);
        assert forall|i: int|
            0 <= i < en.len() implies exists|j: int|
                0 <= j < gates.len() && #[trigger] en[i] == gates[j] by {
            if i < rest.len() {
                assert(en[i] == rest[i]);
                let j = choose|j: int| 0 <= j < dl.len() && rest[i] == dl[j];
                assert(dl[j] == gates[j]);
                assert(en[i] == gates[j]);
            } else {
                assert(en[i] == gates[gates.len() - 1]);
            }
        }
    }
}

/// In a well-formed configuration the overall pairs are bounded, so the
/// overall score is exactly the weighted mean of the enabled gates.
pub proof fn lemma_overall_score_is_weighted_mean(gates: Seq<QualityGate>, ms: Seq<Measurement>)
    requires
        forall|i: int| 0 <= i < gates.len() ==> (#[trigger] gates[i]).wf(),
    ensures
        pairs_bounded(overall_pairs(gates, ms)),
        overall_score_spec(gates, ms) == weighted_mean(overall_pairs(gates, ms)),
        overall_score_spec(gates, ms) <= SCALE,
{
    lemma_enabled_gates_are_gates(gates);
    assert forall|i: int| 0 <= i < overall_pairs(gates, ms).len() implies
        #[trigger] overall_pairs(gates, ms)[i].0 <= SCALE
        && overall_pairs(gates, ms)[i].1 <= SCALE by {
        let g = enabled_gates(gates)[i];
        let j = choose|j: int| 0 <= j < gates.len() && enabled_gates(gates)[i] == gates[j];
        lemma_gate_score_is_weighted_mean(g, ms);
    }
    crate::score::lemma_weighted_mean_bounded(overall_pairs(gates, ms));
}

/// A report's per-gate results: one per enabled gate, in configuration
/// order, each matching its gate.
pub open spec fn gate_results_match(
    gates: Seq<QualityGate>,
    ms: Seq<Measurement>,
    results: Seq<GateResult>,
) -> bool {
    &&& results.len() == enabled_gates(gates).len()
    &&& forall|i: int|
        0 <= i < enabled_gates(gates).len() ==> gate_result_matches(
            enabled_gates(gates)[i],
            ms,
            #[trigger] results[i],
        )
}

/// The record of one complete scoring pass over one entity.
#[derive(Debug, Clone)]
pub struct QualityReport {
    pub report_id: String,
    pub entity_id: String,
    pub entity_type: String,
    pub overall_score: u32,
    pub passed: bool,
    pub gate_results: Vec<GateResult>,
    pub generated_at: i64,
    pub generated_by: String,
    pub mhos_version: String,
}

/// Everything a quality check promises of a report apart from its
/// identity and timestamp: the scores are a function of gate
/// configuration and the measurements alone.
pub open spec fn report_matches(
    gates: Seq<QualityGate>,
    ms: Seq<Measurement>,
    r: QualityReport,
) -> bool {
    &&& r.overall_score == overall_score_spec(gates, ms)
    &&& r.passed == (r.overall_score >= OVERALL_PASS_THRESHOLD)
    &&& gate_results_match(gates, ms, r.gate_results@)
}

/// Why a gate was rejected by [`QualityManager::add_gate`].
#[derive(Debug, Clone, Copy, PartialEq, Eq, Structural)]
pub enum QualityConfigError {
    /// A threshold lying outside `[0, SCALE]`.
    ThresholdOutOfRange,
    /// A gate weight lying outside `[0, SCALE]`.
    WeightOutOfRange,
    /// Some criterion's weight lies outside `[0, SCALE]`.
    CriterionWeightOutOfRange,
}

/// The configuration error a gate definition earns, if any: `None`
/// exactly when that gate is well-formed.
pub open spec fn gate_config_error(g: QualityGate) -> Option<QualityConfigError> {
    if g.threshold > SCALE {
        Some(QualityConfigError::ThresholdOutOfRange)
    } else if g.weight > SCALE {
        Some(QualityConfigError::WeightOutOfRange)
    } else if exists|i: int| 0 <= i < g.criteria@.len() && !(#[trigger] g.criteria@[i]).wf() {
        Some(QualityConfigError::CriterionWeightOutOfRange)
    } else {
        None
    }
}

/// The index of the first gate named `id`, or `-1` when there is none.
pub open spec fn find_gate_index(gates: Seq<QualityGate>, id: Seq<char>) -> int
    decreases gates.len(),
{
    if gates.len() == 0 {
        -1
    } else if gates.first().id@ == id {
        0
    } else {
        let rest = find_gate_index(gates.drop_first(), id);
        if rest == -1 {
            -1
        } else {
            rest + 1
        }
    }
}

/// What `find_gate_index` finds: the first match when one exists,
/// `-1` when none does.
pub proof fn lemma_find_gate_index(gates: Seq<QualityGate>, id: Seq<char>)
    ensures
        find_gate_index(gates, id) == -1 ==> forall|k: int|
            0 <= k < gates.len() ==> (#[trigger] gates[k]).id@ != id,
        find_gate_index(gates, id) != -1 ==> {
            let f = find_gate_index(gates, id);
            &&& 0 <= f < gates.len()
            &&& gates[f].id@ == id
            &&& forall|k: int| 0 <= k < f ==> (#[trigger] gates[k]).id@ != id
        },
    decreases gates.len(),
{
    if gates.len() > 0 && gates.first().id@ != id {
        let df = gates.drop_first();
        lemma_find_gate_index(df, id);
        let rest = find_gate_index(df, id);
        if rest == -1 {
            assert forall|k: int| 0 <= k < gates.len() implies (gates[k]).id@ != id by {
                if k > 0 {
                    assert(df[k - 1] == gates[k]);
                    assert(df[k - 1].id@ != id);
                }
            }
        } else {
            assert(df[rest] == gates[rest + 1]);
            assert forall|k: int| 0 <= k < rest + 1 implies (gates[k]).id@ != id by {
                if k > 0 {
                    assert(df[k - 1] == gates[k]);
                    assert(df[k - 1].id@ != id);
                }
            }
        }
    }
}

/// The index of the first report named `id`, or `-1` when there is none.
pub open spec fn find_report_index(reports: Seq<QualityReport>, id: Seq<char>) -> int
    decreases reports.len(),
{
    if reports.len() == 0 {
        -1
    } else if reports.first().report_id@ == id {
        0
    } else {
        let rest = find_report_index(reports.drop_first(), id);
        if rest == -1 {
            -1
        } else {
            rest + 1
        }
    }
}

/// What `find_report_index` finds: the first match when one exists,
/// `-1` when none does.
pub proof fn lemma_find_report_index(reports: Seq<QualityReport>, id: Seq<char>)
    ensures
        find_report_index(reports, id) == -1 ==> forall|k: int|
            0 <= k < reports.len() ==> (#[trigger] reports[k]).report_id@ != id,
        find_report_index(reports, id) != -1 ==> {
            let f = find_report_index(reports, id);
            &&& 0 <= f < reports.len()
            &&& reports[f].report_id@ == id
            &&& forall|k: int| 0 <= k < f ==> (#[trigger] reports[k]).report_id@ != id
        },
    decreases reports.len(),
{
    if reports.len() > 0 && reports.first().report_id@ != id {
        let df = reports.drop_first();
        lemma_find_report_index(df, id);
        let rest = find_report_index(df, id);
        if rest == -1 {
            assert forall|k: int| 0 <= k < reports.len() implies (reports[k]).report_id@ != id by {
                if k > 0 {
                    assert(df[k - 1] == reports[k]);
                    assert(df[k - 1].report_id@ != id);
                }
            }
        } else {
            assert(df[rest] == reports[rest + 1]);
            assert forall|k: int| 0 <= k < rest + 1 implies (reports[k]).report_id@ != id by {
                if k > 0 {
                    assert(df[k - 1] == reports[k]);
                    assert(df[k - 1].report_id@ != id);
                }
            }
        }
    }
}

/// Holds the configured gates and the scored reports.
///
/// The configuration is mutated only between scoring runs through
/// [`QualityManager::add_gate`] and [`QualityManager::remove_gate`];
/// every mutator keeps the configuration well-formed, so malformed
/// gates never enter the live configuration.
pub struct QualityManager {
    gates: Vec<QualityGate>,
    reports: Vec<QualityReport>,
}

impl QualityManager {
    /// The configured gates, in insertion order.
    pub closed spec fn gates_view(self) -> Seq<QualityGate> {
        self.gates@
    }

    /// The stored reports, in insertion order.
    pub closed spec fn reports_view(self) -> Seq<QualityReport> {
        self.reports@
    }

    /// The manager's invariant: a well-formed gate configuration.
    pub open spec fn wf(self) -> bool {
        gates_wf(self.gates_view())
    }

    /// The configured gate named `gate_id`, if any.
    pub fn get_gate(&self, gate_id: &str) -> (r: Option<&QualityGate>)
        ensures
            r is Some <==> find_gate_index(self.gates_view(), gate_id@) != -1,
            r matches Some(g) ==> *g == self.gates_view()[find_gate_index(
                self.gates_view(),
                gate_id@,
            )],
    {
        let ghost gs = self.gates@;
        let ghost id = gate_id@;
        proof {
            lemma_find_gate_index(gs, id);
        }
        let mut i: usize = 0;
        while i < self.gates.len()
            invariant
                0 <= i <= gs.len(),
                gs == self.gates@,
                id == gate_id@,
                forall|k: int| 0 <= k < i ==> (#[trigger] gs[k]).id@ != id,
            decreases gs.len() - i,
        {
            if crate::text::str_eq(self.gates[i].id.as_str(), gate_id) {
                proof {
                    lemma_find_gate_index_at(gs, id, i as int);
                }
                return Some(&self.gates[i]);
            }
            i = i + 1;
        }
        None
    }

    /// All configured gates, in insertion order.
    pub fn list_gates(&self) -> (r: Vec<&QualityGate>)
        ensures
            r@.len() == self.gates_view().len(),
            forall|i: int| 0 <= i < r@.len() ==> *(#[trigger] r@[i]) == self.gates_view()[i],
    {
        let mut out: Vec<&QualityGate> = Vec::new();
        let mut i: usize = 0;
        while i < self.gates.len()
            invariant
                0 <= i <= self.gates@.len(),
                out@.len() == i,
                forall|k: int| 0 <= k < i ==> *(#[trigger] out@[k]) == self.gates@[k],
            decreases self.gates@.len() - i,
        {
            out.push(&self.gates[i]);
            i = i + 1;
        }
        out
    }

    /// Adds a gate to the configuration, replacing any gate of the same
    /// id when one exists.  A malformed gate — a threshold, gate weight
    /// or criterion weight beyond [`SCALE`] — is rejected and the
    /// configuration is left unchanged.
    pub fn add_gate(&mut self, gate: QualityGate) -> (r: Result<(), QualityConfigError>)
        requires
            old(self).wf(),
        ensures
            final(self).wf(),
            final(self).reports_view() == old(self).reports_view(),
            r matches Err(e) ==> {
                &&& gate_config_error(gate) == Some(e)
                &&& final(self).gates_view() == old(self).gates_view()
            },
            r is Ok ==> gate_config_error(gate) is None,
            r is Ok ==> {
                let f = find_gate_index(old(self).gates_view(), gate.id@);
                if f == -1 {
                    final(self).gates_view() == old(self).gates_view().push(gate)
                } else {
                    final(self).gates_view() == old(self).gates_view().update(f, gate)
                }
            },
    {
        if gate.threshold > SCALE {
            return Err(QualityConfigError::ThresholdOutOfRange);
        }
        if gate.weight > SCALE {
            return Err(QualityConfigError::WeightOutOfRange);
        }
        let mut j: usize = 0;
        while j < gate.criteria.len()
            invariant
                0 <= j <= gate.criteria@.len(),
                *self == *old(self),
                old(self).wf(),
                gate.threshold <= SCALE,
                gate.weight <= SCALE,
                forall|k: int| 0 <= k < j ==> (#[trigger] gate.criteria@[k]).wf(),
            decreases gate.criteria@.len() - j,
        {
            if gate.criteria[j].weight > SCALE {
                proof {
                    assert(!gate.criteria@[j as int].wf());
                }
                return Err(QualityConfigError::CriterionWeightOutOfRange);
            }
            j = j + 1;
        }
        assert(gate.wf());
        let ghost gs = self.gates@;
        let ghost id = gate.id@;
        proof {
            lemma_find_gate_index(gs, id);
        }
        let mut i: usize = 0;
        while i < self.gates.len()
            invariant
                0 <= i <= gs.len(),
                gs == self.gates@,
                gs == old(self).gates@,
                gates_wf(gs),
                id == gate.id@,
                gate.wf(),
                gate_config_error(gate) is None,
                self.reports@ == old(self).reports@,
                forall|k: int| 0 <= k < i ==> (#[trigger] gs[k]).id@ != id,
            decreases gs.len() - i,
        {
            if crate::text::str_eq(self.gates[i].id.as_str(), gate.id.as_str()) {
                proof {
                    lemma_find_gate_index_at(gs, id, i as int);
                }
                self.gates[i] = gate;
                proof {
                    lemma_gates_wf_update(gs, i as int, gate);
                }
                return Ok(());
            }
            i = i + 1;
        }
        self.gates.push(gate);
        return Ok(());
    }

    /// Removes whatever gate is named `gate_id`; `false` reports "not found".
    pub fn remove_gate(&mut self, gate_id: &str) -> (r: bool)
        requires
            old(self).wf(),
        ensures
            final(self).wf(),
            final(self).reports_view() == old(self).reports_view(),
            r <==> find_gate_index(old(self).gates_view(), gate_id@) != -1,
            r ==> final(self).gates_view() == old(self).gates_view().remove(
                find_gate_index(old(self).gates_view(), gate_id@),
            ),
            !r ==> final(self).gates_view() == old(self).gates_view(),
    {
        let ghost gs = self.gates@;
        let ghost id = gate_id@;
        proof {
            lemma_find_gate_index(gs, id);
        }
        let mut i: usize = 0;
        while i < self.gates.len()
            invariant
                0 <= i <= gs.len(),
                gs == self.gates@,
                gs == old(self).gates@,
                id == gate_id@,
                gates_wf(gs),
                self.reports@ == old(self).reports@,
                forall|k: int| 0 <= k < i ==> (#[trigger] gs[k]).id@ != id,
            decreases gs.len() - i,
        {
            if crate::text::str_eq(self.gates[i].id.as_str(), gate_id) {
                proof {
                    lemma_find_gate_index_at(gs, id, i as int);
                }
                self.gates.remove(i);
                proof {
                    lemma_gates_wf_remove(gs, i as int);
                }
                return true;
            }
            i = i + 1;
        }
        false
    }

    /// Stores a report, replacing the report of the same id when one
    /// exists.
    pub fn save_report(&mut self, report: QualityReport)
        ensures
            final(self).gates_view() == old(self).gates_view(),
            ({
                let f = find_report_index(old(self).reports_view(), report.report_id@);
                if f == -1 {
                    final(self).reports_view() == old(self).reports_view().push(report)
                } else {
                    final(self).reports_view() == old(self).reports_view().update(f, report)
                }
            }),
    {
        let ghost rs = self.reports@;
        let ghost id = report.report_id@;
        proof {
            lemma_find_report_index(rs, id);
        }
        let mut i: usize = 0;
        while i < self.reports.len()
            invariant
                0 <= i <= rs.len(),
                rs == self.reports@,
                rs == old(self).reports@,
                id == report.report_id@,
                self.gates@ == old(self).gates@,
                forall|k: int| 0 <= k < i ==> (#[trigger] rs[k]).report_id@ != id,
            decreases rs.len() - i,
        {
            if crate::text::str_eq(self.reports[i].report_id.as_str(), report.report_id.as_str()) {
                proof {
                    lemma_find_report_index_at(rs, id, i as int);
                }
                self.reports[i] = report;
                return ;
            }
            i = i + 1;
        }
        self.reports.push(report);
    }

    /// The report named `report_id`, if any; `None` reports "not found".
    pub fn get_report(&self, report_id: &str) -> (r: Option<&QualityReport>)
        ensures
            r is Some <==> find_report_index(self.reports_view(), report_id@) != -1,
            r matches Some(rep) ==> *rep == self.reports_view()[find_report_index(
                self.reports_view(),
                report_id@,
            )],
    {
        let ghost rs = self.reports@;
        let ghost id = report_id@;
        proof {
            lemma_find_report_index(rs, id);
        }
        let mut i: usize = 0;
        while i < self.reports.len()
            invariant
                0 <= i <= rs.len(),
                rs == self.reports@,
                id == report_id@,
                forall|k: int| 0 <= k < i ==> (#[trigger] rs[k]).report_id@ != id,
            decreases rs.len() - i,
        {
            if crate::text::str_eq(self.reports[i].report_id.as_str(), report_id) {
                proof {
                    lemma_find_report_index_at(rs, id, i as int);
                }
                return Some(&self.reports[i]);
            }
            i = i + 1;
        }
        None
    }

    /// All stored reports, in insertion order.
    pub fn list_reports(&self) -> (r: Vec<&QualityReport>)
        ensures
            r@.len() == self.reports_view().len(),
            forall|i: int| 0 <= i < r@.len() ==> *(#[trigger] r@[i]) == self.reports_view()[i],
    {
        let mut out: Vec<&QualityReport> = Vec::new();
        let mut i: usize = 0;
        while i < self.reports.len()
            invariant
                0 <= i <= self.reports@.len(),
                out@.len() == i,
                forall|k: int| 0 <= k < i ==> *(#[trigger] out@[k]) == self.reports@[k],
            decreases self.reports@.len() - i,
        {
            out.push(&self.reports[i]);
            i = i + 1;
        }
        out
    }
}

/// The ids of the criteria, in order.
pub open spec fn criteria_ids(cs: Seq<QualityCriterion>) -> Seq<Seq<char>> {
    cs.map_values(|c: QualityCriterion| c.id@)
}

/// The criterion ids of all configured gates, gate by gate, in
/// configuration order.
pub open spec fn all_criteria_ids(gates: Seq<QualityGate>) -> Seq<Seq<char>>
    decreases gates.len(),
{
    if gates.len() == 0 {
        Seq::empty()
    } else {
        all_criteria_ids(gates.drop_last()) + criteria_ids(gates.last().criteria@)
    }
}

/// The criterion ids the measurements speak of, in order.
pub open spec fn measurement_ids(ms: Seq<Measurement>) -> Seq<Seq<char>> {
    ms.map_values(|m: Measurement| m.criterion_id@)
}

impl QualityManager {
    /// Runs every enabled gate against the entity data and rolls their
    /// scores into one report.  Everything but the report id and the
    /// timestamps is a function of the configuration and the data: the
    /// overall score is the weighted mean of the enabled gates' scores
    /// (0 when none is enabled), and the report passes exactly when that
    /// score reaches [`OVERALL_PASS_THRESHOLD`].
    pub fn run_quality_check(&self, entity_id: &str, entity_type: &str, data: &EntityData) -> (r:
        QualityReport)
        requires
            self.wf(),
        ensures
            report_matches(self.gates_view(), data.measurements@, r),
            r.entity_id@ == entity_id@,
            r.entity_type@ == entity_type@,
            r.generated_by@ == "MH-OS v2.2"@,
            r.mhos_version@ == "2.2.0"@,
            r.report_id@.len() == 39,
            r.report_id@.subrange(0, 3) == "qr_"@,
    {
        let ghost ms = data.measurements@;
        let ghost gs = self.gates@;
        let mut gate_results: Vec<GateResult> = Vec::new();
        let mut pairs: Vec<ScorePair> = Vec::new();
        let mut i: usize = 0;
        proof {
            assert(gs.subrange(0, 0) =~= Seq::<QualityGate>::empty());
        }
        while i < self.gates.len()
            invariant
                0 <= i <= gs.len(),
                gs == self.gates@,
                ms == data.measurements@,
                gates_wf(gs),
                gate_results@.len() == enabled_gates(gs.subrange(0, i as int)).len(),
                pairs@.len() == gate_results@.len(),
                forall|k: int|
                    0 <= k < gate_results@.len() ==> gate_result_matches(
                        enabled_gates(gs.subrange(0, i as int))[k],
                        ms,
                        #[trigger] gate_results@[k],
                    ),
                forall|k: int|
                    0 <= k < pairs@.len() ==> #[trigger] pairs@[k] == (
                        gate_score_spec(enabled_gates(gs.subrange(0, i as int))[k], ms),
                        enabled_gates(gs.subrange(0, i as int))[k].weight,
                    ),
            decreases gs.len() - i,
        {
            let ghost pre = gs.subrange(0, i as int);
            proof {
                assert(gs.subrange(0, i + 1).drop_last() =~= pre);
                assert(gs.subrange(0, i + 1).last() == gs[i as int]);
            }
            let gate = &self.gates[i];
            if gate.enabled {
                let res = run_gate_check(gate, data);
                pairs.push((res.score, gate.weight));
                gate_results.push(res);
            }
            i = i + 1;
        }
        proof {
            assert(gs.subrange(0, gs.len() as int) =~= gs);
            lemma_overall_score_is_weighted_mean(gs, ms);
            assert(pairs@ =~= overall_pairs(gs, ms));
        }
        let overall_score = compute_weighted_mean(&pairs);
        let passed = overall_score >= OVERALL_PASS_THRESHOLD;
        QualityReport {
            report_id: make_report_id(),
            entity_id: entity_id.to_owned(),
            entity_type: entity_type.to_owned(),
            overall_score,
            passed,
            gate_results,
            generated_at: now_timestamp_millis(),
            generated_by: "MH-OS v2.2".to_owned(),
            mhos_version: "2.2.0".to_owned(),
        }
    }

    /// Draws a simulated measurement for every criterion of every
    /// configured gate: a stand-in for a real measurement layer.  Each
    /// check passes with 70% likelihood; a passing check scores 1.0, a
    /// failing one 0.5.
    pub fn simulate_measurements(&self) -> (r: EntityData)
        ensures
            measurement_ids(r.measurements@) == all_criteria_ids(self.gates_view()),
            forall|k: int|
                0 <= k < r.measurements@.len() ==> {
                    let m = #[trigger] r.measurements@[k];
                    if m.passed {
                        m.score == SCALE
                    } else {
                        m.score == SCALE / 2
                    }
                },
    {
        let ghost gs = self.gates@;
        let mut out: Vec<Measurement> = Vec::new();
        let mut i: usize = 0;
        proof {
            assert(gs.subrange(0, 0) =~= Seq::<QualityGate>::empty());
            assert(measurement_ids(out@) =~= all_criteria_ids(gs.subrange(0, 0)));
        }
        while i < self.gates.len()
            invariant
                0 <= i <= gs.len(),
                gs == self.gates@,
                measurement_ids(out@) == all_criteria_ids(gs.subrange(0, i as int)),
                forall|k: int|
                    0 <= k < out@.len() ==> {
                        let m = #[trigger] out@[k];
                        if m.passed {
                            m.score == SCALE
                        } else {
                            m.score == SCALE / 2
                        }
                    },
            decreases gs.len() - i,
        {
            let ghost pre = gs.subrange(0, i as int);
            proof {
                assert(gs.subrange(0, i + 1).drop_last() =~= pre);
                assert(gs.subrange(0, i + 1).last() == gs[i as int]);
            }
            let cn = self.gates[i].criteria.len();
            let mut j: usize = 0;
            while j < cn
                invariant
                    0 <= i < gs.len(),
                    0 <= j <= cn,
                    gs == self.gates@,
                    cn == gs[i as int].criteria@.len(),
                    measurement_ids(out@) == all_criteria_ids(gs.subrange(0, i as int))
                        + criteria_ids(gs[i as int].criteria@.subrange(0, j as int)),
                    forall|k: int|
                        0 <= k < out@.len() ==> {
                            let m = #[trigger] out@[k];
                            if m.passed {
                                m.score == SCALE
                            } else {
                                m.score == SCALE / 2
                            }
                        },
                decreases cn - j,
            {
                let draw = random_below(SCALE);
                let passed = draw >= 3_000;
                let score: u32 = if passed {
                    SCALE
                } else {
                    5_000
                };
                let m = Measurement {
                    criterion_id: self.gates[i].criteria[j].id.clone(),
                    score,
                    passed,
                };
                let ghost out0 = out@;
                out.push(m);
                proof {
                    let prev_ids = all_criteria_ids(gs.subrange(0, i as int));
                    let cs = gs[i as int].criteria@;
                    assert(criteria_ids(cs.subrange(0, j + 1)) =~= criteria_ids(
                        cs.subrange(0, j as int),
                    ).push(cs[j as int].id@));
                    assert(measurement_ids(out@) =~= measurement_ids(out0).push(m.criterion_id@));
                    assert(prev_ids + criteria_ids(cs.subrange(0, j + 1)) =~= (prev_ids
                        + criteria_ids(cs.subrange(0, j as int))).push(cs[j as int].id@));
                    assert(measurement_ids(out@) =~= prev_ids + criteria_ids(
                        cs.subrange(0, j + 1),
                    ));
                }
                j = j + 1;
            }
            proof {
                assert(gs[i as int].criteria@.subrange(0, cn as int) =~= gs[i as int].criteria@);
                assert(measurement_ids(out@) =~= all_criteria_ids(gs.subrange(0, i + 1)));
            }
            i = i + 1;
        }
        proof {
            assert(gs.subrange(0, gs.len() as int) =~= gs);
        }
        EntityData { measurements: out }
    }
}

/// The built-in technical gate: SOLID principles, design patterns, code
/// coverage and cyclomatic complexity, threshold 0.8, weight 0.25.
pub open spec fn default_technical_gate(g: QualityGate) -> bool {
    &&& g.id@ == "mhos_gate_1"@
    &&& g.name@ == "الجودة التقنية - MH-OS"@
    &&& g.gate_type == GateType::Technical
    &&& g.threshold == 8_000
    &&& g.weight == 2_500
    &&& g.enabled
    &&& g.auto_run
    &&& g.criteria@.len() == 4
    &&& g.criteria@[0].id@ == "tech_1"@ && g.criteria@[0].weight == 3_000
        && g.criteria@[0].required && g.criteria@[0].check_type == CheckType::Compliance
    &&& g.criteria@[1].id@ == "tech_2"@ && g.criteria@[1].weight == 2_000 && !g.criteria@[
        1].required && g.criteria@[1].check_type == CheckType::Existence
    &&& g.criteria@[2].id@ == "tech_3"@ && g.criteria@[2].weight == 3_000
        && g.criteria@[2].required && g.criteria@[2].check_type == CheckType::Performance
    &&& g.criteria@[3].id@ == "tech_4"@ && g.criteria@[3].weight == 2_000
        && g.criteria@[3].required && g.criteria@[3].check_type == CheckType::Performance
}

/// The built-in performance gate: response time, memory use and load
/// time, threshold 0.85, weight 0.25.
pub open spec fn default_performance_gate(g: QualityGate) -> bool {
    &&& g.id@ == "mhos_gate_2"@
    &&& g.name@ == "الأداء - MH-OS"@
    &&& g.gate_type == GateType::Performance
    &&& g.threshold == 8_500
    &&& g.weight == 2_500
    &&& g.enabled
    &&& g.auto_run
    &&& g.criteria@.len() == 3
    &&& g.criteria@[0].id@ == "perf_1"@ && g.criteria@[0].weight == 4_000
        && g.criteria@[0].required && g.criteria@[0].check_type == CheckType::Performance
    &&& g.criteria@[1].id@ == "perf_2"@ && g.criteria@[1].weight == 3_000
        && g.criteria@[1].required && g.criteria@[1].check_type == CheckType::Performance
    &&& g.criteria@[2].id@ == "perf_3"@ && g.criteria@[2].weight == 3_000
        && g.criteria@[2].required && g.criteria@[2].check_type == CheckType::Performance
}

/// The built-in security gate: OWASP coverage, data encryption and input
/// validation, threshold 0.9, weight 0.25.
pub open spec fn default_security_gate(g: QualityGate) -> bool {
    &&& g.id@ == "mhos_gate_3"@
    &&& g.name@ == "الأمان - MH-OS"@
    &&& g.gate_type == GateType::Security
    &&& g.threshold == 9_000
    &&& g.weight == 2_500
    &&& g.enabled
    &&& g.auto_run
    &&& g.criteria@.len() == 3
    &&& g.criteria@[0].id@ == "sec_1"@ && g.criteria@[0].weight == 4_000
        && g.criteria@[0].required && g.criteria@[0].check_type == CheckType::Security
    &&& g.criteria@[1].id@ == "sec_2"@ && g.criteria@[1].weight == 3_000
        && g.criteria@[1].required && g.criteria@[1].check_type == CheckType::Existence
    &&& g.criteria@[2].id@ == "sec_3"@ && g.criteria@[2].weight == 3_000
        && g.criteria@[2].required && g.criteria@[2].check_type == CheckType::Security
}

/// The built-in usability gate: user experience, accessibility,
/// responsive design and navigation, threshold 0.75, weight 0.25.
pub open spec fn default_usability_gate(g: QualityGate) -> bool {
    &&& g.id@ == "mhos_gate_4"@
    &&& g.name@ == "قابلية الاستخدام - MH-OS"@
    &&& g.gate_type == GateType::Usability
    &&& g.threshold == 7_500
    &&& g.weight == 2_500
    &&& g.enabled
    &&& g.auto_run
    &&& g.criteria@.len() == 4
    &&& g.criteria@[0].id@ == "usab_1"@ && g.criteria@[0].weight == 3_000
        && g.criteria@[0].required && g.criteria@[0].check_type == CheckType::Content
    &&& g.criteria@[1].id@ == "usab_2"@ && g.criteria@[1].weight == 3_000
        && g.criteria@[1].required && g.criteria@[1].check_type == CheckType::Compliance
    &&& g.criteria@[2].id@ == "usab_3"@ && g.criteria@[2].weight == 2_000
        && g.criteria@[2].required && g.criteria@[2].check_type == CheckType::Compliance
    &&& g.criteria@[3].id@ == "usab_4"@ && g.criteria@[3].weight == 2_000
        && g.criteria@[3].required && g.criteria@[3].check_type == CheckType::Custom
}

impl QualityManager {
    /// A manager holding the four built-in gates — technical,
    /// performance, security and usability — and no reports.
    pub fn new() -> (r: QualityManager)
        ensures
            r.wf(),
            r.reports_view() == Seq::<QualityReport>::empty(),
            r.gates_view().len() == 4,
            default_technical_gate(r.gates_view()[0]),
            default_performance_gate(r.gates_view()[1]),
            default_security_gate(r.gates_view()[2]),
            default_usability_gate(r.gates_view()[3]),
    {
        let technical_gate = QualityGate {
            id: "mhos_gate_1".to_owned(),
            name: "الجودة التقنية - MH-OS".to_owned(),
            description:
                "فحص الجودة التقنية للمنتج (SOLID Principles, Design Patterns, Code Coverage)".to_owned(),
            gate_type: GateType::Technical,
            criteria: vec![
                QualityCriterion {
                    id: "tech_1".to_owned(),
                    name: "مبادئ SOLID".to_owned(),
                    description: "التحقق من تطبيق مبادئ SOLID في الكود".to_owned(),
                    required: true,
                    weight: 3_000,
                    check_type: CheckType::Compliance,
                    parameters: Vec::new(),
                },
                QualityCriterion {
                    id: "tech_2".to_owned(),
                    name: "أنماط التصميم".to_owned(),
                    description: "استخدام أنماط التصميم المناسبة".to_owned(),
                    required: false,
                    weight: 2_000,
                    check_type: CheckType::Existence,
                    parameters: Vec::new(),
                },
                QualityCriterion {
                    id: "tech_3".to_owned(),
                    name: "تغطية الكود".to_owned(),
                    description: "تغطية اختبارات لا تقل عن 80%".to_owned(),
                    required: true,
                    weight: 3_000,
                    check_type: CheckType::Performance,
                    parameters: vec![("min_coverage".to_owned(), 80i64)],
                },
                QualityCriterion {
                    id: "tech_4".to_owned(),
                    name: "التعقيد الدوري".to_owned(),
                    description: "التعقيد الدوري لا يتجاوز 15".to_owned(),
                    required: true,
                    weight: 2_000,
                    check_type: CheckType::Performance,
                    parameters: vec![("max_complexity".to_owned(), 15i64)],
                },
            ],
            threshold: 8_000,
            weight: 2_500,
            enabled: true,
            auto_run: true,
        };
        let performance_gate = QualityGate {
            id: "mhos_gate_2".to_owned(),
            name: "الأداء - MH-OS".to_owned(),
            description:
                "فحص معايير الأداء (سرعة التحميل، استهلاك الذاكرة، وقت الاستجابة)".to_owned(),
            gate_type: GateType::Performance,
            criteria: vec![
                QualityCriterion {
                    id: "perf_1".to_owned(),
                    name: "وقت الاستجابة".to_owned(),
                    description: "وقت الاستجابة أقل من 200ms".to_owned(),
                    required: true,
                    weight: 4_000,
                    check_type: CheckType::Performance,
                    parameters: vec![("max_response_time".to_owned(), 200i64)],
                },
                QualityCriterion {
                    id: "perf_2".to_owned(),
                    name: "استهلاك الذاكرة".to_owned(),
                    description: "استهلاك الذاكرة أقل من 100MB".to_owned(),
                    required: true,
                    weight: 3_000,
                    check_type: CheckType::Performance,
                    parameters: vec![("max_memory".to_owned(), 100i64)],
                },
                QualityCriterion {
                    id: "perf_3".to_owned(),
                    name: "وقت التحميل".to_owned(),
                    description: "وقت التحميل الأولي أقل من 3 ثواني".to_owned(),
                    required: true,
                    weight: 3_000,
                    check_type: CheckType::Performance,
                    parameters: vec![("max_load_time".to_owned(), 3000i64)],
                },
            ],
            threshold: 8_500,
            weight: 2_500,
            enabled: true,
            auto_run: true,
        };
        let security_gate = QualityGate {
            id: "mhos_gate_3".to_owned(),
            name: "الأمان - MH-OS".to_owned(),
            description: "فحص معايير الأمان (OWASP Top 10، التشفير، الحماية)".to_owned(),
            gate_type: GateType::Security,
            criteria: vec![
                QualityCriterion {
                    id: "sec_1".to_owned(),
                    name: "OWASP Top 10".to_owned(),
                    description: "التحقق من تطبيق OWASP Top 10".to_owned(),
                    required: true,
                    weight: 4_000,
                    check_type: CheckType::Security,
                    parameters: Vec::new(),
                },
                QualityCriterion {
                    id: "sec_2".to_owned(),
                    name: "تشفير البيانات".to_owned(),
                    description: "استخدام التشفير المناسب للبيانات الحساسة".to_owned(),
                    required: true,
                    weight: 3_000,
                    check_type: CheckType::Existence,
                    parameters: Vec::new(),
                },
                QualityCriterion {
                    id: "sec_3".to_owned(),
                    name: "التحقق من المدخلات".to_owned(),
                    description: "التحقق من جميع المدخلات وتنظيفها".to_owned(),
                    required: true,
                    weight: 3_000,
                    check_type: CheckType::Security,
                    parameters: Vec::new(),
                },
            ],
            threshold: 9_000,
            weight: 2_500,
            enabled: true,
            auto_run: true,
        };
        let usability_gate = QualityGate {
            id: "mhos_gate_4".to_owned(),
            name: "قابلية الاستخدام - MH-OS".to_owned(),
            description:
                "فحص قابلية الاستخدام (تجربة المستخدم، إمكانية الوصول، التجاوب)".to_owned(),
            gate_type: GateType::Usability,
            criteria: vec![
                QualityCriterion {
                    id: "usab_1".to_owned(),
                    name: "تجربة المستخدم".to_owned(),
                    description: "تقييم تجربة المستخدم (يجب أن تكون 8/10 على الأقل)".to_owned(),
                    required: true,
                    weight: 3_000,
                    check_type: CheckType::Content,
                    parameters: vec![("min_ux_score".to_owned(), 8i64)],
                },
                QualityCriterion {
                    id: "usab_2".to_owned(),
                    name: "إمكانية الوصول".to_owned(),
                    description: "تطبيق معايير WCAG 2.1".to_owned(),
                    required: true,
                    weight: 3_000,
                    check_type: CheckType::Compliance,
                    parameters: Vec::new(),
                },
                QualityCriterion {
                    id: "usab_3".to_owned(),
                    name: "التصميم المتجاوب".to_owned(),
                    description: "العمل على جميع أحجام الشاشات".to_owned(),
                    required: true,
                    weight: 2_000,
                    check_type: CheckType::Compliance,
                    parameters: Vec::new(),
                },
                QualityCriterion {
                    id: "usab_4".to_owned(),
                    name: "سهولة التنقل".to_owned(),
                    description: "تنقل سهل ومباشر".to_owned(),
                    required: true,
                    weight: 2_000,
                    check_type: CheckType::Custom,
                    parameters: Vec::new(),
                },
            ],
            threshold: 7_500,
            weight: 2_500,
            enabled: true,
            auto_run: true,
        };
        let mut gates: Vec<QualityGate> = Vec::new();
        gates.push(technical_gate);
        gates.push(performance_gate);
        gates.push(security_gate);
        gates.push(usability_gate);
        proof {
            reveal_strlit("mhos_gate_1");
            reveal_strlit("mhos_gate_2");
            reveal_strlit("mhos_gate_3");
            reveal_strlit("mhos_gate_4");
            assert("mhos_gate_1"@[10] == '1' && "mhos_gate_2"@[10] == '2'
                && "mhos_gate_3"@[10] == '3' && "mhos_gate_4"@[10] == '4');
            assert("mhos_gate_1"@ != "mhos_gate_2"@);
            assert("mhos_gate_1"@ != "mhos_gate_3"@);
            assert("mhos_gate_1"@ != "mhos_gate_4"@);
            assert("mhos_gate_2"@ != "mhos_gate_3"@);
            assert("mhos_gate_2"@ != "mhos_gate_4"@);
            assert("mhos_gate_3"@ != "mhos_gate_4"@);
            assert(gates_wf(gates@));
        }
        QualityManager { gates, reports: Vec::new() }
    }
}

/// A fresh report identifier: `qr_` followed by a random identifier.
fn make_report_id() -> (r: String)
    ensures
        r@.len() == 39,
        r@.subrange(0, 3) == "qr_"@,
{
    proof {
        reveal_strlit("qr_");
    }
    let u = new_uuid_string();
    let r = "qr_".to_owned().concat(u.as_str());
    proof {
        assert(r@.subrange(0, 3) =~= "qr_"@);
    }
    r
}

/// A prefix without a match followed by a match at `i` pins the first
/// match down to `i`.
proof fn lemma_find_gate_index_at(gates: Seq<QualityGate>, id: Seq<char>, i: int)
    requires
        0 <= i < gates.len(),
        forall|k: int| 0 <= k < i ==> (#[trigger] gates[k]).id@ != id,
        gates[i].id@ == id,
    ensures
        find_gate_index(gates, id) == i,
    decreases i,
{
    if i > 0 {
        assert(forall|k: int|
            0 <= k < gates.len() - 1 ==> #[trigger] gates.drop_first()[k] == gates[k + 1]);
        lemma_find_gate_index_at(gates.drop_first(), id, i - 1);
    }
}

/// A prefix without a match followed by a match at `i` pins the first
/// match down to `i`.
proof fn lemma_find_report_index_at(reports: Seq<QualityReport>, id: Seq<char>, i: int)
    requires
        0 <= i < reports.len(),
        forall|k: int| 0 <= k < i ==> (#[trigger] reports[k]).report_id@ != id,
        reports[i].report_id@ == id,
    ensures
        find_report_index(reports, id) == i,
    decreases i,
{
    if i > 0 {
        assert(forall|k: int|
            0 <= k < reports.len() - 1 ==> #[trigger] reports.drop_first()[k] == reports[k + 1]);
        lemma_find_report_index_at(reports.drop_first(), id, i - 1);
    }
}

/// Replacing a gate by one with the same id keeps the configuration
/// well-formed.
proof fn lemma_gates_wf_update(gates: Seq<QualityGate>, i: int, gate: QualityGate)
    requires
        gates_wf(gates),
        0 <= i < gates.len(),
        gate.wf(),
        gate.id@ == gates[i].id@,
    ensures
        gates_wf(gates.update(i, gate)),
{
    let updated = gates.update(i, gate);
    assert(forall|k: int| 0 <= k < gates.len() && k != i ==> #[trigger] updated[k] == gates[k]);
}

/// Removing a gate keeps the configuration well-formed.
proof fn lemma_gates_wf_remove(gates: Seq<QualityGate>, i: int)
    requires
        gates_wf(gates),
        0 <= i < gates.len(),
    ensures
        gates_wf(gates.remove(i)),
{
    let removed = gates.remove(i);
    assert(forall|k: int| 0 <= k < i ==> #[trigger] removed[k] == gates[k]);
    assert(forall|k: int| i <= k < removed.len() ==> #[trigger] removed[k] == gates[k + 1]);
}

/// A score equal to the threshold passes: the pass rule is `>=`, never
/// a strict comparison.
pub proof fn lemma_pass_at_threshold(g: QualityGate, ms: Seq<Measurement>, r: GateResult)
    requires
        gate_result_matches(g, ms, r),
        gate_score_spec(g, ms) == g.threshold,
    ensures
        r.passed,
{
}

/// A gate whose criteria all have weight zero — in particular a gate
/// with no criteria at all — scores 0; the degenerate case is defined,
/// never an error.
pub proof fn lemma_gate_zero_weights(g: QualityGate, ms: Seq<Measurement>)
    requires
        forall|i: int| 0 <= i < g.criteria@.len() ==> (#[trigger] g.criteria@[i]).weight == 0,
    ensures
        gate_score_spec(g, ms) == 0,
{
    let ps = criteria_pairs(g.criteria@, ms);
    assert(forall|i: int| 0 <= i < ps.len() ==> #[trigger] ps[i].1 == 0);
    crate::score::lemma_weighted_mean_zero_weights(ps);
}

/// A configuration with no enabled gate has overall score 0; the
/// degenerate case is defined, never an error.
pub proof fn lemma_no_enabled_gates(gates: Seq<QualityGate>, ms: Seq<Measurement>)
    requires
        forall|i: int| 0 <= i < gates.len() ==> !(#[trigger] gates[i]).enabled,
    ensures
        enabled_gates(gates).len() == 0,
        overall_score_spec(gates, ms) == 0,
    decreases gates.len(),
{
    if gates.len() > 0 {
        assert(forall|i: int|
            0 <= i < gates.len() - 1 ==> #[trigger] gates.drop_last()[i] == gates[i]);
        lemma_no_enabled_gates(gates.drop_last(), ms);
    }
}

/// Mapping criteria to their score pairs respects reordering: two
/// criteria lists holding the same criteria (as a multiset) yield the
/// same multiset of pairs.
proof fn lemma_criteria_pairs_multiset(
    cs1: Seq<QualityCriterion>,
    cs2: Seq<QualityCriterion>,
    ms: Seq<Measurement>,
)
    requires
        cs1.to_multiset() == cs2.to_multiset(),
    ensures
        criteria_pairs(cs1, ms).to_multiset() == criteria_pairs(cs2, ms).to_multiset(),
    decreases cs1.len(),
{
    broadcast use vstd::seq_lib::group_to_multiset_ensures;

    if cs1.len() == 0 {
        assert(cs2.to_multiset().len() == 0);
        assert(criteria_pairs(cs1, ms) =~= criteria_pairs(cs2, ms));
    } else {
        let c = cs1.last();
        let fc = (criterion_score_spec(c, ms), c.weight);
        assert(cs1.contains(c));
        assert(cs1.to_multiset().count(c) > 0);
        assert(cs2.contains(c));
        let i = cs2.index_of(c);
        assert(0 <= i < cs2.len() && cs2[i] == c);
        assert(cs1.drop_last() =~= cs1.remove(cs1.len() - 1));
        assert(cs1.drop_last().to_multiset() =~= cs2.remove(i).to_multiset());
        lemma_criteria_pairs_multiset(cs1.drop_last(), cs2.remove(i), ms);
        let p1 = criteria_pairs(cs1, ms);
        let p2 = criteria_pairs(cs2, ms);
        assert(p1 =~= criteria_pairs(cs1.drop_last(), ms).push(fc));
        assert(p2.remove(i) =~= criteria_pairs(cs2.remove(i), ms));
        assert(p1.to_multiset() =~= criteria_pairs(cs1.drop_last(), ms).to_multiset().insert(fc));
        assert(p2[i] == fc);
        assert(p2.remove(i).to_multiset() =~= p2.to_multiset().remove(fc));
        assert(p2.contains(fc));
        assert(p2.to_multiset().count(fc) > 0);
        assert(p2.to_multiset().remove(fc).insert(fc) =~= p2.to_multiset());
        assert(p1.to_multiset() =~= p2.to_multiset());
    }
}

/// Weight normalization is order-free per gate: two gates whose
/// criteria lists hold the same criteria, in any order, earn the same
/// score from the same measurements.
pub proof fn lemma_gate_score_reorder(g1: QualityGate, g2: QualityGate, ms: Seq<Measurement>)
    requires
        g1.criteria@.to_multiset() == g2.criteria@.to_multiset(),
    ensures
        gate_score_spec(g1, ms) == gate_score_spec(g2, ms),
{
    lemma_criteria_pairs_multiset(g1.criteria@, g2.criteria@, ms);
    crate::score::lemma_weighted_mean_permutation(
        criteria_pairs(g1.criteria@, ms),
        criteria_pairs(g2.criteria@, ms),
    );
}

/// Two measurement lists that agree everywhere except that one entry's
/// score differs (same criterion id, same verdict, same position).
pub open spec fn measurements_raised_at(
    ms1: Seq<Measurement>,
    ms2: Seq<Measurement>,
    j: int,
) -> bool {
    &&& 0 <= j < ms1.len()
    &&& ms2.len() == ms1.len()
    &&& forall|k: int| 0 <= k < ms1.len() && k != j ==> ms1[k] == #[trigger] ms2[k]
    &&& ms2[j].criterion_id@ == ms1[j].criterion_id@
    &&& ms2[j].passed == ms1[j].passed
    &&& ms1[j].score <= ms2[j].score
    &&& ms2[j].score <= SCALE
}

/// Raising one measurement's score moves every lookup result either not
/// at all or from the old entry to the raised entry.
proof fn lemma_lookup_raised(
    ms1: Seq<Measurement>,
    ms2: Seq<Measurement>,
    j: int,
    id: Seq<char>,
)
    requires
        measurements_raised_at(ms1, ms2, j),
    ensures
        lookup_measurement(ms2, id) == lookup_measurement(ms1, id) || (lookup_measurement(
            ms1,
            id,
        ) == Some(ms1[j]) && lookup_measurement(ms2, id) == Some(ms2[j])),
    decreases ms1.len(),
{
    if j == 0 {
        if ms1.first().criterion_id@ == id {
        } else {
            assert(ms1.drop_first() =~= ms2.drop_first());
        }
    } else {
        assert(ms1.first() == ms2.first());
        if ms1.first().criterion_id@ == id {
        } else {
            let t1 = ms1.drop_first();
            let t2 = ms2.drop_first();
            assert(forall|k: int| 0 <= k < t1.len() && k != j - 1 ==> t1[k] == #[trigger] t2[k]);
            assert(t1[j - 1] == ms1[j] && t2[j - 1] == ms2[j]);
            lemma_lookup_raised(t1, t2, j - 1, id);
        }
    }
}

/// Raising one measurement's score never lowers any criterion's score.
proof fn lemma_criterion_score_raised(
    c: QualityCriterion,
    ms1: Seq<Measurement>,
    ms2: Seq<Measurement>,
    j: int,
)
    requires
        measurements_raised_at(ms1, ms2, j),
    ensures
        criterion_score_spec(c, ms1) <= criterion_score_spec(c, ms2),
{
    lemma_lookup_raised(ms1, ms2, j, c.id@);
}

/// Threshold monotonicity per gate: increasing one criterion's
/// measured score, all else fixed, never decreases a gate's score.
pub proof fn lemma_gate_score_monotone(
    g: QualityGate,
    ms1: Seq<Measurement>,
    ms2: Seq<Measurement>,
    j: int,
)
    requires
        g.wf(),
        measurements_raised_at(ms1, ms2, j),
    ensures
        gate_score_spec(g, ms1) <= gate_score_spec(g, ms2),
{
    let p1 = criteria_pairs(g.criteria@, ms1);
    let p2 = criteria_pairs(g.criteria@, ms2);
    assert forall|k: int| 0 <= k < p1.len() implies #[trigger] p1[k].1 == p2[k].1 by {
        lemma_criterion_score_raised(g.criteria@[k], ms1, ms2, j);
    }
    assert forall|k: int| 0 <= k < p1.len() implies #[trigger] p1[k].0 <= p2[k].0 by {
        lemma_criterion_score_raised(g.criteria@[k], ms1, ms2, j);
    }
    crate::score::lemma_weighted_mean_monotone(p1, p2);
    lemma_gate_score_is_weighted_mean(g, ms1);
    lemma_gate_score_is_weighted_mean(g, ms2);
}

/// Threshold monotonicity at the report level: increasing one
/// criterion's measured score, all else fixed, never decreases the
/// overall score.
pub proof fn lemma_overall_score_monotone(
    gates: Seq<QualityGate>,
    ms1: Seq<Measurement>,
    ms2: Seq<Measurement>,
    j: int,
)
    requires
        gates_wf(gates),
        measurements_raised_at(ms1, ms2, j),
    ensures
        overall_score_spec(gates, ms1) <= overall_score_spec(gates, ms2),
{
    let p1 = overall_pairs(gates, ms1);
    let p2 = overall_pairs(gates, ms2);
    lemma_enabled_gates_are_gates(gates);
    assert forall|k: int| 0 <= k < p1.len() implies #[trigger] p1[k].1 == p2[k].1 by {
        assert(enabled_gates(gates)[k] == enabled_gates(gates)[k]);
    }
    assert forall|k: int| 0 <= k < p1.len() implies #[trigger] p1[k].0 <= p2[k].0 by {
        let g = enabled_gates(gates)[k];
        let w = choose|w: int| 0 <= w < gates.len() && enabled_gates(gates)[k] == gates[w];
        assert(g.wf());
        lemma_gate_score_monotone(g, ms1, ms2, j);
        lemma_gate_score_is_weighted_mean(g, ms1);
        lemma_gate_score_is_weighted_mean(g, ms2);
    }
    crate::score::lemma_weighted_mean_monotone(p1, p2);
    lemma_overall_score_is_weighted_mean(gates, ms1);
    lemma_overall_score_is_weighted_mean(gates, ms2);
}

/// Disabled-gate exclusion: a disabled gate contributes to neither the
/// numerator nor the denominator of the overall score — removing it
/// from the configuration changes nothing.
pub proof fn lemma_disabled_gate_excluded(
    gates: Seq<QualityGate>,
    i: int,
    ms: Seq<Measurement>,
)
    requires
        0 <= i < gates.len(),
        !gates[i].enabled,
    ensures
        enabled_gates(gates.remove(i)) == enabled_gates(gates),
        overall_score_spec(gates.remove(i), ms) == overall_score_spec(gates, ms),
    decreases gates.len(),
{
    if i == gates.len() - 1 {
        assert(gates.remove(i) =~= gates.drop_last());
    } else {
        let dl = gates.drop_last();
        assert(dl[i] == gates[i]);
        lemma_disabled_gate_excluded(dl, i, ms);
        assert(gates.remove(i).drop_last() =~= dl.remove(i));
        assert(gates.remove(i).last() == gates.last());
    }
    assert(overall_pairs(gates.remove(i), ms) =~= overall_pairs(gates, ms));
}

/// Disabling a gate is the same as removing it: the overall score of the
/// configuration with one gate switched off equals the overall score of
/// the configuration without that gate.  Together with
/// [`lemma_report_deterministic`], re-enabling it and re-running
/// reproduces the prior score exactly.
pub proof fn lemma_disable_gate(
    gates: Seq<QualityGate>,
    i: int,
    disabled: QualityGate,
    ms: Seq<Measurement>,
)
    requires
        0 <= i < gates.len(),
        !disabled.enabled,
    ensures
        overall_score_spec(gates.update(i, disabled), ms) == overall_score_spec(
            gates.remove(i),
            ms,
        ),
{
    let updated = gates.update(i, disabled);
    lemma_disabled_gate_excluded(updated, i, ms);
    assert(updated.remove(i) =~= gates.remove(i));
}

/// Idempotence: two reports drawn from the same configuration and the
/// same entity data agree on the overall score, the verdict, and every
/// per-gate and per-criterion outcome; only report identity and
/// timestamps may differ.
pub proof fn lemma_report_deterministic(
    gates: Seq<QualityGate>,
    ms: Seq<Measurement>,
    r1: QualityReport,
    r2: QualityReport,
)
    requires
        report_matches(gates, ms, r1),
        report_matches(gates, ms, r2),
    ensures
        r1.overall_score == r2.overall_score,
        r1.passed == r2.passed,
        r1.gate_results@.len() == r2.gate_results@.len(),
        forall|i: int|
            0 <= i < r1.gate_results@.len() ==> {
                let a = #[trigger] r1.gate_results@[i];
                let b = r2.gate_results@[i];
                &&& a.gate_id@ == b.gate_id@
                &&& a.gate_name@ == b.gate_name@
                &&& a.score == b.score
                &&& a.passed == b.passed
                &&& string_views(a.recommendations@) == string_views(b.recommendations@)
                &&& a.details@.len() == b.details@.len()
                &&& forall|j: int|
                    0 <= j < a.details@.len() ==> {
                        let ca = #[trigger] a.details@[j];
                        let cb = b.details@[j];
                        &&& ca.criterion_id@ == cb.criterion_id@
                        &&& ca.score == cb.score
                        &&& ca.passed == cb.passed
                        &&& ca.message@ == cb.message@
                    }
            },
{
    assert forall|i: int| 0 <= i < r1.gate_results@.len() implies {
        let a = #[trigger] r1.gate_results@[i];
        let b = r2.gate_results@[i];
        &&& a.gate_id@ == b.gate_id@
        &&& a.gate_name@ == b.gate_name@
        &&& a.score == b.score
        &&& a.passed == b.passed
        &&& string_views(a.recommendations@) == string_views(b.recommendations@)
        &&& a.details@.len() == b.details@.len()
        &&& forall|j: int|
            0 <= j < a.details@.len() ==> {
                let ca = #[trigger] a.details@[j];
                let cb = b.details@[j];
                &&& ca.criterion_id@ == cb.criterion_id@
                &&& ca.score == cb.score
                &&& ca.passed == cb.passed
                &&& ca.message@ == cb.message@
            }
    } by {
        let g = enabled_gates(gates)[i];
        assert(gate_result_matches(g, ms, r1.gate_results@[i]));
        assert(gate_result_matches(g, ms, r2.gate_results@[i]));
    }
}

/// The health of the whole system.
#[derive(Debug, Clone, Copy, PartialEq, Eq, Structural)]
pub enum SystemHealth {
    Excellent,
    Good,
    Fair,
    Poor,
    Critical,
}

/// The display name of each system health grade.
pub open spec fn system_health_str_spec(s: SystemHealth) -> Seq<char> {
    match s {
        SystemHealth::Excellent => "ممتاز"@,
        SystemHealth::Good => "جيد"@,
        SystemHealth::Fair => "متوسط"@,
        SystemHealth::Poor => "ضعيف"@,
        SystemHealth::Critical => "حرج"@,
    }
}

impl SystemHealth {
    /// The display name of this health grade.
    pub fn as_str(&self) -> (r: &'static str)
        ensures
            r@ == system_health_str_spec(*self),
    {
        match self {
            SystemHealth::Excellent => "ممتاز",
            SystemHealth::Good => "جيد",
            SystemHealth::Fair => "متوسط",
            SystemHealth::Poor => "ضعيف",
            SystemHealth::Critical => "حرج",
        }
    }
}

} // verus!
