//! The dashboard/monitor vocabulary and the knowledge-base assistant.

use vstd::prelude::*;

use crate::score::SCALE;
use crate::text::str_eq;

verus! {

/// What a dashboard widget shows.
#[derive(Debug, Clone, Copy, PartialEq, Eq, Structural)]
pub enum WidgetType {
    PerformanceChart,
    QualityGauge,
    FactoryStatus,
    ProductionStats,
    SystemHealth,
    RecentActivity,
    Alerts,
    Recommendations,
}

/// Where a widget sits on the dashboard grid.
#[derive(Debug, Clone)]
pub struct WidgetPosition {
    pub widget_id: String,
    pub col: u32,
    pub row: u32,
    pub width: u32,
    pub height: u32,
}

/// The dashboard grid and the widgets placed on it.
#[derive(Debug, Clone)]
pub struct DashboardLayout {
    pub columns: u32,
    pub rows: u32,
    pub widgets: Vec<WidgetPosition>,
}

/// How severe an alert is.
#[derive(Debug, Clone, Copy, PartialEq, Eq, Structural)]
pub enum AlertSeverity {
    Info,
    Warning,
    Error,
    Critical,
}

/// The display name of each alert severity.
pub open spec fn alert_severity_str_spec(s: AlertSeverity) -> Seq<char> {
    match s {
        AlertSeverity::Info => "معلومات"@,
        AlertSeverity::Warning => "تحذير"@,
        AlertSeverity::Error => "خطأ"@,
        AlertSeverity::Critical => "حرج"@,
    }
}

impl AlertSeverity {
    /// The display name of this severity.
    pub fn severity_level(&self) -> (r: &'static str)
        ensures
            r@ == alert_severity_str_spec(*self),
    {
        match self {
            AlertSeverity::Info => "معلومات",
            AlertSeverity::Warning => "تحذير",
            AlertSeverity::Error => "خطأ",
            AlertSeverity::Critical => "حرج",
        }
    }
}

/// What part of the system an optimization targets.
#[derive(Debug, Clone, Copy, PartialEq, Eq, Structural)]
pub enum OptimizationArea {
    Performance,
    Memory,
    Quality,
    Efficiency,
    Security,
}

/// The summary verdict of a whole quality pass.
#[derive(Debug, Clone, Copy, PartialEq, Eq, Structural)]
pub enum QualityStatus {
    Excellent,
    Good,
    Warning,
    Failed,
}

/// The summary verdict earned by an overall score (in units of
/// [`SCALE`]) and a gate pass rate: excellent above 0.95 on both,
/// good above 0.85, a warning above 0.7, failed otherwise.  With no
/// gates at all the verdict is failed.
pub open spec fn quality_status_spec(score: u32, passed: int, total: int) -> QualityStatus {
    if score > 9_500 && passed * SCALE > 9_500 * total && total > 0 {
        QualityStatus::Excellent
    } else if score > 8_500 && passed * SCALE > 8_500 * total && total > 0 {
        QualityStatus::Good
    } else if score > 7_000 && passed * SCALE > 7_000 * total && total > 0 {
        QualityStatus::Warning
    } else {
        QualityStatus::Failed
    }
}

/// The summary verdict of a quality pass in which `passed_gates` of
/// `total_gates` gates passed and the overall score was
/// `overall_score`.
pub fn determine_quality_status(overall_score: u32, passed_gates: usize, total_gates: usize) -> (r:
    QualityStatus)
    ensures
        r == quality_status_spec(overall_score, passed_gates as int, total_gates as int),
{
    let p = passed_gates as u128;
    let t = total_gates as u128;
    if overall_score > 9_500 && p * 10_000 > 9_500 * t && total_gates > 0 {
        QualityStatus::Excellent
    } else if overall_score > 8_500 && p * 10_000 > 8_500 * t && total_gates > 0 {
        QualityStatus::Good
    } else if overall_score > 7_000 && p * 10_000 > 7_000 * t && total_gates > 0 {
        QualityStatus::Warning
    } else {
        QualityStatus::Failed
    }
}

/// A small knowledge base: advice texts looked up by topic.
pub struct AIAssistant {
    knowledge_base: Vec<(String, String)>,
}

/// The advice most recently recorded for a topic, if any.
pub open spec fn advice_for(kb: Seq<(String, String)>, topic: Seq<char>) -> Option<Seq<char>>
    decreases kb.len(),
{
    if kb.len() == 0 {
        None
    } else if kb.last().0@ == topic {
        Some(kb.last().1@)
    } else {
        advice_for(kb.drop_last(), topic)
    }
}

impl AIAssistant {
    /// The stored topic/advice pairs, in insertion order.
    pub closed spec fn knowledge_view(self) -> Seq<(String, String)> {
        self.knowledge_base@
    }

    /// An assistant preloaded with advice on optimization, quality and
    /// troubleshooting.
    pub fn new() -> (r: AIAssistant)
        ensures
            r.knowledge_view().len() == 3,
            advice_for(r.knowledge_view(), "optimization"@) == Some(
                "لتحسين الأداء: 1. تحسين الخوارزميات 2. تحسين الذاكرة 3. موازنة الأحمال"@,
            ),
            advice_for(r.knowledge_view(), "quality"@) == Some(
                "لتحسين الجودة: 1. فحص المدخلات 2. تحسين المعالجة 3. اختبار المخرجات"@,
            ),
            advice_for(r.knowledge_view(), "troubleshooting"@) == Some(
                "لحل المشاكل: 1. التحقق من السجلات 2. اختبار المكونات 3. استعادة النسخ الاحتياطية"@,
            ),
    {
        let mut knowledge_base: Vec<(String, String)> = Vec::new();
        knowledge_base.push(
            (
                "optimization".to_owned(),
                "لتحسين الأداء: 1. تحسين الخوارزميات 2. تحسين الذاكرة 3. موازنة الأحمال".to_owned(),
            ),
        );
        knowledge_base.push(
            (
                "quality".to_owned(),
                "لتحسين الجودة: 1. فحص المدخلات 2. تحسين المعالجة 3. اختبار المخرجات".to_owned(),
            ),
        );
        knowledge_base.push(
            (
                "troubleshooting".to_owned(),
                "لحل المشاكل: 1. التحقق من السجلات 2. اختبار المكونات 3. استعادة النسخ الاحتياطية".to_owned(),
            ),
        );
        proof {
            reveal_strlit("optimization");
            reveal_strlit("quality");
            reveal_strlit("troubleshooting");
            assert("optimization"@.len() == 12);
            assert("quality"@.len() == 7);
            assert("troubleshooting"@.len() == 15);
            assert("optimization"@ != "quality"@);
            assert("optimization"@ != "troubleshooting"@);
            assert("quality"@ != "troubleshooting"@);
            let kb = knowledge_base@;
            assert(kb.drop_last().drop_last().drop_last() =~= Seq::<(String, String)>::empty());
            assert(kb.drop_last().last() == kb[1]);
            assert(kb.drop_last().drop_last().last() == kb[0]);
            assert(advice_for(kb, "optimization"@) == advice_for(
                kb.drop_last(),
                "optimization"@,
            ));
            assert(advice_for(kb.drop_last(), "optimization"@) == advice_for(
                kb.drop_last().drop_last(),
                "optimization"@,
            ));
            assert(advice_for(kb.drop_last().drop_last(), "optimization"@) == Some(kb[0].1@));
            assert(advice_for(kb, "quality"@) == advice_for(kb.drop_last(), "quality"@));
            assert(advice_for(kb.drop_last(), "quality"@) == Some(kb[1].1@));
            assert(advice_for(kb, "troubleshooting"@) == Some(kb[2].1@));
        }
        AIAssistant { knowledge_base }
    }

    /// The advice recorded for `topic`, if any.
    pub fn get_advice(&self, topic: &str) -> (r: Option<String>)
        ensures
            match r {
                Some(a) => advice_for(self.knowledge_view(), topic@) == Some(a@),
                None => advice_for(self.knowledge_view(), topic@) is None,
            },
    {
        let ghost kb = self.knowledge_base@;
        let mut i: usize = self.knowledge_base.len();
        proof {
            assert(kb.take(kb.len() as int) =~= kb);
        }
        while i > 0
            invariant
                0 <= i <= kb.len(),
                kb == self.knowledge_base@,
                advice_for(kb, topic@) == advice_for(kb.take(i as int), topic@),
            decreases i,
        {
            let j = i - 1;
            if str_eq(self.knowledge_base[j].0.as_str(), topic) {
                proof {
                    assert(kb.take(i as int).last() == kb[j as int]);
                }
                return Some(self.knowledge_base[j].1.clone());
            }
            proof {
                assert(kb.take(i as int).drop_last() =~= kb.take(j as int));
            }
            i = j;
        }
        None
    }

    /// Records advice for a topic.  Advice recorded later for the same
    /// topic overrides what was recorded before.
    pub fn learn(&mut self, topic: String, advice: String)
        ensures
            final(self).knowledge_view() == old(self).knowledge_view().push((topic, advice)),
    {
        self.knowledge_base.push((topic, advice));
    }
}

} // verus!
