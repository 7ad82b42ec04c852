use marwan_factories::quality::{
    evaluate_criterion, generate_recommendations, CheckType, EntityData, GateType, Measurement,
    QualityConfigError, QualityCriterion, QualityGate, QualityManager, SystemHealth,
};

fn criterion(id: &str, weight: u32) -> QualityCriterion {
    QualityCriterion {
        id: id.to_string(),
        name: id.to_string(),
        description: String::new(),
        required: true,
        weight,
        check_type: CheckType::Custom,
        parameters: Vec::new(),
    }
}

fn gate(id: &str, threshold: u32, weight: u32, enabled: bool, criteria: Vec<QualityCriterion>) -> QualityGate {
    QualityGate {
        id: id.to_string(),
        name: id.to_string(),
        description: String::new(),
        gate_type: GateType::Technical,
        criteria,
        threshold,
        weight,
        enabled,
        auto_run: true,
    }
}

fn measurement(id: &str, score: u32, passed: bool) -> Measurement {
    Measurement { criterion_id: id.to_string(), score, passed }
}

fn empty_manager() -> QualityManager {
    let mut manager = QualityManager::new();
    assert!(manager.remove_gate("mhos_gate_1"));
    assert!(manager.remove_gate("mhos_gate_2"));
    assert!(manager.remove_gate("mhos_gate_3"));
    assert!(manager.remove_gate("mhos_gate_4"));
    manager
}

#[test]
fn test_gate_type_display() {
    assert_eq!(GateType::Technical.display_name(), "الجودة التقنية");
    assert_eq!(GateType::Security.as_str(), "security");
}

#[test]
fn test_quality_manager_initialization() {
    let manager = QualityManager::new();
    let gates = manager.list_gates();

    assert_eq!(gates.len(), 4);
    assert!(gates.iter().any(|g| g.name.contains("الجودة التقنية")));
    assert!(gates.iter().any(|g| g.name.contains("الأداء")));
}

#[test]
fn test_technical_gate_weighted_mean() {
    // criteria weights 0.3, 0.2, 0.3, 0.2 and scores 1.0, 1.0, 0.5, 1.0
    // give (0.3 + 0.2 + 0.15 + 0.2) / 1.0 = 0.85; threshold 0.8 passes
    let mut manager = empty_manager();
    let g = gate(
        "technical",
        8_000,
        2_500,
        true,
        vec![
            criterion("c1", 3_000),
            criterion("c2", 2_000),
            criterion("c3", 3_000),
            criterion("c4", 2_000),
        ],
    );
    assert!(manager.add_gate(g).is_ok());
    let data = EntityData {
        measurements: vec![
            measurement("c1", 10_000, true),
            measurement("c2", 10_000, true),
            measurement("c3", 5_000, false),
            measurement("c4", 10_000, true),
        ],
    };
    let report = manager.run_quality_check("entity", "product", &data);
    assert_eq!(report.gate_results.len(), 1);
    assert_eq!(report.gate_results[0].score, 8_500);
    assert!(report.gate_results[0].passed);
    assert_eq!(report.overall_score, 8_500);
    assert!(report.passed);
}

#[test]
fn test_two_gate_overall_score() {
    // two enabled gates of weight 0.25 each, scoring 0.85 and 0.6:
    // overall = (0.85 * 0.25 + 0.6 * 0.25) / 0.5 = 0.725 < 0.8 fails
    let mut manager = empty_manager();
    let g1 = gate("g1", 8_000, 2_500, true, vec![criterion("a", 10_000)]);
    let g2 = gate("g2", 8_000, 2_500, true, vec![criterion("b", 10_000)]);
    assert!(manager.add_gate(g1).is_ok());
    assert!(manager.add_gate(g2).is_ok());
    let data = EntityData {
        measurements: vec![measurement("a", 8_500, true), measurement("b", 6_000, false)],
    };
    let report = manager.run_quality_check("entity", "product", &data);
    assert_eq!(report.overall_score, 7_250);
    assert!(!report.passed);
}

#[test]
fn test_no_enabled_gates_report() {
    // zero enabled gates: overall score 0, failed, report still produced
    let manager = empty_manager();
    let data = EntityData { measurements: Vec::new() };
    let report = manager.run_quality_check("entity", "product", &data);
    assert_eq!(report.overall_score, 0);
    assert!(!report.passed);
    assert!(report.gate_results.is_empty());
    assert!(report.report_id.starts_with("qr_"));
    assert_eq!(report.entity_id, "entity");
    assert_eq!(report.entity_type, "product");
    assert_eq!(report.generated_by, "MH-OS v2.2");
    assert_eq!(report.mhos_version, "2.2.0");
}

#[test]
fn test_zero_weight_criteria_score_zero() {
    let mut manager = empty_manager();
    let g = gate("g", 0, 2_500, true, vec![criterion("a", 0), criterion("b", 0)]);
    assert!(manager.add_gate(g).is_ok());
    let data = EntityData {
        measurements: vec![measurement("a", 10_000, true), measurement("b", 10_000, true)],
    };
    let report = manager.run_quality_check("entity", "product", &data);
    assert_eq!(report.gate_results[0].score, 0);
    // threshold 0 is met by the zero score: >= keeps it passing
    assert!(report.gate_results[0].passed);
}

#[test]
fn test_gate_with_no_criteria_scores_zero() {
    let mut manager = empty_manager();
    let g = gate("g", 5_000, 2_500, true, Vec::new());
    assert!(manager.add_gate(g).is_ok());
    let data = EntityData { measurements: Vec::new() };
    let report = manager.run_quality_check("entity", "product", &data);
    assert_eq!(report.gate_results[0].score, 0);
    assert!(!report.gate_results[0].passed);
    assert_eq!(report.overall_score, 0);
}

#[test]
fn test_score_equal_to_threshold_passes() {
    let mut manager = empty_manager();
    let g = gate("g", 8_500, 2_500, true, vec![criterion("a", 10_000)]);
    assert!(manager.add_gate(g).is_ok());
    let data = EntityData { measurements: vec![measurement("a", 8_500, true)] };
    let report = manager.run_quality_check("entity", "product", &data);
    assert_eq!(report.gate_results[0].score, 8_500);
    assert!(report.gate_results[0].passed);
}

#[test]
fn test_criteria_reorder_keeps_score() {
    let mut m1 = empty_manager();
    let mut m2 = empty_manager();
    let c = vec![criterion("a", 3_000), criterion("b", 7_000)];
    let c_rev = vec![criterion("b", 7_000), criterion("a", 3_000)];
    assert!(m1.add_gate(gate("g", 8_000, 2_500, true, c)).is_ok());
    assert!(m2.add_gate(gate("g", 8_000, 2_500, true, c_rev)).is_ok());
    let data = EntityData {
        measurements: vec![measurement("a", 9_000, true), measurement("b", 4_000, false)],
    };
    let r1 = m1.run_quality_check("e", "t", &data);
    let r2 = m2.run_quality_check("e", "t", &data);
    assert_eq!(r1.gate_results[0].score, r2.gate_results[0].score);
    assert_eq!(r1.overall_score, r2.overall_score);
}

#[test]
fn test_disabled_gate_excluded() {
    let mut with_disabled = empty_manager();
    let mut without = empty_manager();
    let g1 = gate("g1", 8_000, 2_500, true, vec![criterion("a", 10_000)]);
    let bad = gate("g2", 8_000, 9_000, false, vec![criterion("b", 10_000)]);
    assert!(with_disabled.add_gate(g1.clone()).is_ok());
    assert!(with_disabled.add_gate(bad).is_ok());
    assert!(without.add_gate(g1).is_ok());
    let data = EntityData {
        measurements: vec![measurement("a", 9_000, true), measurement("b", 1_000, false)],
    };
    let r1 = with_disabled.run_quality_check("e", "t", &data);
    let r2 = without.run_quality_check("e", "t", &data);
    assert_eq!(r1.gate_results.len(), 1);
    assert_eq!(r1.overall_score, r2.overall_score);
    assert_eq!(r1.overall_score, 9_000);

    // re-enabling reproduces the score the two-gate configuration earns
    let enabled = gate("g2", 8_000, 9_000, true, vec![criterion("b", 10_000)]);
    assert!(with_disabled.add_gate(enabled).is_ok());
    let r3 = with_disabled.run_quality_check("e", "t", &data);
    // (0.9 * 0.25 + 0.1 * 0.9) / 1.15 = 0.273913...
    assert_eq!(r3.overall_score, 2_739);
}

#[test]
fn test_same_input_same_scores() {
    let manager = QualityManager::new();
    let data = EntityData {
        measurements: vec![
            measurement("tech_1", 9_000, true),
            measurement("tech_2", 8_000, true),
            measurement("tech_3", 7_000, false),
            measurement("tech_4", 6_000, false),
            measurement("perf_1", 9_500, true),
            measurement("perf_2", 9_000, true),
            measurement("perf_3", 8_500, true),
            measurement("sec_1", 9_900, true),
            measurement("sec_2", 9_800, true),
            measurement("sec_3", 9_700, true),
            measurement("usab_1", 8_000, true),
            measurement("usab_2", 7_500, true),
            measurement("usab_3", 7_000, false),
            measurement("usab_4", 6_500, false),
        ],
    };
    let r1 = manager.run_quality_check("entity", "product", &data);
    let r2 = manager.run_quality_check("entity", "product", &data);
    assert_eq!(r1.overall_score, r2.overall_score);
    assert_eq!(r1.passed, r2.passed);
    assert_eq!(r1.gate_results.len(), r2.gate_results.len());
    for (a, b) in r1.gate_results.iter().zip(r2.gate_results.iter()) {
        assert_eq!(a.gate_id, b.gate_id);
        assert_eq!(a.score, b.score);
        assert_eq!(a.passed, b.passed);
        assert_eq!(a.recommendations, b.recommendations);
    }
    // identities differ even when the scores agree
    assert_ne!(r1.report_id, r2.report_id);
}

#[test]
fn test_raising_a_score_never_lowers_the_overall() {
    let manager = QualityManager::new();
    let base = vec![
        measurement("tech_1", 5_000, false),
        measurement("tech_2", 5_000, false),
        measurement("tech_3", 5_000, false),
        measurement("tech_4", 5_000, false),
        measurement("perf_1", 5_000, false),
        measurement("perf_2", 5_000, false),
        measurement("perf_3", 5_000, false),
        measurement("sec_1", 5_000, false),
        measurement("sec_2", 5_000, false),
        measurement("sec_3", 5_000, false),
        measurement("usab_1", 5_000, false),
        measurement("usab_2", 5_000, false),
        measurement("usab_3", 5_000, false),
        measurement("usab_4", 5_000, false),
    ];
    let low = manager.run_quality_check("e", "t", &EntityData { measurements: base.clone() });
    let mut raised = base;
    raised[2] = measurement("tech_3", 9_000, false);
    let high = manager.run_quality_check("e", "t", &EntityData { measurements: raised });
    assert!(high.overall_score >= low.overall_score);
}

#[test]
fn test_missing_measurement_scores_zero() {
    let c = criterion("absent", 5_000);
    let data = EntityData { measurements: Vec::new() };
    let result = evaluate_criterion(&c, &data);
    assert_eq!(result.score, 0);
    assert!(!result.passed);
    assert_eq!(result.message, "⚠️ تعذر تقييم المعيار");
    assert_eq!(result.criterion_id, "absent");
}

#[test]
fn test_out_of_range_measurement_scores_zero() {
    let c = criterion("c", 5_000);
    let data = EntityData { measurements: vec![measurement("c", 10_001, true)] };
    let result = evaluate_criterion(&c, &data);
    assert_eq!(result.score, 0);
    assert!(!result.passed);
    assert_eq!(result.message, "⚠️ تعذر تقييم المعيار");
}

#[test]
fn test_evaluate_criterion_messages() {
    let c = criterion("c", 5_000);
    let ok = evaluate_criterion(
        &c,
        &EntityData { measurements: vec![measurement("c", 9_000, true)] },
    );
    assert_eq!(ok.score, 9_000);
    assert!(ok.passed);
    assert_eq!(ok.message, "✅ اجتاز الاختبار");

    let bad = evaluate_criterion(
        &c,
        &EntityData { measurements: vec![measurement("c", 4_000, false)] },
    );
    assert_eq!(bad.score, 4_000);
    assert!(!bad.passed);
    assert_eq!(bad.message, "❌ لم يجتز الاختبار");
}

#[test]
fn test_recommendations_by_score() {
    assert_eq!(
        generate_recommendations(false, 4_000),
        vec![
            "تحسين الجودة لتجاوز الحد الأدنى المطلوب".to_string(),
            "مراجعة شاملة للمنتج وإعادة التصميم إذا لزم الأمر".to_string(),
        ]
    );
    assert_eq!(
        generate_recommendations(false, 6_000),
        vec![
            "تحسين الجودة لتجاوز الحد الأدنى المطلوب".to_string(),
            "تحسين النقاط الضعيفة في المنتج".to_string(),
        ]
    );
    assert_eq!(
        generate_recommendations(false, 7_500),
        vec![
            "تحسين الجودة لتجاوز الحد الأدنى المطلوب".to_string(),
            "تحسينات طفيفة لتجاوز الحد الأدنى".to_string(),
        ]
    );
    assert_eq!(
        generate_recommendations(true, 9_200),
        vec!["✅ الجودة ممتازة - يمكن المضي قدماً".to_string()]
    );
    assert_eq!(
        generate_recommendations(true, 8_500),
        vec!["👌 الجودة جيدة - بعض التحسينات الطفيفة ممكنة".to_string()]
    );
    assert_eq!(generate_recommendations(true, 7_800), Vec::<String>::new());
}

#[test]
fn test_add_gate_rejects_malformed() {
    let mut manager = empty_manager();
    let bad_threshold = gate("g", 10_001, 2_500, true, Vec::new());
    assert_eq!(
        manager.add_gate(bad_threshold),
        Err(QualityConfigError::ThresholdOutOfRange)
    );
    let bad_weight = gate("g", 8_000, 10_001, true, Vec::new());
    assert_eq!(
        manager.add_gate(bad_weight),
        Err(QualityConfigError::WeightOutOfRange)
    );
    let bad_criterion = gate("g", 8_000, 2_500, true, vec![criterion("c", 10_001)]);
    assert_eq!(
        manager.add_gate(bad_criterion),
        Err(QualityConfigError::CriterionWeightOutOfRange)
    );
    // nothing malformed entered the configuration
    assert!(manager.list_gates().is_empty());
}

#[test]
fn test_add_gate_replaces_by_id() {
    let mut manager = empty_manager();
    assert!(manager.add_gate(gate("g", 8_000, 2_500, true, Vec::new())).is_ok());
    assert!(manager.add_gate(gate("g", 9_000, 2_500, true, Vec::new())).is_ok());
    let gates = manager.list_gates();
    assert_eq!(gates.len(), 1);
    assert_eq!(gates[0].threshold, 9_000);
}

#[test]
fn test_remove_and_get_gate() {
    let mut manager = QualityManager::new();
    assert!(manager.get_gate("mhos_gate_1").is_some());
    assert!(manager.get_gate("no_such_gate").is_none());
    assert!(manager.remove_gate("mhos_gate_1"));
    assert!(!manager.remove_gate("mhos_gate_1"));
    assert!(manager.get_gate("mhos_gate_1").is_none());
    assert_eq!(manager.list_gates().len(), 3);
}

#[test]
fn test_report_store_round_trip() {
    let mut manager = QualityManager::new();
    let data = manager.simulate_measurements();
    let report = manager.run_quality_check("entity", "product", &data);
    let id = report.report_id.clone();
    let overall = report.overall_score;
    manager.save_report(report);
    assert!(manager.get_report("qr_unknown").is_none());
    let stored = manager.get_report(&id).expect("stored report");
    assert_eq!(stored.overall_score, overall);
    assert_eq!(manager.list_reports().len(), 1);
}

#[test]
fn test_simulated_measurements_shape() {
    let manager = QualityManager::new();
    let data = manager.simulate_measurements();
    // one measurement for each criterion of the four built-in gates
    assert_eq!(data.measurements.len(), 14);
    for m in &data.measurements {
        if m.passed {
            assert_eq!(m.score, 10_000);
        } else {
            assert_eq!(m.score, 5_000);
        }
    }
    assert_eq!(data.measurements[0].criterion_id, "tech_1");
    assert_eq!(data.measurements[13].criterion_id, "usab_4");
}

#[test]
fn test_default_gates_configuration() {
    let manager = QualityManager::new();
    let g1 = manager.get_gate("mhos_gate_1").expect("technical gate");
    assert_eq!(g1.threshold, 8_000);
    assert_eq!(g1.weight, 2_500);
    assert_eq!(g1.criteria.len(), 4);
    assert_eq!(g1.criteria[0].weight, 3_000);
    assert_eq!(g1.criteria[1].weight, 2_000);
    assert_eq!(g1.criteria[2].weight, 3_000);
    assert_eq!(g1.criteria[3].weight, 2_000);
    let g2 = manager.get_gate("mhos_gate_2").expect("performance gate");
    assert_eq!(g2.threshold, 8_500);
    assert_eq!(g2.criteria.len(), 3);
    let g3 = manager.get_gate("mhos_gate_3").expect("security gate");
    assert_eq!(g3.threshold, 9_000);
    let g4 = manager.get_gate("mhos_gate_4").expect("usability gate");
    assert_eq!(g4.threshold, 7_500);
}

#[test]
fn test_system_health_names() {
    assert_eq!(SystemHealth::Excellent.as_str(), "ممتاز");
    assert_eq!(SystemHealth::Critical.as_str(), "حرج");
}
