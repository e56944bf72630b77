//! The usage of a session, with the costs summed in the order of the plan.
use pa_daemon::session_usage::{scan_entries, CostPlan, ScanEntry, Usage, UsageScan};

/// A usage block whose cost stands in a table, by its place there.
fn usage(costs: &mut Vec<f64>, input: u64, output: u64, total: f64) -> Usage {
    cached_usage(costs, input, output, 0, total)
}

fn cached_usage(costs: &mut Vec<f64>, input: u64, output: u64, cache_read: u64, total: f64) -> Usage {
    costs.push(total);
    Usage {
        input,
        output,
        cache_read,
        cache_write: 0,
        cost: (costs.len() - 1) as u64,
    }
}

fn blank(type_: &str) -> ScanEntry {
    ScanEntry {
        type_: type_.to_string(),
        id: String::new(),
        role: None,
        message_usage: None,
        usage: None,
        target_id: None,
        child_usage: None,
        aggregate_usage: None,
    }
}

fn message(id: &str, role: &str, usage: Usage) -> ScanEntry {
    ScanEntry {
        id: id.to_string(),
        role: Some(role.to_string()),
        message_usage: Some(usage),
        ..blank("message")
    }
}

fn attribution(target: &str, child: Usage, aggregate: Usage) -> ScanEntry {
    ScanEntry {
        target_id: Some(target.to_string()),
        child_usage: Some(child),
        aggregate_usage: Some(aggregate),
        ..blank("child_usage_attributed")
    }
}

/// What was spent: the blocks of the assistant and of the summaries in order.
fn gross(plan: &CostPlan, costs: &[f64]) -> f64 {
    let mut spent = 0.0;
    for at in &plan.assistant {
        spent += costs[*at as usize];
    }
    for at in &plan.summarizations {
        spent += costs[*at as usize];
    }
    spent
}

/// The cost of a scan: what was spent, less the blocks of the children, and
/// never below zero.
fn cost(plan: &CostPlan, costs: &[f64]) -> f64 {
    let spent = gross(plan, costs);
    let mut children = 0.0;
    for at in &plan.children {
        children += costs[*at as usize];
    }
    (spent - children).max(0.0)
}

fn scan_summary(entries: &Vec<ScanEntry>, costs: &[f64]) -> Option<(u64, u64, f64)> {
    let scan = scan_entries(entries);
    let cost = cost(&scan.cost_plan(), costs);
    scan.summary(gross(&scan.cost_plan(), costs) == 0.0)
        .map(|summary| (summary.input_tokens, summary.output_tokens, cost))
}

#[test]
fn latest_aggregate_replaces_raw_and_child_usage_accumulates() {
    let mut costs = Vec::new();
    let c = &mut costs;
    let entries = vec![
        message("a", "assistant", usage(c, 100, 10, 1.0)),
        attribution("a", usage(c, 20, 2, 0.2), usage(c, 120, 12, 1.2)),
        attribution("a", usage(c, 30, 3, 0.3), usage(c, 150, 15, 1.5)),
        message("b", "assistant", usage(c, 50, 5, 0.5)),
    ];
    assert_eq!(scan_summary(&entries, &costs), Some((150, 15, 1.5)));
}

#[test]
fn attribution_without_a_present_target_folds_nothing() {
    let mut costs = Vec::new();
    let c = &mut costs;
    let a = usage(c, 40, 4, 0.4);
    let (child, aggregate) = (usage(c, 30, 3, 0.3), usage(c, 70, 7, 0.7));
    let (far_child, far_aggregate) = (usage(c, 1, 1, 0.1), usage(c, 41, 5, 0.5));
    let before = scan_summary(
        &vec![
            attribution("a", child, aggregate),
            attribution("z", far_child, far_aggregate),
            message("a", "assistant", a),
        ],
        &costs,
    );
    assert_eq!(before, Some((40, 4, 0.4)));
    let after = scan_summary(
        &vec![
            message("a", "assistant", a),
            attribution("a", child, aggregate),
            attribution("z", far_child, far_aggregate),
        ],
        &costs,
    );
    let (before, after) = (before.unwrap(), after.unwrap());
    assert_eq!((before.0, before.1), (after.0, after.1));
    assert!((before.2 - after.2).abs() < 1e-12);
}

#[test]
fn summarization_usage_is_added() {
    let mut costs = Vec::new();
    let c = &mut costs;
    let entries = vec![
        message("a", "assistant", usage(c, 100, 10, 1.0)),
        ScanEntry {
            id: "c".to_string(),
            usage: Some(cached_usage(c, 200, 20, 5, 0.3)),
            ..blank("compaction")
        },
        ScanEntry {
            id: "b".to_string(),
            usage: Some(usage(c, 50, 5, 0.1)),
            ..blank("branch_summary")
        },
    ];
    // 100 + 200 + 5 + 50 input tokens; 10 + 20 + 5 output; $1.0 + $0.3 + $0.1.
    assert_eq!(
        scan_summary(&entries, &costs),
        Some((355, 35, 1.4000000000000001))
    );
}

#[test]
fn no_billable_work_is_none() {
    assert_eq!(scan_summary(&Vec::new(), &[]), None);
    let mut costs = Vec::new();
    let c = &mut costs;
    let entries = vec![
        message("u", "user", usage(c, 10, 0, 0.0)),
        message("a", "assistant", usage(c, 0, 0, 0.0)),
    ];
    assert_eq!(scan_summary(&entries, &costs), None);
}

#[test]
fn child_attribution_drift_clamps_at_zero() {
    let mut costs = Vec::new();
    let c = &mut costs;
    let entries = vec![
        message("a", "assistant", usage(c, 10, 1, 0.1)),
        // Drifted child spend larger than the aggregate folds in.
        attribution("a", usage(c, 900, 90, 0.9), usage(c, 10, 1, 0.1)),
    ];
    assert_eq!(scan_summary(&entries, &costs), Some((0, 0, 0.0)));
}

#[test]
fn cost_sums_follow_insertion_order() {
    let mut costs = Vec::new();
    let c = &mut costs;
    let entries = vec![
        message("a", "assistant", usage(c, 10, 1, 0.1)),
        message("b", "assistant", usage(c, 10, 1, 0.2)),
        message("c", "assistant", usage(c, 10, 1, 0.3)),
    ];
    let summary = scan_summary(&entries, &costs).unwrap();
    assert_eq!(summary.2, 0.1 + 0.2 + 0.3);
    assert_eq!(summary.2, 0.6000000000000001);
}

#[test]
fn a_scan_folds_entry_by_entry() {
    let mut costs = Vec::new();
    let c = &mut costs;
    let mut scan = UsageScan::new();
    scan.fold_entry(&message("a", "assistant", usage(c, 3, 2, 0.5)));
    scan.fold_entry(&message("a", "assistant", usage(c, 4, 1, 0.25)));
    // A later message under the same id replaces the earlier block.
    assert_eq!(scan.cost_plan().assistant, vec![1]);
    let summary = scan.summary(false).unwrap();
    assert_eq!((summary.input_tokens, summary.output_tokens), (4, 1));
}

#[test]
fn read_own_usage_summary_scans_a_file() {
    let mut costs = Vec::new();
    // A header line and a line that is no JSON count nothing.
    let entries = vec![
        blank("session"),
        message("a", "assistant", usage(&mut costs, 100, 10, 1.0)),
        attribution(
            "a",
            usage(&mut costs, 30, 3, 0.3),
            usage(&mut costs, 130, 13, 1.3),
        ),
    ];
    assert!(scan_entries(&entries).counts_fit());
    assert_eq!(scan_summary(&entries, &costs), Some((100, 10, 1.0)));
}

#[test]
fn counts_that_overflow_are_told() {
    let mut costs = Vec::new();
    let entries = vec![
        message("a", "assistant", usage(&mut costs, u64::MAX, 0, 0.0)),
        message("b", "assistant", cached_usage(&mut costs, 0, 0, 1, 0.0)),
    ];
    assert!(!scan_entries(&entries).counts_fit());
}
