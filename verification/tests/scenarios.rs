use erp::bom_diff::{BomDiffEngine, BomLine, BomSnapshot, ComponentChangeType};
use erp::common::CivilDate;
use erp::ir::{Investor, InvestorRelationsService, InvestorType, Shareholding};
use erp::legal::{LegalMatter, MatterCategory, MatterStatus};
use erp::mentorship::{GoalStatus, MentorshipGoal, MentorshipPair, MentorshipProgram, PairStatus};
use erp::mobility::{AssignmentStatus, AssignmentType, InternationalAssignment, MobilityService, VisaRecord};

fn date(year: i32, month: u32, day: u32) -> CivilDate {
    CivilDate { year, month, day }
}

fn fresh_id() -> u128 {
    uuid::Uuid::new_v4().as_u128()
}

#[test]
fn test_oee_calculation_logic() {
    // Availability = Run Time / Planned Production Time
    let planned_time = 480.0; // 8 hours
    let downtime = 60.0; // 1 hour
    let availability = (planned_time - downtime) / planned_time;
    assert_eq!(availability, 0.875);

    // Performance = (Total Count * Ideal Cycle Time) / Run Time
    let run_time = 420.0 * 60.0; // 7 hours in seconds
    let total_count = 400;
    let ideal_cycle_time = 60.0; // 1 minute
    let performance = (total_count as f64 * ideal_cycle_time) / run_time;
    assert!((performance - 0.95238).abs() < 0.00001);

    // Quality = Good Count / Total Count
    let good_count = 380;
    let quality = good_count as f64 / total_count as f64;
    assert_eq!(quality, 0.95);

    let oee = availability * performance * quality;
    assert!((oee - 0.79166).abs() < 0.00001);
}

#[test]
fn test_investor_creation() {
    let investor = Investor::new(
        "Global Wealth Fund".to_string(),
        InvestorType::Institutional,
        "ir@globalwealth.com".to_string(),
    );
    assert_eq!(investor.investor_type, InvestorType::Institutional);
}

#[test]
fn test_total_shares_calculation() {
    let class_a = fresh_id();
    let class_b = fresh_id();
    let inv_id = fresh_id();

    let holdings = vec![
        Shareholding {
            id: fresh_id(),
            investor_id: inv_id,
            stock_class_id: class_a,
            quantity: 500,
            acquired_date: date(2025, 1, 1),
        },
        Shareholding {
            id: fresh_id(),
            investor_id: inv_id,
            stock_class_id: class_a,
            quantity: 300,
            acquired_date: date(2025, 6, 1),
        },
        Shareholding {
            id: fresh_id(),
            investor_id: inv_id,
            stock_class_id: class_b,
            quantity: 100,
            acquired_date: date(2025, 1, 1),
        },
    ];

    let service = InvestorRelationsService::new();
    assert_eq!(service.calculate_total_shares(&holdings, class_a), 800);
    assert_eq!(service.calculate_total_shares(&holdings, class_b), 100);
}

fn mock_bom(components: Vec<BomLine>) -> BomSnapshot {
    BomSnapshot { bom_id: fresh_id(), components }
}

#[test]
fn test_bom_comparison() {
    let p1 = fresh_id();
    let p2 = fresh_id();
    let p3 = fresh_id();

    let bom1 = mock_bom(vec![
        BomLine { product_id: p1, quantity: 10 },
        BomLine { product_id: p2, quantity: 5 },
    ]);
    let bom2 = mock_bom(vec![
        BomLine { product_id: p1, quantity: 12 },
        BomLine { product_id: p3, quantity: 1 },
    ]);

    let report = BomDiffEngine::compare(&bom1, &bom2);

    let c1 = report.component_changes.iter().find(|c| c.product_id == p1).unwrap();
    assert_eq!(c1.change_type, ComponentChangeType::QuantityChanged);
    assert_eq!(c1.old_quantity, Some(10));
    assert_eq!(c1.new_quantity, Some(12));

    let c2 = report.component_changes.iter().find(|c| c.product_id == p2).unwrap();
    assert_eq!(c2.change_type, ComponentChangeType::Deleted);

    let c3 = report.component_changes.iter().find(|c| c.product_id == p3).unwrap();
    assert_eq!(c3.change_type, ComponentChangeType::Added);
    assert_eq!(c3.new_quantity, Some(1));
}

#[test]
fn test_mentorship_lifecycle() {
    let program = MentorshipProgram::new("Leadership 2026".to_string(), date(2026, 1, 1), date(2026, 12, 31));

    let mentor_id = fresh_id();
    let mentee_id = fresh_id();
    let mut pair = MentorshipPair::new(program.id, mentor_id, mentee_id);
    assert_eq!(pair.status, PairStatus::Matched);

    pair.start();
    assert_eq!(pair.status, PairStatus::Active);

    let mut goal = MentorshipGoal::new(pair.id, "Public Speaking".to_string(), "Deliver a conference talk".to_string());
    assert_eq!(goal.status, GoalStatus::InProgress);

    goal.mark_achieved();
    assert_eq!(goal.status, GoalStatus::Achieved);
    assert!(goal.achieved_at_ms.is_some());

    pair.complete();
    assert_eq!(pair.status, PairStatus::Completed);
    assert!(pair.completion_date_ms.is_some());
}

#[test]
fn test_assignment_lifecycle() {
    let emp_id = fresh_id();
    let home_id = fresh_id();
    let host_id = fresh_id();
    let mut assignment = InternationalAssignment::new(
        emp_id,
        AssignmentType::LongTerm,
        "US".to_string(),
        "DE".to_string(),
        home_id,
        host_id,
        date(2026, 6, 1),
        date(2028, 6, 1),
    );
    assert_eq!(assignment.status, AssignmentStatus::Planning);

    assignment.activate();
    assert_eq!(assignment.status, AssignmentStatus::Active);

    assignment.complete();
    assert_eq!(assignment.status, AssignmentStatus::Completed);
}

#[test]
fn test_visa_expiry_check() {
    let service = MobilityService::new();
    let expiry = chrono::Utc::now().date_naive() + chrono::Duration::days(15);
    let visa = VisaRecord {
        id: fresh_id(),
        employee_id: fresh_id(),
        country_code: "DE".to_string(),
        visa_type: "Work".to_string(),
        visa_number: "V123".to_string(),
        expiry_date: date(
            chrono::Datelike::year(&expiry),
            chrono::Datelike::month(&expiry),
            chrono::Datelike::day(&expiry),
        ),
        status: "Active".to_string(),
    };
    assert!(service.is_visa_expiring_soon(&visa, 30));
    assert!(!service.is_visa_expiring_soon(&visa, 10));
}

#[test]
fn test_legal_matter_lifecycle() {
    let owner_id = fresh_id();
    let mut matter = LegalMatter::new(
        "LEG-2026-001".to_string(),
        "Patent Dispute: WidgetX".to_string(),
        "Litigation regarding infringement of patent XYZ.".to_string(),
        MatterCategory::IntellectualProperty,
        owner_id,
    );
    assert_eq!(matter.status, MatterStatus::Open);
    assert_eq!(matter.notes.len(), 0);

    matter.add_note(owner_id, "Met with external counsel to review the claim.".to_string());
    assert_eq!(matter.notes.len(), 1);

    matter.update_status(MatterStatus::InProgress);
    assert_eq!(matter.status, MatterStatus::InProgress);

    matter.update_status(MatterStatus::Settled);
    assert_eq!(matter.status, MatterStatus::Settled);
    assert!(matter.closed_at_ms.is_some());
}
