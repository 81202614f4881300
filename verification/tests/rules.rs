use erp::bom_diff::{BomDiffEngine, BomLine, BomSnapshot, ComponentChangeType};
use erp::common::{blank, div_i64_toward_zero, page_offset, replace_text, seconds_between, text_eq, CivilDate};
use erp::jobs::{JobError, JobPriority, JobService, JobStatus};
use erp::kanban::{
    build_columns, check_wip_limit, CreateBoardRequest, CreateColumnRequest, KanbanActionType, KanbanBoardType,
    KanbanCardMove, KanbanService,
};
use erp::keys::{decode_payload, encode_payload, KeyError};
use erp::knowledge::{
    validate_rating, ArticleFeedbackService, ArticleService, ArticleStatus, KnowledgeCategory, KnowledgeCategoryService,
    KnowledgeError, KnowledgeSearchService, KnowledgeTemplateService, TemplatePlaceholder,
};
use erp::lease::{add_months, base_payment, calculate_term_months};
use erp::leave::{approve, reject, LeaveError, LeaveOwner, LeaveStatus, LeaveType};
use erp::lms::{EnrollmentStatus, LMSService, SqliteLMSRepository};
use erp::loyalty::{redemption_at, EnrollMemberRequest, LoyaltyService, MemberStatus};
use erp::mdm::{calculate_similarity, GovernanceStatus, MasterDataEntity};
use erp::mrp::{new_run, MRPStatus, MrpError, MrpService, MRPActionType};
use erp::notes::NoteType;
use erp::notifications::{render_template, TemplateVariable};

use erp::lease::{AmortizationMethod, LeaseFacts, LeaseService, PaymentStatus, RecordPaymentRequest};
use erp::jobs::{JobScheduleService, ScheduleType};
use erp::mdm::{parse_governance_status, CreateDataQualityRuleRequest, CreateGoldenRecordRequest, MDMService};
use erp::keys::{KeyOperation, KeyService};
use erp::knowledge::{ArticleWorkflowService, WorkflowStatus};

use erp::manufacturing::{parse_maintenance_priority, parse_mrp_order_type, MRPOrderType, MRPService, MaintenancePriority, MaintenanceService};
use erp::notifications::{NotificationChannel, NotificationService, NotificationStatus, NotificationType};

fn date(year: i32, month: u32, day: u32) -> CivilDate {
    CivilDate { year, month, day }
}

/// 2024-01-01T00:00:00Z.
const NEW_YEAR_2024_MS: i64 = 1704067200000;

#[test]
fn replace_text_replaces_every_occurrence() {
    assert_eq!(replace_text("a{{x}}b{{x}}", "{{x}}", "Z"), "aZbZ");
    assert_eq!(replace_text("aaa", "aa", "b"), "ba");
}

#[test]
fn blank_and_text_eq() {
    assert!(blank(" \t\n"));
    assert!(blank(""));
    assert!(!blank(" a "));
    assert!(text_eq("abc", "abc"));
    assert!(!text_eq("abc", "abd"));
}

#[test]
fn arithmetic_helpers() {
    assert_eq!(page_offset(3, 20), 40);
    assert_eq!(seconds_between(0, 2500), 2);
    assert_eq!(seconds_between(0, -2500), -2);
    assert_eq!(div_i64_toward_zero(-7, 2), -3);
}

#[test]
fn comparing_a_bom_with_itself_reports_every_line_unchanged() {
    let bom = BomSnapshot {
        bom_id: 1,
        components: vec![BomLine { product_id: 7, quantity: 3 }, BomLine { product_id: 8, quantity: 4 }],
    };
    let report = BomDiffEngine::compare(&bom, &bom);
    assert_eq!(report.component_changes.len(), 2);
    assert_eq!(report.component_changes[0].product_id, 7);
    assert_eq!(report.component_changes[1].product_id, 8);
    assert!(report.component_changes.iter().all(|c| c.change_type == ComponentChangeType::Unchanged));
}

#[test]
fn added_component_mirrors_deleted_one() {
    let a = BomSnapshot { bom_id: 1, components: vec![BomLine { product_id: 7, quantity: 3 }] };
    let b = BomSnapshot { bom_id: 2, components: vec![] };
    let forward = BomDiffEngine::compare(&a, &b);
    let backward = BomDiffEngine::compare(&b, &a);
    assert_eq!(forward.component_changes[0].change_type, ComponentChangeType::Deleted);
    assert_eq!(backward.component_changes[0].change_type, ComponentChangeType::Added);
    assert_eq!(forward.component_changes[0].old_quantity, backward.component_changes[0].new_quantity);
}

#[test]
fn cron_job_runs_at_the_next_matching_instant() {
    let service = JobService::new();
    let half_past = NEW_YEAR_2024_MS + 30 * 60 * 1000;
    let job = service
        .schedule_cron("hourly".to_string(), "h".to_string(), "0 0 * * * *".to_string(), half_past)
        .unwrap();
    assert_eq!(job.next_run_at_ms, Some(NEW_YEAR_2024_MS + 60 * 60 * 1000));
    assert_eq!(job.status, JobStatus::Scheduled);
}

#[test]
fn cron_job_with_a_bad_expression_is_refused() {
    let service = JobService::new();
    let r = service.schedule_cron("bad".to_string(), "h".to_string(), "not a cron".to_string(), NEW_YEAR_2024_MS);
    assert_eq!(r.unwrap_err(), JobError::InvalidCronExpression);
}

#[test]
fn interval_job_first_runs_one_interval_later() {
    let service = JobService::new();
    let job = service.schedule_interval("tick".to_string(), "h".to_string(), 90, NEW_YEAR_2024_MS);
    assert_eq!(job.next_run_at_ms, Some(NEW_YEAR_2024_MS + 90_000));
}

#[test]
fn running_job_cannot_be_cancelled() {
    let service = JobService::new();
    let mut job = service.submit("once".to_string(), "h".to_string(), None, None, None, 0);
    assert_eq!(job.priority, JobPriority::Normal);
    assert_eq!(job.status, JobStatus::Pending);
    job.status = JobStatus::Running;
    assert_eq!(service.cancel(job.clone()).unwrap_err(), JobError::CannotCancelRunning);
    job.status = JobStatus::Scheduled;
    assert_eq!(service.cancel(job).unwrap().status, JobStatus::Cancelled);
}

#[test]
fn run_counts_add_up() {
    let service = JobService::new();
    let job = service.submit("once".to_string(), "h".to_string(), None, None, None, 0);
    let job = service.update_after_run(job, true, None, 100, NEW_YEAR_2024_MS);
    assert_eq!(job.run_count, 1);
    assert_eq!(job.run_count, job.success_count + job.failure_count);
    assert_eq!(job.status, JobStatus::Completed);
}

#[test]
fn average_run_time_with_a_negative_run_count() {
    let service = JobService::new();
    let mut job = service.submit("odd".to_string(), "h".to_string(), None, None, None, 0);
    job.run_count = -5;
    job.avg_duration_ms = Some(10);
    let job = service.update_after_run(job, false, Some("boom".to_string()), 20, NEW_YEAR_2024_MS);
    assert_eq!(job.run_count, -4);
    assert_eq!(job.avg_duration_ms, Some(7));
    assert_eq!(job.failure_count, 1);
    assert_eq!(job.last_error, Some("boom".to_string()));
}

#[test]
fn payload_round_trip() {
    let payload = encode_payload("hello", &[1, 2, 3]);
    assert_eq!(payload, "AQID.aGVsbG8=");
    assert_eq!(decode_payload(&payload).unwrap(), "hello");
}

#[test]
fn malformed_payloads_are_refused() {
    assert_eq!(decode_payload("no-dot").unwrap_err(), KeyError::InvalidCiphertextFormat);
    assert_eq!(decode_payload("a.b.c").unwrap_err(), KeyError::InvalidCiphertextFormat);
    assert_eq!(decode_payload("AQID.%%%").unwrap_err(), KeyError::InvalidData);
    assert_eq!(decode_payload("AQID./w==").unwrap_err(), KeyError::InvalidUtf8);
}

#[test]
fn slugs() {
    assert_eq!(ArticleService::generate_slug("Hello World! Rust 2024"), "hello-world-rust-2024");
    assert_eq!(ArticleService::generate_slug("  --Hi--  "), "hi");
}

#[test]
fn ratings_run_from_one_to_five() {
    assert!(validate_rating(Some(5)).is_ok());
    assert!(validate_rating(None).is_ok());
    assert!(validate_rating(Some(6)).is_err());
    assert!(validate_rating(Some(0)).is_err());
}

#[test]
fn lease_terms_and_months() {
    assert_eq!(calculate_term_months(date(2024, 1, 15), date(2025, 1, 15)), 12);
    assert_eq!(calculate_term_months(date(2024, 3, 1), date(2024, 2, 1)), 1);
    assert_eq!(add_months(date(2024, 11, 15), 2), date(2025, 1, 15));
    assert_eq!(add_months(date(2024, 10, 15), 2), date(2024, 12, 15));
    assert_eq!(add_months(date(2024, 1, 31), 1), date(2024, 1, 31));
    assert_eq!(base_payment(12000, 12), 1000);
    assert_eq!(base_payment(-7, 2), -3);
}

#[test]
fn leave_decisions() {
    let owner = LeaveOwner { employee_id: 1, leave_type: LeaveType::AnnualLeave };
    let other = LeaveOwner { employee_id: 2, leave_type: LeaveType::AnnualLeave };
    assert_eq!(approve(LeaveStatus::Pending, owner, owner), Ok(LeaveStatus::Approved));
    assert_eq!(reject(LeaveStatus::Pending, owner, owner), Ok(LeaveStatus::Rejected));
    assert_eq!(approve(LeaveStatus::Approved, owner, owner), Err(LeaveError::OnlyPendingCanBeApproved));
    assert_eq!(reject(LeaveStatus::Rejected, owner, owner), Err(LeaveError::OnlyPendingCanBeRejected));
    assert_eq!(approve(LeaveStatus::Pending, owner, other), Err(LeaveError::MismatchedBalance));
    assert_eq!(LeaveError::InsufficientBalance.message(), "Insufficient leave balance.");
}

fn entity(name: &str, code: &str, source: &str) -> MasterDataEntity {
    MasterDataEntity {
        id: 1,
        entity_type: "customer".to_string(),
        entity_code: code.to_string(),
        entity_name: name.to_string(),
        source_system: source.to_string(),
        source_id: "s".to_string(),
        golden_record_id: None,
        quality_score: 0,
        completeness_score: 0,
        accuracy_score: 0,
        timeliness_score: 0,
        consistency_score: 0,
        status: GovernanceStatus::Active,
    }
}

#[test]
fn similarity_weights_name_code_and_source() {
    let a = entity("ACME Corp", "C-1", "crm");
    let b = entity("acme corp", "C-2", "crm");
    assert_eq!(calculate_similarity(&a, &b), 70);
    assert_eq!(calculate_similarity(&b, &a), 70);
    assert_eq!(calculate_similarity(&a, &a), 100);
}

#[test]
fn note_kinds_read_back() {
    for t in [NoteType::General, NoteType::Phone, NoteType::Email, NoteType::Meeting, NoteType::Task,
        NoteType::FollowUp, NoteType::Important] {
        assert_eq!(NoteType::parse(t.as_str()), t);
    }
    assert_eq!(NoteType::parse("follow-up"), NoteType::FollowUp);
    assert_eq!(NoteType::parse("???"), NoteType::General);
}

#[test]
fn templates_fill_every_placeholder() {
    let vars = vec![TemplateVariable { name: "name".to_string(), value: "Ann".to_string() }];
    assert_eq!(render_template("Hello {{name}}, {{name}}!", &vars), "Hello Ann, Ann!");
    assert_eq!(render_template("No braces here", &vars), "No braces here");
}

#[test]
fn wip_limit_violation_is_reported() {
    let cols = build_columns(
        9,
        vec![
            CreateColumnRequest { name: "Doing".to_string(), wip_limit: Some(2), is_done_column: false, is_backlog: false, color: None },
            CreateColumnRequest { name: "Done".to_string(), wip_limit: None, is_done_column: true, is_backlog: false, color: None },
        ],
        0,
    );
    let v = check_wip_limit(9, &cols, cols[0].id, 3, 5).unwrap();
    assert_eq!(v.wip_limit, 2);
    assert_eq!(v.current_count, 3);
    assert!(check_wip_limit(9, &cols, cols[0].id, 2, 5).is_none());
    assert!(check_wip_limit(9, &cols, cols[1].id, 50, 5).is_none());
    let summary = KanbanService::new().get_board_summary(9, "Board".to_string(), &cols, &vec![], 0);
    assert_eq!(summary.total_cards, 0);
    assert_eq!(summary.cards_by_column.len(), 2);
}

#[test]
fn planning_run_spans_its_horizon() {
    let run = new_run("Weekly".to_string(), 30, true, false, true, None, NEW_YEAR_2024_MS).unwrap();
    assert_eq!(run.run_date, date(2024, 1, 1));
    assert_eq!(run.start_date, date(2024, 1, 1));
    assert_eq!(run.end_date, date(2024, 1, 31));
    assert_eq!(run.run_number, "MRP-20240101000000");
    assert_eq!(run.status, MRPStatus::Draft);
    assert_eq!(
        new_run("Far".to_string(), i32::MAX, true, true, true, None, NEW_YEAR_2024_MS).unwrap_err(),
        MrpError::DateOutOfRange
    );
}

#[test]
fn planned_order_starts_a_lead_time_before_it_is_due() {
    let order = MrpService::create_planned_order(1, 2, 3, MRPActionType::Purchase, 40, date(2024, 3, 10), 10, &vec![]).unwrap();
    assert_eq!(order.start_date, date(2024, 2, 29));
    assert_eq!(order.source_demand_ids, "[]");
    assert!(order.order_number.starts_with("PLN-"));
    let order = MrpService::create_planned_order(1, 2, 3, MRPActionType::Manufacture, 1, date(2024, 3, 10), 0, &vec![1]).unwrap();
    assert_eq!(order.start_date, date(2024, 3, 10));
    assert_eq!(order.source_demand_ids, "[\"00000000-0000-0000-0000-000000000001\"]");
    let ids = vec![0x1234_5678_9abc_def0_0fed_cba9_8765_4321u128, 2];
    let order = MrpService::create_planned_order(1, 2, 3, MRPActionType::Transfer, 5, date(2024, 3, 10), 1, &ids).unwrap();
    assert_eq!(
        order.source_demand_ids,
        "[\"12345678-9abc-def0-0fed-cba987654321\",\"00000000-0000-0000-0000-000000000002\"]"
    );
}

#[test]
fn planning_parameters_defaults() {
    let p = MrpService::create_parameter(1, 2, 5, 100);
    assert_eq!(p.lead_time_days, 5);
    assert_eq!(p.safety_stock, 100);
    assert_eq!(p.days_of_supply, 14);
    assert_eq!(p.service_level_percent, 95);
    assert_eq!(p.planning_time_fence_days, 7);
}

fn is_upper_hex(s: &str) -> bool {
    s.chars().all(|c| c.is_ascii_digit() || ('A'..='F').contains(&c))
}

#[test]
fn members_get_a_referral_code() {
    let m = LoyaltyService::new().enroll_member(EnrollMemberRequest {
        program_id: 1,
        customer_id: 2,
        enrollment_source: None,
        referred_by: None,
    });
    assert_eq!(m.status, MemberStatus::Active);
    assert_eq!(m.available_points, 0);
    assert_eq!(m.referral_code.len(), 11);
    assert!(m.referral_code.starts_with("REF"));
    assert!(is_upper_hex(&m.referral_code[3..]));
    assert!(m.member_number.starts_with("MEM-"));
    assert_eq!(m.member_number.len(), 40);
}

#[test]
fn vouchers_expire_thirty_days_after_redemption() {
    let r = redemption_at(1, 2, 500, NEW_YEAR_2024_MS).unwrap();
    assert_eq!(r.redemption_date, date(2024, 1, 1));
    assert_eq!(r.voucher_expires, Some(date(2024, 1, 31)));
    assert_eq!(r.points_used, 500);
    assert_eq!(r.currency, "USD");
    let code = r.voucher_code.unwrap();
    assert!(code.starts_with("VCH"));
    assert!(is_upper_hex(&code[3..]));
}

#[test]
fn attempts_and_certificates() {
    let lms = LMSService::new(SqliteLMSRepository);
    assert_eq!(lms.next_attempt_number(0), 1);
    assert_eq!(lms.next_attempt_number(2), 3);
    assert!(lms.certificate_for(EnrollmentStatus::InProgress, 1, 2).is_none());
    let cert = lms.certificate_for(EnrollmentStatus::Completed, 1, 2).unwrap();
    assert!(cert.certificate_number.starts_with("CERT-"));
    assert_eq!(cert.verification_code.len(), 36);
    let path = lms.create_learning_path("Onboarding".to_string(), None, None);
    assert!(path.courses.is_empty());
    assert_eq!(path.total_credits, 0);
}

#[test]
fn query_tokens_drop_short_words_and_punctuation() {
    let tokens = KnowledgeSearchService::tokenize_query("How do I reset my PASSWORD? ok");
    assert_eq!(tokens, vec!["how".to_string(), "reset".to_string(), "password".to_string()]);
    let tokens = KnowledgeSearchService::tokenize_query("  (abc)\tx--yz--  !!  ");
    assert_eq!(tokens, vec!["abc".to_string(), "x--yz".to_string()]);
    assert!(KnowledgeSearchService::tokenize_query("   ").is_empty());
}

#[test]
fn knowledge_records() {
    let category = KnowledgeCategoryService.create_category("Getting Started!".to_string(), None, None, None);
    assert_eq!(category.slug, "getting-started");
    assert_eq!(ArticleService::publish_article(ArticleStatus::Draft), Ok(ArticleStatus::Published));
    assert_eq!(ArticleService::publish_article(ArticleStatus::PendingReview), Ok(ArticleStatus::Published));
    assert_eq!(ArticleService::publish_article(ArticleStatus::Archived), Err(KnowledgeError::NotPublishable));
    let feedback = ArticleFeedbackService.submit_feedback(1, 2, true, Some(6), None);
    assert_eq!(feedback.unwrap_err(), KnowledgeError::RatingOutOfRange);
    let template = KnowledgeTemplateService.create_template(
        "FAQ".to_string(),
        KnowledgeCategory::Technical,
        "Q: {{q}} A: {{a}}".to_string(),
        vec![
            TemplatePlaceholder { name: "q".to_string(), description: String::new(), default_value: None, is_required: true },
            TemplatePlaceholder { name: "a".to_string(), description: String::new(), default_value: Some("n/a".to_string()), is_required: false },
        ],
        3,
    );
    let values = vec![TemplateVariable { name: "q".to_string(), value: "Why?".to_string() }];
    assert_eq!(KnowledgeTemplateService::apply_template(&template, &values), "Q: Why? A: n/a");
}

#[test]
fn board_activity_entries() {
    let service = KanbanService::new();
    let (board, log) = service.create_board(
        CreateBoardRequest {
            name: "Ops".to_string(),
            description: None,
            board_type: KanbanBoardType::Generic,
            team_id: None,
            project_id: None,
            columns: vec![CreateColumnRequest { name: "Todo".to_string(), wip_limit: None, is_done_column: false, is_backlog: true, color: None }],
            default_wip_limit: Some(5),
        },
        7,
        1000,
    );
    assert_eq!(log.description, "Created board 'Ops'");
    assert_eq!(log.board_id, board.id);
    assert_eq!(board.columns[0].board_id, board.id);
    let (card, log) = service.create_card(board.id, board.columns[0].id, "Fix it", None, 3, 7, 2000);
    assert_eq!(card.position, 3);
    assert_eq!(log.description, "Created card 'Fix it'");
    let (blocked, log) = service.block_card(card, "waiting", 7, 3000);
    assert!(blocked.blocked);
    assert_eq!(log.description, "Blocked card: waiting");
    assert_eq!(log.action_type, KanbanActionType::CardBlocked);
    let (unblocked, _) = service.unblock_card(blocked, 7, 4000);
    assert!(!unblocked.blocked);
    let (comment, log) = service.add_comment(&unblocked, "hi".to_string(), 8, 5000);
    assert_eq!(comment.content, "hi");
    assert_eq!(log.description, "Added comment: hi");
    let mv = KanbanCardMove {
        id: 1,
        card_id: card.id,
        from_column_id: 1,
        to_column_id: 2,
        from_position: 0,
        to_position: 0,
        moved_by: 7,
        moved_at_ms: 6000,
        time_in_from_column_seconds: None,
    };
    let log = service.move_activity(&mv, board.id);
    assert_eq!(log.old_value.as_deref(), Some("00000000-0000-0000-0000-000000000001"));
    assert_eq!(log.new_value.as_deref(), Some("00000000-0000-0000-0000-000000000002"));
    let item = service.toggle_checklist_item(3, false, 7, 1);
    assert_eq!(item.completed_by, None);
}

#[test]
fn lease_asset_liability_and_payment_records() {
    let facts = LeaseFacts {
        lease_id: 5,
        lease_number: "LSE-1".to_string(),
        name: "Forklift".to_string(),
        fair_value_at_commencement: 12000,
        lease_term_months: 12,
        commencement_date: date(2024, 1, 1),
        end_date: date(2025, 1, 1),
        currency: "USD".to_string(),
    };
    let service = LeaseService::new();
    let rou = service.create_rou_asset(&facts);
    assert_eq!(rou.asset_number, "ROU-LSE-1");
    assert_eq!(rou.name, "Right of Use Asset - Forklift");
    assert_eq!(rou.net_book_value, 12000);
    assert_eq!(rou.useful_life_months, 12);
    let liability = service.create_liability(&facts);
    assert_eq!(liability.liability_number, "LIA-LSE-1");
    assert_eq!(liability.outstanding_balance, 12000);
    assert_eq!(liability.amortization_method, AmortizationMethod::EffectiveInterest);
    let payment = service.record_payment(
        5,
        RecordPaymentRequest {
            payment_date: date(2024, 2, 1),
            due_date: date(2024, 2, 1),
            period_start: date(2024, 1, 1),
            period_end: date(2024, 1, 31),
            period_number: 1,
            amount: 1000,
            currency: "USD".to_string(),
            notes: None,
        },
    );
    assert_eq!(payment.total_payment, 1000);
    assert_eq!(payment.paid_amount, Some(1000));
    assert_eq!(payment.payment_status, PaymentStatus::Paid);
    assert!(payment.payment_number.starts_with("PAY-"));
    assert_eq!(payment.payment_number.len(), 40);
    assert!(erp::lease::generate_lease_number().starts_with("LSE-"));
}

#[test]
fn schedules_start_at_their_first_run() {
    let service = JobScheduleService::new();
    let s = service
        .create("nightly".to_string(), "job".to_string(), "h".to_string(), ScheduleType::Daily, None, None, NEW_YEAR_2024_MS)
        .unwrap();
    assert_eq!(s.next_scheduled_run_ms, Some(NEW_YEAR_2024_MS + 86_400_000));
    assert_eq!(s.timezone, "UTC");
    assert!(s.enabled);
    let bad = service.create(
        "bad".to_string(),
        "job".to_string(),
        "h".to_string(),
        ScheduleType::Cron,
        Some("nonsense".to_string()),
        None,
        NEW_YEAR_2024_MS,
    );
    assert_eq!(bad.unwrap_err(), JobError::InvalidCronExpression);
    let s = service
        .create("every 15".to_string(), "job".to_string(), "h".to_string(), ScheduleType::Interval, None, Some(15), NEW_YEAR_2024_MS)
        .unwrap();
    assert_eq!(service.calculate_next_run(&s, NEW_YEAR_2024_MS), Some(NEW_YEAR_2024_MS + 15 * 60_000));
    let late = erp::common::MAX_INSTANT_MS - 120_000;
    let s = service
        .create("late".to_string(), "job".to_string(), "h".to_string(), ScheduleType::Interval, None, Some(1), late)
        .unwrap();
    assert_eq!(s.next_scheduled_run_ms, Some(late + 60_000));
}

#[test]
fn governance_status_text() {
    assert_eq!(parse_governance_status("InReview"), GovernanceStatus::InReview);
    assert_eq!(parse_governance_status("whatever"), GovernanceStatus::Archived);
}

#[test]
fn key_usage_is_logged() {
    let log = KeyService::new().log_key_usage(3, KeyOperation::Encrypt, Some("customer"), None, true, None, 99);
    assert_eq!(log.entity_type.as_deref(), Some("customer"));
    assert_eq!(log.entity_id, None);
    assert_eq!(log.performed_at_ms, 99);
}

#[test]
fn review_workflow_is_due_in_a_week() {
    let w = ArticleWorkflowService.initiate_review(1, 2, 3);
    assert_eq!(w.status, WorkflowStatus::Pending);
    assert_eq!((w.current_step, w.total_steps), (1, 2));
    assert_eq!(w.assigned_to, Some(3));
    assert!(w.due_date_ms.is_some());
    let done = ArticleWorkflowService.approve_review(1);
    assert_eq!(done.status, WorkflowStatus::Completed);
}

fn rule(service: &MDMService, rule_type: &str, expression: &str) -> erp::mdm::DataQualityRule {
    service.create_quality_rule(
        CreateDataQualityRuleRequest {
            rule_code: format!("R-{}", rule_type),
            name: rule_type.to_string(),
            description: None,
            entity_type: "customer".to_string(),
            field_name: "name".to_string(),
            rule_type: rule_type.to_string(),
            rule_expression: expression.to_string(),
            severity: "high".to_string(),
            auto_fix: false,
            fix_expression: None,
        },
        0,
    )
}

#[test]
fn quality_checks_report_broken_rules_in_order() {
    let service = MDMService::new();
    let mut e = entity("ACME Corporation", "AB-12", "crm");
    e.quality_score = 50;
    let rules = vec![
        rule(&service, "required", ""),
        rule(&service, "length", "5"),
        rule(&service, "range", "60-100"),
        rule(&service, "regex", "^[A-Z]{2}-[0-9]+$"),
        rule(&service, "regex", "^x"),
        rule(&service, "unknown", ""),
    ];
    let violations = service.run_quality_check(&e, &rules, 7);
    let ids: Vec<u128> = violations.iter().map(|v| v.rule_id).collect();
    assert_eq!(ids, vec![rules[1].id, rules[2].id, rules[4].id]);
    assert_eq!(violations[0].status, "Open");
    let resolved = service.resolve_violation(violations[0].clone(), 9, Some("fixed".to_string()), 8);
    assert_eq!(resolved.status, "Resolved");
    assert_eq!(resolved.resolved_by, Some(9));
}

#[test]
fn golden_records_and_merges() {
    let service = MDMService::new();
    let (golden, sources) = service.create_golden_record(
        CreateGoldenRecordRequest { entity_type: "customer".to_string(), name: "ACME".to_string(), source_entity_ids: vec![4, 5] },
        NEW_YEAR_2024_MS,
    );
    assert_eq!(golden.golden_code, "GR-customer-20240101000000");
    assert_eq!(golden.source_count, 2);
    assert!(sources[0].is_primary && !sources[1].is_primary);
    let primary = entity("ACME", "C-1", "crm");
    let dups = vec![entity("Acme", "C-2", "erp")];
    let (golden, primary_after, dups_after) = service.merge_records(&primary, &dups, 2, 9, NEW_YEAR_2024_MS);
    assert_eq!(golden.golden_code, "GR-20240101000000");
    assert_eq!(golden.source_count, 3);
    assert_eq!(primary_after.golden_record_id, Some(golden.id));
    assert_eq!(primary_after.status, GovernanceStatus::Active);
    assert_eq!(dups_after[0].status, GovernanceStatus::Archived);
    assert_eq!(dups_after[0].golden_record_id, Some(golden.id));
}

#[test]
fn exactly_one_primary_key_after_switching() {
    let service = KeyService::new();
    let a = service.generate_key(erp::keys::KeyType::Aes256Gcm, "a", 1);
    let b = service.generate_key(erp::keys::KeyType::Hmac, "b", 1);
    assert!(a.key_id.starts_with("key_"));
    assert_eq!(a.key_id.len(), 36);
    let (keys, found) = service.set_primary_key(&vec![a, b], 0, 2);
    assert!(!found);
    assert!(keys.iter().all(|k| !k.is_primary));
    let target = keys[1].id;
    let (keys, found) = service.set_primary_key(&keys, target, 3);
    assert!(found);
    assert_eq!(keys.iter().filter(|k| k.is_primary).count(), 1);
    assert!(keys[1].is_primary);
    let other = keys[0].id;
    let (keys, _) = service.set_primary_key(&keys, other, 4);
    assert!(keys[0].is_primary && !keys[1].is_primary);
    assert_eq!(keys[1].updated_at_ms, 4);
}

#[test]
fn stored_texts_read_back() {
    for t in [MRPOrderType::Production, MRPOrderType::Purchase, MRPOrderType::Transfer] {
        assert_eq!(parse_mrp_order_type(MRPService::order_type_to_str(&t)), t);
    }
    for p in [MaintenancePriority::Low, MaintenancePriority::Medium, MaintenancePriority::High, MaintenancePriority::Critical] {
        assert_eq!(parse_maintenance_priority(MaintenanceService::priority_to_str(&p)), p);
    }
}

#[test]
fn cards_moved_into_a_done_column_are_completed_once() {
    let cols = build_columns(
        9,
        vec![
            CreateColumnRequest { name: "Doing".to_string(), wip_limit: Some(1), is_done_column: false, is_backlog: false, color: None },
            CreateColumnRequest { name: "Done".to_string(), wip_limit: None, is_done_column: true, is_backlog: false, color: None },
        ],
        0,
    );
    let service = KanbanService::new();
    let (card, _) = service.create_card(9, cols[0].id, "A", Some(500), 0, 1, 1000);
    let (other, _) = service.create_card(9, cols[0].id, "B", None, 1, 1, 1000);
    let (mv, done) = erp::kanban::plan_card_move(&card, cols[1].id, 0, &cols, None, 1, 4500);
    assert_eq!(mv.time_in_from_column_seconds, Some(3));
    assert_eq!(done.completed_date_ms, Some(4500));
    let (_, again) = erp::kanban::plan_card_move(&done, cols[0].id, 0, &cols, Some(4500), 1, 9000);
    assert_eq!(again.completed_date_ms, Some(4500));
    let summary = service.get_board_summary(9, "Board".to_string(), &cols, &vec![again, other], 10_000);
    assert_eq!(summary.total_cards, 2);
    let counted: i32 = summary.cards_by_column.iter().map(|c| c.card_count).sum();
    assert_eq!(counted, 2);
    assert!(summary.cards_by_column[0].is_over_wip);
    assert_eq!(summary.wip_violations, 1);
    assert_eq!(summary.overdue_cards, 0);
}

#[test]
fn marking_all_read_touches_only_the_users_sent_notifications() {
    let service = NotificationService::new();
    let mine = service.send(1, NotificationType::System, NotificationChannel::InApp, "t".to_string(), "b".to_string(), None, None, None, 10);
    let theirs = service.send(2, NotificationType::System, NotificationChannel::InApp, "t".to_string(), "b".to_string(), None, None, None, 10);
    let dismissed = service.dismiss(mine.clone(), 11);
    let out = service.mark_all_read(vec![mine, theirs, dismissed], 1, 20);
    assert_eq!(out[0].status, NotificationStatus::Read);
    assert_eq!(out[0].read_at_ms, Some(20));
    assert_eq!(out[1].status, NotificationStatus::Sent);
    assert_eq!(out[2].status, NotificationStatus::Dismissed);
    let again = service.mark_all_read(out.clone(), 1, 30);
    assert_eq!(again[0].read_at_ms, Some(20));
}

#[test]
fn mrp_runs_need_a_positive_horizon() {
    assert_eq!(MRPService::run_number_at(NEW_YEAR_2024_MS), "MRP-20240101000000");
    assert!(MRPService::start_run(0).is_err());
    assert!(MRPService::start_run(-3).is_err());
    let n = MRPService::start_run(30).unwrap();
    assert!(n.starts_with("MRP-"));
    assert_eq!(n.len(), 18);
}

#[test]
fn default_services_act_as_new_ones() {
    let a = JobScheduleService::default()
        .create("n".to_string(), "job".to_string(), "h".to_string(), ScheduleType::Weekly, None, None, NEW_YEAR_2024_MS)
        .unwrap();
    let b = JobScheduleService::new()
        .create("n".to_string(), "job".to_string(), "h".to_string(), ScheduleType::Weekly, None, None, NEW_YEAR_2024_MS)
        .unwrap();
    assert_eq!(a.next_scheduled_run_ms, b.next_scheduled_run_ms);
    assert_eq!(a.next_scheduled_run_ms, Some(NEW_YEAR_2024_MS + 7 * 86_400_000));
    let job = JobService::default().submit("x".to_string(), "h".to_string(), None, None, None, 5);
    assert_eq!(job.status, JobStatus::Pending);
}

#[test]
fn visa_window_counts_calendar_days() {
    let service = erp::mobility::MobilityService::new();
    assert!(service.expires_within(date(2024, 3, 1), date(2024, 2, 28), 2));
    assert!(!service.expires_within(date(2024, 3, 1), date(2024, 2, 28), 1));
    assert!(service.expires_within(date(2025, 1, 1), date(2024, 1, 1), 366));
    assert!(!service.expires_within(date(2025, 1, 1), date(2024, 1, 1), 365));
    assert!(!service.expires_within(date(2023, 12, 31), date(2024, 1, 1), 10));
    assert!(service.expires_within(date(-400, 3, 1), date(-400, 2, 29), 1));
    assert!(!service.expires_within(date(-400, 3, 1), date(-400, 2, 29), 0));
}

#[test]
fn month_shifts_keep_only_existing_dates() {
    assert_eq!(add_months(date(2024, 1, 29), 1), date(2024, 2, 29));
    assert_eq!(add_months(date(2023, 1, 29), 1), date(2023, 1, 29));
    assert_eq!(add_months(date(1900, 1, 29), 1), date(1900, 1, 29));
    assert_eq!(add_months(date(2000, 1, 29), 1), date(2000, 2, 29));
}

#[test]
fn length_rules_read_their_limit_as_a_signed_number() {
    let service = MDMService::new();
    let e = entity("abcd", "C-1", "crm");
    let broken = |expr: &str| !service.run_quality_check(&e, &vec![rule(&service, "length", expr)], 1).is_empty();
    assert!(broken("+3"));
    assert!(!broken("+4"));
    assert!(broken("003"));
    assert!(!broken("-1"));
    assert!(!broken("99999999999"));
    assert!(!broken("+"));
    assert!(!broken("3a"));
    assert!(broken("-0"));
    assert!(!broken("2147483647"));
}

#[test]
fn month_shifts_take_the_count_as_unsigned() {
    assert_eq!(add_months(date(2024, 1, 15), 1_300_000), date(102024, 5, 15));
    assert_eq!(add_months(date(2024, 1, 15), -13), date(2024, 1, 15));
    assert_eq!(base_payment(100, -3), -33);
    assert_eq!(base_payment(-100, 3), -33);
}

#[test]
fn stamps_reach_the_first_instant() {
    assert_eq!(MRPService::run_number_at(erp::common::MIN_INSTANT_MS), "MRP--2621430101000000");
    assert_eq!(MRPService::run_number_at(erp::common::MAX_INSTANT_MS), "MRP-+2621421231235959");
}
