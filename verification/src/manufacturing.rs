//! Manufacturing: validation and state rules of bills of material, work
//! orders, MRP, capacity planning, shop-floor execution, maintenance and
//! product lifecycle (engineering changes and documents), and the texts
//! their kinds and states are stored as.
use vstd::prelude::*;
use vstd::string::StringExecFns;
use crate::common::{in_time_range, now_millis, text_eq, utc_stamp};
use crate::mrp::run_number_of;

verus! {

#[derive(Debug, Clone, Copy, PartialEq, Eq, Structural)]
pub enum ScheduleStatus {
    Planned,
    InProgress,
    Completed,
    Cancelled,
}

#[derive(Debug, Clone, Copy, PartialEq, Eq, Structural)]
pub enum MRPRunStatus {
    Running,
    Completed,
    Failed,
}

#[derive(Debug, Clone, Copy, PartialEq, Eq, Structural)]
pub enum MRPOrderType {
    Production,
    Purchase,
    Transfer,
}

#[derive(Debug, Clone, Copy, PartialEq, Eq, Structural)]
pub enum MRPPlannedOrderStatus {
    Planned,
    Released,
    Firmed,
    Cancelled,
}

#[derive(Debug, Clone, Copy, PartialEq, Eq, Structural)]
pub enum CapacityPlanStatus {
    Planned,
    Active,
    Closed,
}

#[derive(Debug, Clone, Copy, PartialEq, Eq, Structural)]
pub enum CapacityRequirementStatus {
    Planned,
    Scheduled,
    InProgress,
    Completed,
}

#[derive(Debug, Clone, Copy, PartialEq, Eq, Structural)]
pub enum ShopFloorOperationStatus {
    Pending,
    InProgress,
    Completed,
    OnHold,
}

#[derive(Debug, Clone, Copy, PartialEq, Eq, Structural)]
pub enum ShopFloorLogType {
    Start,
    Complete,
    Scrap,
    Rework,
    Hold,
    Resume,
}

#[derive(Debug, Clone, Copy, PartialEq, Eq, Structural)]
pub enum DowntimeEventType {
    Planned,
    Unplanned,
    Maintenance,
    Changeover,
    Break,
}

#[derive(Debug, Clone, Copy, PartialEq, Eq, Structural)]
pub enum EquipmentStatus {
    Active,
    Inactive,
    Maintenance,
    Retired,
}

#[derive(Debug, Clone, Copy, PartialEq, Eq, Structural)]
pub enum EquipmentCriticality {
    Low,
    Medium,
    High,
    Critical,
}

#[derive(Debug, Clone, Copy, PartialEq, Eq, Structural)]
pub enum MaintenanceType {
    Preventive,
    Corrective,
    Predictive,
    Inspection,
}

#[derive(Debug, Clone, Copy, PartialEq, Eq, Structural)]
pub enum FrequencyType {
    Daily,
    Weekly,
    Monthly,
    Quarterly,
    Yearly,
    RuntimeHours,
}

#[derive(Debug, Clone, Copy, PartialEq, Eq, Structural)]
pub enum MaintenanceScheduleStatus {
    Active,
    Inactive,
    Suspended,
}

#[derive(Debug, Clone, Copy, PartialEq, Eq, Structural)]
pub enum MaintenancePriority {
    Low,
    Medium,
    High,
    Critical,
}

#[derive(Debug, Clone, Copy, PartialEq, Eq, Structural)]
pub enum MaintenanceWorkOrderStatus {
    Requested,
    Scheduled,
    InProgress,
    Completed,
    Cancelled,
}

#[derive(Debug, Clone, Copy, PartialEq, Eq, Structural)]
pub enum ChangeType {
    Design,
    Process,
    Material,
    Documentation,
    Other,
}

#[derive(Debug, Clone, Copy, PartialEq, Eq, Structural)]
pub enum ECRPriority {
    Low,
    Medium,
    High,
    Urgent,
}

#[derive(Debug, Clone, Copy, PartialEq, Eq, Structural)]
pub enum ECRStatus {
    Draft,
    Submitted,
    UnderReview,
    Approved,
    Rejected,
    Implemented,
}

#[derive(Debug, Clone, Copy, PartialEq, Eq, Structural)]
pub enum ECRItemType {
    Product,
    BOM,
    Routing,
    Document,
    Specification,
}

#[derive(Debug, Clone, Copy, PartialEq, Eq, Structural)]
pub enum ECOStatus {
    Draft,
    Approved,
    Implemented,
    Cancelled,
}

#[derive(Debug, Clone, Copy, PartialEq, Eq, Structural)]
pub enum DocumentType {
    Drawing,
    Specification,
    Procedure,
    WorkInstruction,
    Manual,
    Other,
}

#[derive(Debug, Clone, Copy, PartialEq, Eq, Structural)]
pub enum DocumentRevisionStatus {
    Draft,
    UnderReview,
    Approved,
    Superseded,
    Obsolete,
}

/// Storage handle of bills of material (holds no state).
pub struct SqliteBillOfMaterialRepository;

/// Storage handle of work orders (holds no state).
pub struct SqliteWorkOrderRepository;

pub struct BillOfMaterialService {
    repo: SqliteBillOfMaterialRepository,
}

pub struct WorkOrderService {
    repo: SqliteWorkOrderRepository,
}

pub struct ProductionScheduleService;

pub struct MRPService;

pub struct CapacityPlanningService;

pub struct MESService;

pub struct MaintenanceService;

pub struct PLMService;

/// Why a manufacturing request was refused.
#[derive(Debug, Clone, Copy, PartialEq, Eq, Structural)]
pub enum ManufacturingError {
    /// A bill of material needs at least one component.
    BomWithoutComponents,
    /// A bill of material needs a name.
    BomNameRequired,
    /// Quantities must be positive.
    QuantityNotPositive,
    /// The planning horizon must be positive.
    HorizonNotPositive,
    /// Only planned orders can be released.
    OrderNotPlanned,
    /// Available hours must be positive.
    AvailableHoursNotPositive,
    /// The operation is not in progress.
    OperationNotInProgress,
    /// The completed quantity cannot exceed the planned quantity.
    CompletedExceedsPlanned,
    /// Equipment code and name are required.
    EquipmentCodeAndNameRequired,
    /// The maintenance frequency must be positive.
    FrequencyNotPositive,
    /// A description is required.
    DescriptionRequired,
    /// An engineering change request needs a title, a description and a reason.
    EcrFieldsRequired,
    /// Only draft change requests can be submitted.
    EcrNotDraft,
    /// A change request must be submitted or under review to be approved.
    EcrNotSubmittedOrUnderReview,
    /// A change order needs an approved change request.
    EcrNotApproved,
    /// Only draft change orders can be approved.
    EcoNotDraft,
    /// A document revision needs a number, a revision and a title.
    DocumentFieldsRequired,
    /// A document must be draft or under review to be approved.
    DocumentNotDraftOrUnderReview,
}

impl BillOfMaterialService {
    /// The one value of the service, which holds no state.
    pub closed spec fn the_service() -> Self {
        BillOfMaterialService { repo: SqliteBillOfMaterialRepository }
    }
}

/// `BillOfMaterialService` holds no state: every value of it is the one that `new`
/// gives, so any two of them answer every call alike.
pub proof fn law_bill_of_material_service_is_stateless(a: BillOfMaterialService)
    ensures
        a == BillOfMaterialService::the_service(),
{
}

impl BillOfMaterialService {
    pub fn new() -> (s: Self)
        ensures
            s == BillOfMaterialService::the_service(),
    {
        BillOfMaterialService { repo: SqliteBillOfMaterialRepository }
    }

    /// A new bill of material needs components, then a name; it starts as a draft.
    pub fn validate_new(&self, component_count: usize, name: &str) -> (r: Result<(), ManufacturingError>)
        ensures
            component_count == 0 ==> r == Err::<(), ManufacturingError>(ManufacturingError::BomWithoutComponents),
            component_count > 0 && name@.len() == 0 ==> r == Err::<(), ManufacturingError>(ManufacturingError::BomNameRequired),
            component_count > 0 && name@.len() > 0 ==> r is Ok,
    {
        if component_count == 0 {
            return Err(ManufacturingError::BomWithoutComponents);
        }
        if name.is_empty() {
            return Err(ManufacturingError::BomNameRequired);
        }
        Ok(())
    }
}

impl WorkOrderService {
    /// The one value of the service, which holds no state.
    pub closed spec fn the_service() -> Self {
        WorkOrderService { repo: SqliteWorkOrderRepository }
    }
}

/// `WorkOrderService` holds no state: every value of it is the one that `new`
/// gives, so any two of them answer every call alike.
pub proof fn law_work_order_service_is_stateless(a: WorkOrderService)
    ensures
        a == WorkOrderService::the_service(),
{
}

impl WorkOrderService {
    pub fn new() -> (s: Self)
        ensures
            s == WorkOrderService::the_service(),
    {
        WorkOrderService { repo: SqliteWorkOrderRepository }
    }

    /// A work order needs a positive quantity.
    pub fn validate_quantity(&self, quantity: i64) -> (r: Result<(), ManufacturingError>)
        ensures
            r is Ok <==> quantity > 0,
            r is Err ==> r == Err::<(), ManufacturingError>(ManufacturingError::QuantityNotPositive),
    {
        if quantity <= 0 {
            return Err(ManufacturingError::QuantityNotPositive);
        }
        Ok(())
    }
}

impl ProductionScheduleService {
    /// The one value of the service, which holds no state.
    pub closed spec fn the_service() -> Self {
        ProductionScheduleService
    }
}

/// `ProductionScheduleService` holds no state: every value of it is the one that `new`
/// gives, so any two of them answer every call alike.
pub proof fn law_production_schedule_service_is_stateless(a: ProductionScheduleService)
    ensures
        a == ProductionScheduleService::the_service(),
{
}

impl ProductionScheduleService {
    pub fn new() -> (s: Self)
        ensures
            s == ProductionScheduleService::the_service(),
    {
        ProductionScheduleService
    }
}

impl MRPService {
    /// The one value of the service, which holds no state.
    pub closed spec fn the_service() -> Self {
        MRPService
    }
}

/// `MRPService` holds no state: every value of it is the one that `new`
/// gives, so any two of them answer every call alike.
pub proof fn law_mrp_service_is_stateless(a: MRPService)
    ensures
        a == MRPService::the_service(),
{
}

impl MRPService {
    pub fn new() -> (s: Self)
        ensures
            s == MRPService::the_service(),
    {
        MRPService
    }

    /// An MRP run needs a positive planning horizon.
    pub fn validate_horizon(planning_horizon_days: i32) -> (r: Result<(), ManufacturingError>)
        ensures
            r is Ok <==> planning_horizon_days > 0,
            r is Err ==> r == Err::<(), ManufacturingError>(ManufacturingError::HorizonNotPositive),
    {
        if planning_horizon_days <= 0 {
            return Err(ManufacturingError::HorizonNotPositive);
        }
        Ok(())
    }

    /// The number of an MRP run started at `now_ms`: `MRP-` and the UTC
    /// stamp `%Y%m%d%H%M%S` of that instant.
    pub fn run_number_at(now_ms: i64) -> (r: String)
        requires
            in_time_range(now_ms as int),
        ensures
            r@ == run_number_of(now_ms),
    {
        let n = String::from_str("MRP-").concat(utc_stamp(now_ms).as_str());
        proof {
            reveal_strlit("MRP-");
            assert("MRP-"@ =~= seq!['M', 'R', 'P', '-']);
        }
        n
    }

    /// Starting an MRP run now: refused unless the planning horizon is
    /// positive; else the run's number, stamped with the clock's reading.
    pub fn start_run(planning_horizon_days: i32) -> (r: Result<String, ManufacturingError>)
        ensures
            r is Ok <==> planning_horizon_days > 0,
            r is Err ==> r == Err::<String, ManufacturingError>(ManufacturingError::HorizonNotPositive),
            r matches Ok(n) ==> exists|ms: i64| in_time_range(ms as int) && n@ == #[trigger] run_number_of(ms),
    {
        match Self::validate_horizon(planning_horizon_days) {
            Ok(()) => {},
            Err(e) => return Err(e),
        }
        let now = now_millis();
        Ok(Self::run_number_at(now))
    }

    /// Releasing a planned order: only planned orders can be released; the
    /// result says whether a work order is created (for production orders).
    pub fn release_plan(order_type: MRPOrderType, status: MRPPlannedOrderStatus) -> (r: Result<bool, ManufacturingError>)
        ensures
            status != MRPPlannedOrderStatus::Planned ==> r == Err::<bool, ManufacturingError>(ManufacturingError::OrderNotPlanned),
            status == MRPPlannedOrderStatus::Planned ==> r == Ok::<bool, ManufacturingError>(order_type == MRPOrderType::Production),
    {
        if status != MRPPlannedOrderStatus::Planned {
            return Err(ManufacturingError::OrderNotPlanned);
        }
        match order_type {
            MRPOrderType::Production => Ok(true),
            MRPOrderType::Purchase => Ok(false),
            MRPOrderType::Transfer => Ok(false),
        }
    }
}

/// Sum of a sequence of hours.
pub open spec fn hours_sum(h: Seq<i64>) -> int
    decreases h.len(),
{
    if h.len() == 0 {
        0
    } else {
        hours_sum(h.drop_last()) + h.last()
    }
}

/// Every running sum of `h` fits in 64 bits.
pub open spec fn hours_sums_fit(h: Seq<i64>) -> bool {
    forall|k: int| 0 <= k <= h.len() ==> i64::MIN <= #[trigger] hours_sum(h.take(k)) <= i64::MAX
}

fn sum_hours(h: &Vec<i64>) -> (r: i64)
    requires
        hours_sums_fit(h@),
    ensures
        r == hours_sum(h@),
{
    let mut total: i64 = 0;
    let mut i: usize = 0;
    while i < h.len()
        invariant
            i <= h.len(),
            hours_sums_fit(h@),
            total == hours_sum(h@.take(i as int)),
        decreases h.len() - i,
    {
        assert(h@.take(i + 1).drop_last() =~= h@.take(i as int));
        assert(i64::MIN <= hours_sum(h@.take(i + 1)) <= i64::MAX);
        total = total + h[i];
        i = i + 1;
    }
    assert(h@.take(h.len() as int) =~= h@);
    total
}

impl CapacityPlanningService {
    /// The one value of the service, which holds no state.
    pub closed spec fn the_service() -> Self {
        CapacityPlanningService
    }
}

/// `CapacityPlanningService` holds no state: every value of it is the one that `new`
/// gives, so any two of them answer every call alike.
pub proof fn law_capacity_planning_service_is_stateless(a: CapacityPlanningService)
    ensures
        a == CapacityPlanningService::the_service(),
{
}

impl CapacityPlanningService {
    pub fn new() -> (s: Self)
        ensures
            s == CapacityPlanningService::the_service(),
    {
        CapacityPlanningService
    }

    /// A capacity plan needs positive available hours.
    pub fn validate_available_hours(available_hours: i64) -> (r: Result<(), ManufacturingError>)
        ensures
            r is Ok <==> available_hours > 0,
            r is Err ==> r == Err::<(), ManufacturingError>(ManufacturingError::AvailableHoursNotPositive),
    {
        if available_hours <= 0 {
            return Err(ManufacturingError::AvailableHoursNotPositive);
        }
        Ok(())
    }

    /// Hours planned for a capacity plan: the sum of its requirements.
    pub fn planned_hours(required_hours: &Vec<i64>) -> (r: i64)
        requires
            hours_sums_fit(required_hours@),
        ensures
            r == hours_sum(required_hours@),
    {
        sum_hours(required_hours)
    }

    /// Whether a work center can take `required_hours`: its active plans
    /// offer at least that many hours in total.
    pub fn has_capacity(active_available_hours: &Vec<i64>, required_hours: i64) -> (r: bool)
        requires
            hours_sums_fit(active_available_hours@),
        ensures
            r == (hours_sum(active_available_hours@) >= required_hours),
    {
        sum_hours(active_available_hours) >= required_hours
    }
}

impl MESService {
    /// The one value of the service, which holds no state.
    pub closed spec fn the_service() -> Self {
        MESService
    }
}

/// `MESService` holds no state: every value of it is the one that `new`
/// gives, so any two of them answer every call alike.
pub proof fn law_mes_service_is_stateless(a: MESService)
    ensures
        a == MESService::the_service(),
{
}

impl MESService {
    pub fn new() -> (s: Self)
        ensures
            s == MESService::the_service(),
    {
        MESService
    }

    /// An operation starts with a positive quantity.
    pub fn validate_start(quantity: i64) -> (r: Result<(), ManufacturingError>)
        ensures
            r is Ok <==> quantity > 0,
            r is Err ==> r == Err::<(), ManufacturingError>(ManufacturingError::QuantityNotPositive),
    {
        if quantity <= 0 {
            return Err(ManufacturingError::QuantityNotPositive);
        }
        Ok(())
    }

    /// Progress can be logged only on an operation in progress, and never
    /// beyond its planned quantity.
    pub fn validate_progress(status: ShopFloorOperationStatus, planned: i64, completed: i64) -> (r: Result<(), ManufacturingError>)
        ensures
            status != ShopFloorOperationStatus::InProgress ==> r == Err::<(), ManufacturingError>(ManufacturingError::OperationNotInProgress),
            status == ShopFloorOperationStatus::InProgress && completed > planned ==> r == Err::<(), ManufacturingError>(ManufacturingError::CompletedExceedsPlanned),
            status == ShopFloorOperationStatus::InProgress && completed <= planned ==> r is Ok,
    {
        if status != ShopFloorOperationStatus::InProgress {
            return Err(ManufacturingError::OperationNotInProgress);
        }
        if completed > planned {
            return Err(ManufacturingError::CompletedExceedsPlanned);
        }
        Ok(())
    }
    /// The text stored for a `ShopFloorLogType`.
    pub fn log_type_to_str(t: &ShopFloorLogType) -> (r: &'static str)
        ensures
            r@ == shop_floor_log_type_name(*t),
    {
        match t {
            ShopFloorLogType::Start => "Start",
            ShopFloorLogType::Complete => "Complete",
            ShopFloorLogType::Scrap => "Scrap",
            ShopFloorLogType::Rework => "Rework",
            ShopFloorLogType::Hold => "Hold",
            ShopFloorLogType::Resume => "Resume",
        }
    }
    /// The text stored for a `DowntimeEventType`.
    pub fn downtime_type_to_str(t: &DowntimeEventType) -> (r: &'static str)
        ensures
            r@ == downtime_event_type_name(*t),
    {
        match t {
            DowntimeEventType::Planned => "Planned",
            DowntimeEventType::Unplanned => "Unplanned",
            DowntimeEventType::Maintenance => "Maintenance",
            DowntimeEventType::Changeover => "Changeover",
            DowntimeEventType::Break => "Break",
        }
    }
}

impl MaintenanceService {
    /// The one value of the service, which holds no state.
    pub closed spec fn the_service() -> Self {
        MaintenanceService
    }
}

/// `MaintenanceService` holds no state: every value of it is the one that `new`
/// gives, so any two of them answer every call alike.
pub proof fn law_maintenance_service_is_stateless(a: MaintenanceService)
    ensures
        a == MaintenanceService::the_service(),
{
}

impl MaintenanceService {
    pub fn new() -> (s: Self)
        ensures
            s == MaintenanceService::the_service(),
    {
        MaintenanceService
    }

    /// Equipment needs a code and a name.
    pub fn validate_equipment(code: &str, name: &str) -> (r: Result<(), ManufacturingError>)
        ensures
            r is Ok <==> code@.len() > 0 && name@.len() > 0,
            r is Err ==> r == Err::<(), ManufacturingError>(ManufacturingError::EquipmentCodeAndNameRequired),
    {
        if code.is_empty() || name.is_empty() {
            return Err(ManufacturingError::EquipmentCodeAndNameRequired);
        }
        Ok(())
    }

    /// A maintenance schedule needs a positive frequency.
    pub fn validate_frequency(frequency_value: i32) -> (r: Result<(), ManufacturingError>)
        ensures
            r is Ok <==> frequency_value > 0,
            r is Err ==> r == Err::<(), ManufacturingError>(ManufacturingError::FrequencyNotPositive),
    {
        if frequency_value <= 0 {
            return Err(ManufacturingError::FrequencyNotPositive);
        }
        Ok(())
    }

    /// A maintenance work order needs a description.
    pub fn validate_description(description: &str) -> (r: Result<(), ManufacturingError>)
        ensures
            r is Ok <==> description@.len() > 0,
            r is Err ==> r == Err::<(), ManufacturingError>(ManufacturingError::DescriptionRequired),
    {
        if description.is_empty() {
            return Err(ManufacturingError::DescriptionRequired);
        }
        Ok(())
    }
    /// The text stored for a `EquipmentCriticality`.
    pub fn criticality_to_str(t: &EquipmentCriticality) -> (r: &'static str)
        ensures
            r@ == equipment_criticality_name(*t),
    {
        match t {
            EquipmentCriticality::Low => "Low",
            EquipmentCriticality::Medium => "Medium",
            EquipmentCriticality::High => "High",
            EquipmentCriticality::Critical => "Critical",
        }
    }
    /// The text stored for a `MaintenanceType`.
    pub fn maintenance_type_to_str(t: &MaintenanceType) -> (r: &'static str)
        ensures
            r@ == maintenance_type_name(*t),
    {
        match t {
            MaintenanceType::Preventive => "Preventive",
            MaintenanceType::Corrective => "Corrective",
            MaintenanceType::Predictive => "Predictive",
            MaintenanceType::Inspection => "Inspection",
        }
    }
    /// The text stored for a `FrequencyType`.
    pub fn frequency_type_to_str(t: &FrequencyType) -> (r: &'static str)
        ensures
            r@ == frequency_type_name(*t),
    {
        match t {
            FrequencyType::Daily => "Daily",
            FrequencyType::Weekly => "Weekly",
            FrequencyType::Monthly => "Monthly",
            FrequencyType::Quarterly => "Quarterly",
            FrequencyType::Yearly => "Yearly",
            FrequencyType::RuntimeHours => "RuntimeHours",
        }
    }
    /// The text stored for a `MaintenancePriority`.
    pub fn priority_to_str(t: &MaintenancePriority) -> (r: &'static str)
        ensures
            r@ == maintenance_priority_name(*t),
    {
        match t {
            MaintenancePriority::Low => "Low",
            MaintenancePriority::Medium => "Medium",
            MaintenancePriority::High => "High",
            MaintenancePriority::Critical => "Critical",
        }
    }
}

impl PLMService {
    /// The one value of the service, which holds no state.
    pub closed spec fn the_service() -> Self {
        PLMService
    }
}

/// `PLMService` holds no state: every value of it is the one that `new`
/// gives, so any two of them answer every call alike.
pub proof fn law_plm_service_is_stateless(a: PLMService)
    ensures
        a == PLMService::the_service(),
{
}

impl PLMService {
    pub fn new() -> (s: Self)
        ensures
            s == PLMService::the_service(),
    {
        PLMService
    }

    /// A change request needs a title, a description and a reason.
    pub fn validate_ecr(title: &str, description: &str, reason: &str) -> (r: Result<(), ManufacturingError>)
        ensures
            r is Ok <==> title@.len() > 0 && description@.len() > 0 && reason@.len() > 0,
            r is Err ==> r == Err::<(), ManufacturingError>(ManufacturingError::EcrFieldsRequired),
    {
        if title.is_empty() || description.is_empty() || reason.is_empty() {
            return Err(ManufacturingError::EcrFieldsRequired);
        }
        Ok(())
    }

    /// Submitting a change request: only drafts, which become submitted.
    pub fn submit_ecr(status: ECRStatus) -> (r: Result<ECRStatus, ManufacturingError>)
        ensures
            status == ECRStatus::Draft ==> r == Ok::<ECRStatus, ManufacturingError>(ECRStatus::Submitted),
            status != ECRStatus::Draft ==> r == Err::<ECRStatus, ManufacturingError>(ManufacturingError::EcrNotDraft),
    {
        if status != ECRStatus::Draft {
            return Err(ManufacturingError::EcrNotDraft);
        }
        Ok(ECRStatus::Submitted)
    }

    /// Approving a change request: only submitted or reviewed ones, which
    /// become approved.
    pub fn approve_ecr(status: ECRStatus) -> (r: Result<ECRStatus, ManufacturingError>)
        ensures
            (status == ECRStatus::Submitted || status == ECRStatus::UnderReview) ==> r == Ok::<ECRStatus, ManufacturingError>(ECRStatus::Approved),
            !(status == ECRStatus::Submitted || status == ECRStatus::UnderReview) ==> r == Err::<ECRStatus, ManufacturingError>(ManufacturingError::EcrNotSubmittedOrUnderReview),
    {
        if status != ECRStatus::Submitted && status != ECRStatus::UnderReview {
            return Err(ManufacturingError::EcrNotSubmittedOrUnderReview);
        }
        Ok(ECRStatus::Approved)
    }

    /// A change order can be created only from an approved change request;
    /// it starts as a draft.
    pub fn create_eco(ecr_status: ECRStatus) -> (r: Result<ECOStatus, ManufacturingError>)
        ensures
            ecr_status == ECRStatus::Approved ==> r == Ok::<ECOStatus, ManufacturingError>(ECOStatus::Draft),
            ecr_status != ECRStatus::Approved ==> r == Err::<ECOStatus, ManufacturingError>(ManufacturingError::EcrNotApproved),
    {
        if ecr_status != ECRStatus::Approved {
            return Err(ManufacturingError::EcrNotApproved);
        }
        Ok(ECOStatus::Draft)
    }

    /// Approving a change order: only drafts, which become approved.
    pub fn approve_eco(status: ECOStatus) -> (r: Result<ECOStatus, ManufacturingError>)
        ensures
            status == ECOStatus::Draft ==> r == Ok::<ECOStatus, ManufacturingError>(ECOStatus::Approved),
            status != ECOStatus::Draft ==> r == Err::<ECOStatus, ManufacturingError>(ManufacturingError::EcoNotDraft),
    {
        if status != ECOStatus::Draft {
            return Err(ManufacturingError::EcoNotDraft);
        }
        Ok(ECOStatus::Approved)
    }

    /// A document revision needs a number, a revision and a title.
    pub fn validate_document(document_number: &str, revision: &str, title: &str) -> (r: Result<(), ManufacturingError>)
        ensures
            r is Ok <==> document_number@.len() > 0 && revision@.len() > 0 && title@.len() > 0,
            r is Err ==> r == Err::<(), ManufacturingError>(ManufacturingError::DocumentFieldsRequired),
    {
        if document_number.is_empty() || revision.is_empty() || title.is_empty() {
            return Err(ManufacturingError::DocumentFieldsRequired);
        }
        Ok(())
    }

    /// Approving a document revision: only drafts or revisions under review,
    /// which become approved.
    pub fn approve_revision(status: DocumentRevisionStatus) -> (r: Result<DocumentRevisionStatus, ManufacturingError>)
        ensures
            (status == DocumentRevisionStatus::Draft || status == DocumentRevisionStatus::UnderReview) ==> r == Ok::<DocumentRevisionStatus, ManufacturingError>(DocumentRevisionStatus::Approved),
            !(status == DocumentRevisionStatus::Draft || status == DocumentRevisionStatus::UnderReview) ==> r == Err::<DocumentRevisionStatus, ManufacturingError>(ManufacturingError::DocumentNotDraftOrUnderReview),
    {
        if status != DocumentRevisionStatus::Draft && status != DocumentRevisionStatus::UnderReview {
            return Err(ManufacturingError::DocumentNotDraftOrUnderReview);
        }
        Ok(DocumentRevisionStatus::Approved)
    }
    /// The text stored for a `ChangeType`.
    pub fn change_type_to_str(t: &ChangeType) -> (r: &'static str)
        ensures
            r@ == change_type_name(*t),
    {
        match t {
            ChangeType::Design => "Design",
            ChangeType::Process => "Process",
            ChangeType::Material => "Material",
            ChangeType::Documentation => "Documentation",
            ChangeType::Other => "Other",
        }
    }
    /// The text stored for a `ECRPriority`.
    pub fn ecr_priority_to_str(t: &ECRPriority) -> (r: &'static str)
        ensures
            r@ == ecr_priority_name(*t),
    {
        match t {
            ECRPriority::Low => "Low",
            ECRPriority::Medium => "Medium",
            ECRPriority::High => "High",
            ECRPriority::Urgent => "Urgent",
        }
    }
    /// The text stored for a `DocumentType`.
    pub fn doc_type_to_str(t: &DocumentType) -> (r: &'static str)
        ensures
            r@ == document_type_name(*t),
    {
        match t {
            DocumentType::Drawing => "Drawing",
            DocumentType::Specification => "Specification",
            DocumentType::Procedure => "Procedure",
            DocumentType::WorkInstruction => "WorkInstruction",
            DocumentType::Manual => "Manual",
            DocumentType::Other => "Other",
        }
    }
}

impl MRPService {
    /// The text stored for a `MRPOrderType`.
    pub fn order_type_to_str(t: &MRPOrderType) -> (r: &'static str)
        ensures
            r@ == mrp_order_type_name(*t),
    {
        match t {
            MRPOrderType::Production => "Production",
            MRPOrderType::Purchase => "Purchase",
            MRPOrderType::Transfer => "Transfer",
        }
    }
}

/// The text stored for `MRPOrderType`.
pub open spec fn mrp_order_type_name(t: MRPOrderType) -> Seq<char> {
    match t {
        MRPOrderType::Production => "Production"@,
        MRPOrderType::Purchase => "Purchase"@,
        MRPOrderType::Transfer => "Transfer"@,
    }
}

/// The text stored for `ShopFloorLogType`.
pub open spec fn shop_floor_log_type_name(t: ShopFloorLogType) -> Seq<char> {
    match t {
        ShopFloorLogType::Start => "Start"@,
        ShopFloorLogType::Complete => "Complete"@,
        ShopFloorLogType::Scrap => "Scrap"@,
        ShopFloorLogType::Rework => "Rework"@,
        ShopFloorLogType::Hold => "Hold"@,
        ShopFloorLogType::Resume => "Resume"@,
    }
}

/// The text stored for `DowntimeEventType`.
pub open spec fn downtime_event_type_name(t: DowntimeEventType) -> Seq<char> {
    match t {
        DowntimeEventType::Planned => "Planned"@,
        DowntimeEventType::Unplanned => "Unplanned"@,
        DowntimeEventType::Maintenance => "Maintenance"@,
        DowntimeEventType::Changeover => "Changeover"@,
        DowntimeEventType::Break => "Break"@,
    }
}

/// The text stored for `EquipmentCriticality`.
pub open spec fn equipment_criticality_name(t: EquipmentCriticality) -> Seq<char> {
    match t {
        EquipmentCriticality::Low => "Low"@,
        EquipmentCriticality::Medium => "Medium"@,
        EquipmentCriticality::High => "High"@,
        EquipmentCriticality::Critical => "Critical"@,
    }
}

/// The text stored for `MaintenanceType`.
pub open spec fn maintenance_type_name(t: MaintenanceType) -> Seq<char> {
    match t {
        MaintenanceType::Preventive => "Preventive"@,
        MaintenanceType::Corrective => "Corrective"@,
        MaintenanceType::Predictive => "Predictive"@,
        MaintenanceType::Inspection => "Inspection"@,
    }
}

/// The text stored for `FrequencyType`.
pub open spec fn frequency_type_name(t: FrequencyType) -> Seq<char> {
    match t {
        FrequencyType::Daily => "Daily"@,
        FrequencyType::Weekly => "Weekly"@,
        FrequencyType::Monthly => "Monthly"@,
        FrequencyType::Quarterly => "Quarterly"@,
        FrequencyType::Yearly => "Yearly"@,
        FrequencyType::RuntimeHours => "RuntimeHours"@,
    }
}

/// The text stored for `MaintenancePriority`.
pub open spec fn maintenance_priority_name(t: MaintenancePriority) -> Seq<char> {
    match t {
        MaintenancePriority::Low => "Low"@,
        MaintenancePriority::Medium => "Medium"@,
        MaintenancePriority::High => "High"@,
        MaintenancePriority::Critical => "Critical"@,
    }
}

/// The text stored for `ChangeType`.
pub open spec fn change_type_name(t: ChangeType) -> Seq<char> {
    match t {
        ChangeType::Design => "Design"@,
        ChangeType::Process => "Process"@,
        ChangeType::Material => "Material"@,
        ChangeType::Documentation => "Documentation"@,
        ChangeType::Other => "Other"@,
    }
}

/// The text stored for `ECRPriority`.
pub open spec fn ecr_priority_name(t: ECRPriority) -> Seq<char> {
    match t {
        ECRPriority::Low => "Low"@,
        ECRPriority::Medium => "Medium"@,
        ECRPriority::High => "High"@,
        ECRPriority::Urgent => "Urgent"@,
    }
}

/// The text stored for `DocumentType`.
pub open spec fn document_type_name(t: DocumentType) -> Seq<char> {
    match t {
        DocumentType::Drawing => "Drawing"@,
        DocumentType::Specification => "Specification"@,
        DocumentType::Procedure => "Procedure"@,
        DocumentType::WorkInstruction => "WorkInstruction"@,
        DocumentType::Manual => "Manual"@,
        DocumentType::Other => "Other"@,
    }
}

/// The `ScheduleStatus` a stored text denotes (`Planned` for any other text).
pub open spec fn schedule_status_from_text(s: Seq<char>) -> ScheduleStatus {
    if s == "InProgress"@ {
        ScheduleStatus::InProgress
    } else if s == "Completed"@ {
        ScheduleStatus::Completed
    } else if s == "Cancelled"@ {
        ScheduleStatus::Cancelled
    } else {
        ScheduleStatus::Planned
    }
}

/// Reads stored `ScheduleStatus` (`Planned` for any other text).
pub fn parse_schedule_status(s: &str) -> (r: ScheduleStatus)
    ensures
        r == schedule_status_from_text(s@),
{
    if text_eq(s, "InProgress") {
        ScheduleStatus::InProgress
    } else if text_eq(s, "Completed") {
        ScheduleStatus::Completed
    } else if text_eq(s, "Cancelled") {
        ScheduleStatus::Cancelled
    } else {
        ScheduleStatus::Planned
    }
}

/// The `MRPRunStatus` a stored text denotes (`Running` for any other text).
pub open spec fn mrp_run_status_from_text(s: Seq<char>) -> MRPRunStatus {
    if s == "Completed"@ {
        MRPRunStatus::Completed
    } else if s == "Failed"@ {
        MRPRunStatus::Failed
    } else {
        MRPRunStatus::Running
    }
}

/// Reads stored `MRPRunStatus` (`Running` for any other text).
pub fn parse_mrp_run_status(s: &str) -> (r: MRPRunStatus)
    ensures
        r == mrp_run_status_from_text(s@),
{
    if text_eq(s, "Completed") {
        MRPRunStatus::Completed
    } else if text_eq(s, "Failed") {
        MRPRunStatus::Failed
    } else {
        MRPRunStatus::Running
    }
}

/// The `MRPOrderType` a stored text denotes (`Production` for any other text).
pub open spec fn mrp_order_type_from_text(s: Seq<char>) -> MRPOrderType {
    if s == "Purchase"@ {
        MRPOrderType::Purchase
    } else if s == "Transfer"@ {
        MRPOrderType::Transfer
    } else {
        MRPOrderType::Production
    }
}

/// Reads stored `MRPOrderType` (`Production` for any other text).
pub fn parse_mrp_order_type(s: &str) -> (r: MRPOrderType)
    ensures
        r == mrp_order_type_from_text(s@),
{
    if text_eq(s, "Purchase") {
        MRPOrderType::Purchase
    } else if text_eq(s, "Transfer") {
        MRPOrderType::Transfer
    } else {
        MRPOrderType::Production
    }
}

/// The `MRPPlannedOrderStatus` a stored text denotes (`Planned` for any other text).
pub open spec fn mrp_planned_order_status_from_text(s: Seq<char>) -> MRPPlannedOrderStatus {
    if s == "Released"@ {
        MRPPlannedOrderStatus::Released
    } else if s == "Firmed"@ {
        MRPPlannedOrderStatus::Firmed
    } else if s == "Cancelled"@ {
        MRPPlannedOrderStatus::Cancelled
    } else {
        MRPPlannedOrderStatus::Planned
    }
}

/// Reads stored `MRPPlannedOrderStatus` (`Planned` for any other text).
pub fn parse_mrp_planned_order_status(s: &str) -> (r: MRPPlannedOrderStatus)
    ensures
        r == mrp_planned_order_status_from_text(s@),
{
    if text_eq(s, "Released") {
        MRPPlannedOrderStatus::Released
    } else if text_eq(s, "Firmed") {
        MRPPlannedOrderStatus::Firmed
    } else if text_eq(s, "Cancelled") {
        MRPPlannedOrderStatus::Cancelled
    } else {
        MRPPlannedOrderStatus::Planned
    }
}

/// The `CapacityPlanStatus` a stored text denotes (`Planned` for any other text).
pub open spec fn capacity_plan_status_from_text(s: Seq<char>) -> CapacityPlanStatus {
    if s == "Active"@ {
        CapacityPlanStatus::Active
    } else if s == "Closed"@ {
        CapacityPlanStatus::Closed
    } else {
        CapacityPlanStatus::Planned
    }
}

/// Reads stored `CapacityPlanStatus` (`Planned` for any other text).
pub fn parse_capacity_plan_status(s: &str) -> (r: CapacityPlanStatus)
    ensures
        r == capacity_plan_status_from_text(s@),
{
    if text_eq(s, "Active") {
        CapacityPlanStatus::Active
    } else if text_eq(s, "Closed") {
        CapacityPlanStatus::Closed
    } else {
        CapacityPlanStatus::Planned
    }
}

/// The `CapacityRequirementStatus` a stored text denotes (`Planned` for any other text).
pub open spec fn capacity_requirement_status_from_text(s: Seq<char>) -> CapacityRequirementStatus {
    if s == "Scheduled"@ {
        CapacityRequirementStatus::Scheduled
    } else if s == "InProgress"@ {
        CapacityRequirementStatus::InProgress
    } else if s == "Completed"@ {
        CapacityRequirementStatus::Completed
    } else {
        CapacityRequirementStatus::Planned
    }
}

/// Reads stored `CapacityRequirementStatus` (`Planned` for any other text).
pub fn parse_capacity_requirement_status(s: &str) -> (r: CapacityRequirementStatus)
    ensures
        r == capacity_requirement_status_from_text(s@),
{
    if text_eq(s, "Scheduled") {
        CapacityRequirementStatus::Scheduled
    } else if text_eq(s, "InProgress") {
        CapacityRequirementStatus::InProgress
    } else if text_eq(s, "Completed") {
        CapacityRequirementStatus::Completed
    } else {
        CapacityRequirementStatus::Planned
    }
}

/// The `ShopFloorOperationStatus` a stored text denotes (`Pending` for any other text).
pub open spec fn shop_floor_operation_status_from_text(s: Seq<char>) -> ShopFloorOperationStatus {
    if s == "InProgress"@ {
        ShopFloorOperationStatus::InProgress
    } else if s == "Completed"@ {
        ShopFloorOperationStatus::Completed
    } else if s == "OnHold"@ {
        ShopFloorOperationStatus::OnHold
    } else {
        ShopFloorOperationStatus::Pending
    }
}

/// Reads stored `ShopFloorOperationStatus` (`Pending` for any other text).
pub fn parse_shop_floor_operation_status(s: &str) -> (r: ShopFloorOperationStatus)
    ensures
        r == shop_floor_operation_status_from_text(s@),
{
    if text_eq(s, "InProgress") {
        ShopFloorOperationStatus::InProgress
    } else if text_eq(s, "Completed") {
        ShopFloorOperationStatus::Completed
    } else if text_eq(s, "OnHold") {
        ShopFloorOperationStatus::OnHold
    } else {
        ShopFloorOperationStatus::Pending
    }
}

/// The `DowntimeEventType` a stored text denotes (`Planned` for any other text).
pub open spec fn downtime_event_type_from_text(s: Seq<char>) -> DowntimeEventType {
    if s == "Unplanned"@ {
        DowntimeEventType::Unplanned
    } else if s == "Maintenance"@ {
        DowntimeEventType::Maintenance
    } else if s == "Changeover"@ {
        DowntimeEventType::Changeover
    } else if s == "Break"@ {
        DowntimeEventType::Break
    } else {
        DowntimeEventType::Planned
    }
}

/// Reads stored `DowntimeEventType` (`Planned` for any other text).
pub fn parse_downtime_event_type(s: &str) -> (r: DowntimeEventType)
    ensures
        r == downtime_event_type_from_text(s@),
{
    if text_eq(s, "Unplanned") {
        DowntimeEventType::Unplanned
    } else if text_eq(s, "Maintenance") {
        DowntimeEventType::Maintenance
    } else if text_eq(s, "Changeover") {
        DowntimeEventType::Changeover
    } else if text_eq(s, "Break") {
        DowntimeEventType::Break
    } else {
        DowntimeEventType::Planned
    }
}

/// The `EquipmentStatus` a stored text denotes (`Active` for any other text).
pub open spec fn equipment_status_from_text(s: Seq<char>) -> EquipmentStatus {
    if s == "Inactive"@ {
        EquipmentStatus::Inactive
    } else if s == "Maintenance"@ {
        EquipmentStatus::Maintenance
    } else if s == "Retired"@ {
        EquipmentStatus::Retired
    } else {
        EquipmentStatus::Active
    }
}

/// Reads stored `EquipmentStatus` (`Active` for any other text).
pub fn parse_equipment_status(s: &str) -> (r: EquipmentStatus)
    ensures
        r == equipment_status_from_text(s@),
{
    if text_eq(s, "Inactive") {
        EquipmentStatus::Inactive
    } else if text_eq(s, "Maintenance") {
        EquipmentStatus::Maintenance
    } else if text_eq(s, "Retired") {
        EquipmentStatus::Retired
    } else {
        EquipmentStatus::Active
    }
}

/// The `EquipmentCriticality` a stored text denotes (`Critical` for any other text).
pub open spec fn equipment_criticality_from_text(s: Seq<char>) -> EquipmentCriticality {
    if s == "Low"@ {
        EquipmentCriticality::Low
    } else if s == "Medium"@ {
        EquipmentCriticality::Medium
    } else if s == "High"@ {
        EquipmentCriticality::High
    } else {
        EquipmentCriticality::Critical
    }
}

/// Reads stored `EquipmentCriticality` (`Critical` for any other text).
pub fn parse_equipment_criticality(s: &str) -> (r: EquipmentCriticality)
    ensures
        r == equipment_criticality_from_text(s@),
{
    if text_eq(s, "Low") {
        EquipmentCriticality::Low
    } else if text_eq(s, "Medium") {
        EquipmentCriticality::Medium
    } else if text_eq(s, "High") {
        EquipmentCriticality::High
    } else {
        EquipmentCriticality::Critical
    }
}

/// The `MaintenanceType` a stored text denotes (`Preventive` for any other text).
pub open spec fn maintenance_type_from_text(s: Seq<char>) -> MaintenanceType {
    if s == "Corrective"@ {
        MaintenanceType::Corrective
    } else if s == "Predictive"@ {
        MaintenanceType::Predictive
    } else if s == "Inspection"@ {
        MaintenanceType::Inspection
    } else {
        MaintenanceType::Preventive
    }
}

/// Reads stored `MaintenanceType` (`Preventive` for any other text).
pub fn parse_maintenance_type(s: &str) -> (r: MaintenanceType)
    ensures
        r == maintenance_type_from_text(s@),
{
    if text_eq(s, "Corrective") {
        MaintenanceType::Corrective
    } else if text_eq(s, "Predictive") {
        MaintenanceType::Predictive
    } else if text_eq(s, "Inspection") {
        MaintenanceType::Inspection
    } else {
        MaintenanceType::Preventive
    }
}

/// The `FrequencyType` a stored text denotes (`Daily` for any other text).
pub open spec fn frequency_type_from_text(s: Seq<char>) -> FrequencyType {
    if s == "Weekly"@ {
        FrequencyType::Weekly
    } else if s == "Monthly"@ {
        FrequencyType::Monthly
    } else if s == "Quarterly"@ {
        FrequencyType::Quarterly
    } else if s == "Yearly"@ {
        FrequencyType::Yearly
    } else if s == "RuntimeHours"@ {
        FrequencyType::RuntimeHours
    } else {
        FrequencyType::Daily
    }
}

/// Reads stored `FrequencyType` (`Daily` for any other text).
pub fn parse_frequency_type(s: &str) -> (r: FrequencyType)
    ensures
        r == frequency_type_from_text(s@),
{
    if text_eq(s, "Weekly") {
        FrequencyType::Weekly
    } else if text_eq(s, "Monthly") {
        FrequencyType::Monthly
    } else if text_eq(s, "Quarterly") {
        FrequencyType::Quarterly
    } else if text_eq(s, "Yearly") {
        FrequencyType::Yearly
    } else if text_eq(s, "RuntimeHours") {
        FrequencyType::RuntimeHours
    } else {
        FrequencyType::Daily
    }
}

/// The `MaintenanceScheduleStatus` a stored text denotes (`Active` for any other text).
pub open spec fn maintenance_schedule_status_from_text(s: Seq<char>) -> MaintenanceScheduleStatus {
    if s == "Inactive"@ {
        MaintenanceScheduleStatus::Inactive
    } else if s == "Suspended"@ {
        MaintenanceScheduleStatus::Suspended
    } else {
        MaintenanceScheduleStatus::Active
    }
}

/// Reads stored `MaintenanceScheduleStatus` (`Active` for any other text).
pub fn parse_maintenance_schedule_status(s: &str) -> (r: MaintenanceScheduleStatus)
    ensures
        r == maintenance_schedule_status_from_text(s@),
{
    if text_eq(s, "Inactive") {
        MaintenanceScheduleStatus::Inactive
    } else if text_eq(s, "Suspended") {
        MaintenanceScheduleStatus::Suspended
    } else {
        MaintenanceScheduleStatus::Active
    }
}

/// The `MaintenancePriority` a stored text denotes (`Critical` for any other text).
pub open spec fn maintenance_priority_from_text(s: Seq<char>) -> MaintenancePriority {
    if s == "Low"@ {
        MaintenancePriority::Low
    } else if s == "Medium"@ {
        MaintenancePriority::Medium
    } else if s == "High"@ {
        MaintenancePriority::High
    } else {
        MaintenancePriority::Critical
    }
}

/// Reads stored `MaintenancePriority` (`Critical` for any other text).
pub fn parse_maintenance_priority(s: &str) -> (r: MaintenancePriority)
    ensures
        r == maintenance_priority_from_text(s@),
{
    if text_eq(s, "Low") {
        MaintenancePriority::Low
    } else if text_eq(s, "Medium") {
        MaintenancePriority::Medium
    } else if text_eq(s, "High") {
        MaintenancePriority::High
    } else {
        MaintenancePriority::Critical
    }
}

/// The `MaintenanceWorkOrderStatus` a stored text denotes (`Requested` for any other text).
pub open spec fn maintenance_work_order_status_from_text(s: Seq<char>) -> MaintenanceWorkOrderStatus {
    if s == "Scheduled"@ {
        MaintenanceWorkOrderStatus::Scheduled
    } else if s == "InProgress"@ {
        MaintenanceWorkOrderStatus::InProgress
    } else if s == "Completed"@ {
        MaintenanceWorkOrderStatus::Completed
    } else if s == "Cancelled"@ {
        MaintenanceWorkOrderStatus::Cancelled
    } else {
        MaintenanceWorkOrderStatus::Requested
    }
}

/// Reads stored `MaintenanceWorkOrderStatus` (`Requested` for any other text).
pub fn parse_maintenance_work_order_status(s: &str) -> (r: MaintenanceWorkOrderStatus)
    ensures
        r == maintenance_work_order_status_from_text(s@),
{
    if text_eq(s, "Scheduled") {
        MaintenanceWorkOrderStatus::Scheduled
    } else if text_eq(s, "InProgress") {
        MaintenanceWorkOrderStatus::InProgress
    } else if text_eq(s, "Completed") {
        MaintenanceWorkOrderStatus::Completed
    } else if text_eq(s, "Cancelled") {
        MaintenanceWorkOrderStatus::Cancelled
    } else {
        MaintenanceWorkOrderStatus::Requested
    }
}

/// The `ChangeType` a stored text denotes (`Design` for any other text).
pub open spec fn change_type_from_text(s: Seq<char>) -> ChangeType {
    if s == "Process"@ {
        ChangeType::Process
    } else if s == "Material"@ {
        ChangeType::Material
    } else if s == "Documentation"@ {
        ChangeType::Documentation
    } else if s == "Other"@ {
        ChangeType::Other
    } else {
        ChangeType::Design
    }
}

/// Reads stored `ChangeType` (`Design` for any other text).
pub fn parse_change_type(s: &str) -> (r: ChangeType)
    ensures
        r == change_type_from_text(s@),
{
    if text_eq(s, "Process") {
        ChangeType::Process
    } else if text_eq(s, "Material") {
        ChangeType::Material
    } else if text_eq(s, "Documentation") {
        ChangeType::Documentation
    } else if text_eq(s, "Other") {
        ChangeType::Other
    } else {
        ChangeType::Design
    }
}

/// The `ECRPriority` a stored text denotes (`Urgent` for any other text).
pub open spec fn ecr_priority_from_text(s: Seq<char>) -> ECRPriority {
    if s == "Low"@ {
        ECRPriority::Low
    } else if s == "Medium"@ {
        ECRPriority::Medium
    } else if s == "High"@ {
        ECRPriority::High
    } else {
        ECRPriority::Urgent
    }
}

/// Reads stored `ECRPriority` (`Urgent` for any other text).
pub fn parse_ecr_priority(s: &str) -> (r: ECRPriority)
    ensures
        r == ecr_priority_from_text(s@),
{
    if text_eq(s, "Low") {
        ECRPriority::Low
    } else if text_eq(s, "Medium") {
        ECRPriority::Medium
    } else if text_eq(s, "High") {
        ECRPriority::High
    } else {
        ECRPriority::Urgent
    }
}

/// The `ECRStatus` a stored text denotes (`Draft` for any other text).
pub open spec fn ecr_status_from_text(s: Seq<char>) -> ECRStatus {
    if s == "Submitted"@ {
        ECRStatus::Submitted
    } else if s == "UnderReview"@ {
        ECRStatus::UnderReview
    } else if s == "Approved"@ {
        ECRStatus::Approved
    } else if s == "Rejected"@ {
        ECRStatus::Rejected
    } else if s == "Implemented"@ {
        ECRStatus::Implemented
    } else {
        ECRStatus::Draft
    }
}

/// Reads stored `ECRStatus` (`Draft` for any other text).
pub fn parse_ecr_status(s: &str) -> (r: ECRStatus)
    ensures
        r == ecr_status_from_text(s@),
{
    if text_eq(s, "Submitted") {
        ECRStatus::Submitted
    } else if text_eq(s, "UnderReview") {
        ECRStatus::UnderReview
    } else if text_eq(s, "Approved") {
        ECRStatus::Approved
    } else if text_eq(s, "Rejected") {
        ECRStatus::Rejected
    } else if text_eq(s, "Implemented") {
        ECRStatus::Implemented
    } else {
        ECRStatus::Draft
    }
}

/// The `ECOStatus` a stored text denotes (`Draft` for any other text).
pub open spec fn eco_status_from_text(s: Seq<char>) -> ECOStatus {
    if s == "Approved"@ {
        ECOStatus::Approved
    } else if s == "Implemented"@ {
        ECOStatus::Implemented
    } else if s == "Cancelled"@ {
        ECOStatus::Cancelled
    } else {
        ECOStatus::Draft
    }
}

/// Reads stored `ECOStatus` (`Draft` for any other text).
pub fn parse_eco_status(s: &str) -> (r: ECOStatus)
    ensures
        r == eco_status_from_text(s@),
{
    if text_eq(s, "Approved") {
        ECOStatus::Approved
    } else if text_eq(s, "Implemented") {
        ECOStatus::Implemented
    } else if text_eq(s, "Cancelled") {
        ECOStatus::Cancelled
    } else {
        ECOStatus::Draft
    }
}

/// The `DocumentType` a stored text denotes (`Drawing` for any other text).
pub open spec fn document_type_from_text(s: Seq<char>) -> DocumentType {
    if s == "Specification"@ {
        DocumentType::Specification
    } else if s == "Procedure"@ {
        DocumentType::Procedure
    } else if s == "WorkInstruction"@ {
        DocumentType::WorkInstruction
    } else if s == "Manual"@ {
        DocumentType::Manual
    } else if s == "Other"@ {
        DocumentType::Other
    } else {
        DocumentType::Drawing
    }
}

/// Reads stored `DocumentType` (`Drawing` for any other text).
pub fn parse_document_type(s: &str) -> (r: DocumentType)
    ensures
        r == document_type_from_text(s@),
{
    if text_eq(s, "Specification") {
        DocumentType::Specification
    } else if text_eq(s, "Procedure") {
        DocumentType::Procedure
    } else if text_eq(s, "WorkInstruction") {
        DocumentType::WorkInstruction
    } else if text_eq(s, "Manual") {
        DocumentType::Manual
    } else if text_eq(s, "Other") {
        DocumentType::Other
    } else {
        DocumentType::Drawing
    }
}

/// The `DocumentRevisionStatus` a stored text denotes (`Draft` for any other text).
pub open spec fn document_revision_status_from_text(s: Seq<char>) -> DocumentRevisionStatus {
    if s == "UnderReview"@ {
        DocumentRevisionStatus::UnderReview
    } else if s == "Approved"@ {
        DocumentRevisionStatus::Approved
    } else if s == "Superseded"@ {
        DocumentRevisionStatus::Superseded
    } else if s == "Obsolete"@ {
        DocumentRevisionStatus::Obsolete
    } else {
        DocumentRevisionStatus::Draft
    }
}

/// Reads stored `DocumentRevisionStatus` (`Draft` for any other text).
pub fn parse_document_revision_status(s: &str) -> (r: DocumentRevisionStatus)
    ensures
        r == document_revision_status_from_text(s@),
{
    if text_eq(s, "UnderReview") {
        DocumentRevisionStatus::UnderReview
    } else if text_eq(s, "Approved") {
        DocumentRevisionStatus::Approved
    } else if text_eq(s, "Superseded") {
        DocumentRevisionStatus::Superseded
    } else if text_eq(s, "Obsolete") {
        DocumentRevisionStatus::Obsolete
    } else {
        DocumentRevisionStatus::Draft
    }
}

/// Reading back the text stored for `MRPOrderType` gives the same value.
pub proof fn law_mrp_order_type_text_round_trip(t: MRPOrderType)
    ensures
        mrp_order_type_from_text(mrp_order_type_name(t)) == t,
{
    reveal_strlit("Production");
    reveal_strlit("Purchase");
    reveal_strlit("Transfer");
    assert("Production"@.len() == 10);
    assert("Purchase"@.len() == 8);
    assert("Transfer"@.len() == 8);
    assert("Purchase"@[0] != "Transfer"@[0]);
}

/// Reading back the text stored for `DowntimeEventType` gives the same value.
pub proof fn law_downtime_event_type_text_round_trip(t: DowntimeEventType)
    ensures
        downtime_event_type_from_text(downtime_event_type_name(t)) == t,
{
    reveal_strlit("Break");
    reveal_strlit("Changeover");
    reveal_strlit("Maintenance");
    reveal_strlit("Planned");
    reveal_strlit("Unplanned");
    assert("Break"@.len() == 5);
    assert("Changeover"@.len() == 10);
    assert("Maintenance"@.len() == 11);
    assert("Planned"@.len() == 7);
    assert("Unplanned"@.len() == 9);
}

/// Reading back the text stored for `EquipmentCriticality` gives the same value.
pub proof fn law_equipment_criticality_text_round_trip(t: EquipmentCriticality)
    ensures
        equipment_criticality_from_text(equipment_criticality_name(t)) == t,
{
    reveal_strlit("Critical");
    reveal_strlit("High");
    reveal_strlit("Low");
    reveal_strlit("Medium");
    assert("Critical"@.len() == 8);
    assert("High"@.len() == 4);
    assert("Low"@.len() == 3);
    assert("Medium"@.len() == 6);
}

/// Reading back the text stored for `MaintenanceType` gives the same value.
pub proof fn law_maintenance_type_text_round_trip(t: MaintenanceType)
    ensures
        maintenance_type_from_text(maintenance_type_name(t)) == t,
{
    reveal_strlit("Corrective");
    reveal_strlit("Inspection");
    reveal_strlit("Predictive");
    reveal_strlit("Preventive");
    assert("Corrective"@.len() == 10);
    assert("Inspection"@.len() == 10);
    assert("Predictive"@.len() == 10);
    assert("Preventive"@.len() == 10);
    assert("Corrective"@[0] != "Inspection"@[0]);
    assert("Corrective"@[0] != "Predictive"@[0]);
    assert("Corrective"@[0] != "Preventive"@[0]);
    assert("Inspection"@[0] != "Predictive"@[0]);
    assert("Inspection"@[0] != "Preventive"@[0]);
    assert("Predictive"@[3] != "Preventive"@[3]);
}

/// Reading back the text stored for `FrequencyType` gives the same value.
pub proof fn law_frequency_type_text_round_trip(t: FrequencyType)
    ensures
        frequency_type_from_text(frequency_type_name(t)) == t,
{
    reveal_strlit("Daily");
    reveal_strlit("Monthly");
    reveal_strlit("Quarterly");
    reveal_strlit("RuntimeHours");
    reveal_strlit("Weekly");
    reveal_strlit("Yearly");
    assert("Daily"@.len() == 5);
    assert("Monthly"@.len() == 7);
    assert("Quarterly"@.len() == 9);
    assert("RuntimeHours"@.len() == 12);
    assert("Weekly"@.len() == 6);
    assert("Yearly"@.len() == 6);
    assert("Weekly"@[0] != "Yearly"@[0]);
}

/// Reading back the text stored for `MaintenancePriority` gives the same value.
pub proof fn law_maintenance_priority_text_round_trip(t: MaintenancePriority)
    ensures
        maintenance_priority_from_text(maintenance_priority_name(t)) == t,
{
    reveal_strlit("Critical");
    reveal_strlit("High");
    reveal_strlit("Low");
    reveal_strlit("Medium");
    assert("Critical"@.len() == 8);
    assert("High"@.len() == 4);
    assert("Low"@.len() == 3);
    assert("Medium"@.len() == 6);
}

/// Reading back the text stored for `ChangeType` gives the same value.
pub proof fn law_change_type_text_round_trip(t: ChangeType)
    ensures
        change_type_from_text(change_type_name(t)) == t,
{
    reveal_strlit("Design");
    reveal_strlit("Documentation");
    reveal_strlit("Material");
    reveal_strlit("Other");
    reveal_strlit("Process");
    assert("Design"@.len() == 6);
    assert("Documentation"@.len() == 13);
    assert("Material"@.len() == 8);
    assert("Other"@.len() == 5);
    assert("Process"@.len() == 7);
}

/// Reading back the text stored for `ECRPriority` gives the same value.
pub proof fn law_ecr_priority_text_round_trip(t: ECRPriority)
    ensures
        ecr_priority_from_text(ecr_priority_name(t)) == t,
{
    reveal_strlit("High");
    reveal_strlit("Low");
    reveal_strlit("Medium");
    reveal_strlit("Urgent");
    assert("High"@.len() == 4);
    assert("Low"@.len() == 3);
    assert("Medium"@.len() == 6);
    assert("Urgent"@.len() == 6);
    assert("Medium"@[0] != "Urgent"@[0]);
}

/// Reading back the text stored for `DocumentType` gives the same value.
pub proof fn law_document_type_text_round_trip(t: DocumentType)
    ensures
        document_type_from_text(document_type_name(t)) == t,
{
    reveal_strlit("Drawing");
    reveal_strlit("Manual");
    reveal_strlit("Other");
    reveal_strlit("Procedure");
    reveal_strlit("Specification");
    reveal_strlit("WorkInstruction");
    assert("Drawing"@.len() == 7);
    assert("Manual"@.len() == 6);
    assert("Other"@.len() == 5);
    assert("Procedure"@.len() == 9);
    assert("Specification"@.len() == 13);
    assert("WorkInstruction"@.len() == 15);
}

} // verus!
