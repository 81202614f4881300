//! Material requirements planning: planning runs, item parameters, demand
//! forecasts and planned orders.
use vstd::prelude::*;
use vstd::string::StringExecFns;
use crate::common::{add_days, day_in_range, day_number, in_time_range, is_valid, new_id,
    now_millis, compact_utc_stamp, utc_date_of, utc_stamp, uuid_hyphenated, CivilDate, RecordStatus,
    MILLIS_PER_DAY};

verus! {

#[derive(Debug, Clone, Copy, PartialEq, Eq, Structural)]
pub enum MRPStatus {
    Draft,
    Running,
    Completed,
    Error,
    Cancelled,
}

#[derive(Debug, Clone, Copy, PartialEq, Eq, Structural)]
pub enum MRPActionType {
    Purchase,
    Manufacture,
    Transfer,
    NoAction,
}

#[derive(Debug, Clone, Copy, PartialEq, Eq, Structural)]
pub enum DemandType {
    SalesOrder,
    Forecast,
    Manual,
    Dependent,
    SafetyStock,
}

#[derive(Debug, Clone, Copy, PartialEq, Eq, Structural)]
pub enum SafetyStockMethod {
    Fixed,
    DaysOfSupply,
    Dynamic,
}

#[derive(Debug, Clone, Copy, PartialEq, Eq, Structural)]
pub enum SupplyType {
    OnHand,
    PurchaseOrder,
    WorkOrder,
    TransferOrder,
    PlannedOrder,
}

#[derive(Debug, Clone, Copy, PartialEq, Eq, Structural)]
pub enum SuggestionStatus {
    Suggested,
    Approved,
    Converted,
    Rejected,
    Expired,
}

#[derive(Debug, Clone, Copy, PartialEq, Eq, Structural)]
pub enum PlanningMethod {
    MRP,
    ReorderPoint,
    Kanban,
    TimePhased,
    Manual,
}

#[derive(Debug, Clone, Copy, PartialEq, Eq, Structural)]
pub enum LotSizeMethod {
    Fixed,
    LotForLot,
    PeriodOrderQuantity,
    EconomicOrderQuantity,
    MinMax,
}

#[derive(Debug, Clone, Copy, PartialEq, Eq, Structural)]
pub enum OrderPolicy {
    Standard,
    Forward,
    Backward,
}

#[derive(Debug, Clone, Copy, PartialEq, Eq, Structural)]
pub enum ForecastMethod {
    MovingAverage,
    WeightedMovingAverage,
    ExponentialSmoothing,
    Seasonal,
    Manual,
}

#[derive(Debug, Clone, Copy, PartialEq, Eq, Structural)]
pub enum PlannedOrderStatus {
    Open,
    Firmed,
    Converted,
    Cancelled,
}

#[derive(Debug, Clone, Copy, PartialEq, Eq, Structural)]
pub enum MRPExceptionType {
    PastDueOrder,
    LeadTimeViolation,
    Shortage,
    ExcessInventory,
    BelowSafetyStock,
    InvalidParameter,
    MissingBOM,
    MissingRouting,
    SupplierLeadTime,
}

#[derive(Debug, Clone, Copy, PartialEq, Eq, Structural)]
pub enum ExceptionSeverity {
    Info,
    Warning,
    Error,
    Critical,
}

/// Storage handle of the planning module (holds no state).
pub struct MrpRepository;

/// Planning operations.
pub struct MrpService;

/// Why a planning record could not be made.
#[derive(Debug, Clone, Copy, PartialEq, Eq, Structural)]
pub enum MrpError {
    /// A date would fall outside the calendar's range.
    DateOutOfRange,
}

/// A planning run.
#[derive(Debug, Clone)]
pub struct MRPRun {
    pub id: u128,
    pub run_number: String,
    pub name: String,
    pub planning_horizon_days: i32,
    pub run_date: CivilDate,
    pub start_date: CivilDate,
    pub end_date: CivilDate,
    pub include_forecasts: bool,
    pub include_sales_orders: bool,
    pub include_work_orders: bool,
    pub safety_stock_method: SafetyStockMethod,
    pub status: MRPStatus,
    pub total_items_planned: i32,
    pub total_suggestions: i32,
    pub error_message: Option<String>,
    pub completed_at_ms: Option<i64>,
    pub created_by: Option<u128>,
    pub created_at_ms: i64,
    pub updated_at_ms: i64,
}

/// Planning parameters of one product in one warehouse.
#[derive(Debug, Clone)]
pub struct MRPParameter {
    pub id: u128,
    pub product_id: u128,
    pub warehouse_id: u128,
    pub planning_method: PlanningMethod,
    pub lot_size_method: LotSizeMethod,
    pub fixed_lot_size: i64,
    pub min_lot_size: i64,
    pub max_lot_size: i64,
    pub multiple_lot_size: i64,
    pub safety_stock: i64,
    pub safety_time_days: i32,
    pub lead_time_days: i32,
    pub planning_time_fence_days: i32,
    pub order_policy: OrderPolicy,
    pub min_order_days: i32,
    pub max_order_days: i32,
    pub days_of_supply: i32,
    pub service_level_percent: i32,
    pub status: RecordStatus,
    pub created_at_ms: i64,
    pub updated_at_ms: i64,
}

/// A demand forecast header.
#[derive(Debug, Clone)]
pub struct DemandForecast {
    pub id: u128,
    pub forecast_number: String,
    pub name: String,
    pub start_date: CivilDate,
    pub end_date: CivilDate,
    pub forecast_method: ForecastMethod,
    pub status: RecordStatus,
    pub created_by: Option<u128>,
    pub created_at_ms: i64,
    pub updated_at_ms: i64,
}

/// An order proposed by a planning run.
#[derive(Debug, Clone)]
pub struct PlannedOrder {
    pub id: u128,
    pub order_number: String,
    pub run_id: u128,
    pub product_id: u128,
    pub warehouse_id: u128,
    pub order_type: MRPActionType,
    pub quantity: i64,
    pub start_date: CivilDate,
    pub due_date: CivilDate,
    pub bom_id: Option<u128>,
    pub routing_id: Option<u128>,
    pub source_demand_ids: String,
    pub status: PlannedOrderStatus,
    pub firmed: bool,
    pub converted_type: Option<String>,
    pub converted_id: Option<u128>,
    pub created_at_ms: i64,
    pub updated_at_ms: i64,
}

/// `prefix`, a hyphen-free separator already included, followed by the
/// UTC stamp of `ms`.
pub open spec fn stamped(prefix: Seq<char>, ms: i64) -> Seq<char> {
    prefix + compact_utc_stamp(ms)
}

/// Number of a run made at `ms`: `MRP-` and the UTC stamp.
pub open spec fn run_number_of(ms: i64) -> Seq<char> {
    stamped(seq!['M', 'R', 'P', '-'], ms)
}

/// Number of a forecast made at `ms`: `FC-` and the UTC stamp.
pub open spec fn forecast_number_of(ms: i64) -> Seq<char> {
    stamped(seq!['F', 'C', '-'], ms)
}

/// Number of a planned order made at `ms`: `PLN-` and the UTC stamp.
pub open spec fn planned_order_number_of(ms: i64) -> Seq<char> {
    stamped(seq!['P', 'L', 'N', '-'], ms)
}

/// Day number of the UTC date of the instant `ms`.
pub open spec fn day_of_instant(ms: i64) -> int {
    (ms as int) / (MILLIS_PER_DAY as int)
}

/// A JSON string holding `text`, for text that needs no escaping.
pub open spec fn json_quoted(text: Seq<char>) -> Seq<char> {
    seq!['"'] + text + seq!['"']
}

/// The elements of a compact JSON array of identifiers, each the quoted
/// hyphenated text of one identifier, separated by commas.
pub open spec fn json_id_items(ids: Seq<u128>) -> Seq<char>
    decreases ids.len(),
{
    if ids.len() == 0 {
        seq![]
    } else if ids.len() == 1 {
        json_quoted(uuid_hyphenated(ids[0]))
    } else {
        json_id_items(ids.drop_last()) + seq![','] + json_quoted(uuid_hyphenated(ids.last()))
    }
}

/// The compact JSON array of identifiers: `[`, the items, `]`.
pub open spec fn json_id_list(ids: Seq<u128>) -> Seq<char> {
    seq!['['] + json_id_items(ids) + seq![']']
}

/// Writes identifiers as JSON with `serde_json::to_string` of the
/// `Vec<uuid::Uuid>`. `uuid` serializes each as a string of its lower-case
/// hyphenated text, which holds no character that JSON escapes, and the
/// compact writer puts no space between the items; writing into memory
/// cannot fail, so the text is always produced.
#[verifier::external_body]
fn uuid_list_json(ids: &Vec<u128>) -> (r: String)
    ensures
        r@ == json_id_list(ids@),
{
    let list: Vec<uuid::Uuid> = ids.iter().map(|x| uuid::Uuid::from_u128(*x)).collect();
    serde_json::to_string(&list).unwrap()
}

/// The fields of a fresh run, apart from its identifier.
pub open spec fn is_new_run(
    run: MRPRun,
    name: String,
    planning_horizon_days: i32,
    include_forecasts: bool,
    include_sales_orders: bool,
    include_work_orders: bool,
    created_by: Option<u128>,
    now_ms: i64,
) -> bool {
    &&& run.run_number@ == run_number_of(now_ms)
    &&& run.name == name
    &&& run.planning_horizon_days == planning_horizon_days
    &&& is_valid(run.run_date)
    &&& day_number(run.run_date) == day_of_instant(now_ms)
    &&& run.start_date == run.run_date
    &&& is_valid(run.end_date)
    &&& day_number(run.end_date) == day_of_instant(now_ms) + planning_horizon_days
    &&& run.include_forecasts == include_forecasts
    &&& run.include_sales_orders == include_sales_orders
    &&& run.include_work_orders == include_work_orders
    &&& run.safety_stock_method == SafetyStockMethod::DaysOfSupply
    &&& run.status == MRPStatus::Draft
    &&& run.total_items_planned == 0
    &&& run.total_suggestions == 0
    &&& run.error_message is None
    &&& run.completed_at_ms is None
    &&& run.created_by == created_by
    &&& run.created_at_ms == now_ms
    &&& run.updated_at_ms == now_ms
}

/// A draft run made at `now_ms`: it starts on that instant's UTC date and
/// ends `planning_horizon_days` days later. Fails with `DateOutOfRange`
/// exactly when that end lies outside the calendar.
pub fn new_run(
    name: String,
    planning_horizon_days: i32,
    include_forecasts: bool,
    include_sales_orders: bool,
    include_work_orders: bool,
    created_by: Option<u128>,
    now_ms: i64,
) -> (r: Result<MRPRun, MrpError>)
    requires
        in_time_range(now_ms as int),
    ensures
        r is Ok <==> day_in_range(day_of_instant(now_ms) + planning_horizon_days),
        r matches Ok(run) ==> is_new_run(run, name, planning_horizon_days, include_forecasts,
            include_sales_orders, include_work_orders, created_by, now_ms),
        r matches Err(e) ==> e == MrpError::DateOutOfRange,
{
    let run_date = utc_date_of(now_ms);
    let end_date = match add_days(run_date, planning_horizon_days) {
        Some(d) => d,
        None => return Err(MrpError::DateOutOfRange),
    };
    let run_number = String::from_str("MRP-").concat(utc_stamp(now_ms).as_str());
    proof {
        reveal_strlit("MRP-");
        assert("MRP-"@ =~= seq!['M', 'R', 'P', '-']);
    }
    Ok(MRPRun {
        id: new_id(),
        run_number,
        name,
        planning_horizon_days,
        run_date,
        start_date: run_date,
        end_date,
        include_forecasts,
        include_sales_orders,
        include_work_orders,
        safety_stock_method: SafetyStockMethod::DaysOfSupply,
        status: MRPStatus::Draft,
        total_items_planned: 0,
        total_suggestions: 0,
        error_message: None,
        completed_at_ms: None,
        created_by,
        created_at_ms: now_ms,
        updated_at_ms: now_ms,
    })
}

impl MrpService {
    /// Starts a draft run now (see `new_run`).
    pub fn create_run(
        name: String,
        planning_horizon_days: i32,
        include_forecasts: bool,
        include_sales_orders: bool,
        include_work_orders: bool,
        created_by: Option<u128>,
    ) -> (r: Result<MRPRun, MrpError>)
        ensures
            r matches Ok(run) ==> in_time_range(run.created_at_ms as int) && is_new_run(run, name,
                planning_horizon_days, include_forecasts, include_sales_orders,
                include_work_orders, created_by, run.created_at_ms),
            r matches Err(e) ==> e == MrpError::DateOutOfRange,
    {
        let now = now_millis();
        new_run(
            name,
            planning_horizon_days,
            include_forecasts,
            include_sales_orders,
            include_work_orders,
            created_by,
            now,
        )
    }

    /// Planning parameters with the defaults of plain MRP: lot-for-lot
    /// sizing, backward scheduling, a seven-day time fence, 14 days of supply
    /// and a 95% service level.
    pub fn create_parameter(
        product_id: u128,
        warehouse_id: u128,
        lead_time_days: i32,
        safety_stock: i64,
    ) -> (p: MRPParameter)
        ensures
            p.product_id == product_id,
            p.warehouse_id == warehouse_id,
            p.planning_method == PlanningMethod::MRP,
            p.lot_size_method == LotSizeMethod::LotForLot,
            p.fixed_lot_size == 0,
            p.min_lot_size == 1,
            p.max_lot_size == 0,
            p.multiple_lot_size == 1,
            p.safety_stock == safety_stock,
            p.safety_time_days == 0,
            p.lead_time_days == lead_time_days,
            p.planning_time_fence_days == 7,
            p.order_policy == OrderPolicy::Backward,
            p.min_order_days == 1,
            p.max_order_days == 365,
            p.days_of_supply == 14,
            p.service_level_percent == 95,
            p.status == RecordStatus::Active,
            p.created_at_ms == p.updated_at_ms,
    {
        let now = now_millis();
        MRPParameter {
            id: new_id(),
            product_id,
            warehouse_id,
            planning_method: PlanningMethod::MRP,
            lot_size_method: LotSizeMethod::LotForLot,
            fixed_lot_size: 0,
            min_lot_size: 1,
            max_lot_size: 0,
            multiple_lot_size: 1,
            safety_stock,
            safety_time_days: 0,
            lead_time_days,
            planning_time_fence_days: 7,
            order_policy: OrderPolicy::Backward,
            min_order_days: 1,
            max_order_days: 365,
            days_of_supply: 14,
            service_level_percent: 95,
            status: RecordStatus::Active,
            created_at_ms: now,
            updated_at_ms: now,
        }
    }

    /// A draft forecast, numbered `FC-` and the UTC stamp of its creation.
    pub fn create_forecast(
        name: String,
        start_date: CivilDate,
        end_date: CivilDate,
        forecast_method: ForecastMethod,
        created_by: Option<u128>,
    ) -> (f: DemandForecast)
        ensures
            in_time_range(f.created_at_ms as int),
            f.forecast_number@ == forecast_number_of(f.created_at_ms),
            f.name == name,
            f.start_date == start_date,
            f.end_date == end_date,
            f.forecast_method == forecast_method,
            f.status == RecordStatus::Draft,
            f.created_by == created_by,
            f.updated_at_ms == f.created_at_ms,
    {
        let now = now_millis();
        let forecast_number = String::from_str("FC-").concat(utc_stamp(now).as_str());
        proof {
            reveal_strlit("FC-");
            assert("FC-"@ =~= seq!['F', 'C', '-']);
        }
        DemandForecast {
            id: new_id(),
            forecast_number,
            name,
            start_date,
            end_date,
            forecast_method,
            status: RecordStatus::Draft,
            created_by,
            created_at_ms: now,
            updated_at_ms: now,
        }
    }

    /// An open planned order due on `due_date` that starts `lead_time_days`
    /// days earlier; the demands it covers are kept as a JSON array of their
    /// identifiers. The start must lie in the calendar's range.
    pub fn create_planned_order(
        run_id: u128,
        product_id: u128,
        warehouse_id: u128,
        order_type: MRPActionType,
        quantity: i64,
        due_date: CivilDate,
        lead_time_days: i32,
        source_demand_ids: &Vec<u128>,
    ) -> (r: Result<PlannedOrder, MrpError>)
        requires
            is_valid(due_date),
            day_in_range(day_number(due_date) - lead_time_days),
        ensures
            r is Ok,
            r matches Ok(o) ==> {
                &&& in_time_range(o.created_at_ms as int)
                &&& o.order_number@ == planned_order_number_of(o.created_at_ms)
                &&& o.run_id == run_id
                &&& o.product_id == product_id
                &&& o.warehouse_id == warehouse_id
                &&& o.order_type == order_type
                &&& o.quantity == quantity
                &&& is_valid(o.start_date)
                &&& day_number(o.start_date) == day_number(due_date) - lead_time_days
                &&& o.due_date == due_date
                &&& o.bom_id is None
                &&& o.routing_id is None
                &&& o.source_demand_ids@ == json_id_list(source_demand_ids@)
                &&& o.status == PlannedOrderStatus::Open
                &&& !o.firmed
                &&& o.converted_type is None
                &&& o.converted_id is None
                &&& o.updated_at_ms == o.created_at_ms
            },
    {
        assert(lead_time_days > i32::MIN) by {
            if lead_time_days == i32::MIN {
                assert(!day_in_range(day_number(due_date) - lead_time_days));
            }
        }
        let back: i32 = -lead_time_days;
        let start_date = match add_days(due_date, back) {
            Some(d) => d,
            None => return Err(MrpError::DateOutOfRange),
        };
        let ids_json = uuid_list_json(source_demand_ids);
        let now = now_millis();
        let order_number = String::from_str("PLN-").concat(utc_stamp(now).as_str());
        proof {
            reveal_strlit("PLN-");
            assert("PLN-"@ =~= seq!['P', 'L', 'N', '-']);
        }
        Ok(PlannedOrder {
            id: new_id(),
            order_number,
            run_id,
            product_id,
            warehouse_id,
            order_type,
            quantity,
            start_date,
            due_date,
            bom_id: None,
            routing_id: None,
            source_demand_ids: ids_json,
            status: PlannedOrderStatus::Open,
            firmed: false,
            converted_type: None,
            converted_id: None,
            created_at_ms: now,
            updated_at_ms: now,
        })
    }
}

} // verus!
