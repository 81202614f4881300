//! Kanban boards: building a board's columns, placing and moving cards,
//! work-in-progress limits and the board summary.
use vstd::prelude::*;
use vstd::string::StringExecFns;
use crate::common::{new_id, seconds_between, uuid_hyphenated, uuid_text, whole_seconds, RecordStatus};

verus! {

#[derive(Debug, Clone, Copy, PartialEq, Eq, Structural)]
pub enum KanbanCardType {
    Task,
    Defect,
    Story,
    Epic,
    ProductionOrder,
    PurchaseRequest,
    MaintenanceRequest,
    Custom,
}

#[derive(Debug, Clone, Copy, PartialEq, Eq, Structural)]
pub enum KanbanCardPriority {
    Lowest,
    Low,
    Medium,
    High,
    Highest,
    Critical,
}

#[derive(Debug, Clone, Copy, PartialEq, Eq, Structural)]
pub enum KanbanSwimlaneType {
    NoSwimlanes,
    Assignee,
    Priority,
    Project,
    Product,
    Custom,
}

#[derive(Debug, Clone, Copy, PartialEq, Eq, Structural)]
pub enum KanbanBoardType {
    Generic,
    Production,
    Purchase,
    Sales,
    Support,
    Maintenance,
    Project,
    Custom,
}

#[derive(Debug, Clone, Copy, PartialEq, Eq, Structural)]
pub enum KanbanActionType {
    CardCreated,
    CardMoved,
    CardUpdated,
    CardDeleted,
    CardAssigned,
    CardUnassigned,
    CommentAdded,
    CommentDeleted,
    AttachmentAdded,
    AttachmentDeleted,
    ChecklistCreated,
    ChecklistItemCompleted,
    LabelAdded,
    LabelRemoved,
    CardBlocked,
    CardUnblocked,
    DueDateChanged,
    PriorityChanged,
}

/// Storage handle of the kanban module (holds no state).
pub struct SqliteKanbanRepository;

pub struct KanbanService {
    repo: SqliteKanbanRepository,
}

impl KanbanService {
    /// The one value of the service, which holds no state.
    pub closed spec fn the_service() -> Self {
        KanbanService { repo: SqliteKanbanRepository }
    }
}

/// `KanbanService` holds no state: every value of it is the one that `new`
/// gives, so any two of them answer every call alike.
pub proof fn law_kanban_service_is_stateless(a: KanbanService)
    ensures
        a == KanbanService::the_service(),
{
}

impl KanbanService {
    pub fn new() -> (s: Self)
        ensures
            s == KanbanService::the_service(),
    {
        KanbanService { repo: SqliteKanbanRepository }
    }
}

/// A column as requested when a board is created.
#[derive(Debug, Clone)]
pub struct CreateColumnRequest {
    pub name: String,
    pub wip_limit: Option<i32>,
    pub is_done_column: bool,
    pub is_backlog: bool,
    pub color: Option<String>,
}

/// A column of a board. Instants are milliseconds since the Unix epoch.
#[derive(Debug, Clone)]
pub struct KanbanColumn {
    pub id: u128,
    pub board_id: u128,
    pub name: String,
    pub position: i32,
    pub wip_limit: Option<i32>,
    pub is_done_column: bool,
    pub is_backlog: bool,
    pub color: Option<String>,
    pub auto_assign_on_move: Option<u128>,
    pub created_at_ms: i64,
}

/// What the board rules read and change of a card.
#[derive(Debug, Clone, Copy, PartialEq, Eq, Structural)]
pub struct KanbanCardState {
    pub id: u128,
    pub board_id: u128,
    pub column_id: u128,
    pub position: i32,
    pub blocked: bool,
    pub due_date_ms: Option<i64>,
    pub completed_date_ms: Option<i64>,
    pub created_at_ms: i64,
    pub updated_at_ms: i64,
}

/// The record of one card move.
#[derive(Debug, Clone, Copy, PartialEq, Eq, Structural)]
pub struct KanbanCardMove {
    pub id: u128,
    pub card_id: u128,
    pub from_column_id: u128,
    pub to_column_id: u128,
    pub from_position: i32,
    pub to_position: i32,
    pub moved_by: u128,
    pub moved_at_ms: i64,
    pub time_in_from_column_seconds: Option<i64>,
}

/// The record of a column holding more cards than its limit.
#[derive(Debug, Clone, Copy, PartialEq, Eq, Structural)]
pub struct KanbanWipViolation {
    pub id: u128,
    pub board_id: u128,
    pub column_id: u128,
    pub current_count: i32,
    pub wip_limit: i32,
    pub violated_at_ms: i64,
    pub resolved_at_ms: Option<i64>,
    pub created_at_ms: i64,
}

#[derive(Debug, Clone)]
pub struct ColumnSummary {
    pub column_id: u128,
    pub column_name: String,
    pub card_count: i32,
    pub wip_limit: Option<i32>,
    pub is_over_wip: bool,
}

#[derive(Debug, Clone)]
pub struct BoardSummary {
    pub board_id: u128,
    pub board_name: String,
    pub total_cards: i32,
    pub cards_by_column: Vec<ColumnSummary>,
    pub wip_violations: i32,
    pub overdue_cards: i32,
    pub blocked_cards: i32,
}

/// Whether a column holding `count` cards is over its limit (a column without
/// a limit never is).
pub open spec fn over_limit(wip_limit: Option<i32>, count: int) -> bool {
    match wip_limit {
        Some(limit) => count > limit,
        None => false,
    }
}

/// Whether a card is overdue at `now_ms`: due before then and not completed.
pub open spec fn is_overdue(c: KanbanCardState, now_ms: i64) -> bool {
    match c.due_date_ms {
        Some(due) => due < now_ms && c.completed_date_ms is None,
        None => false,
    }
}

/// Number of cards in column `col`.
pub open spec fn cards_in(cards: Seq<KanbanCardState>, col: u128) -> nat
    decreases cards.len(),
{
    if cards.len() == 0 {
        0
    } else {
        cards_in(cards.drop_last(), col) + if cards.last().column_id == col { 1nat } else { 0nat }
    }
}

/// Number of blocked cards in column `col`.
pub open spec fn blocked_in(cards: Seq<KanbanCardState>, col: u128) -> nat
    decreases cards.len(),
{
    if cards.len() == 0 {
        0
    } else {
        blocked_in(cards.drop_last(), col) + if cards.last().column_id == col
            && cards.last().blocked { 1nat } else { 0nat }
    }
}

/// Number of overdue cards in column `col`.
pub open spec fn overdue_in(cards: Seq<KanbanCardState>, col: u128, now_ms: i64) -> nat
    decreases cards.len(),
{
    if cards.len() == 0 {
        0
    } else {
        overdue_in(cards.drop_last(), col, now_ms) + if cards.last().column_id == col
            && is_overdue(cards.last(), now_ms) { 1nat } else { 0nat }
    }
}

/// Number of columns over their limit.
pub open spec fn wip_violation_count(cols: Seq<KanbanColumn>, cards: Seq<KanbanCardState>) -> nat
    decreases cols.len(),
{
    if cols.len() == 0 {
        0
    } else {
        wip_violation_count(cols.drop_last(), cards) + if over_limit(
            cols.last().wip_limit,
            cards_in(cards, cols.last().id) as int,
        ) { 1nat } else { 0nat }
    }
}

/// Blocked cards, counted column by column.
pub open spec fn blocked_total(cols: Seq<KanbanColumn>, cards: Seq<KanbanCardState>) -> nat
    decreases cols.len(),
{
    if cols.len() == 0 {
        0
    } else {
        blocked_total(cols.drop_last(), cards) + blocked_in(cards, cols.last().id)
    }
}

/// Overdue cards, counted column by column.
pub open spec fn overdue_total(cols: Seq<KanbanColumn>, cards: Seq<KanbanCardState>, now_ms: i64) -> nat
    decreases cols.len(),
{
    if cols.len() == 0 {
        0
    } else {
        overdue_total(cols.drop_last(), cards, now_ms) + overdue_in(cards, cols.last().id, now_ms)
    }
}

/// Counting over the first `k` columns gives no more violations, blocked or
/// overdue cards than counting over all of them.
proof fn lemma_prefix_totals(cols: Seq<KanbanColumn>, cards: Seq<KanbanCardState>, now_ms: i64, k: int)
    requires
        0 <= k <= cols.len(),
    ensures
        wip_violation_count(cols.take(k), cards) <= wip_violation_count(cols, cards),
        blocked_total(cols.take(k), cards) <= blocked_total(cols, cards),
        overdue_total(cols.take(k), cards, now_ms) <= overdue_total(cols, cards, now_ms),
    decreases cols.len(),
{
    if k == cols.len() {
        assert(cols.take(k) =~= cols);
    } else {
        assert(cols.drop_last().take(k) =~= cols.take(k));
        lemma_prefix_totals(cols.drop_last(), cards, now_ms, k);
    }
}

/// Whether card `c` is a blocked card of column `col`, as a count.
spec fn blocked_mark(c: KanbanCardState, col: u128) -> int {
    if c.column_id == col && c.blocked { 1 } else { 0 }
}

/// Whether card `c` is an overdue card of column `col`, as a count.
spec fn overdue_mark(c: KanbanCardState, col: u128, now_ms: i64) -> int {
    if c.column_id == col && is_overdue(c, now_ms) { 1 } else { 0 }
}

proof fn lemma_replace_card(cards: Seq<KanbanCardState>, i: int, x: KanbanCardState, col: u128, now_ms: i64)
    requires
        0 <= i < cards.len(),
    ensures
        blocked_in(cards.update(i, x), col) == blocked_in(cards, col) - blocked_mark(cards[i], col)
            + blocked_mark(x, col),
        overdue_in(cards.update(i, x), col, now_ms) == overdue_in(cards, col, now_ms)
            - overdue_mark(cards[i], col, now_ms) + overdue_mark(x, col, now_ms),
        x.column_id == cards[i].column_id ==> cards_in(cards.update(i, x), col) == cards_in(cards, col),
    decreases cards.len(),
{
    let u = cards.update(i, x);
    if i == cards.len() - 1 {
        assert(u.drop_last() =~= cards.drop_last());
    } else {
        assert(u.drop_last() =~= cards.drop_last().update(i, x));
        lemma_replace_card(cards.drop_last(), i, x, col, now_ms);
    }
}

proof fn lemma_replace_card_board(
    cols: Seq<KanbanColumn>,
    cards: Seq<KanbanCardState>,
    i: int,
    x: KanbanCardState,
    now_ms: i64,
)
    requires
        0 <= i < cards.len(),
        x.column_id == cards[i].column_id,
    ensures
        blocked_total(cols, cards.update(i, x)) == blocked_total(cols, cards)
            + (blocked_mark(x, x.column_id) - blocked_mark(cards[i], x.column_id)) * columns_with_id(cols, x.column_id),
        overdue_total(cols, cards.update(i, x), now_ms) == overdue_total(cols, cards, now_ms)
            + (overdue_mark(x, x.column_id, now_ms) - overdue_mark(cards[i], x.column_id, now_ms))
            * columns_with_id(cols, x.column_id),
    decreases cols.len(),
{
    let db = blocked_mark(x, x.column_id) - blocked_mark(cards[i], x.column_id);
    let dov = overdue_mark(x, x.column_id, now_ms) - overdue_mark(cards[i], x.column_id, now_ms);
    if cols.len() == 0 {
        assert(db * 0 == 0 && dov * 0 == 0) by (nonlinear_arith);
    } else {
        lemma_replace_card_board(cols.drop_last(), cards, i, x, now_ms);
        lemma_replace_card(cards, i, x, cols.last().id, now_ms);
        let n = columns_with_id(cols.drop_last(), x.column_id);
        if cols.last().id == x.column_id {
            assert(columns_with_id(cols, x.column_id) == n + 1);
            assert(db * (n + 1) == db * n + db) by (nonlinear_arith);
            assert(dov * (n + 1) == dov * n + dov) by (nonlinear_arith);
        } else {
            assert(columns_with_id(cols, x.column_id) == n);
            assert(blocked_mark(x, cols.last().id) == 0 && blocked_mark(cards[i], cols.last().id) == 0);
            assert(overdue_mark(x, cols.last().id, now_ms) == 0);
            assert(overdue_mark(cards[i], cols.last().id, now_ms) == 0);
        }
    }
}

/// A column is over its limit only when it has one and holds more cards
/// than it: a board whose columns have no limits has no violations, a
/// one-column board has one exactly when its column holds more cards than
/// its limit, and no board has more violations than columns.
pub proof fn law_wip_violations(cols: Seq<KanbanColumn>, cards: Seq<KanbanCardState>, col: KanbanColumn)
    ensures
        (forall|j: int| 0 <= j < cols.len() ==> (#[trigger] cols[j]).wip_limit is None)
            ==> wip_violation_count(cols, cards) == 0,
        wip_violation_count(seq![col], cards) == (if col.wip_limit matches Some(l) && cards_in(cards, col.id) > l {
            1int
        } else {
            0int
        }),
        wip_violation_count(cols, cards) <= cols.len(),
    decreases cols.len(),
{
    assert(seq![col].drop_last() =~= Seq::<KanbanColumn>::empty());
    assert(seq![col].last() == col);
    assert(wip_violation_count(Seq::<KanbanColumn>::empty(), cards) == 0);
    if cols.len() > 0 {
        law_wip_violations(cols.drop_last(), cards, col);
        if forall|j: int| 0 <= j < cols.len() ==> (#[trigger] cols[j]).wip_limit is None {
            assert(cols[cols.len() - 1].wip_limit is None);
            assert forall|j: int| 0 <= j < cols.drop_last().len() implies (#[trigger] cols.drop_last()[j]).wip_limit is None by {
                assert(cols.drop_last()[j] == cols[j]);
            }
        }
    }
}

/// Blocked cards are the cards whose blocked flag is set: a board without a
/// blocked card reports none, in every column and in total, and blocking one
/// more card of a column that the board lists once raises both its column's
/// count and the board's count by one, leaving the card counts as they were.
pub proof fn law_blocked_cards_are_counted(cols: Seq<KanbanColumn>, cards: Seq<KanbanCardState>, i: int, col: u128)
    ensures
        (forall|k: int| 0 <= k < cards.len() ==> !(#[trigger] cards[k]).blocked) ==> {
            &&& blocked_in(cards, col) == 0
            &&& blocked_total(cols, cards) == 0
        },
        0 <= i < cards.len() && !cards[i].blocked ==> {
            let more = cards.update(i, KanbanCardState { blocked: true, ..cards[i] });
            &&& blocked_in(more, cards[i].column_id) == blocked_in(cards, cards[i].column_id) + 1
            &&& cards_in(more, col) == cards_in(cards, col)
            &&& (distinct_columns(cols) && has_column(cols, cards[i].column_id)
                ==> blocked_total(cols, more) == blocked_total(cols, cards) + 1)
        },
{
    if forall|k: int| 0 <= k < cards.len() ==> !(#[trigger] cards[k]).blocked {
        lemma_no_marks(cols, cards, col, 0, true);
    }
    if 0 <= i < cards.len() && !cards[i].blocked {
        let x = KanbanCardState { blocked: true, ..cards[i] };
        lemma_replace_card(cards, i, x, cards[i].column_id, 0);
        lemma_replace_card(cards, i, x, col, 0);
        lemma_replace_card_board(cols, cards, i, x, 0);
        if distinct_columns(cols) && has_column(cols, cards[i].column_id) {
            lemma_one_column_with_id(cols, cards[i].column_id);
        }
    }
}

/// Overdue cards are the cards strictly past their due date and not
/// completed: a board without such a card reports none, and completing one overdue card
/// of a column that the board lists once lowers both its column's count and
/// the board's count by one.
pub proof fn law_overdue_cards_are_counted(
    cols: Seq<KanbanColumn>,
    cards: Seq<KanbanCardState>,
    i: int,
    col: u128,
    done_ms: i64,
    now_ms: i64,
)
    ensures
        (forall|k: int| 0 <= k < cards.len() ==> !((#[trigger] cards[k]).due_date_ms matches Some(due)
            && due < now_ms && cards[k].completed_date_ms is None)) ==> {
            &&& overdue_in(cards, col, now_ms) == 0
            &&& overdue_total(cols, cards, now_ms) == 0
        },
        0 <= i < cards.len() && (cards[i].due_date_ms matches Some(due) && due < now_ms)
            && cards[i].completed_date_ms is None ==> {
            let fewer = cards.update(i, KanbanCardState { completed_date_ms: Some(done_ms), ..cards[i] });
            &&& overdue_in(fewer, cards[i].column_id, now_ms) + 1 == overdue_in(cards, cards[i].column_id, now_ms)
            &&& (distinct_columns(cols) && has_column(cols, cards[i].column_id)
                ==> overdue_total(cols, fewer, now_ms) + 1 == overdue_total(cols, cards, now_ms))
        },
{
    if forall|k: int| 0 <= k < cards.len() ==> !((#[trigger] cards[k]).due_date_ms matches Some(due)
        && due < now_ms && cards[k].completed_date_ms is None) {
        assert forall|k: int| 0 <= k < cards.len() implies !is_overdue(#[trigger] cards[k], now_ms) by {}
        lemma_no_marks(cols, cards, col, now_ms, false);
    }
    if 0 <= i < cards.len() && (cards[i].due_date_ms matches Some(due) && due < now_ms)
        && cards[i].completed_date_ms is None {
        let x = KanbanCardState { completed_date_ms: Some(done_ms), ..cards[i] };
        lemma_replace_card(cards, i, x, cards[i].column_id, now_ms);
        lemma_replace_card_board(cols, cards, i, x, now_ms);
        if distinct_columns(cols) && has_column(cols, cards[i].column_id) {
            lemma_one_column_with_id(cols, cards[i].column_id);
        }
    }
}

/// With no blocked cards (`blocked`), or no overdue ones (otherwise), the
/// matching counts are zero.
proof fn lemma_no_marks(cols: Seq<KanbanColumn>, cards: Seq<KanbanCardState>, col: u128, now_ms: i64, blocked: bool)
    requires
        blocked ==> forall|k: int| 0 <= k < cards.len() ==> !(#[trigger] cards[k]).blocked,
        !blocked ==> forall|k: int| 0 <= k < cards.len() ==> !is_overdue(#[trigger] cards[k], now_ms),
    ensures
        blocked ==> blocked_in(cards, col) == 0 && blocked_total(cols, cards) == 0,
        !blocked ==> overdue_in(cards, col, now_ms) == 0 && overdue_total(cols, cards, now_ms) == 0,
    decreases cols.len() + cards.len(),
{
    if cards.len() > 0 {
        let init = cards.drop_last();
        assert(cards.last() == cards[cards.len() - 1]);
        assert forall|k: int| 0 <= k < init.len() implies init[k] == cards[k] by {}
        lemma_no_marks(Seq::empty(), init, col, now_ms, blocked);
    }
    if cols.len() > 0 {
        lemma_no_marks(cols.drop_last(), cards, col, now_ms, blocked);
        lemma_no_marks(Seq::empty(), cards, cols.last().id, now_ms, blocked);
    }
}

/// A column never shows more cards than the board holds, nor more blocked or
/// overdue cards than it holds.
pub proof fn law_column_counts_bounded(cards: Seq<KanbanCardState>, col: u128, now_ms: i64)
    ensures
        cards_in(cards, col) <= cards.len(),
        blocked_in(cards, col) <= cards_in(cards, col),
        overdue_in(cards, col, now_ms) <= cards_in(cards, col),
    decreases cards.len(),
{
    if cards.len() > 0 {
        law_column_counts_bounded(cards.drop_last(), col, now_ms);
    }
}

/// Cards counted column by column.
pub open spec fn cards_total(cols: Seq<KanbanColumn>, cards: Seq<KanbanCardState>) -> nat
    decreases cols.len(),
{
    if cols.len() == 0 {
        0
    } else {
        cards_total(cols.drop_last(), cards) + cards_in(cards, cols.last().id)
    }
}

/// Number of columns of `cols` with identifier `id`.
pub open spec fn columns_with_id(cols: Seq<KanbanColumn>, id: u128) -> nat
    decreases cols.len(),
{
    if cols.len() == 0 {
        0
    } else {
        columns_with_id(cols.drop_last(), id) + if cols.last().id == id { 1nat } else { 0nat }
    }
}

/// Whether no two columns share an identifier.
pub open spec fn distinct_columns(cols: Seq<KanbanColumn>) -> bool {
    forall|i: int, j: int| 0 <= i < j < cols.len() ==> #[trigger] cols[i].id != #[trigger] cols[j].id
}

/// Whether every card sits in one of the columns.
pub open spec fn cards_on_board(cols: Seq<KanbanColumn>, cards: Seq<KanbanCardState>) -> bool {
    forall|i: int| 0 <= i < cards.len() ==> has_column(cols, #[trigger] cards[i].column_id)
}

proof fn lemma_total_drop_card(cols: Seq<KanbanColumn>, cards: Seq<KanbanCardState>)
    requires
        cards.len() > 0,
    ensures
        cards_total(cols, cards) == cards_total(cols, cards.drop_last()) + columns_with_id(
            cols,
            cards.last().column_id,
        ),
    decreases cols.len(),
{
    if cols.len() > 0 {
        lemma_total_drop_card(cols.drop_last(), cards);
    }
}

proof fn lemma_one_column_with_id(cols: Seq<KanbanColumn>, id: u128)
    requires
        distinct_columns(cols),
        has_column(cols, id),
    ensures
        columns_with_id(cols, id) == 1,
    decreases cols.len(),
{
    let k = choose|k: int| 0 <= k < cols.len() && #[trigger] cols[k].id == id;
    let rest = cols.drop_last();
    assert(distinct_columns(rest));
    if k == cols.len() - 1 {
        lemma_no_column_with_id(rest, id);
    } else {
        assert(rest[k].id == id);
        lemma_one_column_with_id(rest, id);
        assert(cols.last().id != id);
    }
}

proof fn lemma_no_column_with_id(cols: Seq<KanbanColumn>, id: u128)
    requires
        forall|i: int| 0 <= i < cols.len() ==> #[trigger] cols[i].id != id,
    ensures
        columns_with_id(cols, id) == 0,
    decreases cols.len(),
{
    if cols.len() > 0 {
        let rest = cols.drop_last();
        assert forall|i: int| 0 <= i < rest.len() implies #[trigger] rest[i].id != id by {
            assert(rest[i] == cols[i]);
        }
        lemma_no_column_with_id(rest, id);
        assert(cols[cols.len() - 1].id != id);
    }
}

/// When the columns have distinct identifiers and every card sits in one of
/// them, the per-column card counts of a board summary add up to the number
/// of cards on the board.
pub proof fn law_column_counts_cover_board(cols: Seq<KanbanColumn>, cards: Seq<KanbanCardState>)
    requires
        distinct_columns(cols),
        cards_on_board(cols, cards),
    ensures
        cards_total(cols, cards) == cards.len(),
    decreases cards.len(),
{
    if cards.len() == 0 {
        lemma_empty_total(cols, cards);
    } else {
        let rest = cards.drop_last();
        assert forall|i: int| 0 <= i < rest.len() implies has_column(cols, #[trigger] rest[i].column_id) by {
            assert(rest[i] == cards[i]);
        }
        law_column_counts_cover_board(cols, rest);
        lemma_total_drop_card(cols, cards);
        assert(has_column(cols, cards[cards.len() - 1].column_id));
        lemma_one_column_with_id(cols, cards.last().column_id);
    }
}

proof fn lemma_empty_total(cols: Seq<KanbanColumn>, cards: Seq<KanbanCardState>)
    requires
        cards.len() == 0,
    ensures
        cards_total(cols, cards) == 0,
    decreases cols.len(),
{
    if cols.len() > 0 {
        lemma_empty_total(cols.drop_last(), cards);
    }
}

/// The column summary the board summary gives for `col`.
pub open spec fn column_summary_of(col: KanbanColumn, cards: Seq<KanbanCardState>) -> (u128, Seq<char>, int, Option<i32>, bool) {
    (col.id, col.name@, cards_in(cards, col.id) as int, col.wip_limit,
        over_limit(col.wip_limit, cards_in(cards, col.id) as int))
}

pub open spec fn summary_view(s: ColumnSummary) -> (u128, Seq<char>, int, Option<i32>, bool) {
    (s.column_id, s.column_name@, s.card_count as int, s.wip_limit, s.is_over_wip)
}

/// The columns of a new board: one per request, in request order, positioned
/// by their index, with fresh identifiers.
pub fn build_columns(board_id: u128, requests: Vec<CreateColumnRequest>, now_ms: i64) -> (cols: Vec<KanbanColumn>)
    requires
        requests.len() <= i32::MAX + 1,
    ensures
        cols.len() == requests.len(),
        forall|i: int| 0 <= i < cols.len() ==> {
            &&& (#[trigger] cols[i]).board_id == board_id
            &&& cols[i].name == requests[i].name
            &&& cols[i].position == i
            &&& cols[i].wip_limit == requests[i].wip_limit
            &&& cols[i].is_done_column == requests[i].is_done_column
            &&& cols[i].is_backlog == requests[i].is_backlog
            &&& cols[i].color == requests[i].color
            &&& cols[i].auto_assign_on_move is None
            &&& cols[i].created_at_ms == now_ms
        },
{
    let mut cols: Vec<KanbanColumn> = Vec::new();
    let mut idx: usize = 0;
    while idx < requests.len()
        invariant
            idx == cols.len(),
            idx <= requests.len(),
            requests.len() <= i32::MAX + 1,
            forall|i: int| 0 <= i < cols.len() ==> {
                &&& (#[trigger] cols[i]).board_id == board_id
                &&& cols[i].name == requests[i].name
                &&& cols[i].position == i
                &&& cols[i].wip_limit == requests[i].wip_limit
                &&& cols[i].is_done_column == requests[i].is_done_column
                &&& cols[i].is_backlog == requests[i].is_backlog
                &&& cols[i].color == requests[i].color
                &&& cols[i].auto_assign_on_move is None
                &&& cols[i].created_at_ms == now_ms
            },
        decreases requests.len() - idx,
    {
        let r = &requests[idx];
        let color = match &r.color {
            Some(c) => Some(c.clone()),
            None => None,
        };
        let col = KanbanColumn {
            id: new_id(),
            board_id,
            name: r.name.clone(),
            position: idx as i32,
            wip_limit: r.wip_limit,
            is_done_column: r.is_done_column,
            is_backlog: r.is_backlog,
            color,
            auto_assign_on_move: None,
            created_at_ms: now_ms,
        };
        cols.push(col);
        idx = idx + 1;
    }
    cols
}

/// Position of a card appended to a column that already holds `existing` cards.
pub fn next_card_position(existing: usize) -> (p: i32)
    requires
        existing <= i32::MAX,
    ensures
        p == existing,
{
    existing as i32
}

/// First column of `cols` with identifier `id`, if any.
fn find_column(cols: &Vec<KanbanColumn>, id: u128) -> (r: Option<usize>)
    ensures
        match r {
            Some(j) => j < cols.len() && cols[j as int].id == id && forall|k: int| 0 <= k < j ==> #[trigger] cols[k].id != id,
            None => forall|k: int| 0 <= k < cols.len() ==> #[trigger] cols[k].id != id,
        },
{
    let mut j: usize = 0;
    while j < cols.len()
        invariant
            j <= cols.len(),
            forall|k: int| 0 <= k < j ==> #[trigger] cols[k].id != id,
        decreases cols.len() - j,
    {
        if cols[j].id == id {
            return Some(j);
        }
        j = j + 1;
    }
    None
}

/// Whether some column of `cols` has identifier `id`.
pub open spec fn has_column(cols: Seq<KanbanColumn>, id: u128) -> bool {
    exists|k: int| 0 <= k < cols.len() && #[trigger] cols[k].id == id
}

/// The first column of `cols` with identifier `id` (meaningful when there is one).
pub open spec fn first_column(cols: Seq<KanbanColumn>, id: u128) -> KanbanColumn {
    cols[choose|j: int| 0 <= j < cols.len() && cols[j].id == id && forall|k: int| 0 <= k < j ==> #[trigger] cols[k].id != id]
}

proof fn lemma_first_column(cols: Seq<KanbanColumn>, id: u128, j: int)
    requires
        0 <= j < cols.len(),
        cols[j].id == id,
        forall|k: int| 0 <= k < j ==> #[trigger] cols[k].id != id,
    ensures
        first_column(cols, id) == cols[j],
{
    let c = choose|c: int| 0 <= c < cols.len() && cols[c].id == id && forall|k: int| 0 <= k < c ==> #[trigger] cols[k].id != id;
    assert(0 <= c < cols.len() && cols[c].id == id && forall|k: int| 0 <= k < c ==> #[trigger] cols[k].id != id);
    if c < j {
        assert(cols[c].id != id);
    } else if j < c {
        assert(cols[j].id != id);
    }
}

/// The limit that column `column_id` of a board breaks when it holds `count`
/// cards: the limit of the first column with that identifier, when it has one
/// and `count` exceeds it.
pub open spec fn broken_limit(cols: Seq<KanbanColumn>, column_id: u128, count: int) -> Option<i32> {
    if has_column(cols, column_id) {
        match first_column(cols, column_id).wip_limit {
            Some(limit) => if count > limit { Some(limit) } else { None },
            None => None,
        }
    } else {
        None
    }
}

/// After a card lands in or leaves column `column_id`, which now holds `count`
/// cards: the violation to record, when the column's limit is exceeded.
pub fn check_wip_limit(board_id: u128, cols: &Vec<KanbanColumn>, column_id: u128, count: i32, now_ms: i64)
    -> (v: Option<KanbanWipViolation>)
    ensures
        match broken_limit(cols@, column_id, count as int) {
            Some(limit) => v matches Some(w) && w.board_id == board_id && w.column_id == column_id
                && w.current_count == count && w.wip_limit == limit && w.violated_at_ms == now_ms
                && w.resolved_at_ms is None && w.created_at_ms == now_ms,
            None => v is None,
        },
{
    match find_column(cols, column_id) {
        Some(j) => {
            proof {
                lemma_first_column(cols@, column_id, j as int);
            }
            match cols[j].wip_limit {
                Some(limit) => {
                    if count > limit {
                        Some(KanbanWipViolation {
                            id: new_id(),
                            board_id,
                            column_id,
                            current_count: count,
                            wip_limit: limit,
                            violated_at_ms: now_ms,
                            resolved_at_ms: None,
                            created_at_ms: now_ms,
                        })
                    } else {
                        None
                    }
                },
                None => None,
            }
        },
        None => None,
    }
}

/// When a card last entered its column: the instant of its latest move, or
/// its creation when it never moved.
pub open spec fn entered_column_at(card: KanbanCardState, last_move_at_ms: Option<i64>) -> i64 {
    match last_move_at_ms {
        Some(t) => t,
        None => card.created_at_ms,
    }
}

/// `card` after it moves to position `to_position` of column `to_column_id`
/// at `now_ms`: it gets a completion date when it lands in a done column
/// without having one.
pub open spec fn moved_card(
    card: KanbanCardState,
    to_column_id: u128,
    to_position: i32,
    cols: Seq<KanbanColumn>,
    now_ms: i64,
) -> KanbanCardState {
    KanbanCardState {
        column_id: to_column_id,
        position: to_position,
        updated_at_ms: now_ms,
        completed_date_ms: if has_column(cols, to_column_id) && first_column(cols, to_column_id).is_done_column
            && card.completed_date_ms is None {
            Some(now_ms)
        } else {
            card.completed_date_ms
        },
        ..card
    }
}

/// A card that lands in a done column is completed, and a completion date,
/// once set, is never changed by later moves.
pub proof fn law_completion_sticks(
    card: KanbanCardState,
    to_column_id: u128,
    to_position: i32,
    cols: Seq<KanbanColumn>,
    now_ms: i64,
)
    ensures
        has_column(cols, to_column_id) && first_column(cols, to_column_id).is_done_column ==>
            moved_card(card, to_column_id, to_position, cols, now_ms).completed_date_ms is Some,
        card.completed_date_ms is Some ==>
            moved_card(card, to_column_id, to_position, cols, now_ms).completed_date_ms == card.completed_date_ms,
{
}

/// Moving `card` to position `to_position` of column `to_column_id`: the move
/// record (with the whole seconds the card spent in its former column) and the
/// card afterwards, which gets a completion date when it lands in a done
/// column without having one.
pub fn plan_card_move(
    card: &KanbanCardState,
    to_column_id: u128,
    to_position: i32,
    cols: &Vec<KanbanColumn>,
    last_move_at_ms: Option<i64>,
    user_id: u128,
    now_ms: i64,
) -> (r: (KanbanCardMove, KanbanCardState))
    requires
        i64::MIN <= now_ms - entered_column_at(*card, last_move_at_ms) <= i64::MAX,
    ensures
        r.0.card_id == card.id,
        r.0.from_column_id == card.column_id,
        r.0.to_column_id == to_column_id,
        r.0.from_position == card.position,
        r.0.to_position == to_position,
        r.0.moved_by == user_id,
        r.0.moved_at_ms == now_ms,
        r.0.time_in_from_column_seconds == Some(
            whole_seconds(now_ms - entered_column_at(*card, last_move_at_ms)) as i64,
        ),
        r.1 == moved_card(*card, to_column_id, to_position, cols@, now_ms),
{
    let entered = match last_move_at_ms {
        Some(t) => t,
        None => card.created_at_ms,
    };
    let secs = seconds_between(entered, now_ms);
    let mv = KanbanCardMove {
        id: new_id(),
        card_id: card.id,
        from_column_id: card.column_id,
        to_column_id,
        from_position: card.position,
        to_position,
        moved_by: user_id,
        moved_at_ms: now_ms,
        time_in_from_column_seconds: Some(secs),
    };
    let mut updated = *card;
    updated.column_id = to_column_id;
    updated.position = to_position;
    updated.updated_at_ms = now_ms;
    match find_column(cols, to_column_id) {
        Some(j) => {
            proof {
                lemma_first_column(cols@, to_column_id, j as int);
            }
            if cols[j].is_done_column && updated.completed_date_ms.is_none() {
                updated.completed_date_ms = Some(now_ms);
            }
        },
        None => {},
    }
    (mv, updated)
}

impl KanbanService {
    /// Per-column card counts and limit checks, with the number of columns over
    /// their limit and the blocked and overdue cards found column by column.
    /// The counts are 32-bit, so those totals must fit in an `i32`.
    pub fn get_board_summary(
        &self,
        board_id: u128,
        board_name: String,
        cols: &Vec<KanbanColumn>,
        cards: &Vec<KanbanCardState>,
        now_ms: i64,
    ) -> (s: BoardSummary)
        requires
            cards.len() <= i32::MAX,
            wip_violation_count(cols@, cards@) <= i32::MAX,
            blocked_total(cols@, cards@) <= i32::MAX,
            overdue_total(cols@, cards@, now_ms) <= i32::MAX,
        ensures
            s.board_id == board_id,
            s.board_name == board_name,
            s.total_cards == cards.len(),
            s.cards_by_column.len() == cols.len(),
            forall|i: int| 0 <= i < cols.len() ==>
                summary_view(#[trigger] s.cards_by_column[i]) == column_summary_of(cols[i], cards@),
            s.wip_violations == wip_violation_count(cols@, cards@),
            s.blocked_cards == blocked_total(cols@, cards@),
            s.overdue_cards == overdue_total(cols@, cards@, now_ms),
    {
        let mut by_column: Vec<ColumnSummary> = Vec::new();
        let mut wip_violations: i32 = 0;
        let mut overdue: i32 = 0;
        let mut blocked: i32 = 0;
        let ghost cs = cards@;
        let ghost cl = cols@;
        let mut i: usize = 0;
        while i < cols.len()
            invariant
                i <= cols.len(),
                cs == cards@,
                cl == cols@,
                cards.len() <= i32::MAX,
                wip_violation_count(cl, cs) <= i32::MAX,
                blocked_total(cl, cs) <= i32::MAX,
                overdue_total(cl, cs, now_ms) <= i32::MAX,
                by_column.len() == i,
                forall|k: int| 0 <= k < i ==>
                    summary_view(#[trigger] by_column[k]) == column_summary_of(cols[k], cs),
                wip_violations == wip_violation_count(cl.take(i as int), cs),
                blocked == blocked_total(cl.take(i as int), cs),
                overdue == overdue_total(cl.take(i as int), cs, now_ms),
            decreases cols.len() - i,
        {
            let col = &cols[i];
            let mut count: i32 = 0;
            let mut col_blocked: i32 = 0;
            let mut col_overdue: i32 = 0;
            let mut j: usize = 0;
            while j < cards.len()
                invariant
                    j <= cards.len(),
                    cs == cards@,
                    cards.len() <= i32::MAX,
                    count == cards_in(cs.take(j as int), col.id),
                    col_blocked == blocked_in(cs.take(j as int), col.id),
                    col_overdue == overdue_in(cs.take(j as int), col.id, now_ms),
                    count <= j,
                    col_blocked <= count,
                    col_overdue <= count,
                decreases cards.len() - j,
            {
                let c = &cards[j];
                assert(cs.take(j + 1).drop_last() =~= cs.take(j as int));
                assert(cs.take(j + 1).last() == *c);
                if c.column_id == col.id {
                    count = count + 1;
                    if c.blocked {
                        col_blocked = col_blocked + 1;
                    }
                    match c.due_date_ms {
                        Some(due) => {
                            if due < now_ms && c.completed_date_ms.is_none() {
                                col_overdue = col_overdue + 1;
                            }
                        },
                        None => {},
                    }
                }
                j = j + 1;
            }
            assert(cs.take(cards.len() as int) =~= cs);
            let is_over = match col.wip_limit {
                Some(limit) => count > limit,
                None => false,
            };
            assert(cl.take(i + 1).drop_last() =~= cl.take(i as int));
            assert(cl.take(i + 1).last() == *col);
            proof {
                lemma_prefix_totals(cl, cs, now_ms, i + 1);
            }
            if is_over {
                wip_violations = wip_violations + 1;
            }
            blocked = blocked + col_blocked;
            overdue = overdue + col_overdue;
            by_column.push(ColumnSummary {
                column_id: col.id,
                column_name: col.name.clone(),
                card_count: count,
                wip_limit: col.wip_limit,
                is_over_wip: is_over,
            });
            i = i + 1;
        }
        assert(cl.take(cols.len() as int) =~= cl);
        BoardSummary {
            board_id,
            board_name,
            total_cards: cards.len() as i32,
            cards_by_column: by_column,
            wip_violations,
            overdue_cards: overdue,
            blocked_cards: blocked,
        }
    }
}

/// A horizontal lane of a board.
#[derive(Debug, Clone)]
pub struct KanbanSwimlane {
    pub id: u128,
    pub board_id: u128,
    pub name: String,
    pub position: i32,
    pub color: Option<String>,
    pub created_at_ms: i64,
}

/// A kanban board with its columns.
#[derive(Debug, Clone)]
pub struct KanbanBoard {
    pub id: u128,
    pub name: String,
    pub description: Option<String>,
    pub board_type: KanbanBoardType,
    pub team_id: Option<u128>,
    pub project_id: Option<u128>,
    pub columns: Vec<KanbanColumn>,
    pub swimlane_type: KanbanSwimlaneType,
    pub swimlanes: Vec<KanbanSwimlane>,
    pub default_wip_limit: Option<i32>,
    pub allow_card_reordering: bool,
    pub show_card_count: bool,
    pub show_wip_limits: bool,
    pub status: RecordStatus,
    pub created_at_ms: i64,
    pub updated_at_ms: i64,
}

/// What is asked for when a board is created.
#[derive(Debug, Clone)]
pub struct CreateBoardRequest {
    pub name: String,
    pub description: Option<String>,
    pub board_type: KanbanBoardType,
    pub team_id: Option<u128>,
    pub project_id: Option<u128>,
    pub columns: Vec<CreateColumnRequest>,
    pub default_wip_limit: Option<i32>,
}

/// One entry of a board's activity log.
#[derive(Debug, Clone)]
pub struct KanbanActivityLog {
    pub id: u128,
    pub board_id: u128,
    pub card_id: Option<u128>,
    pub action_type: KanbanActionType,
    pub actor_id: u128,
    pub description: String,
    pub old_value: Option<String>,
    pub new_value: Option<String>,
    pub created_at_ms: i64,
}

/// A comment on a card.
#[derive(Debug, Clone)]
pub struct KanbanCardComment {
    pub id: u128,
    pub card_id: u128,
    pub author_id: u128,
    pub content: String,
    pub created_at_ms: i64,
    pub updated_at_ms: Option<i64>,
}

/// A checklist item on a card.
#[derive(Debug, Clone)]
pub struct KanbanCardChecklistItem {
    pub id: u128,
    pub checklist_id: u128,
    pub content: String,
    pub position: i32,
    pub completed: bool,
    pub completed_by: Option<u128>,
    pub completed_at_ms: Option<i64>,
    pub created_at_ms: i64,
}

/// A checklist on a card.
#[derive(Debug, Clone)]
pub struct KanbanCardChecklist {
    pub id: u128,
    pub card_id: u128,
    pub title: String,
    pub position: i32,
    pub items: Vec<KanbanCardChecklistItem>,
    pub created_at_ms: i64,
}

/// `text` between single quotes, after `lead`.
pub open spec fn quoted(lead: Seq<char>, text: Seq<char>) -> Seq<char> {
    lead + seq!['\''] + text + seq!['\'']
}

/// An activity entry without old or new values.
pub open spec fn is_plain_activity(
    a: KanbanActivityLog,
    board_id: u128,
    card_id: Option<u128>,
    action_type: KanbanActionType,
    actor_id: u128,
    description: Seq<char>,
    now_ms: i64,
) -> bool {
    &&& a.board_id == board_id
    &&& a.card_id == card_id
    &&& a.action_type == action_type
    &&& a.actor_id == actor_id
    &&& a.description@ == description
    &&& a.old_value is None
    &&& a.new_value is None
    &&& a.created_at_ms == now_ms
}

fn plain_activity(
    board_id: u128,
    card_id: Option<u128>,
    action_type: KanbanActionType,
    actor_id: u128,
    description: String,
    now_ms: i64,
) -> (a: KanbanActivityLog)
    ensures
        is_plain_activity(a, board_id, card_id, action_type, actor_id, description@, now_ms),
{
    KanbanActivityLog {
        id: new_id(),
        board_id,
        card_id,
        action_type,
        actor_id,
        description,
        old_value: None,
        new_value: None,
        created_at_ms: now_ms,
    }
}

/// `lead`, then `text` between single quotes.
fn quote(lead: &str, text: &str) -> (r: String)
    ensures
        r@ == quoted(lead@, text@),
{
    let r = String::from_str(lead).concat("'").concat(text).concat("'");
    proof {
        reveal_strlit("'");
        assert("'"@ =~= seq!['\'']);
    }
    r
}

impl KanbanService {
    /// A new active board: its columns built from the request (see
    /// `build_columns`), no swimlanes, reordering, card counts and limits
    /// shown; and the activity entry `Created board '<name>'` by `user_id`.
    pub fn create_board(&self, req: CreateBoardRequest, user_id: u128, now_ms: i64)
        -> (r: (KanbanBoard, KanbanActivityLog))
        requires
            req.columns.len() <= i32::MAX + 1,
        ensures
            r.0.name == req.name,
            r.0.description == req.description,
            r.0.board_type == req.board_type,
            r.0.team_id == req.team_id,
            r.0.project_id == req.project_id,
            r.0.columns.len() == req.columns.len(),
            forall|i: int| 0 <= i < r.0.columns.len() ==> {
                &&& (#[trigger] r.0.columns[i]).board_id == r.0.id
                &&& r.0.columns[i].name == req.columns[i].name
                &&& r.0.columns[i].position == i
                &&& r.0.columns[i].wip_limit == req.columns[i].wip_limit
                &&& r.0.columns[i].is_done_column == req.columns[i].is_done_column
                &&& r.0.columns[i].is_backlog == req.columns[i].is_backlog
                &&& r.0.columns[i].color == req.columns[i].color
                &&& r.0.columns[i].auto_assign_on_move is None
                &&& r.0.columns[i].created_at_ms == now_ms
            },
            r.0.swimlane_type == KanbanSwimlaneType::NoSwimlanes,
            r.0.swimlanes.len() == 0,
            r.0.default_wip_limit == req.default_wip_limit,
            r.0.allow_card_reordering,
            r.0.show_card_count,
            r.0.show_wip_limits,
            r.0.status == RecordStatus::Active,
            r.0.created_at_ms == now_ms,
            r.0.updated_at_ms == now_ms,
            is_plain_activity(r.1, r.0.id, None, KanbanActionType::CardCreated, user_id,
                quoted("Created board "@, req.name@), now_ms),
    {
        let board_id = new_id();
        let columns = build_columns(board_id, req.columns, now_ms);
        let description = quote("Created board ", req.name.as_str());
        let board = KanbanBoard {
            id: board_id,
            name: req.name,
            description: req.description,
            board_type: req.board_type,
            team_id: req.team_id,
            project_id: req.project_id,
            columns,
            swimlane_type: KanbanSwimlaneType::NoSwimlanes,
            swimlanes: Vec::new(),
            default_wip_limit: req.default_wip_limit,
            allow_card_reordering: true,
            show_card_count: true,
            show_wip_limits: true,
            status: RecordStatus::Active,
            created_at_ms: now_ms,
            updated_at_ms: now_ms,
        };
        let log = plain_activity(board_id, None, KanbanActionType::CardCreated, user_id, description, now_ms);
        (board, log)
    }

    /// A new card's state at the end of column `column_id`, which holds
    /// `existing` cards, unblocked and not completed; and the activity entry
    /// `Created card '<title>'` by `user_id`.
    pub fn create_card(
        &self,
        board_id: u128,
        column_id: u128,
        title: &str,
        due_date_ms: Option<i64>,
        existing: usize,
        user_id: u128,
        now_ms: i64,
    ) -> (r: (KanbanCardState, KanbanActivityLog))
        requires
            existing <= i32::MAX,
        ensures
            r.0.board_id == board_id,
            r.0.column_id == column_id,
            r.0.position == existing,
            !r.0.blocked,
            r.0.due_date_ms == due_date_ms,
            r.0.completed_date_ms is None,
            r.0.created_at_ms == now_ms,
            r.0.updated_at_ms == now_ms,
            is_plain_activity(r.1, board_id, Some(r.0.id), KanbanActionType::CardCreated, user_id,
                quoted("Created card "@, title@), now_ms),
    {
        let card = KanbanCardState {
            id: new_id(),
            board_id,
            column_id,
            position: next_card_position(existing),
            blocked: false,
            due_date_ms,
            completed_date_ms: None,
            created_at_ms: now_ms,
            updated_at_ms: now_ms,
        };
        let log = plain_activity(board_id, Some(card.id), KanbanActionType::CardCreated, user_id,
            quote("Created card ", title), now_ms);
        (card, log)
    }

    /// The activity entry of a move: `Moved card from column to new column`,
    /// with the two columns' identifiers (hyphenated) as old and new values.
    pub fn move_activity(&self, mv: &KanbanCardMove, board_id: u128) -> (a: KanbanActivityLog)
        ensures
            a.board_id == board_id,
            a.card_id == Some(mv.card_id),
            a.action_type == KanbanActionType::CardMoved,
            a.actor_id == mv.moved_by,
            a.description@ == "Moved card from column to new column"@,
            a.old_value matches Some(o) && o@ == uuid_hyphenated(mv.from_column_id),
            a.new_value matches Some(n) && n@ == uuid_hyphenated(mv.to_column_id),
            a.created_at_ms == mv.moved_at_ms,
    {
        KanbanActivityLog {
            id: new_id(),
            board_id,
            card_id: Some(mv.card_id),
            action_type: KanbanActionType::CardMoved,
            actor_id: mv.moved_by,
            description: String::from_str("Moved card from column to new column"),
            old_value: Some(uuid_text(mv.from_column_id)),
            new_value: Some(uuid_text(mv.to_column_id)),
            created_at_ms: mv.moved_at_ms,
        }
    }

    /// The activity entry `Updated card '<title>'`.
    pub fn update_activity(&self, card: &KanbanCardState, title: &str, user_id: u128, now_ms: i64)
        -> (a: KanbanActivityLog)
        ensures
            is_plain_activity(a, card.board_id, Some(card.id), KanbanActionType::CardUpdated, user_id,
                quoted("Updated card "@, title@), now_ms),
    {
        plain_activity(card.board_id, Some(card.id), KanbanActionType::CardUpdated, user_id,
            quote("Updated card ", title), now_ms)
    }

    /// The activity entry `Deleted card '<title>'`.
    pub fn delete_activity(&self, card: &KanbanCardState, title: &str, user_id: u128, now_ms: i64)
        -> (a: KanbanActivityLog)
        ensures
            is_plain_activity(a, card.board_id, Some(card.id), KanbanActionType::CardDeleted, user_id,
                quoted("Deleted card "@, title@), now_ms),
    {
        plain_activity(card.board_id, Some(card.id), KanbanActionType::CardDeleted, user_id,
            quote("Deleted card ", title), now_ms)
    }

    /// A comment by `author_id` on `card`, and the activity entry
    /// `Added comment: <content>`.
    pub fn add_comment(&self, card: &KanbanCardState, content: String, author_id: u128, now_ms: i64)
        -> (r: (KanbanCardComment, KanbanActivityLog))
        ensures
            r.0.card_id == card.id,
            r.0.author_id == author_id,
            r.0.content == content,
            r.0.created_at_ms == now_ms,
            r.0.updated_at_ms is None,
            is_plain_activity(r.1, card.board_id, Some(card.id), KanbanActionType::CommentAdded, author_id,
                "Added comment: "@ + content@, now_ms),
    {
        let description = String::from_str("Added comment: ").concat(content.as_str());
        let comment = KanbanCardComment {
            id: new_id(),
            card_id: card.id,
            author_id,
            content,
            created_at_ms: now_ms,
            updated_at_ms: None,
        };
        let log = plain_activity(card.board_id, Some(card.id), KanbanActionType::CommentAdded, author_id,
            description, now_ms);
        (comment, log)
    }

    /// An empty checklist at the top of a card.
    pub fn add_checklist(&self, card_id: u128, title: String, now_ms: i64) -> (c: KanbanCardChecklist)
        ensures
            c.card_id == card_id,
            c.title == title,
            c.position == 0,
            c.items.len() == 0,
            c.created_at_ms == now_ms,
    {
        KanbanCardChecklist { id: new_id(), card_id, title, position: 0, items: Vec::new(), created_at_ms: now_ms }
    }

    /// A checklist item marked done or not done: who completed it and when
    /// are recorded only when it is done.
    pub fn toggle_checklist_item(&self, item_id: u128, completed: bool, user_id: u128, now_ms: i64)
        -> (i: KanbanCardChecklistItem)
        ensures
            i.id == item_id,
            i.checklist_id == 0,
            i.content@.len() == 0,
            i.position == 0,
            i.completed == completed,
            i.completed_by == (if completed { Some(user_id) } else { None }),
            i.completed_at_ms == (if completed { Some(now_ms) } else { None }),
            i.created_at_ms == now_ms,
    {
        KanbanCardChecklistItem {
            id: item_id,
            checklist_id: 0,
            content: String::new(),
            position: 0,
            completed,
            completed_by: if completed { Some(user_id) } else { None },
            completed_at_ms: if completed { Some(now_ms) } else { None },
            created_at_ms: now_ms,
        }
    }

    /// A card blocked at `now_ms`, and the activity entry
    /// `Blocked card: <reason>`.
    pub fn block_card(&self, card: KanbanCardState, reason: &str, user_id: u128, now_ms: i64)
        -> (r: (KanbanCardState, KanbanActivityLog))
        ensures
            r.0 == (KanbanCardState { blocked: true, updated_at_ms: now_ms, ..card }),
            is_plain_activity(r.1, card.board_id, Some(card.id), KanbanActionType::CardBlocked, user_id,
                "Blocked card: "@ + reason@, now_ms),
    {
        let description = String::from_str("Blocked card: ").concat(reason);
        let log = plain_activity(card.board_id, Some(card.id), KanbanActionType::CardBlocked, user_id,
            description, now_ms);
        (KanbanCardState { blocked: true, updated_at_ms: now_ms, ..card }, log)
    }

    /// A card unblocked at `now_ms`, and the activity entry
    /// `Unblocked card`.
    pub fn unblock_card(&self, card: KanbanCardState, user_id: u128, now_ms: i64)
        -> (r: (KanbanCardState, KanbanActivityLog))
        ensures
            r.0 == (KanbanCardState { blocked: false, updated_at_ms: now_ms, ..card }),
            is_plain_activity(r.1, card.board_id, Some(card.id), KanbanActionType::CardUnblocked, user_id,
                "Unblocked card"@, now_ms),
    {
        let log = plain_activity(card.board_id, Some(card.id), KanbanActionType::CardUnblocked, user_id,
            String::from_str("Unblocked card"), now_ms);
        (KanbanCardState { blocked: false, updated_at_ms: now_ms, ..card }, log)
    }
}

} // verus!
