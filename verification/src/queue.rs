//! The print queue: where a newly queued order goes, how an operator moves an
//! order up or down, and what the queue listing shows.
//!
//! The queue is modelled as a map from the id of each order whose status is
//! `in_queue` to its `queue_position`.

use vstd::prelude::*;
use crate::error::{AuthError, AuthErrorView};
use crate::model::{QueueItem, UpdateOrderStatusRequest};

verus! {

broadcast use vstd::string::group_string_axioms;

/// The status that puts an order in the print queue.
pub open spec fn in_queue_status() -> Seq<char> {
    "in_queue"@
}

/// Whether a status change puts the order in the queue, so that it must be given
/// a queue position.
pub fn assigns_queue_position(payload: &UpdateOrderStatusRequest) -> (b: bool)
    ensures
        b == (payload.status@ == in_queue_status()),
{
    let in_queue = String::from_str("in_queue");
    payload.status == in_queue
}

/// The position given to an order that joins the queue, where `max_position` is
/// the greatest position held by a queued order (`None` when none is held).
pub open spec fn spec_next_queue_position(max_position: Option<i64>) -> int {
    match max_position {
        Some(m) => m + 1,
        None => 1,
    }
}

/// The position for an order that joins the queue: one past the last.
pub fn next_queue_position(max_position: Option<i64>) -> (p: i64)
    requires
        max_position matches Some(m) ==> m < i64::MAX,
    ensures
        p == spec_next_queue_position(max_position),
{
    match max_position {
        Some(max_pos) => max_pos + 1,
        None => 1,
    }
}

/// One write of a queue position: `order_id` goes to `position`.
#[derive(Debug, Clone, Copy, PartialEq, Eq, Structural)]
pub struct PositionUpdate {
    pub order_id: i64,
    pub position: i64,
}

/// The writes that move `order_id` up, given its position (`None` when it is not
/// queued) and the order just above it (`None` when it is first).
pub open spec fn spec_plan_move_up(order_id: i64, current: Option<i64>, above: Option<i64>) -> Result<
    Seq<PositionUpdate>,
    AuthErrorView,
> {
    match current {
        None => Err(AuthErrorView::Unauthorized),
        Some(p) => match above {
            None => Ok(seq![]),
            Some(a) => Ok(
                seq![
                    PositionUpdate { order_id: a, position: p },
                    PositionUpdate { order_id, position: (p - 1) as i64 },
                ],
            ),
        },
    }
}

/// The writes that move `order_id` down, given its position (`None` when it is
/// not queued) and the order just below it (`None` when it is last).
pub open spec fn spec_plan_move_down(order_id: i64, current: Option<i64>, below: Option<i64>) -> Result<
    Seq<PositionUpdate>,
    AuthErrorView,
> {
    match current {
        None => Err(AuthErrorView::Unauthorized),
        Some(p) => match below {
            None => Ok(seq![]),
            Some(b) => Ok(
                seq![
                    PositionUpdate { order_id: b, position: p },
                    PositionUpdate { order_id, position: (p + 1) as i64 },
                ],
            ),
        },
    }
}

/// A plan taken by the view of its writes and of its error.
pub open spec fn plan_view(r: Result<Vec<PositionUpdate>, AuthError>) -> Result<
    Seq<PositionUpdate>,
    AuthErrorView,
> {
    match r {
        Ok(v) => Ok(v@),
        Err(e) => Err(e@),
    }
}

/// Plans moving `order_id` one place up: it trades places with the order above.
/// An order that is not queued is refused with `Unauthorized`; the first order
/// stays where it is.
pub fn plan_move_up(order_id: i64, current: Option<i64>, above: Option<i64>) -> (r: Result<
    Vec<PositionUpdate>,
    AuthError,
>)
    requires
        above is Some ==> (current matches Some(p) ==> p > i64::MIN),
    ensures
        plan_view(r) == spec_plan_move_up(order_id, current, above),
{
    let current_position = match current {
        Some(pos) => pos,
        None => return Err(AuthError::Unauthorized),
    };
    let mut updates: Vec<PositionUpdate> = Vec::new();
    if let Some(above_order_id) = above {
        updates.push(PositionUpdate { order_id: above_order_id, position: current_position });
        updates.push(PositionUpdate { order_id, position: current_position - 1 });
    }
    proof {
        assert(updates@ =~= spec_plan_move_up(order_id, current, above)->Ok_0);
    }
    Ok(updates)
}

/// Plans moving `order_id` one place down: it trades places with the order
/// below. An order that is not queued is refused with `Unauthorized`; the last
/// order stays where it is.
pub fn plan_move_down(order_id: i64, current: Option<i64>, below: Option<i64>) -> (r: Result<
    Vec<PositionUpdate>,
    AuthError,
>)
    requires
        below is Some ==> (current matches Some(p) ==> p < i64::MAX),
    ensures
        plan_view(r) == spec_plan_move_down(order_id, current, below),
{
    let current_position = match current {
        Some(pos) => pos,
        None => return Err(AuthError::Unauthorized),
    };
    let mut updates: Vec<PositionUpdate> = Vec::new();
    if let Some(below_order_id) = below {
        updates.push(PositionUpdate { order_id: below_order_id, position: current_position });
        updates.push(PositionUpdate { order_id, position: current_position + 1 });
    }
    proof {
        assert(updates@ =~= spec_plan_move_down(order_id, current, below)->Ok_0);
    }
    Ok(updates)
}

/// One queued order as read for the listing: its owner and how many items it holds.
#[derive(Debug, Clone, Copy, PartialEq, Eq, Structural)]
pub struct QueueRow {
    pub order_id: i64,
    pub user_id: i64,
    pub total_items: i64,
}

/// The listing entry for the row at index `i` of the queue, as seen by `viewer`.
pub open spec fn spec_queue_item(row: QueueRow, i: int, viewer: i64) -> QueueItem {
    QueueItem {
        position: (i + 1) as i32,
        total_items: row.total_items as i32,
        is_current_user: row.user_id == viewer,
    }
}

/// The listing for `viewer` of queued rows in queue order.
pub open spec fn spec_queue_listing(rows: Seq<QueueRow>, viewer: i64) -> Seq<QueueItem> {
    Seq::new(rows.len(), |i: int| spec_queue_item(rows[i], i, viewer))
}

/// The queue listing for `viewer`: rows in queue order, numbered from 1, each
/// telling only its item count and whether it belongs to the viewer.
pub fn build_queue(rows: &Vec<QueueRow>, viewer: i64) -> (items: Vec<QueueItem>)
    requires
        rows@.len() < i32::MAX,
    ensures
        items@ == spec_queue_listing(rows@, viewer),
        forall|i: int|
            0 <= i < rows@.len() ==> {
                &&& (#[trigger] items@[i]).position == i + 1
                &&& items@[i].total_items == rows@[i].total_items as i32
                &&& items@[i].is_current_user == (rows@[i].user_id == viewer)
            },
        items@.len() == rows@.len(),
        forall|i: int| 0 <= i < rows@.len() ==> #[trigger] items@[i] == spec_queue_item(rows@[i], i, viewer),
{
    let mut items: Vec<QueueItem> = Vec::new();
    let mut position: i32 = 1;
    let n = rows.len();
    for i in 0..n
        invariant
            n == rows@.len(),
            n < i32::MAX,
            position == i + 1,
            items@.len() == i,
            forall|j: int| 0 <= j < i ==> #[trigger] items@[j] == spec_queue_item(rows@[j], j, viewer),
    {
        let row = rows[i];
        items.push(
            QueueItem {
                position,
                total_items: row.total_items as i32,
                is_current_user: row.user_id == viewer,
            },
        );
        position = position + 1;
    }
    assert(items@ =~= spec_queue_listing(rows@, viewer));
    items
}

/// The listing numbers the queued orders consecutively from 1 in queue order,
/// shows each order's item count, and marks exactly the viewer's own orders.
pub proof fn lemma_listing_entries(rows: Seq<QueueRow>, viewer: i64)
    requires
        rows.len() < i32::MAX,
    ensures
        spec_queue_listing(rows, viewer).len() == rows.len(),
        forall|i: int|
            0 <= i < rows.len() ==> {
                &&& (#[trigger] spec_queue_listing(rows, viewer)[i]).position == i + 1
                &&& spec_queue_listing(rows, viewer)[i].total_items == rows[i].total_items as i32
                &&& spec_queue_listing(rows, viewer)[i].is_current_user == (rows[i].user_id
                    == viewer)
            },
        forall|i: int, j: int|
            0 <= i < j < rows.len() ==> spec_queue_listing(rows, viewer)[i].position
                < spec_queue_listing(rows, viewer)[j].position,
{
}

/// The listing tells a viewer nothing of other users' orders beyond their number
/// and item counts: two queues with the same item counts, in the same order, and
/// the same orders belonging to the viewer give the same listing, whatever the
/// order ids and the other owners.
pub proof fn lemma_listing_reveals_only_counts(rows1: Seq<QueueRow>, rows2: Seq<QueueRow>, viewer: i64)
    requires
        rows1.len() == rows2.len(),
        forall|i: int|
            0 <= i < rows1.len() ==> (#[trigger] rows1[i]).total_items == rows2[i].total_items && (
            rows1[i].user_id == viewer) == (rows2[i].user_id == viewer),
    ensures
        spec_queue_listing(rows1, viewer) == spec_queue_listing(rows2, viewer),
{
    assert(spec_queue_listing(rows1, viewer) =~= spec_queue_listing(rows2, viewer));
}

// The queue model.

/// The position of `id` in the queue, if it is queued.
pub open spec fn position_in(q: Map<i64, i64>, id: i64) -> Option<i64> {
    if q.dom().contains(id) {
        Some(q[id])
    } else {
        None
    }
}

/// Some queued order with the greatest position below `p`, as
/// `ORDER BY queue_position DESC LIMIT 1` finds it; `None` when there is none.
pub open spec fn order_above(q: Map<i64, i64>, p: i64) -> Option<i64> {
    if exists|id: i64| q.dom().contains(id) && q[id] < p {
        Some(
            choose|id: i64|
                q.dom().contains(id) && q[id] < p && forall|o: i64|
                    q.dom().contains(o) && q[o] < p ==> q[o] <= q[id],
        )
    } else {
        None
    }
}

/// Some queued order with the least position above `p`, as
/// `ORDER BY queue_position ASC LIMIT 1` finds it; `None` when there is none.
pub open spec fn order_below(q: Map<i64, i64>, p: i64) -> Option<i64> {
    if exists|id: i64| q.dom().contains(id) && q[id] > p {
        Some(
            choose|id: i64|
                q.dom().contains(id) && q[id] > p && forall|o: i64|
                    q.dom().contains(o) && q[o] > p ==> q[o] >= q[id],
        )
    } else {
        None
    }
}

/// The queue after the writes, in order.
pub open spec fn apply_updates(q: Map<i64, i64>, ups: Seq<PositionUpdate>) -> Map<i64, i64>
    decreases ups.len(),
{
    if ups.len() == 0 {
        q
    } else {
        apply_updates(q.insert(ups[0].order_id, ups[0].position), ups.drop_first())
    }
}

/// Applying two writes sets the first order's position, then the second's.
proof fn lemma_apply_two(q: Map<i64, i64>, ups: Seq<PositionUpdate>)
    requires
        ups.len() == 2,
    ensures
        apply_updates(q, ups) == q.insert(ups[0].order_id, ups[0].position).insert(
            ups[1].order_id,
            ups[1].position,
        ),
{
    let q1 = q.insert(ups[0].order_id, ups[0].position);
    let q2 = q1.insert(ups[1].order_id, ups[1].position);
    assert(ups.drop_first().drop_first() =~= Seq::<PositionUpdate>::empty());
    assert(apply_updates(q1, ups.drop_first()) == apply_updates(q2, ups.drop_first().drop_first()));
}

/// Moving `id` up: the lookups, the plan, then its writes.
pub open spec fn spec_move_up(q: Map<i64, i64>, id: i64) -> Result<Map<i64, i64>, AuthErrorView> {
    match position_in(q, id) {
        None => Err(AuthErrorView::Unauthorized),
        Some(p) => match spec_plan_move_up(id, Some(p), order_above(q, p)) {
            Ok(ups) => Ok(apply_updates(q, ups)),
            Err(e) => Err(e),
        },
    }
}

/// Moving `id` down: the lookups, the plan, then its writes.
pub open spec fn spec_move_down(q: Map<i64, i64>, id: i64) -> Result<Map<i64, i64>, AuthErrorView> {
    match position_in(q, id) {
        None => Err(AuthErrorView::Unauthorized),
        Some(p) => match spec_plan_move_down(id, Some(p), order_below(q, p)) {
            Ok(ups) => Ok(apply_updates(q, ups)),
            Err(e) => Err(e),
        },
    }
}

/// No two queued orders share a position.
pub open spec fn positions_distinct(q: Map<i64, i64>) -> bool {
    forall|a: i64, b: i64|
        #[trigger] q.dom().contains(a) && #[trigger] q.dom().contains(b) && q[a] == q[b] ==> a == b
}

/// Some queued order holds position `k`.
pub open spec fn position_taken(q: Map<i64, i64>, k: int) -> bool {
    exists|id: i64| #[trigger] q.dom().contains(id) && q[id] == k
}

/// A queue whose positions are exactly `1..=n`, each held by one order.
pub open spec fn is_contiguous(q: Map<i64, i64>, n: int) -> bool {
    &&& forall|id: i64| #[trigger] q.dom().contains(id) ==> 1 <= q[id] <= n
    &&& forall|k: int| 1 <= k <= n ==> #[trigger] position_taken(q, k)
    &&& positions_distinct(q)
}

/// In a contiguous queue, the order above position `p > 1` is the one at `p - 1`.
proof fn lemma_above_is_previous(q: Map<i64, i64>, n: int, p: i64)
    requires
        is_contiguous(q, n),
        1 < p <= n,
    ensures
        order_above(q, p) matches Some(a) && q.dom().contains(a) && q[a] == p - 1,
{
    let k: int = p - 1;
    assert(1 <= k <= n);
    assert(position_taken(q, k));
    let a = choose|id: i64| #[trigger] q.dom().contains(id) && q[id] == k;
    assert(q.dom().contains(a) && q[a] < p);
    assert(forall|o: i64| q.dom().contains(o) && q[o] < p ==> q[o] <= q[a]);
    let c = order_above(q, p).unwrap();
    assert(q.dom().contains(c) && q[c] < p);
    assert(q[c] >= q[a]);
}

/// In a contiguous queue, the order below position `p < n` is the one at `p + 1`.
proof fn lemma_below_is_next(q: Map<i64, i64>, n: int, p: i64)
    requires
        is_contiguous(q, n),
        1 <= p < n,
    ensures
        order_below(q, p) matches Some(b) && q.dom().contains(b) && q[b] == p + 1,
{
    let k: int = p + 1;
    assert(1 <= k <= n);
    assert(position_taken(q, k));
    let b = choose|id: i64| #[trigger] q.dom().contains(id) && q[id] == k;
    assert(q.dom().contains(b) && q[b] > p);
    assert(forall|o: i64| q.dom().contains(o) && q[o] > p ==> q[o] >= q[b]);
    let c = order_below(q, p).unwrap();
    assert(q.dom().contains(c) && q[c] > p);
    assert(q[c] <= q[b]);
}

/// Moving an order up and then down again puts every order back where it was,
/// in a queue whose positions are `1..=n` and for an order that is not first.
pub proof fn lemma_move_up_then_down(q: Map<i64, i64>, n: int, id: i64)
    requires
        is_contiguous(q, n),
        q.dom().contains(id),
        q[id] > 1,
    ensures
        spec_move_up(q, id) matches Ok(q1) && spec_move_down(q1, id) == Ok::<
            Map<i64, i64>,
            AuthErrorView,
        >(q),
{
    let p = q[id];
    lemma_above_is_previous(q, n, p);
    let a = order_above(q, p).unwrap();
    assert(a != id);
    let ups = seq![
        PositionUpdate { order_id: a, position: p },
        PositionUpdate { order_id: id, position: (p - 1) as i64 },
    ];
    assert(spec_plan_move_up(id, Some(p), order_above(q, p)) == Ok::<
        Seq<PositionUpdate>,
        AuthErrorView,
    >(ups));
    let q1 = q.insert(a, p).insert(id, (p - 1) as i64);
    lemma_apply_two(q, ups);
    assert(apply_updates(q, ups) == q1);
    assert(spec_move_up(q, id) == Ok::<Map<i64, i64>, AuthErrorView>(q1));
    // In q1, the order just below `id` (now at p - 1) is `a` (now at p).
    assert(position_in(q1, id) == Some(((p - 1) as i64)));
    assert(q1.dom().contains(a) && q1[a] > p - 1);
    assert(exists|o: i64| q1.dom().contains(o) && q1[o] > (p - 1) as i64);
    assert forall|o: i64| q1.dom().contains(o) && q1[o] > (p - 1) as i64 implies q1[o] >= q1[a] by {
        if o != a && o != id {
            assert(q.dom().contains(o) && q1[o] == q[o]);
            if q[o] == p {
                assert(o == id);
            }
        }
    }
    let d = order_below(q1, (p - 1) as i64).unwrap();
    assert(q1.dom().contains(d) && q1[d] > p - 1 && q1[d] <= q1[a]);
    assert(d == a) by {
        if d != a {
            if d == id {
            } else {
                assert(q.dom().contains(d) && q1[d] == q[d] && q[d] == p);
            }
        }
    }
    let ups2 = seq![
        PositionUpdate { order_id: a, position: (p - 1) as i64 },
        PositionUpdate { order_id: id, position: p },
    ];
    assert(spec_plan_move_down(id, Some((p - 1) as i64), order_below(q1, (p - 1) as i64)) == Ok::<
        Seq<PositionUpdate>,
        AuthErrorView,
    >(ups2));
    let q2 = q1.insert(a, (p - 1) as i64).insert(id, p);
    lemma_apply_two(q1, ups2);
    assert(apply_updates(q1, ups2) == q2);
    assert(q2 =~= q);
}


/// Moving an order down and then up again puts every order back where it was,
/// in a queue whose positions are `1..=n` and for an order that is not last.
pub proof fn lemma_move_down_then_up(q: Map<i64, i64>, n: int, id: i64)
    requires
        is_contiguous(q, n),
        q.dom().contains(id),
        q[id] < n,
    ensures
        spec_move_down(q, id) matches Ok(q1) && spec_move_up(q1, id) == Ok::<
            Map<i64, i64>,
            AuthErrorView,
        >(q),
{
    let p = q[id];
    lemma_below_is_next(q, n, p);
    let b = order_below(q, p).unwrap();
    assert(b != id);
    let ups = seq![
        PositionUpdate { order_id: b, position: p },
        PositionUpdate { order_id: id, position: (p + 1) as i64 },
    ];
    let q1 = q.insert(b, p).insert(id, (p + 1) as i64);
    lemma_apply_two(q, ups);
    assert(apply_updates(q, ups) == q1);
    assert(spec_move_down(q, id) == Ok::<Map<i64, i64>, AuthErrorView>(q1));
    assert(q1.dom().contains(b) && q1[b] < p + 1);
    assert(exists|o: i64| q1.dom().contains(o) && q1[o] < (p + 1) as i64);
    assert forall|o: i64| q1.dom().contains(o) && q1[o] < (p + 1) as i64 implies q1[o] <= q1[b] by {
        if o != b && o != id {
            assert(q.dom().contains(o) && q1[o] == q[o]);
            if q[o] == p {
                assert(o == id);
            }
        }
    }
    let d = order_above(q1, (p + 1) as i64).unwrap();
    assert(q1.dom().contains(d) && q1[d] < p + 1 && q1[d] >= q1[b]);
    assert(d == b) by {
        if d != b {
            if d == id {
            } else {
                assert(q.dom().contains(d) && q1[d] == q[d] && q[d] == p);
            }
        }
    }
    let ups2 = seq![
        PositionUpdate { order_id: b, position: (p + 1) as i64 },
        PositionUpdate { order_id: id, position: p },
    ];
    let q2 = q1.insert(b, (p + 1) as i64).insert(id, p);
    lemma_apply_two(q1, ups2);
    assert(apply_updates(q1, ups2) == q2);
    assert(q2 =~= q);
}

/// Moving an order up swaps it with the order just above it and leaves every
/// other order where it was, whatever gaps the positions have: the moved order
/// ends up ahead of its former neighbour, no position is shared, and every other
/// order keeps its place relative to the pair.
pub proof fn lemma_move_up_swaps_neighbours(q: Map<i64, i64>, id: i64, a: i64)
    requires
        positions_distinct(q),
        q.dom().contains(id),
        q.dom().contains(a),
        q[a] < q[id],
        forall|o: i64| q.dom().contains(o) ==> !(q[a] < #[trigger] q[o] < q[id]),
    ensures
        spec_move_up(q, id) matches Ok(q1) && {
            &&& q1 == q.insert(a, q[id]).insert(id, (q[id] - 1) as i64)
            &&& positions_distinct(q1)
            &&& q1[id] < q1[a]
            &&& forall|o: i64|
                q.dom().contains(o) && o != id && o != a ==> q1[o] == q[o] && (q1[o] < q1[id]
                    <==> q[o] < q[a]) && (q1[o] > q1[a] <==> q[o] > q[id])
        },
{
    let p = q[id];
    assert(forall|o: i64| q.dom().contains(o) && q[o] < p ==> q[o] <= q[a]);
    let c = order_above(q, p).unwrap();
    assert(q.dom().contains(c) && q[c] < p && q[c] >= q[a]);
    assert(c == a);
    let ups = seq![
        PositionUpdate { order_id: a, position: p },
        PositionUpdate { order_id: id, position: (p - 1) as i64 },
    ];
    let q1 = q.insert(a, p).insert(id, (p - 1) as i64);
    lemma_apply_two(q, ups);
    assert(apply_updates(q, ups) == q1);
    assert(spec_move_up(q, id) == Ok::<Map<i64, i64>, AuthErrorView>(q1));
    assert forall|x: i64, y: i64|
        #[trigger] q1.dom().contains(x) && #[trigger] q1.dom().contains(y) && q1[x] == q1[y] implies x
        == y by {
        assert(q.dom().contains(x) && q.dom().contains(y));
        if x != id && x != a {
            assert(q1[x] == q[x]);
            assert(q[x] != p);
            assert(!(q[a] < q[x] < p));
        }
        if y != id && y != a {
            assert(q1[y] == q[y]);
            assert(q[y] != p);
            assert(!(q[a] < q[y] < p));
        }
    }
}

/// Moving an order down swaps it with the order just below it and leaves every
/// other order where it was, whatever gaps the positions have.
pub proof fn lemma_move_down_swaps_neighbours(q: Map<i64, i64>, id: i64, b: i64)
    requires
        positions_distinct(q),
        q.dom().contains(id),
        q.dom().contains(b),
        q[id] < q[b],
        forall|o: i64| q.dom().contains(o) ==> !(q[id] < #[trigger] q[o] < q[b]),
    ensures
        spec_move_down(q, id) matches Ok(q1) && {
            &&& q1 == q.insert(b, q[id]).insert(id, (q[id] + 1) as i64)
            &&& positions_distinct(q1)
            &&& q1[b] < q1[id]
            &&& forall|o: i64|
                q.dom().contains(o) && o != id && o != b ==> q1[o] == q[o] && (q1[o] > q1[id]
                    <==> q[o] > q[b]) && (q1[o] < q1[b] <==> q[o] < q[id])
        },
{
    let p = q[id];
    assert(forall|o: i64| q.dom().contains(o) && q[o] > p ==> q[o] >= q[b]);
    let c = order_below(q, p).unwrap();
    assert(q.dom().contains(c) && q[c] > p && q[c] <= q[b]);
    assert(c == b);
    let ups = seq![
        PositionUpdate { order_id: b, position: p },
        PositionUpdate { order_id: id, position: (p + 1) as i64 },
    ];
    let q1 = q.insert(b, p).insert(id, (p + 1) as i64);
    lemma_apply_two(q, ups);
    assert(apply_updates(q, ups) == q1);
    assert(spec_move_down(q, id) == Ok::<Map<i64, i64>, AuthErrorView>(q1));
    assert forall|x: i64, y: i64|
        #[trigger] q1.dom().contains(x) && #[trigger] q1.dom().contains(y) && q1[x] == q1[y] implies x
        == y by {
        assert(q.dom().contains(x) && q.dom().contains(y));
        if x != id && x != b {
            assert(q1[x] == q[x]);
            assert(q[x] != p);
            assert(!(p < q[x] < q[b]));
        }
        if y != id && y != b {
            assert(q1[y] == q[y]);
            assert(q[y] != p);
            assert(!(p < q[y] < q[b]));
        }
    }
}

/// An order that is not queued cannot be moved: the request is refused with
/// `Unauthorized` and the queue is left alone.
pub proof fn lemma_move_unqueued_refused(q: Map<i64, i64>, id: i64)
    requires
        !q.dom().contains(id),
    ensures
        spec_move_up(q, id) == Err::<Map<i64, i64>, AuthErrorView>(AuthErrorView::Unauthorized),
        spec_move_down(q, id) == Err::<Map<i64, i64>, AuthErrorView>(AuthErrorView::Unauthorized),
{
}

/// Moving up the first order of a contiguous queue, or moving down its last
/// order, changes nothing.
pub proof fn lemma_move_at_ends_is_noop(q: Map<i64, i64>, n: int, id: i64)
    requires
        is_contiguous(q, n),
        q.dom().contains(id),
    ensures
        q[id] == 1 ==> spec_move_up(q, id) == Ok::<Map<i64, i64>, AuthErrorView>(q),
        q[id] == n ==> spec_move_down(q, id) == Ok::<Map<i64, i64>, AuthErrorView>(q),
{
    if q[id] == 1 {
        assert(!(exists|o: i64| q.dom().contains(o) && q[o] < q[id]));
        assert(apply_updates(q, Seq::<PositionUpdate>::empty()) == q);
    }
    if q[id] == n {
        assert(!(exists|o: i64| q.dom().contains(o) && q[o] > q[id]));
        assert(apply_updates(q, Seq::<PositionUpdate>::empty()) == q);
    }
}

/// Swapping the positions of two queued orders keeps a contiguous queue contiguous.
proof fn lemma_swap_keeps_contiguous(q: Map<i64, i64>, n: int, x: i64, y: i64)
    requires
        is_contiguous(q, n),
        q.dom().contains(x),
        q.dom().contains(y),
        x != y,
    ensures
        is_contiguous(q.insert(x, q[y]).insert(y, q[x]), n),
{
    let q1 = q.insert(x, q[y]).insert(y, q[x]);
    assert(q1.dom() =~= q.dom());
    assert forall|k: int| 1 <= k <= n implies #[trigger] position_taken(q1, k) by {
        assert(position_taken(q, k));
        let o = choose|id: i64| #[trigger] q.dom().contains(id) && q[id] == k;
        if o == x {
            assert(q1.dom().contains(y) && q1[y] == k);
        } else if o == y {
            assert(q1.dom().contains(x) && q1[x] == k);
        } else {
            assert(q1.dom().contains(o) && q1[o] == k);
        }
    }
    assert forall|a: i64, b: i64|
        #[trigger] q1.dom().contains(a) && #[trigger] q1.dom().contains(b) && q1[a] == q1[b] implies a
        == b by {
        let sa = if a == x { y } else if a == y { x } else { a };
        let sb = if b == x { y } else if b == y { x } else { b };
        assert(q1[a] == q[sa] && q1[b] == q[sb]);
        assert(q.dom().contains(sa) && q.dom().contains(sb));
    }
}

/// Moving an order up keeps the positions of a contiguous queue exactly `1..=n`.
pub proof fn lemma_move_up_keeps_contiguous(q: Map<i64, i64>, n: int, id: i64)
    requires
        is_contiguous(q, n),
        q.dom().contains(id),
    ensures
        spec_move_up(q, id) matches Ok(q1) && is_contiguous(q1, n),
{
    let p = q[id];
    if p > 1 {
        lemma_above_is_previous(q, n, p);
        let a = order_above(q, p).unwrap();
        let ups = seq![
            PositionUpdate { order_id: a, position: p },
            PositionUpdate { order_id: id, position: (p - 1) as i64 },
        ];
        let q1 = q.insert(a, p).insert(id, (p - 1) as i64);
        lemma_apply_two(q, ups);
        assert(apply_updates(q, ups) == q1);
        lemma_swap_keeps_contiguous(q, n, a, id);
        assert(q1 =~= q.insert(a, q[id]).insert(id, q[a]));
    } else {
        assert(1 <= p);
        lemma_move_at_ends_is_noop(q, n, id);
    }
}

/// Moving an order down keeps the positions of a contiguous queue exactly `1..=n`.
pub proof fn lemma_move_down_keeps_contiguous(q: Map<i64, i64>, n: int, id: i64)
    requires
        is_contiguous(q, n),
        q.dom().contains(id),
    ensures
        spec_move_down(q, id) matches Ok(q1) && is_contiguous(q1, n),
{
    let p = q[id];
    if p < n {
        lemma_below_is_next(q, n, p);
        let b = order_below(q, p).unwrap();
        let ups = seq![
            PositionUpdate { order_id: b, position: p },
            PositionUpdate { order_id: id, position: (p + 1) as i64 },
        ];
        let q1 = q.insert(b, p).insert(id, (p + 1) as i64);
        lemma_apply_two(q, ups);
        assert(apply_updates(q, ups) == q1);
        lemma_swap_keeps_contiguous(q, n, b, id);
        assert(q1 =~= q.insert(b, q[id]).insert(id, q[b]));
    } else {
        assert(p <= n);
        lemma_move_at_ends_is_noop(q, n, id);
    }
}

/// An order that joins the queue goes behind every order already in it, and a
/// queue with positions `1..=n` grows to `1..=n+1`.
pub proof fn lemma_join_goes_last(q: Map<i64, i64>, n: int, max_position: Option<i64>, id: i64)
    requires
        is_contiguous(q, n),
        !q.dom().contains(id),
        max_position matches Some(m) ==> m == n && n >= 1,
        max_position is None ==> n == 0,
        n < i64::MAX,
    ensures
        spec_next_queue_position(max_position) == n + 1,
        forall|o: i64| q.dom().contains(o) ==> q[o] < spec_next_queue_position(max_position),
        is_contiguous(q.insert(id, (n + 1) as i64), n + 1),
{
    let q1 = q.insert(id, (n + 1) as i64);
    assert forall|k: int| 1 <= k <= n + 1 implies #[trigger] position_taken(q1, k) by {
        if k == n + 1 {
            assert(q1.dom().contains(id) && q1[id] == k);
        } else {
            assert(position_taken(q, k));
            let o = choose|o: i64| #[trigger] q.dom().contains(o) && q[o] == k;
            assert(q1.dom().contains(o) && q1[o] == k);
        }
    }
    assert forall|a: i64, b: i64|
        #[trigger] q1.dom().contains(a) && #[trigger] q1.dom().contains(b) && q1[a] == q1[b] implies a
        == b by {
        if a != id && b != id {
            assert(q.dom().contains(a) && q.dom().contains(b));
        }
    }
}

} // verus!
