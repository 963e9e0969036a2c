use std::collections::HashMap;

use printedin3d::error::AuthError;
use printedin3d::model::{QueueItem, UpdateOrderStatusRequest};
use printedin3d::queue::{
    assigns_queue_position, build_queue, next_queue_position, plan_move_down, plan_move_up,
    PositionUpdate, QueueRow,
};

/// A small in-memory stand-in for the `orders` table: id -> queue position.
fn above(q: &HashMap<i64, i64>, p: i64) -> Option<i64> {
    q.iter().filter(|(_, &pos)| pos < p).max_by_key(|(_, &pos)| pos).map(|(&id, _)| id)
}

fn below(q: &HashMap<i64, i64>, p: i64) -> Option<i64> {
    q.iter().filter(|(_, &pos)| pos > p).min_by_key(|(_, &pos)| pos).map(|(&id, _)| id)
}

fn apply(q: &mut HashMap<i64, i64>, ups: Vec<PositionUpdate>) {
    for u in ups {
        q.insert(u.order_id, u.position);
    }
}

fn move_up(q: &mut HashMap<i64, i64>, id: i64) -> Result<(), AuthError> {
    let cur = q.get(&id).copied();
    let a = cur.and_then(|p| above(q, p));
    let ups = plan_move_up(id, cur, a)?;
    apply(q, ups);
    Ok(())
}

fn move_down(q: &mut HashMap<i64, i64>, id: i64) -> Result<(), AuthError> {
    let cur = q.get(&id).copied();
    let b = cur.and_then(|p| below(q, p));
    let ups = plan_move_down(id, cur, b)?;
    apply(q, ups);
    Ok(())
}

#[test]
fn next_position() {
    assert_eq!(next_queue_position(None), 1);
    assert_eq!(next_queue_position(Some(4)), 5);
}

#[test]
fn in_queue_status_assigns_position() {
    assert!(assigns_queue_position(&UpdateOrderStatusRequest { status: "in_queue".to_string() }));
    assert!(!assigns_queue_position(&UpdateOrderStatusRequest { status: "printing".to_string() }));
    assert!(!assigns_queue_position(&UpdateOrderStatusRequest { status: "in_queue ".to_string() }));
}

#[test]
fn move_plans() {
    assert!(matches!(plan_move_up(7, None, Some(3)), Err(AuthError::Unauthorized)));
    assert!(matches!(plan_move_down(7, None, None), Err(AuthError::Unauthorized)));
    assert_eq!(plan_move_up(7, Some(1), None).unwrap(), vec![]);
    assert_eq!(
        plan_move_up(7, Some(3), Some(9)).unwrap(),
        vec![PositionUpdate { order_id: 9, position: 3 }, PositionUpdate { order_id: 7, position: 2 }]
    );
    assert_eq!(
        plan_move_down(7, Some(3), Some(9)).unwrap(),
        vec![PositionUpdate { order_id: 9, position: 3 }, PositionUpdate { order_id: 7, position: 4 }]
    );
}

#[test]
fn move_up_then_down_restores_queue() {
    let mut q: HashMap<i64, i64> = HashMap::new();
    q.insert(10, 1);
    q.insert(11, 2);
    q.insert(12, 3);
    let before = q.clone();
    move_up(&mut q, 12).unwrap();
    assert_eq!(q[&12], 2);
    assert_eq!(q[&11], 3);
    move_down(&mut q, 12).unwrap();
    assert_eq!(q, before);
    // The head does not move up; the tail does not move down.
    move_up(&mut q, 10).unwrap();
    move_down(&mut q, 12).unwrap();
    assert_eq!(q, before);
    // An order outside the queue cannot be moved.
    assert!(matches!(move_up(&mut q, 99), Err(AuthError::Unauthorized)));
}

#[test]
fn queue_listing() {
    let rows = vec![
        QueueRow { order_id: 5, user_id: 1, total_items: 3 },
        QueueRow { order_id: 6, user_id: 2, total_items: 1 },
        QueueRow { order_id: 8, user_id: 1, total_items: (1i64 << 32) + 2 },
    ];
    let items = build_queue(&rows, 1);
    assert_eq!(
        items,
        vec![
            QueueItem { position: 1, total_items: 3, is_current_user: true },
            QueueItem { position: 2, total_items: 1, is_current_user: false },
            QueueItem { position: 3, total_items: 2, is_current_user: true },
        ]
    );
    assert!(build_queue(&vec![], 1).is_empty());
}

#[test]
fn listing_hides_other_owners() {
    let a = vec![
        QueueRow { order_id: 1, user_id: 10, total_items: 2 },
        QueueRow { order_id: 2, user_id: 3, total_items: 5 },
    ];
    let b = vec![
        QueueRow { order_id: 77, user_id: 11, total_items: 2 },
        QueueRow { order_id: 78, user_id: 3, total_items: 5 },
    ];
    assert_eq!(build_queue(&a, 3), build_queue(&b, 3));
}
