use yasb_core::model::{BarDef, BarKey, Edge};
use yasb_core::reconcile::{reconcile, WindowAction};

fn bar(monitor: u32, index: u32, edge: Edge, thickness: u32, widgets: Vec<u32>) -> BarDef {
    BarDef { key: BarKey { monitor, index }, edge, thickness, widgets }
}

#[test]
fn new_bars_are_created_and_unchanged_bar_is_untouched() {
    // Previously only "top" existed; the new config defines top, bottom
    // and left, with top unchanged.
    let top = bar(0, 0, Edge::Top, 30, vec![1, 2]);
    let bottom = bar(0, 1, Edge::Bottom, 30, vec![3]);
    let left = bar(1, 0, Edge::Left, 24, vec![]);
    let existing = vec![top.clone()];
    let desired = vec![top.clone(), bottom.clone(), left.clone()];

    let plan = reconcile(&desired, &existing);
    assert_eq!(plan.len(), 2);
    match &plan[0] {
        WindowAction::Create { def } => assert!(def.same_def(&bottom)),
        other => panic!("expected a create, got {:?}", other),
    }
    match &plan[1] {
        WindowAction::Create { def } => assert!(def.same_def(&left)),
        other => panic!("expected a create, got {:?}", other),
    }
}

#[test]
fn undesired_bar_is_destroyed() {
    let top = bar(0, 0, Edge::Top, 30, vec![1]);
    let existing = vec![top];
    let desired: Vec<BarDef> = vec![];

    let plan = reconcile(&desired, &existing);
    assert_eq!(plan.len(), 1);
    match &plan[0] {
        WindowAction::Destroy { key } => assert_eq!(*key, BarKey { monitor: 0, index: 0 }),
        other => panic!("expected a destroy, got {:?}", other),
    }
}

#[test]
fn changed_bar_is_updated_in_place_not_recreated() {
    let old_top = bar(0, 0, Edge::Top, 30, vec![1]);
    let new_top = bar(0, 0, Edge::Top, 40, vec![1]);
    let existing = vec![old_top];
    let desired = vec![new_top.clone()];

    let plan = reconcile(&desired, &existing);
    assert_eq!(plan.len(), 1);
    match &plan[0] {
        WindowAction::Update { def } => assert!(def.same_def(&new_top)),
        other => panic!("expected an in-place update, got {:?}", other),
    }
}

#[test]
fn identical_config_yields_an_empty_plan() {
    let top = bar(0, 0, Edge::Top, 30, vec![1, 2, 3]);
    let side = bar(1, 0, Edge::Right, 20, vec![]);
    let existing = vec![top.clone(), side.clone()];
    let desired = vec![top, side];

    let plan = reconcile(&desired, &existing);
    assert!(plan.is_empty());
}

#[test]
fn mixed_reload_creates_destroys_and_updates_by_identity() {
    let kept = bar(0, 0, Edge::Top, 30, vec![7]);
    let gone = bar(0, 1, Edge::Bottom, 30, vec![8]);
    let grown = bar(1, 0, Edge::Left, 20, vec![9]);
    let grown_new = bar(1, 0, Edge::Left, 25, vec![9]);
    let fresh = bar(2, 0, Edge::Right, 20, vec![]);
    let existing = vec![kept.clone(), gone.clone(), grown.clone()];
    let desired = vec![kept.clone(), grown_new.clone(), fresh.clone()];

    let plan = reconcile(&desired, &existing);
    assert_eq!(plan.len(), 3);
    match &plan[0] {
        WindowAction::Destroy { key } => assert_eq!(*key, gone.key),
        other => panic!("expected a destroy, got {:?}", other),
    }
    match &plan[1] {
        WindowAction::Update { def } => assert!(def.same_def(&grown_new)),
        other => panic!("expected an update, got {:?}", other),
    }
    match &plan[2] {
        WindowAction::Create { def } => assert!(def.same_def(&fresh)),
        other => panic!("expected a create, got {:?}", other),
    }
}
