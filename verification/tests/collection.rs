use inf_edit::tabs::TabbedCollection;

fn titles(c: &TabbedCollection<u32>) -> Vec<String> {
    let mut out = Vec::new();
    for i in 0..c.len() {
        out.push(c.get(i).title.clone());
    }
    out
}

#[test]
fn push_appends_and_activates() {
    let mut c: TabbedCollection<u32> = TabbedCollection::new();
    assert!(c.is_empty());
    assert_eq!(c.active_index(), 0);
    c.push("one".to_string(), 1);
    c.push("two".to_string(), 2);
    c.push("three".to_string(), 3);
    assert_eq!(c.len(), 3);
    assert_eq!(c.active_index(), 2);
    assert_eq!(titles(&c), vec!["one", "two", "three"]);
}

#[test]
fn active_index_stays_in_bounds_through_mixed_operations() {
    let mut c: TabbedCollection<u32> = TabbedCollection::new();
    for i in 0..5 {
        c.push(format!("t{}", i), i);
    }
    c.cycle_next();
    c.remove(0);
    c.cycle_prev();
    c.remove(c.active_index());
    c.cycle_next();
    c.cycle_next();
    assert!(c.active_index() < c.len());
    while !c.is_empty() {
        c.remove(c.active_index());
        assert!(c.is_empty() || c.active_index() < c.len());
    }
    assert_eq!(c.active_index(), 0);
}

#[test]
fn remove_past_end_clamps_active() {
    let mut c: TabbedCollection<u32> = TabbedCollection::new();
    c.push("a".to_string(), 1);
    c.push("b".to_string(), 2);
    // active is 1 (the last); removing it clamps active to the new end
    c.remove(1);
    assert_eq!(c.len(), 1);
    assert_eq!(c.active_index(), 0);
}

#[test]
fn remove_before_active_keeps_index_position() {
    let mut c: TabbedCollection<u32> = TabbedCollection::new();
    c.push("a".to_string(), 1);
    c.push("b".to_string(), 2);
    c.push("c".to_string(), 3);
    // active is 2; removing index 0 leaves active at 2 clamped to 1
    c.remove(0);
    assert_eq!(titles(&c), vec!["b", "c"]);
    assert_eq!(c.active_index(), 1);
}

#[test]
fn cycling_wraps_and_singleton_is_noop() {
    let mut c: TabbedCollection<u32> = TabbedCollection::new();
    c.push("a".to_string(), 1);
    c.cycle_next();
    assert_eq!(c.active_index(), 0);
    c.cycle_prev();
    assert_eq!(c.active_index(), 0);
    c.push("b".to_string(), 2);
    c.push("c".to_string(), 3);
    assert_eq!(c.active_index(), 2);
    c.cycle_next();
    assert_eq!(c.active_index(), 0);
    c.cycle_prev();
    assert_eq!(c.active_index(), 2);
}

#[test]
fn cycle_on_empty_is_noop() {
    let mut c: TabbedCollection<u32> = TabbedCollection::new();
    c.cycle_next();
    c.cycle_prev();
    assert!(c.is_empty());
    assert_eq!(c.active_index(), 0);
}

#[test]
fn remove_flagged_drops_exactly_the_flagged_tabs() {
    let mut c: TabbedCollection<u32> = TabbedCollection::new();
    for i in 0..5 {
        c.push(format!("t{}", i), i);
    }
    let dead = vec![false, true, false, true, false];
    c.remove_flagged(&dead);
    assert_eq!(titles(&c), vec!["t0", "t2", "t4"]);
    assert!(c.active_index() < c.len());
}

#[test]
fn remove_flagged_with_no_flags_keeps_everything() {
    let mut c: TabbedCollection<u32> = TabbedCollection::new();
    for i in 0..3 {
        c.push(format!("t{}", i), i);
    }
    c.remove_flagged(&vec![false, false, false]);
    assert_eq!(titles(&c), vec!["t0", "t1", "t2"]);
    assert_eq!(c.active_index(), 2);
}

#[test]
fn remove_flagged_can_empty_the_collection() {
    let mut c: TabbedCollection<u32> = TabbedCollection::new();
    c.push("a".to_string(), 1);
    c.push("b".to_string(), 2);
    c.remove_flagged(&vec![true, true]);
    assert!(c.is_empty());
    assert_eq!(c.active_index(), 0);
}
