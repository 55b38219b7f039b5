use mech_utilities::{maximize_block, InternStore, MechCode, MiniBlock, MiniProgram};

type Block = MiniBlock<String, String, i64>;

fn sample() -> Block {
    MiniBlock {
        id: 7,
        transformations: vec![("rule1".to_string(), vec!["T1".to_string()])],
        plan: vec!["T1".to_string()],
        strings: vec![(0, "x".to_string())],
        errors: vec![],
        number_literals: vec![],
    }
}

#[test]
fn new_miniblock_is_empty() {
    let b: Block = MiniBlock::new();
    assert_eq!(b.id, 0);
    assert!(b.transformations.is_empty());
    assert!(b.plan.is_empty());
    assert!(b.strings.is_empty());
    assert!(b.errors.is_empty());
    assert!(b.number_literals.is_empty());
}

#[test]
fn rehydrates_single_rule_block() {
    let r = maximize_block(sample());
    assert_eq!(r.id, 7);
    assert_eq!(r.plan, vec!["T1".to_string()]);
    assert_eq!(r.transformations, vec![("rule1".to_string(), vec!["T1".to_string()])]);
    assert_eq!(r.store.string(0), Some(&"x".to_string()));
    assert_eq!(r.store.string(1), None);
    assert!(r.errors.is_empty());
}

#[test]
fn rehydration_keeps_id_plan_and_errors() {
    let mut b = sample();
    b.id = 42;
    b.plan = vec!["T2".to_string(), "T1".to_string()];
    b.errors = vec!["bad column".to_string(), "unknown table".to_string()];
    b.number_literals = vec![(3, 10), (4, -2)];
    let r = maximize_block(b);
    assert_eq!(r.id, 42);
    assert_eq!(r.plan, vec!["T2".to_string(), "T1".to_string()]);
    assert_eq!(r.errors, vec!["bad column".to_string(), "unknown table".to_string()]);
    assert_eq!(r.store.number_literal(3), Some(&10));
    assert_eq!(r.store.number_literal(4), Some(&-2));
    assert_eq!(r.store.number_literal(0), None);
}

#[test]
fn rehydration_keeps_rule_order() {
    let mut b = sample();
    b.transformations = vec![
        ("first".to_string(), vec!["A".to_string()]),
        ("second".to_string(), vec!["B".to_string(), "C".to_string()]),
        ("third".to_string(), vec![]),
    ];
    let r = maximize_block(b);
    let labels: Vec<&str> = r.transformations.iter().map(|p| p.0.as_str()).collect();
    assert_eq!(labels, vec!["first", "second", "third"]);
}

#[test]
fn later_interned_entry_wins() {
    let mut b = sample();
    b.strings = vec![(0, "x".to_string()), (1, "y".to_string()), (0, "z".to_string())];
    let r = maximize_block(b);
    assert_eq!(r.store.string(0), Some(&"z".to_string()));
    assert_eq!(r.store.string(1), Some(&"y".to_string()));
}

#[test]
fn two_rehydrations_do_not_share_a_store() {
    let b = sample();
    let mut first = maximize_block(b.clone());
    let second = maximize_block(b);
    first.store.insert_string(0, "changed".to_string());
    first.store.insert_string(9, "new".to_string());
    assert_eq!(first.store.string(0), Some(&"changed".to_string()));
    assert_eq!(second.store.string(0), Some(&"x".to_string()));
    assert_eq!(second.store.string(9), None);
}

#[test]
fn store_bulk_insert_onto_existing_entries() {
    let mut s: InternStore<u8> = InternStore::new();
    s.insert_string(5, "five".to_string());
    s.intern_strings(vec![(6, "six".to_string()), (5, "FIVE".to_string())]);
    s.intern_number_literals(vec![(1, 1), (1, 2)]);
    assert_eq!(s.string(5), Some(&"FIVE".to_string()));
    assert_eq!(s.string(6), Some(&"six".to_string()));
    assert_eq!(s.number_literal(1), Some(&2));
}

#[test]
fn empty_snapshot_rehydrates_to_empty_block() {
    let r = maximize_block(Block::new());
    assert_eq!(r.id, 0);
    assert!(r.plan.is_empty());
    assert!(r.transformations.is_empty());
    assert_eq!(r.store.string(0), None);
}

#[test]
fn code_payload_carries_programs() {
    let program = MiniProgram { title: Some("demo".to_string()), blocks: vec![sample()] };
    let code: MechCode<String, String, i64> = MechCode::MiniPrograms(vec![program.clone()]);
    match code {
        MechCode::MiniPrograms(ps) => assert_eq!(ps, vec![program]),
        _ => panic!("wrong payload"),
    }
}

#[test]
fn store_hands_over_its_tables() {
    let mut b = sample();
    b.number_literals = vec![(2, 5)];
    let r = maximize_block(b);
    let (strings, numbers) = r.store.into_tables();
    assert_eq!(strings.len(), 1);
    assert_eq!(strings.get(&0), Some(&"x".to_string()));
    assert_eq!(numbers.len(), 1);
    assert_eq!(numbers.get(&2), Some(&5));
}
