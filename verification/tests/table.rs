use const_table::{CaseIter, Ordinal, Table, Width};

fn letters() -> Table<char> {
    Table::new(vec!['a', 'b', 'c', 'd'])
}

fn ordinal(index: usize) -> Ordinal {
    Ordinal { index }
}

#[test]
fn count_is_the_number_of_rows() {
    assert_eq!(letters().count(), 4);
    assert_eq!(Table::<u8>::new(Vec::new()).count(), 0);
}

#[test]
fn reconstruction_succeeds_below_the_count_only() {
    let table = letters();
    for raw in 0..4u64 {
        let case = table.reconstruct(raw).unwrap();
        assert_eq!(case.index as u64, raw);
        assert_eq!(case.raw(), raw);
        assert!(table.has(case));
    }
    for raw in [4u64, 5, 255, 256, u32::MAX as u64, u64::MAX] {
        assert_eq!(table.reconstruct(raw), Err(raw));
    }
    assert_eq!(Table::<u8>::new(Vec::new()).reconstruct(0), Err(0));
}

#[test]
fn reconstruction_is_one_to_one_and_onto() {
    let table = letters();
    let cases: Vec<Ordinal> = (0..4u64).map(|raw| table.reconstruct(raw).unwrap()).collect();
    for (i, a) in cases.iter().enumerate() {
        for (j, b) in cases.iter().enumerate() {
            assert_eq!(a == b, i == j);
        }
    }
    for case in table.cases() {
        assert_eq!(table.reconstruct(case.raw()), Ok(case));
    }
}

#[test]
fn projection_gives_the_row_of_the_case() {
    let table = letters();
    assert_eq!(*table.payload(ordinal(0)), 'a');
    assert_eq!(*table.payload(ordinal(3)), 'd');
    assert!(!table.has(ordinal(4)));
}

#[test]
fn iteration_runs_in_declaration_order() {
    let table = letters();
    assert_eq!(table.cases(), vec![ordinal(0), ordinal(1), ordinal(2), ordinal(3)]);
    let mut walk = table.iter();
    let mut seen = Vec::new();
    while let Some(case) = walk.next() {
        seen.push(case);
    }
    assert_eq!(seen, table.cases());
    assert_eq!(walk.next(), None);
    assert_eq!(walk.next_back(), None);
}

#[test]
fn reversed_iteration_runs_backwards() {
    let table = letters();
    let mut forward = table.cases();
    forward.reverse();
    assert_eq!(table.cases_rev(), forward);
    assert_eq!(table.cases_rev(), vec![ordinal(3), ordinal(2), ordinal(1), ordinal(0)]);
}

#[test]
fn iteration_equals_repeated_reconstruction() {
    let table = letters();
    let rebuilt: Vec<Ordinal> =
        (0..table.count() as u64).map(|raw| table.reconstruct(raw).unwrap()).collect();
    assert_eq!(table.cases(), rebuilt);
}

#[test]
fn a_walk_can_be_advanced_from_both_ends() {
    let mut walk = CaseIter::over(5);
    assert_eq!(walk.remaining(), 5);
    assert_eq!(walk.next(), Some(ordinal(0)));
    assert_eq!(walk.next_back(), Some(ordinal(4)));
    assert_eq!(walk.next_back(), Some(ordinal(3)));
    assert_eq!(walk.next(), Some(ordinal(1)));
    assert_eq!(walk.remaining(), 1);
    assert_eq!(walk.next(), Some(ordinal(2)));
    assert_eq!(walk.remaining(), 0);
    assert_eq!(walk.next(), None);
    assert_eq!(walk.next_back(), None);
}

#[test]
fn empty_table_has_nothing_to_walk() {
    let table: Table<u8> = Table::new(Vec::new());
    assert!(table.cases().is_empty());
    assert!(table.cases_rev().is_empty());
    assert_eq!(table.iter().next(), None);
    assert_eq!(table.iter().remaining(), 0);
}

#[test]
fn rows_come_back_in_order() {
    assert_eq!(letters().into_rows(), vec!['a', 'b', 'c', 'd']);
}

#[test]
fn capacity_of_each_width() {
    assert!(Width::W8.holds(0));
    assert!(Width::W8.holds(256));
    assert!(!Width::W8.holds(257));
    assert!(Width::W16.holds(65536));
    assert!(!Width::W16.holds(65537));
    assert!(Width::W32.holds(300));
    assert!(Width::W64.holds(usize::MAX));
}
