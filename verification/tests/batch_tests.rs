use venue_feed::batch::partition_symbols;

fn numbered(n: usize) -> Vec<String> {
    let mut symbols: Vec<String> = Vec::new();
    let mut i: usize = 0;
    while i < n {
        symbols.push(format!("S{}_USDT", i));
        i += 1;
    }
    symbols
}

#[test]
fn five_hundred_symbols_make_five_full_groups() {
    let symbols = numbered(500);
    let groups = partition_symbols(&symbols, 100);
    assert_eq!(groups.len(), 5);
    for group in groups.iter() {
        assert_eq!(group.len(), 100);
    }
    let joined: Vec<String> = groups.concat();
    assert_eq!(joined, symbols);
}

#[test]
fn the_last_group_holds_what_is_left() {
    let symbols = numbered(250);
    let groups = partition_symbols(&symbols, 100);
    assert_eq!(groups.len(), 3);
    assert_eq!(groups[0], symbols[0..100].to_vec());
    assert_eq!(groups[1], symbols[100..200].to_vec());
    assert_eq!(groups[2], symbols[200..250].to_vec());
}

#[test]
fn small_lists_and_small_ceilings() {
    assert!(partition_symbols(&Vec::new(), 100).is_empty());
    assert_eq!(partition_symbols(&numbered(1), 100), vec![numbered(1)]);
    assert_eq!(partition_symbols(&numbered(100), 100), vec![numbered(100)]);
    assert_eq!(partition_symbols(&numbered(101), 100).len(), 2);
    let singles = partition_symbols(&numbered(3), 1);
    assert_eq!(
        singles,
        vec![
            vec!["S0_USDT".to_string()],
            vec!["S1_USDT".to_string()],
            vec!["S2_USDT".to_string()]
        ]
    );
    assert_eq!(partition_symbols(&numbered(3), usize::MAX), vec![numbered(3)]);
}
