use poke_engine::mcts::{
    max_iterations_per_worker, mcts_worker_count_from_setting, merge_mcts_visits,
    resolve_mcts_worker_count, same_text, shared_children_slot, shared_children_slot_count,
    should_drop_finished_tree_async, should_use_shared_tree_mcts, MctsSideVisits, MctsVisits,
};
use poke_engine::search::{
    assemble_root_rows, root_chunk_ranges, root_search_worker_count, search_root_in_parallel,
};
use poke_engine::state::{MoveChoice, PokemonMoveIndex};

#[test]
fn root_worker_count_is_capped_by_side_one_moves() {
    assert_eq!(root_search_worker_count(8, 4), 4);
    assert_eq!(root_search_worker_count(2, 4), 2);
}

#[test]
fn root_is_parallel_only_with_enough_work() {
    assert!(search_root_in_parallel(4, 2, 4, 4));
    assert!(!search_root_in_parallel(1, 2, 4, 4));
    assert!(!search_root_in_parallel(4, 1, 4, 4));
    assert!(!search_root_in_parallel(4, 2, 4, 1));
    assert!(search_root_in_parallel(4, 2, 4, 2));
}

#[test]
fn chunk_ranges_split_rows_evenly() {
    assert_eq!(root_chunk_ranges(0, 10, 4), vec![(0, 3), (3, 6), (6, 9), (9, 10)]);
    assert_eq!(root_chunk_ranges(1, 4, 2), vec![(1, 3), (3, 4)]);
    assert_eq!(root_chunk_ranges(0, 4, 4), vec![(0, 1), (1, 2), (2, 3), (3, 4)]);
    assert_eq!(root_chunk_ranges(0, 3, 8), vec![(0, 1), (1, 2), (2, 3)]);
}

#[test]
fn rows_are_assembled_in_row_order() {
    let rows = vec![(2usize, vec![5.0f32, 6.0]), (0, vec![1.0, 2.0]), (1, vec![3.0, 4.0])];
    assert_eq!(assemble_root_rows(&rows, 3), vec![1.0, 2.0, 3.0, 4.0, 5.0, 6.0]);
}

#[test]
fn mcts_worker_count_resolution() {
    assert_eq!(resolve_mcts_worker_count(Some(3), 16), 3);
    assert_eq!(resolve_mcts_worker_count(Some(32), 16), 16);
    assert_eq!(resolve_mcts_worker_count(Some(0), 16), 8);
    assert_eq!(resolve_mcts_worker_count(None, 4), 4);
    assert_eq!(resolve_mcts_worker_count(None, 0), 1);
    assert_eq!(mcts_worker_count_from_setting(Some("3"), 16), 3);
    assert_eq!(mcts_worker_count_from_setting(Some("three"), 16), 8);
    assert_eq!(mcts_worker_count_from_setting(Some("64"), 12), 12);
    assert_eq!(mcts_worker_count_from_setting(None, 2), 2);
}

#[test]
fn settings_switch_tree_disposal_and_sharing() {
    assert!(should_drop_finished_tree_async(None));
    assert!(!should_drop_finished_tree_async(Some("1")));
    assert!(!should_drop_finished_tree_async(Some("TRUE")));
    assert!(should_drop_finished_tree_async(Some("True")));
    assert!(should_use_shared_tree_mcts(None));
    assert!(!should_use_shared_tree_mcts(Some("off")));
    assert!(!should_use_shared_tree_mcts(Some("NO")));
    assert!(should_use_shared_tree_mcts(Some("yes")));
    assert!(same_text("abc", "abc"));
    assert!(!same_text("abc", "abd"));
    assert!(!same_text("ab", "abc"));
}

#[test]
fn iterations_are_shared_out_rounding_up() {
    assert_eq!(max_iterations_per_worker(1), 10_000_000);
    assert_eq!(max_iterations_per_worker(8), 1_250_000);
    assert_eq!(max_iterations_per_worker(3), 3_333_334);
}

#[test]
fn shared_children_are_laid_out_row_by_row() {
    assert_eq!(shared_children_slot_count(4, 3), 12);
    assert_eq!(shared_children_slot_count(usize::MAX, 2), usize::MAX);
    assert_eq!(shared_children_slot(0, 0, 3), 0);
    assert_eq!(shared_children_slot(2, 1, 3), 7);
    assert_eq!(shared_children_slot(3, 2, 3), 11);
}

fn side(move_choice: MoveChoice, visits: u32) -> MctsSideVisits {
    MctsSideVisits { move_choice, visits }
}

#[test]
fn merge_mcts_visits_preserves_order_and_sums_worker_totals() {
    let side_one_options = vec![
        MoveChoice::Move(PokemonMoveIndex::M0),
        MoveChoice::Move(PokemonMoveIndex::M1),
    ];
    let side_two_options = vec![MoveChoice::Move(PokemonMoveIndex::M2), MoveChoice::Nothing];
    let results = vec![
        MctsVisits {
            s1: vec![side(side_one_options[0], 2), side(side_one_options[1], 4)],
            s2: vec![side(side_two_options[0], 6), side(side_two_options[1], 8)],
            iteration_count: 10,
        },
        MctsVisits {
            s1: vec![side(side_one_options[0], 3), side(side_one_options[1], 5)],
            s2: vec![side(side_two_options[0], 7), side(side_two_options[1], 9)],
            iteration_count: 20,
        },
    ];

    let merged = merge_mcts_visits(&results, &side_one_options, &side_two_options);

    assert_eq!(merged.iteration_count, 30);
    assert_eq!(merged.s1[0].move_choice, MoveChoice::Move(PokemonMoveIndex::M0));
    assert_eq!(merged.s1[1].move_choice, MoveChoice::Move(PokemonMoveIndex::M1));
    assert_eq!(merged.s2[0].move_choice, MoveChoice::Move(PokemonMoveIndex::M2));
    assert_eq!(merged.s2[1].move_choice, MoveChoice::Nothing);
    assert_eq!(merged.s1[0].visits, 5);
    assert_eq!(merged.s1[1].visits, 9);
    assert_eq!(merged.s2[0].visits, 13);
    assert_eq!(merged.s2[1].visits, 17);
}

#[test]
fn merging_no_workers_gives_zero_visits() {
    let opts = vec![MoveChoice::Move(PokemonMoveIndex::M0)];
    let merged = merge_mcts_visits(&vec![], &opts, &opts);
    assert_eq!(merged.iteration_count, 0);
    assert_eq!(merged.s1, vec![side(opts[0], 0)]);
    assert_eq!(merged.s2, vec![side(opts[0], 0)]);
}

#[test]
fn every_row_falls_in_exactly_one_chunk() {
    for start in 0..3usize {
        for end in (start + 1)..12usize {
            for workers in 1..6usize {
                let ranges = root_chunk_ranges(start, end, workers);
                assert!(ranges.len() <= workers);
                for row in start..end {
                    let holders = ranges.iter().filter(|(s, e)| *s <= row && row < *e).count();
                    assert_eq!(holders, 1);
                }
            }
        }
    }
}

#[test]
fn rows_already_in_order_assemble_to_their_concatenation() {
    let rows = vec![(0usize, vec![1u8]), (1, vec![2, 3]), (2, vec![]), (3, vec![4])];
    assert_eq!(assemble_root_rows(&rows, 4), vec![1, 2, 3, 4]);
}

#[test]
fn distinct_move_pairs_get_distinct_slots() {
    let (s1_len, s2_len) = (4usize, 3usize);
    let mut seen = vec![false; shared_children_slot_count(s1_len, s2_len)];
    for a in 0..s1_len {
        for b in 0..s2_len {
            let slot = shared_children_slot(a, b, s2_len);
            assert!(!seen[slot]);
            seen[slot] = true;
        }
    }
    assert!(seen.iter().all(|s| *s));
}

#[test]
fn worker_count_setting_is_parsed_as_decimal() {
    assert_eq!(mcts_worker_count_from_setting(Some("4"), 8), 4);
    assert_eq!(mcts_worker_count_from_setting(Some("+5"), 8), 5);
    assert_eq!(mcts_worker_count_from_setting(Some("007"), 16), 7);
    assert_eq!(mcts_worker_count_from_setting(Some(""), 16), 8);
    assert_eq!(mcts_worker_count_from_setting(Some("-1"), 16), 8);
    assert_eq!(mcts_worker_count_from_setting(Some("+"), 16), 8);
    assert_eq!(mcts_worker_count_from_setting(Some("99999999999999999999999"), 6), 6);
}
