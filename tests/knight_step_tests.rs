use chess::board::get_index_based_on_pos;
use chess::ruleengine::ruleset_knight::{one_plus_two, two_plus_one};

#[test]
fn test_two_plus_one() {

    // UP 2
    let index = get_index_based_on_pos(('b', 1)) as i32;
    assert_ne!(two_plus_one(index, true, false), -1);

    let index = get_index_based_on_pos(('a', 3)) as i32;
    assert_ne!(two_plus_one(index, true, false), -1);

    let index = get_index_based_on_pos(('b', 1)) as i32;
    assert_ne!(two_plus_one(index, true, true), -1);

    let index = get_index_based_on_pos(('a', 3)) as i32;
    assert_eq!(two_plus_one(index, true, true), -1);

    let index = get_index_based_on_pos(('g', 1)) as i32;
    assert_ne!(two_plus_one(index, true, false), -1);

    let index = get_index_based_on_pos(('h', 3)) as i32;
    assert_eq!(two_plus_one(index, true, false), -1);

    // DOWN 2

    let index = get_index_based_on_pos(('b', 1)) as i32;
    assert_eq!(two_plus_one(index, false, false), -1);

    let index = get_index_based_on_pos(('b', 1)) as i32;
    assert_eq!(two_plus_one(index, false, false), -1);

    let index = get_index_based_on_pos(('b', 8)) as i32;
    assert_ne!(two_plus_one(index, false, false), -1);

    let index = get_index_based_on_pos(('b', 8)) as i32;
    assert_ne!(two_plus_one(index, false, true), -1);

    let index = get_index_based_on_pos(('b', 8)) as i32;
    assert_eq!(two_plus_one(index, true, false), -1);

    let index = get_index_based_on_pos(('b', 8)) as i32;
    assert_eq!(two_plus_one(index, true, true), -1);


    let index = get_index_based_on_pos(('c', 3)) as i32;
    assert_ne!(one_plus_two(index, true, false), -1);


    let index = get_index_based_on_pos(('a', 2)) as i32;
    assert_eq!(one_plus_two(index, true, true), -1);

}
