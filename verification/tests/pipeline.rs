use newcrc::pipeline::{ResultSlots, SlotError};

#[test]
fn new_slots_are_empty() {
    let slots: ResultSlots<u32> = ResultSlots::new(4);
    assert_eq!(slots.len(), 4);
    for i in 0..6 {
        assert!(!slots.is_filled(i));
    }
    assert_eq!(slots.first_missing(), Some(0));
    assert_eq!(slots.into_ordered(), Err(0));
}

#[test]
fn no_tasks_no_results() {
    let slots: ResultSlots<String> = ResultSlots::new(0);
    assert_eq!(slots.len(), 0);
    assert_eq!(slots.first_missing(), None);
    assert_eq!(slots.into_ordered(), Ok(Vec::new()));
}

#[test]
fn results_come_out_in_task_order_whatever_the_completion_order() {
    let inputs = ["a", "b", "c", "d", "e", "f", "g"];
    let orders: [[usize; 7]; 5] = [
        [0, 1, 2, 3, 4, 5, 6],
        [6, 5, 4, 3, 2, 1, 0],
        [3, 0, 6, 1, 5, 2, 4],
        [1, 3, 5, 0, 2, 4, 6],
        [4, 6, 0, 5, 1, 3, 2],
    ];
    for order in orders {
        let mut slots = ResultSlots::new(inputs.len());
        for index in order {
            assert_eq!(slots.place(index, format!("result of {}", inputs[index])), Ok(()));
            assert!(slots.is_filled(index));
        }
        let expected: Vec<String> = inputs.iter().map(|name| format!("result of {}", name)).collect();
        assert_eq!(slots.into_ordered(), Ok(expected));
    }
}

#[test]
fn shuffled_completion_keeps_the_order() {
    let n = 1000usize;
    let mut order: Vec<usize> = (0..n).collect();
    let mut x: u64 = 0x9e37_79b9_7f4a_7c15;
    for i in (1..n).rev() {
        x ^= x << 13;
        x ^= x >> 7;
        x ^= x << 17;
        order.swap(i, (x % (i as u64 + 1)) as usize);
    }
    let mut slots = ResultSlots::new(n);
    for index in order {
        assert_eq!(slots.place(index, index * 3 + 1), Ok(()));
    }
    let expected: Vec<usize> = (0..n).map(|i| i * 3 + 1).collect();
    assert_eq!(slots.into_ordered(), Ok(expected));
}

#[test]
fn a_task_gets_one_result_only() {
    let mut slots = ResultSlots::new(2);
    assert_eq!(slots.place(1, 10), Ok(()));
    assert_eq!(slots.place(1, 20), Err(SlotError::AlreadyFilled));
    assert_eq!(slots.place(0, 5), Ok(()));
    assert_eq!(slots.into_ordered(), Ok(vec![5, 10]));
}

#[test]
fn there_is_no_slot_outside_the_range() {
    let mut slots = ResultSlots::new(2);
    assert_eq!(slots.place(2, 1), Err(SlotError::OutOfRange));
    assert_eq!(slots.place(usize::MAX, 1), Err(SlotError::OutOfRange));
    assert_eq!(slots.len(), 2);
    assert_eq!(slots.first_missing(), Some(0));
    let mut none: ResultSlots<u8> = ResultSlots::new(0);
    assert_eq!(none.place(0, 1), Err(SlotError::OutOfRange));
}

#[test]
fn a_missing_result_is_named() {
    let mut slots = ResultSlots::new(4);
    assert_eq!(slots.place(0, 'a'), Ok(()));
    assert_eq!(slots.place(3, 'd'), Ok(()));
    assert_eq!(slots.first_missing(), Some(1));
    assert_eq!(slots.place(1, 'b'), Ok(()));
    assert_eq!(slots.first_missing(), Some(2));
    assert_eq!(slots.into_ordered(), Err(2));
}
