use audido::queue::{LoopMode, PlaybackQueue};

fn queue_of(n: usize) -> PlaybackQueue<String> {
    let mut queue: PlaybackQueue<String> = PlaybackQueue::new();
    let paths = (0..n).map(|i| format!("/music/{i}.mp3")).collect();
    queue.add(paths);
    queue
}

#[test]
fn adding_hands_out_increasing_ids() {
    let mut queue: PlaybackQueue<String> = PlaybackQueue::new();
    assert_eq!(queue.add(vec!["a".to_string(), "b".to_string()]), vec![0, 1]);
    assert_eq!(queue.add(vec!["c".to_string()]), vec![2]);
    assert_eq!(queue.items.len(), 3);
    assert_eq!(queue.items[2].path, "c");
    assert!(queue.items[2].metadata.is_none());
    assert_eq!(queue.next_id, 3);
}

#[test]
fn next_and_previous_follow_loop_mode() {
    let mut queue = queue_of(3);
    assert_eq!(queue.next_index(), None);
    queue.current_index = Some(2);
    assert_eq!(queue.next_index(), None);
    assert_eq!(queue.prev_index(), Some(1));
    queue.set_loop_mode(LoopMode::LoopAll);
    assert_eq!(queue.next_index(), Some(0));
    queue.current_index = Some(0);
    assert_eq!(queue.prev_index(), Some(2));
    queue.set_loop_mode(LoopMode::RepeatOne);
    assert_eq!(queue.next_index(), Some(0));
    assert_eq!(queue.prev_index(), Some(0));
    queue.set_loop_mode(LoopMode::Off);
    assert_eq!(queue.prev_index(), None);
}

#[test]
fn shuffle_walks_the_shuffle_order() {
    let mut queue = queue_of(4);
    queue.set_loop_mode(LoopMode::Shuffle);
    queue.shuffle_order = vec![2, 0, 3, 1];
    queue.current_index = Some(0);
    assert_eq!(queue.next_index(), Some(3));
    assert_eq!(queue.prev_index(), Some(2));
    queue.current_index = Some(1);
    assert_eq!(queue.next_index(), Some(2));
    queue.current_index = Some(9);
    assert_eq!(queue.next_index(), Some(2));
    assert_eq!(queue.prev_index(), Some(1));
}

#[test]
fn shuffle_order_is_a_permutation() {
    let mut queue = queue_of(10);
    let identity: Vec<usize> = (0..10).collect();
    let mut moved = false;
    for _ in 0..5 {
        queue.set_loop_mode(LoopMode::Shuffle);
        let mut order = queue.shuffle_order.clone();
        if order != identity {
            moved = true;
        }
        order.sort();
        assert_eq!(order, identity);
    }
    assert!(moved);
}

#[test]
fn removal_keeps_the_current_track() {
    let mut queue = queue_of(4);
    queue.current_index = Some(2);
    assert!(queue.remove(0));
    assert_eq!(queue.current_index, Some(1));
    assert_eq!(queue.current().map(|item| item.id), Some(2));
    assert!(!queue.remove(0));
    assert!(queue.remove(3));
    assert_eq!(queue.current_index, Some(1));
    assert!(queue.remove(2));
    assert_eq!(queue.current_index, Some(0));
    assert!(queue.remove(1));
    assert_eq!(queue.current_index, None);
    assert!(queue.items.is_empty());
}

#[test]
fn clearing_empties_everything() {
    let mut queue = queue_of(3);
    queue.set_loop_mode(LoopMode::Shuffle);
    queue.current_index = Some(1);
    queue.clear();
    assert!(queue.items.is_empty());
    assert!(queue.shuffle_order.is_empty());
    assert_eq!(queue.current_index, None);
}

#[test]
fn adding_after_a_clear_continues_the_numbering() {
    let mut queue = queue_of(3);
    queue.clear();
    let ids = queue.add(vec!["again.mp3".to_string(), "more.mp3".to_string()]);
    assert_eq!(ids, vec![3, 4]);
    assert_eq!(queue.items[0].id, 3);
}

#[test]
fn metadata_goes_to_the_item_with_the_id() {
    let mut queue = queue_of(3);
    queue.set_metadata(1, "second".to_string());
    assert_eq!(queue.get(1).and_then(|item| item.metadata.clone()), Some("second".to_string()));
    queue.set_metadata(7, "nobody".to_string());
    assert!(queue.get(0).unwrap().metadata.is_none());
    assert!(queue.get(3).is_none());
    queue.mark_loaded(2, "third".to_string());
    assert_eq!(queue.current_index, Some(2));
    assert_eq!(queue.current().and_then(|item| item.metadata.clone()), Some("third".to_string()));
    queue.mark_loaded(5, "gone".to_string());
    assert_eq!(queue.current_index, Some(5));
    assert!(queue.current().is_none());
}

#[test]
fn loop_modes_cycle() {
    assert_eq!(LoopMode::Off.next(), LoopMode::RepeatOne);
    assert_eq!(LoopMode::RepeatOne.next(), LoopMode::LoopAll);
    assert_eq!(LoopMode::LoopAll.next(), LoopMode::Shuffle);
    assert_eq!(LoopMode::Shuffle.next(), LoopMode::Off);
    assert_eq!(LoopMode::Shuffle.label(), "🔀 Shuffle");
    assert_eq!(LoopMode::Off.label(), "➡️ Off");
}

#[test]
fn stepping_back_undoes_stepping_forward_in_every_mode() {
    for mode in [LoopMode::Off, LoopMode::RepeatOne, LoopMode::LoopAll, LoopMode::Shuffle] {
        let mut queue = queue_of(4);
        queue.set_loop_mode(mode);
        for start in 0..4 {
            queue.current_index = Some(start);
            if let Some(next) = queue.next_index() {
                queue.current_index = Some(next);
                assert_eq!(queue.prev_index(), Some(start));
            }
            queue.current_index = Some(start);
            if let Some(prev) = queue.prev_index() {
                queue.current_index = Some(prev);
                assert_eq!(queue.next_index(), Some(start));
            }
        }
    }
}
