use message_board::board::MessageBoard;
use message_board::message::Message;
use message_board::pagination::{effective_offset, ListMessagesParams};
use std::sync::Arc;
use std::time::{Duration, SystemTime, UNIX_EPOCH};

fn numbered_board(count: usize) -> MessageBoard {
    let mut board = MessageBoard::new();
    for i in 0..count {
        board.append(format!("message {}", i));
    }
    board
}

fn texts_of(messages: &[Message]) -> Vec<String> {
    messages.iter().map(|m| m.message.clone()).collect()
}

#[test]
fn new_board_is_empty() {
    let board = MessageBoard::new();
    assert_eq!(board.len(), 0);
    assert!(board.read_from(0).is_empty());
    assert!(board.read_from(1).is_empty());
    assert!(board.read_from(usize::MAX).is_empty());
}

#[test]
fn default_board_is_empty() {
    let board = MessageBoard::default();
    assert_eq!(board.len(), 0);
    assert!(board.read_from(0).is_empty());
}

#[test]
fn default_params_start_at_zero() {
    assert_eq!(ListMessagesParams::default().first_message_id, 0);
}

#[test]
fn effective_offset_is_minimum() {
    assert_eq!(effective_offset(0, 0), 0);
    assert_eq!(effective_offset(0, 10), 0);
    assert_eq!(effective_offset(6, 10), 6);
    assert_eq!(effective_offset(9, 10), 9);
    assert_eq!(effective_offset(10, 10), 10);
    assert_eq!(effective_offset(11, 10), 10);
    assert_eq!(effective_offset(100, 2), 2);
    assert_eq!(effective_offset(5, 0), 0);
    assert_eq!(effective_offset(usize::MAX, 3), 3);
    assert_eq!(effective_offset(3, usize::MAX), 3);
    assert_eq!(effective_offset(usize::MAX, usize::MAX), usize::MAX);
}

#[test]
fn append_one_message() {
    let mut board = MessageBoard::new();
    let index = board.append("hi".to_string());
    assert_eq!(index, 0);
    let messages = board.read_from(0);
    assert_eq!(messages.len(), 1);
    assert_eq!(messages[0].message, "hi");
}

#[test]
fn append_stamps_with_clock() {
    let mut board = MessageBoard::new();
    board.append("hi".to_string());
    let stamped = board.read_from(0)[0].timestamp;
    let since_epoch = stamped.duration_since(UNIX_EPOCH).unwrap();
    assert!(since_epoch > Duration::from_secs(0));
}

#[test]
fn append_at_stores_timestamp_and_text() {
    let mut board = MessageBoard::new();
    let first = UNIX_EPOCH + Duration::new(1_700_000_000, 123_456_789);
    let second = UNIX_EPOCH + Duration::new(5, 0);
    assert_eq!(board.append_at(first, "one".to_string()), 0);
    assert_eq!(board.append_at(second, "two".to_string()), 1);
    assert_eq!(board.append_at(UNIX_EPOCH, String::new()), 2);
    let messages = board.read_from(0);
    assert_eq!(messages.len(), 3);
    assert_eq!(messages[0].timestamp, first);
    assert_eq!(messages[0].message, "one");
    assert_eq!(messages[1].timestamp, second);
    assert_eq!(messages[1].message, "two");
    assert_eq!(messages[2].timestamp, UNIX_EPOCH);
    assert_eq!(messages[2].message, "");
}

#[test]
fn read_from_start_returns_all_in_append_order() {
    for count in [0usize, 1, 2, 7, 50] {
        let board = numbered_board(count);
        let expected: Vec<String> = (0..count).map(|i| format!("message {}", i)).collect();
        assert_eq!(texts_of(board.read_from(0)), expected);
    }
}

#[test]
fn read_from_returns_tail() {
    let board = numbered_board(10);
    for k in 0..=10usize {
        let messages = board.read_from(k);
        assert_eq!(messages.len(), 10 - k);
        let expected: Vec<String> = (k..10).map(|i| format!("message {}", i)).collect();
        assert_eq!(texts_of(messages), expected);
    }
}

#[test]
fn read_from_six_of_ten() {
    let board = numbered_board(10);
    assert_eq!(
        texts_of(board.read_from(6)),
        vec!["message 6", "message 7", "message 8", "message 9"]
    );
}

#[test]
fn read_from_end_and_past_end_is_empty() {
    let board = numbered_board(10);
    assert!(board.read_from(10).is_empty());
    assert!(board.read_from(11).is_empty());
    assert!(board.read_from(1000).is_empty());
    assert!(board.read_from(usize::MAX).is_empty());
}

#[test]
fn append_grows_by_one_and_keeps_earlier_messages() {
    let mut board = MessageBoard::new();
    let mut stamps: Vec<SystemTime> = Vec::new();
    for i in 0..20usize {
        let before = board.len();
        let index = board.append(format!("message {}", i));
        assert_eq!(index, before);
        assert_eq!(board.len(), before + 1);
        let messages = board.read_from(0);
        stamps.push(messages[i].timestamp);
        for (j, message) in messages.iter().enumerate() {
            assert_eq!(message.message, format!("message {}", j));
            assert_eq!(message.timestamp, stamps[j]);
        }
    }
}

#[test]
fn read_after_append_sees_message() {
    let mut board = numbered_board(3);
    let before = texts_of(board.read_from(1));
    board.append("late".to_string());
    let after = texts_of(board.read_from(1));
    assert_eq!(after.len(), before.len() + 1);
    assert_eq!(after[..before.len()], before[..]);
    assert_eq!(after[before.len()], "late");
    assert_eq!(texts_of(board.read_from(3)), vec!["late"]);
}

#[test]
fn message_clone_keeps_fields() {
    let source = Message {
        timestamp: UNIX_EPOCH + Duration::new(42, 7),
        message: "copy me".to_string(),
    };
    let copy = source.clone();
    assert_eq!(copy.timestamp, source.timestamp);
    assert_eq!(copy.message, "copy me");
    assert_eq!(source.message, "copy me");
}

#[test]
fn concurrent_appends_take_distinct_gapless_indices() {
    let tasks = 8usize;
    let per_task = 50usize;
    let runtime = tokio::runtime::Builder::new_multi_thread()
        .worker_threads(4)
        .build()
        .unwrap();
    let state = Arc::new(tokio::sync::RwLock::new(MessageBoard::new()));
    let mut indices: Vec<(usize, String)> = runtime.block_on(async {
        let mut handles = Vec::new();
        for task in 0..tasks {
            let state = state.clone();
            handles.push(tokio::spawn(async move {
                let mut mine = Vec::new();
                for i in 0..per_task {
                    let text = format!("task {} message {}", task, i);
                    let index = state.write().await.append(text.clone());
                    mine.push((index, text));
                    tokio::task::yield_now().await;
                }
                mine
            }));
        }
        let mut all = Vec::new();
        for handle in handles {
            all.extend(handle.await.unwrap());
        }
        all
    });
    indices.sort();
    assert_eq!(indices.len(), tasks * per_task);
    let board = runtime.block_on(async { state.read().await.read_from(0).to_vec() });
    assert_eq!(board.len(), tasks * per_task);
    for (position, (index, text)) in indices.iter().enumerate() {
        assert_eq!(*index, position);
        assert_eq!(&board[position].message, text);
    }
    for task in 0..tasks {
        let of_task: Vec<&str> = board
            .iter()
            .map(|m| m.message.as_str())
            .filter(|t| t.starts_with(&format!("task {} ", task)))
            .collect();
        let expected: Vec<String> =
            (0..per_task).map(|i| format!("task {} message {}", task, i)).collect();
        assert_eq!(of_task, expected);
    }
}
