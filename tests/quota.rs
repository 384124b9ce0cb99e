use std::cell::RefCell;
use worker_pool::quota::{check_usage, Alert, LimitTracker, Messenger};

struct MockMessenger {
    sent_messages: RefCell<Vec<String>>,
}

impl MockMessenger {
    fn new() -> MockMessenger {
        MockMessenger {
            sent_messages: RefCell::new(vec![]),
        }
    }
}

impl Messenger for MockMessenger {
    fn send(&self, message: &str) {
        self.sent_messages.borrow_mut().push(String::from(message));
    }
}

#[test]
fn it_sends_an_over_75_percent_warning_message() {
    let mock_messenger = MockMessenger::new();
    let mut limit_tracker = LimitTracker::new(&mock_messenger, 100);

    limit_tracker.set_value(80);
    assert_eq!(mock_messenger.sent_messages.borrow_mut().len(), 1);
}

#[test]
fn tracker_sends_the_right_texts() {
    let m = MockMessenger::new();
    let mut t = LimitTracker::new(&m, 100);
    t.set_value(10);
    t.set_value(75);
    t.set_value(90);
    t.set_value(100);
    let sent = m.sent_messages.borrow();
    assert_eq!(
        *sent,
        vec![
            String::from("Warning: You've used up over 75% of your quota!"),
            String::from("Urgent warning: You've used up over 90% of your quota!"),
            String::from("Error: You are over your quota!"),
        ]
    );
}

#[test]
fn usage_levels_at_their_edges() {
    assert_eq!(check_usage(74, 100), None);
    assert_eq!(check_usage(75, 100), Some(Alert::Warning));
    assert_eq!(check_usage(89, 100), Some(Alert::Warning));
    assert_eq!(check_usage(90, 100), Some(Alert::Urgent));
    assert_eq!(check_usage(99, 100), Some(Alert::Urgent));
    assert_eq!(check_usage(100, 100), Some(Alert::OverQuota));
    assert_eq!(check_usage(usize::MAX, usize::MAX), Some(Alert::OverQuota));
    assert_eq!(check_usage(1, 0), Some(Alert::OverQuota));
    assert_eq!(check_usage(0, 0), None);
}
