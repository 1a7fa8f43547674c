use std::cell::RefCell;

use jobpool::tracker::{quota_message, LimitTracker, Messenger};

struct MockMessenger {
    sent_messages: RefCell<Vec<String>>,
}

impl MockMessenger {
    fn new() -> MockMessenger {
        MockMessenger { sent_messages: RefCell::new(vec![]) }
    }
}

impl Messenger for MockMessenger {
    fn send(&self, message: &str) {
        let mut one_borrow = self.sent_messages.borrow_mut();

        one_borrow.push(String::from(message));
    }
}

#[test]
fn it_sends_an_over_75_percent_warning_message() {
    let mock_messenger = MockMessenger::new();
    let mut limit_tracker = LimitTracker::new(&mock_messenger, 100);

    limit_tracker.set_value(80);

    assert_eq!(mock_messenger.sent_messages.borrow().len(), 1);
}

#[test]
fn quota_messages_at_each_threshold() {
    assert_eq!(quota_message(0, 100), None);
    assert_eq!(quota_message(74, 100), None);
    assert_eq!(
        quota_message(75, 100),
        Some("Warning: You've used up over 75% of your quota!")
    );
    assert_eq!(
        quota_message(90, 100),
        Some("Urgent warning: You've used up over 90% of your quota!")
    );
    assert_eq!(quota_message(100, 100), Some("Error: You are over your quota!"));
    assert_eq!(quota_message(150, 100), Some("Error: You are over your quota!"));
}

#[test]
fn quota_with_zero_maximum() {
    assert_eq!(quota_message(0, 0), None);
    assert_eq!(quota_message(1, 0), Some("Error: You are over your quota!"));
}
