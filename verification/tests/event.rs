use user_points::event::Event;

#[test]
fn created_message() {
    assert_eq!(Event::Created { id: 1 }.message(), "created user 1 with 1000 points");
    assert_eq!(Event::Created { id: 2 }.message(), "created user 2 with 1000 points");
}

#[test]
fn transferred_message() {
    let event = Event::Transferred { amount: 300, from: 1, to: 2 };
    assert_eq!(event.message(), "transferred 300 from 1 to 2");
}

#[test]
fn closed_message() {
    assert_eq!(Event::Closed { id: 1 }.message(), "account closed for user 1");
}

#[test]
fn message_writes_zero_as_one_digit() {
    assert_eq!(Event::Closed { id: 0 }.message(), "account closed for user 0");
    assert_eq!(Event::Created { id: 0 }.message(), "created user 0 with 1000 points");
}

#[test]
fn message_keeps_inner_and_trailing_zeros() {
    assert_eq!(Event::Closed { id: 10 }.message(), "account closed for user 10");
    assert_eq!(Event::Closed { id: 1005 }.message(), "account closed for user 1005");
    assert_eq!(Event::Closed { id: 4_000_000_000 }.message(), "account closed for user 4000000000");
}

#[test]
fn message_writes_the_largest_numbers() {
    let event = Event::Transferred { amount: u16::MAX, from: u32::MAX, to: u32::MAX - 1 };
    assert_eq!(event.message(), "transferred 65535 from 4294967295 to 4294967294");
}

#[test]
fn message_agrees_with_std_formatting() {
    for id in [0u32, 9, 10, 11, 99, 100, 101, 12345, 999_999_999, 1_000_000_000, u32::MAX] {
        assert_eq!(Event::Closed { id }.message(), format!("account closed for user {}", id));
    }
}

#[test]
fn events_compare_by_their_fields() {
    assert_eq!(Event::Created { id: 3 }, Event::Created { id: 3 });
    assert_ne!(Event::Created { id: 3 }, Event::Created { id: 4 });
    assert_ne!(Event::Created { id: 3 }, Event::Closed { id: 3 });
}
