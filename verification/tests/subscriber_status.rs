use email_newsletter::domain::subscriber_status::SubscriberStatus;

#[test]
fn status_round_trips_through_its_text() {
    for status in [
        SubscriberStatus::Pending,
        SubscriberStatus::Confirmed,
        SubscriberStatus::Unsubscribed,
    ] {
        let text = status.as_str().to_string();
        assert_eq!(SubscriberStatus::parse(text), Ok(status));
    }
}

#[test]
fn status_texts_are_canonical() {
    assert_eq!(SubscriberStatus::Pending.as_str(), "pending_confirmation");
    assert_eq!(SubscriberStatus::Confirmed.as_str(), "confirmed");
    assert_eq!(SubscriberStatus::Unsubscribed.as_str(), "unsubscribed");
    assert_eq!(SubscriberStatus::Pending.as_ref(), "pending_confirmation");
    assert_eq!(SubscriberStatus::Confirmed.as_ref(), "confirmed");
    assert_eq!(SubscriberStatus::Unsubscribed.as_ref(), "unsubscribed");
}

#[test]
fn status_parse_reads_each_text() {
    assert_eq!(
        SubscriberStatus::parse("pending_confirmation".to_string()),
        Ok(SubscriberStatus::Pending)
    );
    assert_eq!(SubscriberStatus::parse("confirmed".to_string()), Ok(SubscriberStatus::Confirmed));
    assert_eq!(
        SubscriberStatus::parse("unsubscribed".to_string()),
        Ok(SubscriberStatus::Unsubscribed)
    );
}

#[test]
fn status_parse_rejects_other_texts() {
    assert_eq!(
        SubscriberStatus::parse("pending".to_string()),
        Err("pending is not a valid subscriber status".to_string())
    );
    assert_eq!(
        SubscriberStatus::parse("Confirmed".to_string()),
        Err("Confirmed is not a valid subscriber status".to_string())
    );
    assert_eq!(
        SubscriberStatus::parse("".to_string()),
        Err(" is not a valid subscriber status".to_string())
    );
    assert!(SubscriberStatus::parse("confirmed ".to_string()).is_err());
}

#[test]
fn status_predicates_tell_the_variants_apart() {
    assert!(SubscriberStatus::Pending.is_pending());
    assert!(!SubscriberStatus::Pending.is_confirmed());
    assert!(!SubscriberStatus::Pending.is_unsubscribed());
    assert!(SubscriberStatus::Confirmed.is_confirmed());
    assert!(!SubscriberStatus::Confirmed.is_pending());
    assert!(!SubscriberStatus::Confirmed.is_unsubscribed());
    assert!(SubscriberStatus::Unsubscribed.is_unsubscribed());
    assert!(!SubscriberStatus::Unsubscribed.is_pending());
    assert!(!SubscriberStatus::Unsubscribed.is_confirmed());
}
