use peoplebot::guard::{
    attachment_byte_limit, format_bytes, guard_actions, sent_by_caption, too_large_message,
    GuardAction, PremiumTier,
};

#[test]
fn format_bytes_zero_and_plain_bytes() {
    assert_eq!(format_bytes(0), "0 B");
    assert_eq!(format_bytes(1), "1 B");
    assert_eq!(format_bytes(999), "999 B");
}

#[test]
fn format_bytes_scaled_units() {
    assert_eq!(format_bytes(1_000), "1 KB");
    assert_eq!(format_bytes(1_500), "1.5 KB");
    assert_eq!(format_bytes(1_234_567), "1.23 MB");
    assert_eq!(format_bytes(1_005_000), "1.01 MB");
    assert_eq!(format_bytes(1_000_000), "1 MB");
    assert_eq!(format_bytes(2_000_000), "2 MB");
    assert_eq!(format_bytes(10_000_000), "10 MB");
    assert_eq!(format_bytes(3_050_000_000), "3.05 GB");
    assert_eq!(format_bytes(7_000_000_000_000), "7 TB");
    assert_eq!(format_bytes(1_000_000_000_000_000_000), "1000 PB");
}

#[test]
fn format_bytes_rounds_half_up() {
    assert_eq!(format_bytes(999_999), "1000 KB");
    assert_eq!(format_bytes(1_995), "2 KB");
    assert_eq!(format_bytes(1_994), "1.99 KB");
}

#[test]
fn format_bytes_largest_value() {
    assert_eq!(format_bytes(u64::MAX), "18446.74 PB");
}

#[test]
fn byte_limit_by_tier() {
    assert_eq!(attachment_byte_limit(None), 10_000_000);
    assert_eq!(attachment_byte_limit(Some(PremiumTier::Tier0)), 10_000_000);
    assert_eq!(attachment_byte_limit(Some(PremiumTier::Tier1)), 10_000_000);
    assert_eq!(attachment_byte_limit(Some(PremiumTier::Tier2)), 50_000_000);
    assert_eq!(attachment_byte_limit(Some(PremiumTier::Tier3)), 100_000_000);
    assert_eq!(attachment_byte_limit(Some(PremiumTier::Other)), 10_000_000);
}

#[test]
fn over_limit_file_is_deleted_and_reported() {
    let plan = guard_actions(Some(2_000_000), 1_000_000);
    assert_eq!(
        plan,
        vec![
            GuardAction::Delete,
            GuardAction::RejectTooLarge { limit: 1_000_000, size: 2_000_000 }
        ]
    );
    let msg = too_large_message("https://example.com/v", 1_000_000, 2_000_000);
    assert_eq!(
        msg,
        "File for [[link]](<https://example.com/v>) too large to embed, server limit is 1 MB, file size is 2 MB, sent link instead"
    );
}

#[test]
fn within_limit_file_is_delivered_then_deleted() {
    assert_eq!(
        guard_actions(Some(1_000_000), 1_000_000),
        vec![GuardAction::Deliver, GuardAction::Delete]
    );
    assert_eq!(guard_actions(Some(0), 0), vec![GuardAction::Deliver, GuardAction::Delete]);
}

#[test]
fn unreadable_size_still_deletes() {
    assert_eq!(
        guard_actions(None, 10),
        vec![GuardAction::Delete, GuardAction::RejectUnreadable]
    );
}

#[test]
fn every_plan_deletes_once() {
    for (size, limit) in [(Some(5u64), 4u64), (Some(4), 4), (None, 4), (Some(u64::MAX), 0)] {
        let plan = guard_actions(size, limit);
        assert_eq!(plan.iter().filter(|a| **a == GuardAction::Delete).count(), 1);
    }
}

#[test]
fn captions() {
    assert_eq!(
        sent_by_caption("anon", "https://a.b/c", false),
        "-# sent by: anon - [[link]](<https://a.b/c>)"
    );
    assert_eq!(
        sent_by_caption("<@1>", "https://a.b/c", true),
        "-# sent by: <@1> - [[link]](https://a.b/c)"
    );
}
