use moogan::Cowboard;
use moogan::ThresholdError;
use moogan::WebhookAction;

#[test]
fn new_record_is_well_formed() {
    let c = Cowboard::new(42);
    assert_eq!(c.guild, 42);
    assert_eq!(c.channel, None);
    assert_eq!(c.webhook_id, None);
    assert_eq!(c.webhook_token, None);
    assert_eq!(c.add_threshold, 1);
    assert_eq!(c.remove_threshold, 0);
}

#[test]
fn threshold_example_rejections_name_the_bound() {
    let mut c = Cowboard::new(1);
    assert_eq!(c.set_add_threshold(5), Ok(()));
    assert_eq!(c.set_remove_threshold(3), Ok(()));
    assert_eq!(c.add_threshold, 5);
    assert_eq!(c.remove_threshold, 3);

    let before = c.clone();
    assert_eq!(
        c.set_add_threshold(2),
        Err(ThresholdError::BelowRemoveThreshold(3))
    );
    assert_eq!(c, before);
    assert_eq!(
        c.set_remove_threshold(6),
        Err(ThresholdError::AboveAddThreshold(5))
    );
    assert_eq!(c, before);
}

#[test]
fn add_threshold_must_be_positive() {
    let mut c = Cowboard::new(1);
    assert_eq!(c.set_add_threshold(0), Err(ThresholdError::NotPositive));
    assert_eq!(c.set_add_threshold(-4), Err(ThresholdError::NotPositive));
    assert_eq!(c.add_threshold, 1);
}

#[test]
fn remove_threshold_must_not_be_negative() {
    let mut c = Cowboard::new(1);
    assert_eq!(c.set_remove_threshold(-1), Err(ThresholdError::Negative));
    assert_eq!(c.remove_threshold, 0);
}

#[test]
fn equal_thresholds_are_accepted() {
    let mut c = Cowboard::new(1);
    assert_eq!(c.set_add_threshold(3), Ok(()));
    assert_eq!(c.set_remove_threshold(3), Ok(()));
    assert_eq!(c.set_add_threshold(3), Ok(()));
    assert_eq!(c.add_threshold, 3);
    assert_eq!(c.remove_threshold, 3);
}

#[test]
fn set_channel_clears_webhook_pair() {
    let mut c = Cowboard::new(1);
    c.set_channel(100);
    c.enable_webhook(7, String::from("tok-a"));
    assert_eq!(c.webhook_id, Some(7));
    assert!(c.webhook_token.is_some());

    c.set_channel(200);
    assert_eq!(c.channel, Some(200));
    assert_eq!(c.webhook_id, None);
    assert_eq!(c.webhook_token, None);
}

#[test]
fn set_channel_keeps_other_settings() {
    let mut c = Cowboard::new(1);
    c.set_emote(String::from("moo"));
    assert_eq!(c.set_add_threshold(4), Ok(()));
    c.set_channel(55);
    assert_eq!(c.emote, "moo");
    assert_eq!(c.add_threshold, 4);
    assert_eq!(c.guild, 1);
}

#[test]
fn webhook_toggle_cycle_restores_record() {
    let mut c = Cowboard::new(1);
    assert_eq!(c.webhook_toggle_action(), WebhookAction::NeedsChannel);

    c.set_channel(100);
    let before = c.clone();
    assert_eq!(c.webhook_toggle_action(), WebhookAction::Create(100));

    c.enable_webhook(31, String::from("tok"));
    assert_eq!(c.webhook_id, Some(31));
    assert_eq!(c.webhook_token, Some(String::from("tok")));

    assert_eq!(c.webhook_toggle_action(), WebhookAction::Disable);
    c.disable_webhook();
    assert_eq!(c.webhook_id, None);
    assert_eq!(c.webhook_token, None);
    assert_eq!(c, before);
}

#[test]
fn webhook_enabled_needs_both_halves() {
    let mut c = Cowboard::new(1);
    assert!(!c.webhook_enabled());
    c.set_channel(9);
    c.enable_webhook(3, String::from("t"));
    assert!(c.webhook_enabled());
    c.disable_webhook();
    assert!(!c.webhook_enabled());
}

#[test]
fn set_emote_changes_only_the_emote() {
    let mut c = Cowboard::new(6);
    assert_eq!(c.set_add_threshold(2), Ok(()));
    c.set_emote(String::from("cow"));
    assert_eq!(c.emote, "cow");
    assert_eq!(c.guild, 6);
    assert_eq!(c.add_threshold, 2);
    assert_eq!(c.channel, None);
}

#[test]
fn channel_display_mentions_the_channel() {
    let mut c = Cowboard::new(1);
    assert_eq!(c.channel_display(), None);
    c.set_channel(42);
    assert_eq!(c.channel_display(), Some(String::from("<#42>")));
}
