//! Per-guild cowboard configuration: the trigger emote, the target channel,
//! the add/remove reaction thresholds, and the optional webhook credential
//! pair. Every mutation keeps the record well formed.

use vstd::prelude::*;

verus! {

/// One guild's cowboard settings. The record is well formed when the
/// thresholds are ordered (`0 <= remove_threshold <= add_threshold`), the
/// webhook id and token are either both present or both absent, and a webhook
/// can only exist while a cowboard channel is selected.
#[derive(Debug, Clone, PartialEq, Eq)]
pub struct Cowboard {
    /// The guild this record belongs to.
    pub guild: u64,
    /// The emote whose reactions trigger the cowboard.
    pub emote: String,
    /// The channel messages are reposted to, if one was selected.
    pub channel: Option<u64>,
    /// Reactions needed before a message is posted to the cowboard.
    pub add_threshold: i32,
    /// Reaction count at or below which a posted message is removed.
    pub remove_threshold: i32,
    /// Webhook id, when webhook posting is enabled.
    pub webhook_id: Option<u64>,
    /// Webhook token, when webhook posting is enabled.
    pub webhook_token: Option<String>,
}

/// Why a threshold update was rejected. A rejection that depends on the other
/// threshold carries that threshold's current value, so the reply can name it.
#[derive(Debug, Clone, PartialEq, Eq)]
pub enum ThresholdError {
    /// The add threshold must be strictly positive.
    NotPositive,
    /// The remove threshold must be zero or positive.
    Negative,
    /// The requested add threshold is below the current remove threshold
    /// (carried here).
    BelowRemoveThreshold(i32),
    /// The requested remove threshold is above the current add threshold
    /// (carried here).
    AboveAddThreshold(i32),
}

impl Cowboard {
    /// The record's invariant: ordered thresholds and a consistent webhook
    /// credential pair, which exists only while a channel is selected.
    pub open spec fn wf(self) -> bool {
        &&& 0 <= self.remove_threshold <= self.add_threshold
        &&& (self.webhook_id is Some <==> self.webhook_token is Some)
        &&& (self.webhook_id is Some ==> self.channel is Some)
    }

    /// Run-time check of the invariant, for callers that load a record from
    /// storage outside any proof.
    pub fn is_well_formed(&self) -> (b: bool)
        ensures
            b == self.wf(),
    {
        0 <= self.remove_threshold && self.remove_threshold <= self.add_threshold
            && (self.webhook_id.is_some() == self.webhook_token.is_some())
            && (!self.webhook_id.is_some() || self.channel.is_some())
    }

    /// A fresh record for a guild: no channel, no webhook, and the loosest
    /// ordered thresholds.
    pub fn new(guild: u64) -> (c: Cowboard)
        ensures
            c.wf(),
            c.guild == guild,
            c.channel is None,
            c.webhook_id is None,
            c.webhook_token is None,
            c.add_threshold == 1,
            c.remove_threshold == 0,
    {
        Cowboard {
            guild,
            emote: String::new(),
            channel: None,
            add_threshold: 1,
            remove_threshold: 0,
            webhook_id: None,
            webhook_token: None,
        }
    }

    /// Replace the trigger emote, leaving everything else as it was.
    pub fn set_emote(&mut self, emote: String)
        requires
            old(self).wf(),
        ensures
            final(self).wf(),
            *final(self) == (Cowboard { emote: emote, ..*old(self) }),
    {
        self.emote = emote;
    }

    /// What a requested add threshold does to the record: a non-positive value
    /// is rejected, a value under the current remove threshold is rejected
    /// naming that threshold, and any other value replaces the add threshold.
    pub open spec fn add_threshold_outcome(self, value: i32) -> (Cowboard, Result<(), ThresholdError>) {
        if value <= 0 {
            (self, Err(ThresholdError::NotPositive))
        } else if value < self.remove_threshold {
            (self, Err(ThresholdError::BelowRemoveThreshold(self.remove_threshold)))
        } else {
            (Cowboard { add_threshold: value, ..self }, Ok(()))
        }
    }

    /// Set the minimum reaction count for posting a message, enforcing that it
    /// stays at or above the remove threshold.
    pub fn set_add_threshold(&mut self, value: i32) -> (r: Result<(), ThresholdError>)
        requires
            old(self).wf(),
        ensures
            final(self).wf(),
            *final(self) == old(self).add_threshold_outcome(value).0,
            r == old(self).add_threshold_outcome(value).1,
            r is Ok <==> value > 0 && value >= old(self).remove_threshold,
            r is Err ==> *final(self) == *old(self),
    {
        if value <= 0 {
            Err(ThresholdError::NotPositive)
        } else if value < self.remove_threshold {
            Err(ThresholdError::BelowRemoveThreshold(self.remove_threshold))
        } else {
            self.add_threshold = value;
            Ok(())
        }
    }

    /// What a requested remove threshold does to the record: a negative value
    /// is rejected, a value over the current add threshold is rejected naming
    /// that threshold, and any other value replaces the remove threshold.
    pub open spec fn remove_threshold_outcome(self, value: i32) -> (Cowboard, Result<(), ThresholdError>) {
        if value < 0 {
            (self, Err(ThresholdError::Negative))
        } else if value > self.add_threshold {
            (self, Err(ThresholdError::AboveAddThreshold(self.add_threshold)))
        } else {
            (Cowboard { remove_threshold: value, ..self }, Ok(()))
        }
    }

    /// Set the reaction count at which a posted message is taken down,
    /// enforcing that it stays at or below the add threshold.
    pub fn set_remove_threshold(&mut self, value: i32) -> (r: Result<(), ThresholdError>)
        requires
            old(self).wf(),
        ensures
            final(self).wf(),
            *final(self) == old(self).remove_threshold_outcome(value).0,
            r == old(self).remove_threshold_outcome(value).1,
            r is Ok <==> 0 <= value <= old(self).add_threshold,
            r is Err ==> *final(self) == *old(self),
    {
        if value < 0 {
            Err(ThresholdError::Negative)
        } else if value > self.add_threshold {
            Err(ThresholdError::AboveAddThreshold(self.add_threshold))
        } else {
            self.remove_threshold = value;
            Ok(())
        }
    }

    /// The record after a channel change: the new channel is selected and any
    /// webhook credential pair is dropped, since it was created for the old
    /// channel.
    pub open spec fn with_channel(self, channel_id: u64) -> Cowboard {
        Cowboard {
            channel: Some(channel_id),
            webhook_id: None,
            webhook_token: None,
            ..self
        }
    }

    /// Select the cowboard channel. Any existing webhook id/token pair is
    /// cleared: it belonged to the previously selected channel.
    pub fn set_channel(&mut self, channel_id: u64)
        requires
            old(self).wf(),
        ensures
            final(self).wf(),
            *final(self) == old(self).with_channel(channel_id),
            final(self).channel == Some(channel_id),
            final(self).webhook_id is None,
            final(self).webhook_token is None,
    {
        self.channel = Some(channel_id);
        self.webhook_id = None;
        self.webhook_token = None;
    }

    /// Whether webhook posting is enabled: both credential halves are present.
    pub fn webhook_enabled(&self) -> (b: bool)
        ensures
            b == (self.webhook_id is Some && self.webhook_token is Some),
    {
        self.webhook_id.is_some() && self.webhook_token.is_some()
    }

    /// The `<#id>` mention of the selected cowboard channel, for the settings
    /// summary; nothing when no channel is selected.
    pub fn channel_display(&self) -> (r: Option<String>)
        ensures
            self.channel is None ==> r is None,
            self.channel is Some ==> r is Some
                && r.unwrap()@ == crate::text::channel_mention_text(self.channel.unwrap() as nat),
    {
        match self.channel {
            None => None,
            Some(channel_id) => Some(crate::text::channel_mention(channel_id)),
        }
    }

    /// What toggling webhook mode must do next, as a function of the record
    /// alone: with no channel selected nothing can be toggled; with a channel
    /// and no webhook, one must be created on that channel; with a webhook
    /// present, it must be dropped.
    pub open spec fn toggle_webhook_action(self) -> WebhookAction {
        match self.channel {
            None => WebhookAction::NeedsChannel,
            Some(channel_id) => if self.webhook_id is None {
                WebhookAction::Create(channel_id)
            } else {
                WebhookAction::Disable
            },
        }
    }

    /// Decide the next step of a webhook toggle. The caller performs the
    /// returned action (creating a webhook is an outside call) and then
    /// records its result with [`Self::enable_webhook`] or
    /// [`Self::disable_webhook`].
    pub fn webhook_toggle_action(&self) -> (a: WebhookAction)
        ensures
            a == self.toggle_webhook_action(),
    {
        match self.channel {
            None => WebhookAction::NeedsChannel,
            Some(channel_id) => if self.webhook_id.is_none() {
                WebhookAction::Create(channel_id)
            } else {
                WebhookAction::Disable
            },
        }
    }

    /// The record with a webhook credential pair installed.
    pub open spec fn with_webhook(self, id: u64, token: String) -> Cowboard {
        Cowboard { webhook_id: Some(id), webhook_token: Some(token), ..self }
    }

    /// Store the credential pair of a freshly created webhook. Both halves are
    /// persisted together; a channel must be selected, as the webhook was
    /// created on it.
    pub fn enable_webhook(&mut self, id: u64, token: String)
        requires
            old(self).wf(),
            old(self).channel is Some,
        ensures
            final(self).wf(),
            *final(self) == old(self).with_webhook(id, token),
            final(self).webhook_id == Some(id),
            final(self).webhook_token == Some(token),
    {
        self.webhook_id = Some(id);
        self.webhook_token = Some(token);
    }

    /// The record with no webhook credential pair.
    pub open spec fn without_webhook(self) -> Cowboard {
        Cowboard { webhook_id: None, webhook_token: None, ..self }
    }

    /// Drop the webhook credential pair; both halves are cleared together.
    pub fn disable_webhook(&mut self)
        requires
            old(self).wf(),
        ensures
            final(self).wf(),
            *final(self) == old(self).without_webhook(),
            final(self).webhook_id is None,
            final(self).webhook_token is None,
    {
        self.webhook_id = None;
        self.webhook_token = None;
    }
}

/// The next step of a webhook toggle, decided by
/// [`Cowboard::webhook_toggle_action`].
#[derive(Debug, Clone, PartialEq, Eq)]
pub enum WebhookAction {
    /// No cowboard channel is selected, so there is nothing to toggle.
    NeedsChannel,
    /// No webhook exists: create one on the selected channel carried here.
    Create(u64),
    /// A webhook exists: drop its credential pair.
    Disable,
}

/// Every configuration mutation preserves the record's invariant: threshold
/// updates (accepted or rejected), emote and channel changes, and both webhook
/// transitions keep the record well formed.
pub proof fn lemma_mutations_preserve_wf(c: Cowboard, v: i32, ch: u64, id: u64, token: String)
    requires
        c.wf(),
    ensures
        c.add_threshold_outcome(v).0.wf(),
        c.remove_threshold_outcome(v).0.wf(),
        c.with_channel(ch).wf(),
        c.channel is Some ==> c.with_webhook(id, token).wf(),
        c.without_webhook().wf(),
{
}

/// The threshold ordering is enforced on both sides: a requested add
/// threshold below the current remove threshold is rejected and changes
/// nothing, and a requested remove threshold above the current add threshold
/// is rejected and changes nothing. Each rejection carries the threshold it
/// was checked against.
pub proof fn lemma_threshold_ordering_enforced(c: Cowboard, v: i32)
    requires
        c.wf(),
    ensures
        v < c.remove_threshold ==> c.add_threshold_outcome(v).1 is Err
            && c.add_threshold_outcome(v).0 == c,
        v > 0 && v < c.remove_threshold ==> c.add_threshold_outcome(v).1
            == Err::<(), ThresholdError>(ThresholdError::BelowRemoveThreshold(c.remove_threshold)),
        v > c.add_threshold ==> c.remove_threshold_outcome(v).1 is Err
            && c.remove_threshold_outcome(v).0 == c,
        v >= 0 && v > c.add_threshold ==> c.remove_threshold_outcome(v).1
            == Err::<(), ThresholdError>(ThresholdError::AboveAddThreshold(c.add_threshold)),
{
}

/// Selecting a cowboard channel clears any existing webhook id/token pair and
/// leaves every other setting as it was.
pub proof fn lemma_set_channel_clears_webhook(c: Cowboard, ch: u64)
    ensures
        c.with_channel(ch).channel == Some(ch),
        c.with_channel(ch).webhook_id is None,
        c.with_channel(ch).webhook_token is None,
        c.with_channel(ch).emote == c.emote,
        c.with_channel(ch).add_threshold == c.add_threshold,
        c.with_channel(ch).remove_threshold == c.remove_threshold,
        c.with_channel(ch).guild == c.guild,
{
}

/// Toggling webhook mode when none exists decides to create one, and the
/// created id/token pair is then persisted together; toggling again decides to
/// disable, and clearing the pair restores the record exactly as it was.
pub proof fn lemma_webhook_toggle_round_trip(c: Cowboard, id: u64, token: String)
    requires
        c.wf(),
        c.channel is Some,
        c.webhook_id is None,
    ensures
        c.toggle_webhook_action() == WebhookAction::Create(c.channel.unwrap()),
        c.with_webhook(id, token).webhook_id == Some(id),
        c.with_webhook(id, token).webhook_token == Some(token),
        c.with_webhook(id, token).wf(),
        c.with_webhook(id, token).toggle_webhook_action() == WebhookAction::Disable,
        c.with_webhook(id, token).without_webhook() == c,
{
}

} // verus!
