//! Decisions of the music playback commands. Each command alternates outside
//! work (gateway joins, track search, playback) with a decision; the decisions
//! live here as verified functions from plain values to the next step, and
//! the surrounding program performs the steps they name.

use vstd::prelude::*;

verus! {

/// The first step of a join: ask the caller to enter a voice channel, or
/// connect to the one they are in.
#[derive(Debug, Clone, PartialEq, Eq)]
pub enum JoinDecision {
    /// The caller is in no voice channel, so there is nothing to join: reply
    /// "join a voice channel first" and create no session.
    JoinVoiceFirst,
    /// Connect to the carried voice channel.
    Connect(u64),
}

/// Where a join must go, as a function of the caller's voice channel alone.
pub open spec fn join_decision_of(voice_channel: Option<u64>) -> JoinDecision {
    match voice_channel {
        None => JoinDecision::JoinVoiceFirst,
        Some(channel_id) => JoinDecision::Connect(channel_id),
    }
}

/// Decide a join from the voice channel the caller currently sits in, if any.
pub fn join_decision(voice_channel: Option<u64>) -> (d: JoinDecision)
    ensures
        d == join_decision_of(voice_channel),
{
    match voice_channel {
        None => JoinDecision::JoinVoiceFirst,
        Some(channel_id) => JoinDecision::Connect(channel_id),
    }
}

/// Joining with no voice channel selected never connects anywhere: the
/// decision is to ask the caller to join a voice channel first, and it is not
/// a connect to any channel, so no session is created from it.
pub proof fn lemma_join_needs_voice_channel()
    ensures
        join_decision_of(None) == JoinDecision::JoinVoiceFirst,
        forall|channel_id: u64|
            join_decision_of(None) != JoinDecision::Connect(channel_id),
{
}

/// What happens once a connect was attempted.
#[derive(Debug, Clone, PartialEq, Eq)]
pub enum JoinOutcome {
    /// The gateway connected: start an audio session and announce the carried
    /// channel.
    StartSession(u64),
    /// The gateway refused the connection: report the failure.
    ConnectFailed,
}

/// Settle a join attempt: an audio session is started exactly when the
/// gateway connected.
pub fn join_outcome(connected: bool, channel_id: u64) -> (r: JoinOutcome)
    ensures
        connected ==> r == JoinOutcome::StartSession(channel_id),
        !connected ==> r == JoinOutcome::ConnectFailed,
{
    if connected {
        JoinOutcome::StartSession(channel_id)
    } else {
        JoinOutcome::ConnectFailed
    }
}

/// What a leave command must do.
#[derive(Debug, Clone, PartialEq, Eq)]
pub enum LeaveDecision {
    /// A voice handler exists: disconnect it and destroy the audio session.
    Disconnect,
    /// There is nothing to leave: reply that the bot is not in a voice
    /// channel.
    NotInVoice,
}

/// Decide a leave from whether a voice handler exists for the guild.
pub fn leave_decision(connected: bool) -> (d: LeaveDecision)
    ensures
        connected ==> d == LeaveDecision::Disconnect,
        !connected ==> d == LeaveDecision::NotInVoice,
{
    if connected {
        LeaveDecision::Disconnect
    } else {
        LeaveDecision::NotInVoice
    }
}

/// The next step of a play command, decided before any track is searched.
#[derive(Debug, Clone, PartialEq, Eq)]
pub enum PlayRoute {
    /// The query was empty: ask for a query or link.
    AskForQuery,
    /// The invoking channel's guild could not be resolved: report it.
    UnknownChannel,
    /// Not yet in a voice channel: join first, then search and queue.
    JoinThenPlay,
    /// Already connected: search and queue directly.
    PlayNow,
}

/// Route a play command from what is known before any outside call: whether a
/// query was given, whether the invoking channel's guild is known, and
/// whether a voice connection already exists.
pub open spec fn play_route_of(has_query: bool, guild_known: bool, connected: bool) -> PlayRoute {
    if !has_query {
        PlayRoute::AskForQuery
    } else if !guild_known {
        PlayRoute::UnknownChannel
    } else if !connected {
        PlayRoute::JoinThenPlay
    } else {
        PlayRoute::PlayNow
    }
}

/// Decide the next step of a play command.
pub fn play_route(has_query: bool, guild_known: bool, connected: bool) -> (r: PlayRoute)
    ensures
        r == play_route_of(has_query, guild_known, connected),
{
    if !has_query {
        PlayRoute::AskForQuery
    } else if !guild_known {
        PlayRoute::UnknownChannel
    } else if !connected {
        PlayRoute::JoinThenPlay
    } else {
        PlayRoute::PlayNow
    }
}

/// Pick the track to queue from a search result: the first listed track, or
/// none when the search found nothing.
pub fn queue_choice(titles: &Vec<String>) -> (r: Option<String>)
    ensures
        titles@.len() == 0 ==> r is None,
        titles@.len() > 0 ==> r == Some(titles@[0]),
{
    if titles.len() == 0 {
        None
    } else {
        Some(titles[0].clone())
    }
}

/// The reply of a now-playing query.
#[derive(Debug, Clone, PartialEq, Eq)]
pub enum NowPlayingStatus {
    /// A track is playing; its title is carried.
    Playing(String),
    /// No session or no current track.
    NothingPlaying,
}

/// Settle a now-playing query from the current track's title, if any.
pub fn now_playing_reply(current: Option<String>) -> (r: NowPlayingStatus)
    ensures
        match current {
            Some(title) => r == NowPlayingStatus::Playing(title),
            None => r == NowPlayingStatus::NothingPlaying,
        },
{
    match current {
        Some(title) => NowPlayingStatus::Playing(title),
        None => NowPlayingStatus::NothingPlaying,
    }
}

/// The reply of a skip command.
#[derive(Debug, Clone, PartialEq, Eq)]
pub enum SkipStatus {
    /// A track was skipped; its title is carried.
    Skipped(String),
    /// Nothing was playing, so nothing was skipped.
    NothingToSkip,
}

/// Settle a skip from the title of the track the player gave up, if any.
pub fn skip_reply(skipped: Option<String>) -> (r: SkipStatus)
    ensures
        match skipped {
            Some(title) => r == SkipStatus::Skipped(title),
            None => r == SkipStatus::NothingToSkip,
        },
{
    match skipped {
        Some(title) => SkipStatus::Skipped(title),
        None => SkipStatus::NothingToSkip,
    }
}

} // verus!
