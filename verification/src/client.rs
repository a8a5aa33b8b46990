//! Switching the Riot Client to a saved session, and logging it out, as
//! procedures whose outside work (processes, files, credentials) the caller
//! performs step by step.
use vstd::prelude::*;
use crate::riot::{
    credential_targets, credential_targets_in, extract_persist_region, extract_riot_id, region_in,
    riot_id_in,
    rewrite_client_region, session_with_local_tdid, settings_with_region, with_local_tdid,
};
use crate::text::{opt_view, std_lines};

verus! {

/// The outside work that a procedure asks for next.
pub enum ClientAction {
    /// End every Riot Client and game process, then remove the lockfile.
    KillClient,
    /// List the stored Windows credentials (`cmdkey /list`); answer with
    /// `Output` (the listing, or `None` when the command failed).
    ListCredentials,
    /// Delete these stored credentials.
    DeleteCredentials(Vec<String>),
    /// Remove the client's cookie and session stores.
    ClearCookieStore,
    /// Read the client settings file; answer with `Output`.
    ReadClientSettings,
    /// Write this text to the client settings file (failures are ignored).
    WriteClientSettings(String),
    /// Read this machine's current session file; answer with `Output`.
    ReadSessionFile,
    /// Write this text to the session file; answer with `Outcome`.
    WriteSessionFile(String),
    /// Start the Riot Client; answer with `Outcome`.
    LaunchClient,
    /// The procedure is over, with this result.
    Done(Result<(), String>),
}

/// What the caller reports after performing an action.
pub enum ClientEvent {
    /// The action was performed (nothing to report).
    Performed,
    /// What a read or a listing gave (`None` when it failed).
    Output(Option<String>),
    /// Whether a write or a launch succeeded, with the error message if not.
    Outcome(Result<(), String>),
}

/// Where a procedure stands: the action it last asked for.
pub enum Stage {
    Start,
    Killing,
    Listing,
    Deleting,
    ClearingCookies,
    ReadingClientSettings(String),
    WritingClientSettings,
    ReadingSession,
    WritingSession,
    Launching,
    Finished(Result<(), String>),
}

/// A switch (with the saved session text) or a logout (without one).
pub struct ClientProcedure {
    pub token_data: Option<String>,
    pub stage: Stage,
}

/// How far a stage is from the end; every step lowers it until the
/// procedure is finished.
pub open spec fn stage_rank(s: Stage) -> nat {
    match s {
        Stage::Start => 10,
        Stage::Killing => 9,
        Stage::Listing => 8,
        Stage::Deleting => 7,
        Stage::ClearingCookies => 6,
        Stage::ReadingClientSettings(_) => 5,
        Stage::WritingClientSettings => 4,
        Stage::ReadingSession => 3,
        Stage::WritingSession => 2,
        Stage::Launching => 1,
        Stage::Finished(_) => 0,
    }
}

/// The session text of a switch (empty for a logout).
pub open spec fn saved_text(p: ClientProcedure) -> Seq<char> {
    match p.token_data {
        Some(t) => t@,
        None => Seq::empty(),
    }
}

/// Starts switching the client to the saved session `token_data`: end the
/// client, delete its stored Riot credentials, clear its cookies, set the
/// client's region to the session's, write the session (joined with this
/// machine's device section) and launch the client.
pub fn switch_to(token_data: &str) -> (p: ClientProcedure)
    ensures
        p.token_data matches Some(t) && t@ == token_data@,
        p.stage is Start,
{
    ClientProcedure { token_data: Some(String::from_str(token_data)), stage: Stage::Start }
}

/// Starts logging the client out: end it, empty the session file and launch
/// it on the login screen.
pub fn logout() -> (p: ClientProcedure)
    ensures
        p.token_data is None,
        p.stage is Start,
{
    ClientProcedure { token_data: None, stage: Stage::Start }
}

fn copy_result(r: &Result<(), String>) -> (out: Result<(), String>)
    ensures
        out is Ok <==> r is Ok,
        out matches Err(e) ==> r matches Err(f) && e@ == f@,
{
    match r {
        Ok(()) => Ok(()),
        Err(e) => Err(e.clone()),
    }
}

impl ClientProcedure {
    /// Takes the report on the last action and answers with the next one.
    pub fn step(&mut self, event: ClientEvent) -> (action: ClientAction)
        ensures
            final(self).token_data == old(self).token_data,
            match old(self).stage {
                Stage::Start => final(self).stage is Killing && action is KillClient,
                Stage::Killing => if old(self).token_data is Some {
                    final(self).stage is Listing && action is ListCredentials
                } else {
                    final(self).stage is WritingSession && (action matches ClientAction::WriteSessionFile(d)
                        && d@ == Seq::<char>::empty())
                },
                Stage::Listing => match event {
                    ClientEvent::Output(Some(listing)) => final(self).stage is Deleting
                        && (action matches ClientAction::DeleteCredentials(ts)
                        && ts.deep_view() == credential_targets_in(std_lines(listing@))),
                    _ => final(self).stage is ClearingCookies && action is ClearCookieStore,
                },
                Stage::Deleting => final(self).stage is ClearingCookies && action is ClearCookieStore,
                Stage::ClearingCookies => match region_in(saved_text(*old(self))) {
                    Some(r) => final(self).stage matches Stage::ReadingClientSettings(s) && s@ == r
                        && action is ReadClientSettings,
                    None => final(self).stage is ReadingSession && action is ReadSessionFile,
                },
                Stage::ReadingClientSettings(r) => match event {
                    ClientEvent::Output(Some(content)) => final(self).stage is WritingClientSettings
                        && (action matches ClientAction::WriteClientSettings(w)
                        && w@ == settings_with_region(content@, r@)),
                    _ => final(self).stage is ReadingSession && action is ReadSessionFile,
                },
                Stage::WritingClientSettings => final(self).stage is ReadingSession && action is ReadSessionFile,
                Stage::ReadingSession => final(self).stage is WritingSession
                    && (action matches ClientAction::WriteSessionFile(d)
                    && d@ == session_with_local_tdid(
                        saved_text(*old(self)),
                        match event {
                            ClientEvent::Output(o) => opt_view(o),
                            _ => None,
                        },
                    )),
                Stage::WritingSession => match event {
                    ClientEvent::Outcome(Err(e)) => (final(self).stage matches Stage::Finished(Err(f)) && f@ == e@)
                        && (action matches ClientAction::Done(Err(g)) && g@ == e@),
                    _ => final(self).stage is Launching && action is LaunchClient,
                },
                Stage::Launching => match event {
                    ClientEvent::Outcome(Err(e)) => (final(self).stage matches Stage::Finished(Err(f)) && f@ == e@)
                        && (action matches ClientAction::Done(Err(g)) && g@ == e@),
                    _ => final(self).stage matches Stage::Finished(Ok(())) && action matches ClientAction::Done(Ok(())),
                },
                Stage::Finished(r) => final(self).stage == old(self).stage && match r {
                    Ok(()) => action matches ClientAction::Done(Ok(())),
                    Err(e) => action matches ClientAction::Done(Err(g)) && g@ == e@,
                },
            },
            // Each step moves the procedure forward until it is finished.
            old(self).stage is Finished || stage_rank(final(self).stage) < stage_rank(old(self).stage),
            // The client is launched only once the session file was written.
            action is LaunchClient ==> old(self).stage is WritingSession && !(event matches ClientEvent::Outcome(Err(_))),
    {
        let (next, action) = match &self.stage {
            Stage::Start => (Stage::Killing, ClientAction::KillClient),
            Stage::Killing => match &self.token_data {
                Some(_) => (Stage::Listing, ClientAction::ListCredentials),
                None => (Stage::WritingSession, ClientAction::WriteSessionFile(String::new())),
            },
            Stage::Listing => match &event {
                ClientEvent::Output(Some(listing)) => (
                    Stage::Deleting,
                    ClientAction::DeleteCredentials(credential_targets(listing.as_str())),
                ),
                _ => (Stage::ClearingCookies, ClientAction::ClearCookieStore),
            },
            Stage::Deleting => (Stage::ClearingCookies, ClientAction::ClearCookieStore),
            Stage::ClearingCookies => {
                let region = match &self.token_data {
                    Some(t) => extract_persist_region(t.as_str()),
                    None => {
                        proof {
                            reveal_strlit("");
                        }
                        extract_persist_region("")
                    },
                };
                match region {
                    Some(r) => (Stage::ReadingClientSettings(r), ClientAction::ReadClientSettings),
                    None => (Stage::ReadingSession, ClientAction::ReadSessionFile),
                }
            },
            Stage::ReadingClientSettings(r) => match &event {
                ClientEvent::Output(Some(content)) => (
                    Stage::WritingClientSettings,
                    ClientAction::WriteClientSettings(rewrite_client_region(content.as_str(), r.as_str())),
                ),
                _ => (Stage::ReadingSession, ClientAction::ReadSessionFile),
            },
            Stage::WritingClientSettings => (Stage::ReadingSession, ClientAction::ReadSessionFile),
            Stage::ReadingSession => {
                let local = match &event {
                    ClientEvent::Output(Some(s)) => Some(s.as_str()),
                    _ => None,
                };
                let data = match &self.token_data {
                    Some(t) => with_local_tdid(t.as_str(), local),
                    None => {
                        proof {
                            reveal_strlit("");
                        }
                        with_local_tdid("", local)
                    },
                };
                (Stage::WritingSession, ClientAction::WriteSessionFile(data))
            },
            Stage::WritingSession => match &event {
                ClientEvent::Outcome(Err(e)) => (
                    Stage::Finished(Err(e.clone())),
                    ClientAction::Done(Err(e.clone())),
                ),
                _ => (Stage::Launching, ClientAction::LaunchClient),
            },
            Stage::Launching => match &event {
                ClientEvent::Outcome(Err(e)) => (
                    Stage::Finished(Err(e.clone())),
                    ClientAction::Done(Err(e.clone())),
                ),
                _ => (Stage::Finished(Ok(())), ClientAction::Done(Ok(()))),
            },
            Stage::Finished(r) => {
                let out = copy_result(r);
                return ClientAction::Done(out);
            },
        };
        self.stage = next;
        action
    }
}


/// How many times the running client is asked for its Riot ID after a
/// switch.
pub const WATCH_TRIES: u32 = 5;

/// The work a Riot-ID watch asks for next.
pub enum WatchAction {
    /// Wait three seconds, then ask the running client for its Riot ID;
    /// answer with `Polled`.
    Poll,
    /// Store this Riot ID for the account `name`.
    SetRiotId { name: String, riot_id: String },
    /// Store this Riot ID for the account `name` unless it already has one.
    FillRiotId { name: String, riot_id: String },
    /// The watch is over.
    Done,
}

/// What the caller reports after performing a watch action.
pub enum WatchEvent {
    Performed,
    /// The Riot ID the client reported, or `None`.
    Polled(Option<String>),
}

/// Where a watch stands.
pub enum WatchStage {
    Start,
    Polling,
    Storing,
    Filling,
    Finished,
}

/// After a switch, records the account's Riot ID: up to `WATCH_TRIES`
/// times the client is asked, and the first answer is stored; then the ID
/// that the saved session names, if any, fills in an ID still missing.
pub struct RiotIdWatch {
    pub name: String,
    pub token_data: String,
    pub tries: u32,
    pub stage: WatchStage,
}

/// How far a watch is from its end; every step lowers it until it is over.
pub open spec fn watch_rank(w: RiotIdWatch) -> int {
    match w.stage {
        WatchStage::Start => 13,
        WatchStage::Polling => 7 + WATCH_TRIES - w.tries,
        WatchStage::Storing => 2,
        WatchStage::Filling => 1,
        WatchStage::Finished => 0,
    }
}

/// The stage and action once polling is over: fill in the session's Riot
/// ID if it names one.
pub open spec fn after_polling(w: RiotIdWatch, next: RiotIdWatch, action: WatchAction) -> bool {
    match riot_id_in(w.token_data@) {
        Some(r) => next.stage is Filling && (action matches WatchAction::FillRiotId { name, riot_id }
            && name == w.name && riot_id@ == r),
        None => next.stage is Finished && action is Done,
    }
}

/// Starts watching for the Riot ID of the account `name`, switched to the
/// session `token_data`.
pub fn watch_riot_id(name: &str, token_data: &str) -> (w: RiotIdWatch)
    ensures
        w.name@ == name@,
        w.token_data@ == token_data@,
        w.tries == 0,
        w.stage is Start,
        w.wf(),
{
    RiotIdWatch {
        name: String::from_str(name),
        token_data: String::from_str(token_data),
        tries: 0,
        stage: WatchStage::Start,
    }
}

impl RiotIdWatch {
    /// The client has been asked at most `WATCH_TRIES` times, and at least
    /// once while polling.
    pub open spec fn wf(&self) -> bool {
        &&& self.tries <= WATCH_TRIES
        &&& self.stage is Start ==> self.tries == 0
        &&& self.stage is Polling ==> self.tries >= 1
    }

    fn finish_polling(&mut self) -> (action: WatchAction)
        ensures
            final(self).name == old(self).name,
            final(self).token_data == old(self).token_data,
            final(self).tries == old(self).tries,
            after_polling(*old(self), *final(self), action),
    {
        match extract_riot_id(self.token_data.as_str()) {
            Some(r) => {
                self.stage = WatchStage::Filling;
                WatchAction::FillRiotId { name: self.name.clone(), riot_id: r }
            },
            None => {
                self.stage = WatchStage::Finished;
                WatchAction::Done
            },
        }
    }

    /// Takes the report on the last action and answers with the next one.
    pub fn step(&mut self, event: WatchEvent) -> (action: WatchAction)
        requires
            old(self).wf(),
        ensures
            final(self).wf(),
            final(self).name == old(self).name,
            final(self).token_data == old(self).token_data,
            match old(self).stage {
                WatchStage::Start => final(self).stage is Polling && final(self).tries == 1 && action is Poll,
                WatchStage::Polling => match event {
                    WatchEvent::Polled(Some(id)) => final(self).stage is Storing && (action matches WatchAction::SetRiotId {
                        name,
                        riot_id,
                    } && name == old(self).name && riot_id == id),
                    _ => if old(self).tries < WATCH_TRIES {
                        final(self).stage is Polling && final(self).tries == old(self).tries + 1 && action is Poll
                    } else {
                        after_polling(*old(self), *final(self), action)
                    },
                },
                WatchStage::Storing => after_polling(*old(self), *final(self), action),
                WatchStage::Filling => final(self).stage is Finished && action is Done,
                WatchStage::Finished => final(self).stage is Finished && action is Done,
            },
            // Each step moves the watch forward until it is over.
            old(self).stage is Finished || watch_rank(*final(self)) < watch_rank(*old(self)),
            // `tries` counts the polls, so the client is asked at most
            // `WATCH_TRIES` times.
            action is Poll ==> final(self).tries == old(self).tries + 1,
            !(action is Poll) ==> final(self).tries == old(self).tries,
    {
        match self.stage {
            WatchStage::Start => {
                self.tries = 1;
                self.stage = WatchStage::Polling;
                WatchAction::Poll
            },
            WatchStage::Polling => match event {
                WatchEvent::Polled(Some(id)) => {
                    self.stage = WatchStage::Storing;
                    WatchAction::SetRiotId { name: self.name.clone(), riot_id: id }
                },
                _ => if self.tries < WATCH_TRIES {
                    self.tries = self.tries + 1;
                    WatchAction::Poll
                } else {
                    self.finish_polling()
                },
            },
            WatchStage::Storing => self.finish_polling(),
            WatchStage::Filling => {
                self.stage = WatchStage::Finished;
                WatchAction::Done
            },
            WatchStage::Finished => WatchAction::Done,
        }
    }
}
} // verus!
