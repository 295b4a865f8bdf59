//! The lobby: sessions of authenticated participants waiting for their turn,
//! and the single active slot that grants the right to contribute until a
//! deadline. Every operation takes the current time in milliseconds; an
//! expired slot is cleared before the operation proceeds.

use vstd::prelude::*;
use std::collections::HashMap;

verus! {

broadcast use vstd::std_specs::hash::group_hash_axioms;

pub type SessionId = u64;

/// A session waiting in the lobby.
#[derive(Clone, Copy, PartialEq, Eq, Structural, Debug)]
pub struct SessionInfo {
    pub admission_time: u64,
    pub last_ping_time: u64,
    pub is_first_ping_attempt: bool,
}

/// The session that holds the right to contribute, and until when.
#[derive(Clone, Copy, PartialEq, Eq, Structural, Debug)]
pub struct ActiveSlot {
    pub session_id: SessionId,
    pub deadline: u64,
}

#[derive(Clone, Copy, PartialEq, Eq, Structural, Debug)]
pub struct LobbyOptions {
    /// Most sessions the lobby holds at once.
    pub max_sessions: usize,
    /// Least time between two counted pings of one session.
    pub min_checkin_delay: u64,
    /// Time an active contributor has to submit.
    pub compute_deadline: u64,
}

#[derive(Clone, Copy, PartialEq, Eq, Structural, Debug)]
pub enum ActiveContributorError {
    AnotherContributionInProgress,
    NotUsersTurn,
    UserNotInLobby,
    NotActiveContributor,
    SessionCountLimitExceeded,
    LobbySizeLimitExceeded,
    RateLimited,
}

#[derive(Clone, Copy, PartialEq, Eq, Structural, Debug)]
pub enum TryContributeError {
    UnknownSessionId,
    RateLimited,
    AnotherContributionInProgress,
    LobbyIsFull,
}

/// What a successful `try_contribute` granted.
#[derive(Clone, Copy, PartialEq, Eq, Structural, Debug)]
pub enum TryContributeGrant {
    /// The session has just won the slot, with this deadline.
    Promoted { deadline: u64 },
    /// The session already holds the slot and may fetch the transcript again.
    AlreadyActive,
}

/// What a client receives when it may contribute.
#[derive(Clone, Debug, PartialEq, Eq)]
pub struct TryContributeResponse<C> {
    pub contribution: C,
}

/// The lobby: waiting sessions by id, and at most one active slot, which is
/// what makes contributions one at a time.
pub struct LobbyState {
    sessions: HashMap<SessionId, SessionInfo>,
    active: Option<ActiveSlot>,
    options: LobbyOptions,
}

pub struct LobbyView {
    pub sessions: Map<SessionId, SessionInfo>,
    pub active: Option<ActiveSlot>,
    pub options: LobbyOptions,
}

impl View for LobbyState {
    type V = LobbyView;

    closed spec fn view(&self) -> LobbyView {
        LobbyView { sessions: self.sessions@, active: self.active, options: self.options }
    }
}

/// The lobby holds no more sessions than it may.
pub open spec fn lobby_wf(v: LobbyView) -> bool {
    v.sessions.dom().finite() && v.sessions.len() <= v.options.max_sessions
}

/// The lobby with an expired slot cleared; its session is dropped.
pub open spec fn expire(v: LobbyView, now: u64) -> LobbyView {
    match v.active {
        Some(a) => if a.deadline <= now {
            LobbyView { sessions: v.sessions.remove(a.session_id), active: None, options: v.options }
        } else {
            v
        },
        None => v,
    }
}

pub open spec fn deadline_from(now: u64, d: u64) -> u64 {
    if now + d > u64::MAX {
        u64::MAX
    } else {
        (now + d) as u64
    }
}

pub open spec fn insert_session_spec(v: LobbyView, sid: SessionId, now: u64) -> (
    LobbyView,
    Result<(), ActiveContributorError>,
) {
    if !v.sessions.contains_key(sid) && v.sessions.len() >= v.options.max_sessions {
        (v, Err(ActiveContributorError::SessionCountLimitExceeded))
    } else {
        (
            LobbyView {
                sessions: v.sessions.insert(
                    sid,
                    SessionInfo {
                        admission_time: now,
                        last_ping_time: now,
                        is_first_ping_attempt: true,
                    },
                ),
                active: v.active,
                options: v.options,
            },
            Ok(()),
        )
    }
}

/// A ping from a waiting session: refused when it comes sooner than the
/// check-in delay after the last counted one (the first is exempt); else it
/// is counted, and the session takes the slot if the slot is free.
pub open spec fn try_contribute_spec(v0: LobbyView, sid: SessionId, now: u64) -> (
    LobbyView,
    Result<TryContributeGrant, TryContributeError>,
) {
    let v = expire(v0, now);
    if v.sessions.contains_key(sid) {
        let info = v.sessions[sid];
        if !info.is_first_ping_attempt && now < info.last_ping_time + v.options.min_checkin_delay {
            (v, Err(TryContributeError::RateLimited))
        } else {
            let sessions = v.sessions.insert(
                sid,
                SessionInfo { last_ping_time: now, is_first_ping_attempt: false, ..info },
            );
            match v.active {
                Some(a) => if a.session_id == sid {
                    (
                        LobbyView { sessions, active: v.active, options: v.options },
                        Ok(TryContributeGrant::AlreadyActive),
                    )
                } else {
                    (
                        LobbyView { sessions, active: v.active, options: v.options },
                        Err(TryContributeError::AnotherContributionInProgress),
                    )
                },
                None => {
                    let deadline = deadline_from(now, v.options.compute_deadline);
                    (
                        LobbyView {
                            sessions,
                            active: Some(ActiveSlot { session_id: sid, deadline }),
                            options: v.options,
                        },
                        Ok(TryContributeGrant::Promoted { deadline }),
                    )
                },
            }
        }
    } else {
        match v.active {
            Some(a) => if a.session_id == sid {
                (v, Ok(TryContributeGrant::AlreadyActive))
            } else {
                (v, Err(TryContributeError::UnknownSessionId))
            },
            None => (v, Err(TryContributeError::UnknownSessionId)),
        }
    }
}

/// Ends the turn of the active session, if `sid` holds the slot: the slot
/// is cleared and the session removed.
pub open spec fn finish_spec(v0: LobbyView, sid: SessionId, now: u64, err: ActiveContributorError) -> (
    LobbyView,
    Result<(), ActiveContributorError>,
) {
    let v = expire(v0, now);
    match v.active {
        Some(a) => if a.session_id == sid {
            (LobbyView { sessions: v.sessions.remove(sid), active: None, options: v.options }, Ok(()))
        } else {
            (v, Err(err))
        },
        None => (v, Err(err)),
    }
}

pub open spec fn contribute_spec(v: LobbyView, sid: SessionId, now: u64) -> (
    LobbyView,
    Result<(), ActiveContributorError>,
) {
    finish_spec(v, sid, now, ActiveContributorError::NotUsersTurn)
}

pub open spec fn abort_spec(v: LobbyView, sid: SessionId, now: u64) -> (
    LobbyView,
    Result<(), ActiveContributorError>,
) {
    finish_spec(v, sid, now, ActiveContributorError::NotActiveContributor)
}

pub open spec fn error_from_active(e: ActiveContributorError) -> TryContributeError {
    match e {
        ActiveContributorError::AnotherContributionInProgress
        | ActiveContributorError::NotUsersTurn => TryContributeError::AnotherContributionInProgress,
        ActiveContributorError::UserNotInLobby
        | ActiveContributorError::NotActiveContributor => TryContributeError::UnknownSessionId,
        ActiveContributorError::SessionCountLimitExceeded
        | ActiveContributorError::LobbySizeLimitExceeded => TryContributeError::LobbyIsFull,
        ActiveContributorError::RateLimited => TryContributeError::RateLimited,
    }
}

/// The stable public code of each error.
pub open spec fn error_code(e: TryContributeError) -> Seq<char> {
    match e {
        TryContributeError::UnknownSessionId => "TryContributeError::UnknownSessionId"@,
        TryContributeError::RateLimited => "TryContributeError::RateLimited"@,
        TryContributeError::AnotherContributionInProgress => "TryContributeError::AnotherContributionInProgress"@,
        TryContributeError::LobbyIsFull => "TryContributeError::LobbyIsFull"@,
    }
}

impl TryContributeError {
    pub fn to_error_code(&self) -> (r: String)
        ensures
            r@ == error_code(*self),
    {
        match self {
            TryContributeError::UnknownSessionId => String::from_str(
                "TryContributeError::UnknownSessionId",
            ),
            TryContributeError::RateLimited => String::from_str("TryContributeError::RateLimited"),
            TryContributeError::AnotherContributionInProgress => String::from_str(
                "TryContributeError::AnotherContributionInProgress",
            ),
            TryContributeError::LobbyIsFull => String::from_str("TryContributeError::LobbyIsFull"),
        }
    }
}

impl From<ActiveContributorError> for TryContributeError {
    fn from(e: ActiveContributorError) -> TryContributeError {
        match e {
            ActiveContributorError::AnotherContributionInProgress
            | ActiveContributorError::NotUsersTurn => TryContributeError::AnotherContributionInProgress,
            ActiveContributorError::UserNotInLobby
            | ActiveContributorError::NotActiveContributor => TryContributeError::UnknownSessionId,
            ActiveContributorError::SessionCountLimitExceeded
            | ActiveContributorError::LobbySizeLimitExceeded => TryContributeError::LobbyIsFull,
            ActiveContributorError::RateLimited => TryContributeError::RateLimited,
        }
    }
}

impl vstd::std_specs::convert::FromSpecImpl<ActiveContributorError> for TryContributeError {
    open spec fn obeys_from_spec() -> bool {
        true
    }

    open spec fn from_spec(e: ActiveContributorError) -> TryContributeError {
        error_from_active(e)
    }
}

/// A successful submission leaves the slot empty, so a second submission,
/// by anyone, fails until some session is promoted again.
pub proof fn lemma_no_double_contribution(
    v: LobbyView,
    a: SessionId,
    b: SessionId,
    t1: u64,
    t2: u64,
)
    requires
        contribute_spec(v, a, t1).1 is Ok,
    ensures
        contribute_spec(v, a, t1).0.active is None,
        contribute_spec(contribute_spec(v, a, t1).0, b, t2).1 is Err,
{
}

/// Only a promotion fills an empty slot: admitting a session, a tick, a
/// submission or an abort leave it empty.
pub proof fn lemma_empty_slot_stays_empty(v: LobbyView, sid: SessionId, now: u64)
    requires
        v.active is None,
    ensures
        insert_session_spec(v, sid, now).0.active is None,
        expire(v, now).active is None,
        contribute_spec(v, sid, now).0.active is None,
        abort_spec(v, sid, now).0.active is None,
{
}

/// A promotion happens only from an empty (or expired) slot, and gives the
/// slot to the session that asked.
pub proof fn lemma_promotion_needs_free_slot(v: LobbyView, sid: SessionId, now: u64)
    requires
        try_contribute_spec(v, sid, now).1 matches Ok(TryContributeGrant::Promoted { .. }),
    ensures
        expire(v, now).active is None,
        try_contribute_spec(v, sid, now).0.active matches Some(a) && a.session_id == sid
            && a.deadline == deadline_from(now, v.options.compute_deadline),
        v.options.compute_deadline > 0 && now + v.options.compute_deadline <= u64::MAX
            ==> (try_contribute_spec(v, sid, now).0.active matches Some(a) && a.deadline > now),
{
}

/// The session count never exceeds the lobby's bound.
pub proof fn lemma_wf_preserved(v: LobbyView, sid: SessionId, now: u64)
    requires
        lobby_wf(v),
    ensures
        lobby_wf(insert_session_spec(v, sid, now).0),
        lobby_wf(try_contribute_spec(v, sid, now).0),
        lobby_wf(contribute_spec(v, sid, now).0),
        lobby_wf(abort_spec(v, sid, now).0),
        lobby_wf(expire(v, now)),
{
    let e = expire(v, now);
    if let Some(a) = v.active {
        if a.deadline <= now && v.sessions.contains_key(a.session_id) {
            assert(e.sessions.len() == v.sessions.len() - 1);
        } else if a.deadline <= now {
            assert(e.sessions =~= v.sessions);
        }
    }
    assert(lobby_wf(e));
    if let Some(a) = e.active {
        if a.session_id == sid && e.sessions.contains_key(sid) {
            assert(e.sessions.remove(sid).len() == e.sessions.len() - 1);
        } else if a.session_id == sid {
            assert(e.sessions.remove(sid) =~= e.sessions);
        }
    }
    if !v.sessions.contains_key(sid) && v.sessions.len() < v.options.max_sessions {
        assert(v.sessions.insert(sid, SessionInfo { admission_time: now, last_ping_time: now, is_first_ping_attempt: true }).len() == v.sessions.len() + 1);
    }
}

impl LobbyState {
    pub open spec fn wf(&self) -> bool {
        lobby_wf(self@)
    }

    pub fn new(options: LobbyOptions) -> (r: LobbyState)
        ensures
            r@.sessions == Map::<SessionId, SessionInfo>::empty(),
            r@.active is None,
            r@.options == options,
            r.wf(),
    {
        LobbyState { sessions: HashMap::new(), active: None, options }
    }

    pub fn options(&self) -> (r: LobbyOptions)
        ensures
            r == self@.options,
    {
        self.options
    }

    pub fn active(&self) -> (r: Option<ActiveSlot>)
        ensures
            r == self@.active,
    {
        self.active
    }

    pub fn session(&self, sid: SessionId) -> (r: Option<SessionInfo>)
        ensures
            r is Some <==> self@.sessions.contains_key(sid),
            r is Some ==> r->Some_0 == self@.sessions[sid],
    {
        match self.sessions.get(&sid) {
            Some(info) => Some(*info),
            None => None,
        }
    }

    pub fn session_count(&self) -> (r: usize)
        ensures
            r == self@.sessions.len(),
    {
        self.sessions.len()
    }

    /// Clears the slot if its deadline has passed, dropping its session.
    pub fn tick(&mut self, now: u64)
        requires
            old(self).wf(),
        ensures
            final(self)@ == expire(old(self)@, now),
            final(self).wf(),
    {
        match self.active {
            Some(a) => {
                if a.deadline <= now {
                    self.sessions.remove(&a.session_id);
                    self.active = None;
                    proof {
                        assert(self@.sessions =~= old(self)@.sessions.remove(a.session_id));
                        if old(self)@.sessions.contains_key(a.session_id) {
                            assert(self@.sessions.len() == old(self)@.sessions.len() - 1);
                        } else {
                            assert(self@.sessions == old(self)@.sessions);
                        }
                    }
                }
            },
            None => {},
        }
    }

    /// Admits a session to the lobby.
    pub fn insert_session(&mut self, sid: SessionId, now: u64) -> (r: Result<(), ActiveContributorError>)
        requires
            old(self).wf(),
        ensures
            (final(self)@, r) == insert_session_spec(old(self)@, sid, now),
            final(self).wf(),
    {
        if !self.sessions.contains_key(&sid) && self.sessions.len() >= self.options.max_sessions {
            return Err(ActiveContributorError::SessionCountLimitExceeded);
        }
        self.sessions.insert(
            sid,
            SessionInfo { admission_time: now, last_ping_time: now, is_first_ping_attempt: true },
        );
        Ok(())
    }

    /// Drops the active slot, whoever holds it; the sessions stay.
    pub fn clear_current_contributor(&mut self)
        requires
            old(self).wf(),
        ensures
            final(self)@.sessions == old(self)@.sessions,
            final(self)@.options == old(self)@.options,
            final(self)@.active is None,
            final(self).wf(),
    {
        self.active = None;
    }

    /// Counts a ping of `sid` and promotes it to the slot when it is free.
    pub fn try_contribute(&mut self, sid: SessionId, now: u64) -> (r: Result<
        TryContributeGrant,
        TryContributeError,
    >)
        requires
            old(self).wf(),
        ensures
            (final(self)@, r) == try_contribute_spec(old(self)@, sid, now),
            final(self).wf(),
    {
        self.tick(now);
        match self.sessions.get(&sid) {
            Some(found) => {
                let info = *found;
                if !info.is_first_ping_attempt && (now < info.last_ping_time || now
                    - info.last_ping_time < self.options.min_checkin_delay) {
                    return Err(TryContributeError::RateLimited);
                }
                self.sessions.insert(
                    sid,
                    SessionInfo { last_ping_time: now, is_first_ping_attempt: false, ..info },
                );
                match self.active {
                    Some(a) => {
                        if a.session_id == sid {
                            Ok(TryContributeGrant::AlreadyActive)
                        } else {
                            Err(TryContributeError::AnotherContributionInProgress)
                        }
                    },
                    None => {
                        let deadline = now.saturating_add(self.options.compute_deadline);
                        self.active = Some(ActiveSlot { session_id: sid, deadline });
                        Ok(TryContributeGrant::Promoted { deadline })
                    },
                }
            },
            None => {
                match self.active {
                    Some(a) => {
                        if a.session_id == sid {
                            Ok(TryContributeGrant::AlreadyActive)
                        } else {
                            Err(TryContributeError::UnknownSessionId)
                        }
                    },
                    None => Err(TryContributeError::UnknownSessionId),
                }
            },
        }
    }

    fn finish(&mut self, sid: SessionId, now: u64, err: ActiveContributorError) -> (r: Result<
        (),
        ActiveContributorError,
    >)
        requires
            old(self).wf(),
        ensures
            (final(self)@, r) == finish_spec(old(self)@, sid, now, err),
            final(self).wf(),
    {
        self.tick(now);
        let ghost mid = self@;
        match self.active {
            Some(a) => {
                if a.session_id == sid {
                    self.sessions.remove(&sid);
                    self.active = None;
                    proof {
                        assert(self@.sessions =~= mid.sessions.remove(sid));
                        if mid.sessions.contains_key(sid) {
                            assert(self@.sessions.len() == mid.sessions.len() - 1);
                        } else {
                            assert(self@.sessions == mid.sessions);
                        }
                    }
                    Ok(())
                } else {
                    Err(err)
                }
            },
            None => Err(err),
        }
    }

    /// Accepts the submission of the active session: its slot is cleared and
    /// its session removed. Anyone else is refused.
    pub fn contribute(&mut self, sid: SessionId, now: u64) -> (r: Result<(), ActiveContributorError>)
        requires
            old(self).wf(),
        ensures
            (final(self)@, r) == contribute_spec(old(self)@, sid, now),
            final(self).wf(),
    {
        self.finish(sid, now, ActiveContributorError::NotUsersTurn)
    }

    /// The active session gives up its turn.
    pub fn abort_contribution(&mut self, sid: SessionId, now: u64) -> (r: Result<
        (),
        ActiveContributorError,
    >)
        requires
            old(self).wf(),
        ensures
            (final(self)@, r) == abort_spec(old(self)@, sid, now),
            final(self).wf(),
    {
        self.finish(sid, now, ActiveContributorError::NotActiveContributor)
    }
}

} // verus!
