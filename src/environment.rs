use vstd::prelude::*;
use crate::error::Error;
use crate::session::{Session, SessionRecord, session_of, session_view};

verus! {

/// The loaded session record and the session that it authorizes, if any.
pub struct Environment {
    config: SessionRecord,
    hue: Option<Session>,
}

impl Environment {
    /// The stored record.
    pub closed spec fn spec_config(&self) -> SessionRecord {
        self.config
    }

    /// The session in use, as address and credential.
    pub closed spec fn spec_session(&self) -> Option<(Seq<char>, Seq<char>)> {
        match self.hue {
            Some(s) => Some(session_view(s)),
            None => None,
        }
    }

    /// The session in use is exactly the one that the stored record holds.
    pub open spec fn wf(&self) -> bool {
        self.spec_session() == session_of(self.spec_config())
    }

    /// The environment for a record loaded at start-up: a session exists exactly
    /// when the record holds both an address and a credential.
    pub fn new(config: SessionRecord) -> (r: Environment)
        ensures
            r.wf(),
            r.spec_config() == config,
    {
        let hue = match (&config.bridge_url, &config.username) {
            (Some(u), Some(n)) => Some(Session { bridge_url: u.clone(), username: n.clone() }),
            _ => None,
        };
        Environment { config, hue }
    }

    /// The session in use, or `NotAuthorized` where there is none.
    pub fn get_hue(&self) -> (r: Result<&Session, Error>)
        ensures
            self.spec_session() is None ==> r matches Err(Error::NotAuthorized),
            self.spec_session() matches Some(s) ==> (r matches Ok(ses) && session_view(*ses) == s),
    {
        match &self.hue {
            Some(h) => Ok(h),
            None => Err(Error::NotAuthorized),
        }
    }

    /// Takes `hue` as the session in use and records its address and credential,
    /// keeping the record's version. The record is then the one to persist.
    pub fn set_hue(&mut self, hue: Session)
        requires
            old(self).wf(),
        ensures
            final(self).wf(),
            final(self).spec_session() == Some(session_view(hue)),
            final(self).spec_config().version == old(self).spec_config().version,
    {
        self.config.bridge_url = Some(hue.bridge_url.clone());
        self.config.username = Some(hue.username.clone());
        self.hue = Some(hue);
    }

    /// The stored record.
    pub fn config(&self) -> (r: &SessionRecord)
        ensures
            *r == self.spec_config(),
    {
        &self.config
    }
}

} // verus!
