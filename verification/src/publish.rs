//! The publish session: one lazily created producer per profile
//! selection, one pending message the operator can retry on failure.

use vstd::prelude::*;

use crate::types::BrokerError;

verus! {

/// State of a publish-capable connection for the active profile.  The
/// producer handle itself lives with the caller; the session records
/// whether one is bound and what the pending message and last error
/// are.
pub struct PublishSession {
    profile_id: String,
    producer_bound: bool,
    pending_value: String,
    last_error: Option<String>,
}

/// The mathematical state of a publish session.
pub ghost struct PublishView {
    pub profile_id: Seq<char>,
    pub producer_bound: bool,
    pub pending_value: Seq<char>,
    pub last_error: Option<Seq<char>>,
}

impl View for PublishSession {
    type V = PublishView;

    closed spec fn view(&self) -> PublishView {
        PublishView {
            profile_id: self.profile_id@,
            producer_bound: self.producer_bound,
            pending_value: self.pending_value@,
            last_error: match self.last_error {
                Some(ref e) => Some(e@),
                None => None,
            },
        }
    }
}

impl PublishSession {
    /// A fresh session for the given profile: no producer bound, no
    /// pending message, no error.
    pub fn new(profile_id: String) -> (s: PublishSession)
        ensures
            s@.profile_id == profile_id@,
            !s@.producer_bound,
            s@.pending_value.len() == 0,
            s@.last_error is None,
    {
        PublishSession {
            profile_id,
            producer_bound: false,
            pending_value: String::new(),
            last_error: None,
        }
    }

    /// Replace the message the operator is composing.
    pub fn set_pending(&mut self, value: String)
        ensures
            final(self)@ == (PublishView { pending_value: value@, ..old(self)@ }),
    {
        self.pending_value = value;
    }

    /// Whether a producer must still be created before sending: exactly
    /// one is created per profile selection, on first use.
    pub fn needs_producer(&self) -> (r: bool)
        ensures
            r == !self@.producer_bound,
    {
        !self.producer_bound
    }

    /// Record that the caller created the producer for this profile.
    pub fn note_producer_bound(&mut self)
        ensures
            final(self)@ == (PublishView { producer_bound: true, ..old(self)@ }),
    {
        self.producer_bound = true;
    }

    /// Feed in a send's outcome.  On success the pending message is
    /// cleared and any old error dropped; on failure the broker's
    /// message is retained for display and the pending text is
    /// preserved so the operator can retry without retyping.  Either
    /// way the producer stays bound for the next attempt.
    pub fn on_send_result(&mut self, result: Result<(), BrokerError>)
        requires
            old(self)@.producer_bound,
        ensures
            final(self)@.producer_bound,
            final(self)@.profile_id == old(self)@.profile_id,
            match result {
                Ok(()) => final(self)@ == (PublishView {
                    pending_value: Seq::empty(),
                    last_error: None,
                    ..old(self)@
                }),
                Err(e) => final(self)@ == (PublishView {
                    last_error: Some(e.text()),
                    ..old(self)@
                }),
            },
    {
        match result {
            Ok(()) => {
                self.pending_value = String::new();
                self.last_error = None;
            },
            Err(e) => {
                let message = e.message().clone();
                self.last_error = Some(message);
            },
        }
    }

    /// Select a profile.  Selecting a different profile discards the
    /// producer binding, which is scoped to one profile; re-selecting
    /// the same profile keeps it.  The pending message survives either
    /// way.
    pub fn select_profile(&mut self, profile_id: String)
        ensures
            final(self)@ == (PublishView {
                profile_id: profile_id@,
                producer_bound: old(self)@.producer_bound && profile_id@ == old(
                    self,
                )@.profile_id,
                ..old(self)@
            }),
    {
        if !self.profile_id.eq(&profile_id) {
            self.producer_bound = false;
        }
        self.profile_id = profile_id;
    }

    /// The message text waiting to be sent.
    pub fn pending_value(&self) -> (r: &String)
        ensures
            r@ == self@.pending_value,
    {
        &self.pending_value
    }

    /// The last send failure's text, if the last send failed.
    pub fn last_error(&self) -> (r: Option<&String>)
        ensures
            r is Some <==> self@.last_error is Some,
            r matches Some(e) ==> e@ == self@.last_error->0,
    {
        self.last_error.as_ref()
    }
}

} // verus!
