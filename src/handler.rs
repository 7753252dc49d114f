//! One downstream session: its negotiated parameters, its authorization and
//! the checks a submitted share must pass.

use crate::extranonce::{
    extranonce1_for, session_extranonce1, EXTRANONCE1_SIZE, EXTRANONCE2_SIZE,
};
use crate::session_ids::{issued, SessionIds};
use crate::template::{
    configuration_result, copy_bytes, notified, BlockTemplate, JobLog, NotifyError, NotifyRecord,
    Template, TemplateError,
};
use crate::version_rolling::{negotiate_rolling, negotiation, ConfigurationError, RollingGrant};
use vstd::prelude::*;

verus! {

/// Width in bytes of a share's ntime and nonce fields.
pub const SHARE_WORD_SIZE: usize = 4;

/// The two kinds of subscription a session holds.
#[derive(Clone, Copy, Debug, PartialEq, Eq, Structural)]
pub enum SubscriptionMethod {
    SetDifficulty,
    Notify,
}

/// A subscription descriptor: the method and the session's subscription id.
#[derive(Clone, Copy, Debug, PartialEq, Eq, Structural)]
pub struct Subscription {
    pub method: SubscriptionMethod,
    pub id: u64,
}

/// How an authorize request was answered; both are successes.
#[derive(Clone, Copy, Debug, PartialEq, Eq, Structural)]
pub enum AuthorizeOutcome {
    Granted,
    AlreadyAuthorized,
}

/// A share as submitted, its hex fields already decoded.
#[derive(Clone, Debug)]
pub struct Share {
    pub user_name: String,
    pub job_id: u64,
    pub extranonce2: Vec<u8>,
    pub ntime: Vec<u8>,
    pub nonce: Vec<u8>,
    pub version_bits: Option<u32>,
}

/// Why a share is not even handed to proof-of-work checking.
#[derive(Clone, Copy, Debug, PartialEq, Eq, Structural)]
pub enum SubmissionRejected {
    Unauthorized,
    StaleJob,
    Extranonce2SizeMismatch,
    VersionBitsOutsideMask,
    MalformedField,
}

/// State of one downstream session.
#[derive(Clone, Debug)]
pub struct Sv1Handler {
    pub template: Template,
    pub is_authorized: bool,
    /// Distinguishes this session from every other live one.
    pub session_id: u64,
    pub extranonce1: Option<Vec<u8>>,
    pub extranonce2_size: Option<usize>,
    pub version_rolling_mask: Option<u32>,
    pub version_rolling_min_bit: Option<u32>,
}

/// The descriptors a session answers a subscribe with.
pub open spec fn subscriptions_for(session_id: u64) -> Seq<Subscription> {
    seq![
        Subscription { method: SubscriptionMethod::SetDifficulty, id: session_id },
        Subscription { method: SubscriptionMethod::Notify, id: session_id },
    ]
}

/// The first check a share fails, if any.
pub open spec fn submission_verdict(h: Sv1Handler, jobs: JobLog, s: Share) -> Result<
    (),
    SubmissionRejected,
> {
    if !h.is_authorized {
        Err(SubmissionRejected::Unauthorized)
    } else if !jobs.job_acceptable(s.job_id) {
        Err(SubmissionRejected::StaleJob)
    } else if h.extranonce2_size is None || s.extranonce2@.len() != h.extranonce2_size->Some_0 {
        Err(SubmissionRejected::Extranonce2SizeMismatch)
    } else if s.version_bits is Some && s.version_bits->Some_0 & !h.version_rolling_mask.unwrap_or(
        0,
    ) != 0 {
        Err(SubmissionRejected::VersionBitsOutsideMask)
    } else if s.ntime@.len() != SHARE_WORD_SIZE || s.nonce@.len() != SHARE_WORD_SIZE {
        Err(SubmissionRejected::MalformedField)
    } else {
        Ok(())
    }
}

/// A new, unauthorized session `session_id` on `template`.
pub open spec fn fresh_session(template: Template, session_id: u64) -> Sv1Handler {
    Sv1Handler {
        template,
        is_authorized: false,
        session_id,
        extranonce1: None,
        extranonce2_size: None,
        version_rolling_mask: None,
        version_rolling_min_bit: None,
    }
}

impl Sv1Handler {
    /// A fresh, unauthorized session `session_id` reading the given template.
    pub fn for_session(template: Template, session_id: u64) -> (r: Sv1Handler)
        ensures
            r == fresh_session(template, session_id),
    {
        Sv1Handler {
            template,
            is_authorized: false,
            session_id,
            extranonce1: None,
            extranonce2_size: None,
            version_rolling_mask: None,
            version_rolling_min_bit: None,
        }
    }

    /// Opens a session under the next identifier of the instance's counter,
    /// or none once all identifiers are used.
    pub fn open_session(template: Template, ids: &mut SessionIds) -> (r: Option<Sv1Handler>)
        ensures
            match r {
                Some(h) => issued(*old(ids), *final(ids), Some(h.session_id)) && h
                    == fresh_session(template, h.session_id),
                None => issued(*old(ids), *final(ids), None),
            },
    {
        match ids.issue() {
            Some(id) => Some(Sv1Handler::for_session(template, id)),
            None => None,
        }
    }

    /// Checks the solo-mining configuration and opens the session with
    /// identifier 0 on it, with no block template yet.
    pub fn new(bitcoin_network: String, solo_miner_signature: String, solo_miner_address: String)
        -> (r: Result<Sv1Handler, TemplateError>)
        ensures
            match configuration_result(
                bitcoin_network@,
                solo_miner_signature@,
                solo_miner_address@,
            ) {
                Err(e) => r == Err::<Sv1Handler, TemplateError>(e),
                Ok(n) => r is Ok && r->Ok_0.template.network == n
                    && r->Ok_0.template.signature@ == solo_miner_signature@
                    && r->Ok_0.template.payout_address@ == solo_miner_address@
                    && r->Ok_0.template.current is None && r->Ok_0 == fresh_session(
                    r->Ok_0.template,
                    0,
                ),
            },
    {
        match Template::new(bitcoin_network, solo_miner_signature, solo_miner_address) {
            Ok(template) => Ok(Sv1Handler::for_session(template, 0)),
            Err(e) => Err(e),
        }
    }

    /// Hands the session a newly fetched block template.
    pub fn update_template(&mut self, gbt_result: BlockTemplate)
        ensures
            *final(self) == (Sv1Handler {
                template: (Template { current: Some(gbt_result), ..old(self).template }),
                ..*old(self)
            }),
    {
        self.template.update(gbt_result);
    }

    /// Answers a configure request: the granted version rolling, or why it was
    /// refused, and that the minimum-difficulty extension is not supported. A
    /// grant is stored for share checking; a refusal leaves the session without
    /// rolling.
    pub fn handle_configure(&mut self, requested_mask: Option<u32>, requested_min_bits: Option<u32>)
        -> (r: (Result<RollingGrant, ConfigurationError>, bool))
        ensures
            r.0 == negotiation(requested_mask, requested_min_bits),
            !r.1,
            r.0 is Ok ==> *final(self) == (Sv1Handler {
                version_rolling_mask: Some(r.0->Ok_0.mask),
                version_rolling_min_bit: Some(r.0->Ok_0.min_bit_count),
                ..*old(self)
            }),
            r.0 is Err ==> *final(self) == (Sv1Handler {
                version_rolling_mask: None,
                version_rolling_min_bit: None,
                ..*old(self)
            }),
    {
        let granted = negotiate_rolling(requested_mask, requested_min_bits);
        match granted {
            Ok(g) => {
                self.set_version_rolling_mask(Some(g.mask));
                self.set_version_rolling_min_bit(Some(g.min_bit_count));
            },
            Err(_) => {
                self.set_version_rolling_mask(None);
                self.set_version_rolling_min_bit(None);
            },
        }
        (granted, false)
    }

    /// Answers a subscribe request, whatever it named: a difficulty and a notify
    /// subscription, both under this session's own identifier.
    pub fn handle_subscribe(&self) -> (r: Vec<Subscription>)
        ensures
            r@ == subscriptions_for(self.session_id),
    {
        let mut r: Vec<Subscription> = Vec::new();
        r.push(Subscription { method: SubscriptionMethod::SetDifficulty, id: self.session_id });
        r.push(Subscription { method: SubscriptionMethod::Notify, id: self.session_id });
        assert(r@ =~= subscriptions_for(self.session_id));
        r
    }

    /// Answers a subscribe request and at once announces a job on the current
    /// block template, so the miner has work before the next template arrives.
    pub fn handle_subscribe_and_notify(&self, jobs: &mut JobLog) -> (r: (
        Vec<Subscription>,
        Result<NotifyRecord, NotifyError>,
    ))
        requires
            old(jobs).wf(),
        ensures
            final(jobs).wf(),
            r.0@ == subscriptions_for(self.session_id),
            notified(self.template, *old(jobs), *final(jobs), r.1),
    {
        let subscriptions = self.handle_subscribe();
        let job = self.notify(jobs);
        (subscriptions, job)
    }

    /// Answers an authorize request: the session becomes authorized, and a
    /// repeated request is a success that changes nothing.
    pub fn handle_authorize(&mut self, name: &str) -> (r: AuthorizeOutcome)
        ensures
            r == if old(self).is_authorized {
                AuthorizeOutcome::AlreadyAuthorized
            } else {
                AuthorizeOutcome::Granted
            },
            *final(self) == (Sv1Handler { is_authorized: true, ..*old(self) }),
    {
        if self.is_authorized(name) {
            AuthorizeOutcome::AlreadyAuthorized
        } else {
            self.authorize(name);
            AuthorizeOutcome::Granted
        }
    }

    /// Decides whether a share may go on to proof-of-work checking, or the
    /// first check it fails.
    pub fn handle_submit(&self, jobs: &JobLog, share: &Share) -> (r: Result<(), SubmissionRejected>)
        ensures
            r == submission_verdict(*self, *jobs, *share),
    {
        if !self.is_authorized {
            return Err(SubmissionRejected::Unauthorized);
        }
        if !(jobs.oldest_valid_job <= share.job_id && share.job_id < jobs.next_job_id) {
            return Err(SubmissionRejected::StaleJob);
        }
        match self.extranonce2_size {
            Some(n) => {
                if share.extranonce2.len() != n {
                    return Err(SubmissionRejected::Extranonce2SizeMismatch);
                }
            },
            None => return Err(SubmissionRejected::Extranonce2SizeMismatch),
        }
        match share.version_bits {
            Some(v) => {
                let mask = match self.version_rolling_mask {
                    Some(m) => m,
                    None => 0,
                };
                if v & !mask != 0 {
                    return Err(SubmissionRejected::VersionBitsOutsideMask);
                }
            },
            None => {},
        }
        if share.ntime.len() != SHARE_WORD_SIZE || share.nonce.len() != SHARE_WORD_SIZE {
            return Err(SubmissionRejected::MalformedField);
        }
        Ok(())
    }

    /// Accepts an extranonce-subscribe request; it changes nothing.
    pub fn handle_extranonce_subscribe(&self) {
    }

    /// Whether the session is authorized; the worker name does not matter.
    pub fn is_authorized(&self, _name: &str) -> (r: bool)
        ensures
            r == self.is_authorized,
    {
        self.is_authorized
    }

    /// Marks the session authorized, for good.
    pub fn authorize(&mut self, _name: &str)
        ensures
            *final(self) == (Sv1Handler { is_authorized: true, ..*old(self) }),
    {
        self.is_authorized = true;
    }

    /// Sets the session's extranonce1: the one given, when it has the fixed
    /// length, else the one derived from the session identifier.
    pub fn set_extranonce1(&mut self, extranonce1: Option<Vec<u8>>) -> (r: Vec<u8>)
        ensures
            r@.len() == EXTRANONCE1_SIZE,
            (extranonce1 is Some && extranonce1->Some_0@.len() == EXTRANONCE1_SIZE) ==> r@
                == extranonce1->Some_0@,
            !(extranonce1 is Some && extranonce1->Some_0@.len() == EXTRANONCE1_SIZE) ==> r@
                == extranonce1_for(old(self).session_id),
            final(self).extranonce1 is Some,
            final(self).extranonce1->Some_0@ == r@,
            *final(self) == (Sv1Handler { extranonce1: final(self).extranonce1, ..*old(self) }),
    {
        let chosen = match extranonce1 {
            Some(e) => {
                if e.len() == EXTRANONCE1_SIZE {
                    e
                } else {
                    session_extranonce1(self.session_id)
                }
            },
            None => session_extranonce1(self.session_id),
        };
        self.extranonce1 = Some(copy_bytes(&chosen));
        chosen
    }

    /// The session's extranonce1, once one has been set.
    pub fn extranonce1(&self) -> (r: Option<Vec<u8>>)
        ensures
            r is Some <==> self.extranonce1 is Some,
            r is Some ==> r->Some_0@ == self.extranonce1->Some_0@,
    {
        match &self.extranonce1 {
            Some(e) => Some(copy_bytes(e)),
            None => None,
        }
    }

    /// Sets the extranonce2 length to the server's fixed size, whatever was asked.
    pub fn set_extranonce2_size(&mut self, _extra_nonce2_size: Option<usize>) -> (r: usize)
        ensures
            r == EXTRANONCE2_SIZE,
            *final(self) == (Sv1Handler { extranonce2_size: Some(EXTRANONCE2_SIZE), ..*old(self) }),
    {
        self.extranonce2_size = Some(EXTRANONCE2_SIZE);
        EXTRANONCE2_SIZE
    }

    /// The session's extranonce2 length, once set.
    pub fn extranonce2_size(&self) -> (r: Option<usize>)
        ensures
            r == self.extranonce2_size,
    {
        self.extranonce2_size
    }

    /// The negotiated version-rolling mask, if any.
    pub fn version_rolling_mask(&self) -> (r: Option<u32>)
        ensures
            r == self.version_rolling_mask,
    {
        self.version_rolling_mask
    }

    /// Stores the negotiated version-rolling mask.
    pub fn set_version_rolling_mask(&mut self, mask: Option<u32>)
        ensures
            *final(self) == (Sv1Handler { version_rolling_mask: mask, ..*old(self) }),
    {
        self.version_rolling_mask = mask;
    }

    /// Stores the negotiated minimum number of rolled bits.
    pub fn set_version_rolling_min_bit(&mut self, min_bit: Option<u32>)
        ensures
            *final(self) == (Sv1Handler { version_rolling_min_bit: min_bit, ..*old(self) }),
    {
        self.version_rolling_min_bit = min_bit;
    }

    /// Announces a job on the session's block template under the instance's
    /// next job identifier; the session itself stays as it was.
    pub fn notify(&self, jobs: &mut JobLog) -> (r: Result<NotifyRecord, NotifyError>)
        requires
            old(jobs).wf(),
        ensures
            final(jobs).wf(),
            notified(self.template, *old(jobs), *final(jobs), r),
    {
        self.template.build_notify(jobs)
    }
}

/// A share whose extranonce2 length differs from the session's assigned size,
/// or that names a job older than the last clean-jobs announcement, is
/// rejected.
pub proof fn lemma_submission_rejections(h: Sv1Handler, jobs: JobLog, s: Share)
    ensures
        (h.extranonce2_size is Some && s.extranonce2@.len() != h.extranonce2_size->Some_0)
            ==> submission_verdict(h, jobs, s) is Err,
        s.job_id < jobs.oldest_valid_job ==> submission_verdict(h, jobs, s) is Err,
{
}

/// A session that subscribes while a block template is present gets, in the
/// same answer, a job built on that template under the instance's next job
/// identifier.
pub proof fn lemma_subscriber_gets_job(
    template: Template,
    pre: JobLog,
    post: JobLog,
    r: Result<NotifyRecord, NotifyError>,
)
    requires
        notified(template, pre, post, r),
        template.current is Some,
        pre.next_job_id < u64::MAX,
    ensures
        r is Ok,
        r->Ok_0.job_id == pre.next_job_id,
        r->Ok_0.prev_hash@ == template.current->Some_0.prev_hash@,
        r->Ok_0.height == template.current->Some_0.height,
{
}

} // verus!
