use solo_sv1::{
    count_ones, negotiate_mask, negotiate_rolling, session_extranonce1, AuthorizeOutcome,
    BlockTemplate, ConfigurationError, JobLog, Network, NotifyError, RollingGrant, SessionIds, Share,
    SubmissionRejected, Subscription, SubscriptionMethod, Sv1Handler, Template, TemplateError,
    EXTRANONCE1_SIZE, EXTRANONCE2_SIZE,
};

const MAINNET_ADDRESS: &str = "bc1qw508d6qejxtdg4y5r3zarvary0c5xw7kv8f3t4";
const TESTNET_ADDRESS: &str = "tb1qw508d6qejxtdg4y5r3zarvary0c5xw7kxpjzsx";

fn handler() -> Sv1Handler {
    Sv1Handler::new(
        "bitcoin".to_string(),
        "solo".to_string(),
        MAINNET_ADDRESS.to_string(),
    )
    .unwrap()
}

fn block(prev: u8, height: u64) -> BlockTemplate {
    BlockTemplate {
        prev_hash: vec![prev; 32],
        height,
        version: 0x2000_0000,
        bits: 0x1d00ffff,
        curtime: 1_700_000_000 + height,
        coinbase_value: 312_500_000,
    }
}

fn ready_session() -> Sv1Handler {
    let mut h = handler();
    h.update_template(block(1, 100));
    h.authorize("worker");
    h.set_extranonce2_size(None);
    h.handle_configure(Some(0xFFFF_FFFF), Some(2)).0.unwrap();
    h
}

fn share(job_id: u64) -> Share {
    Share {
        user_name: "worker".to_string(),
        job_id,
        extranonce2: vec![0; 8],
        ntime: vec![0, 0, 0, 1],
        nonce: vec![1, 2, 3, 4],
        version_bits: None,
    }
}

#[test]
fn mask_is_restricted_to_server_bits() {
    assert_eq!(negotiate_mask(0xFFFF_FFFF), 0x1FFF_E000);
    assert_eq!(negotiate_mask(0), 0);
    assert_eq!(negotiate_mask(0x0000_6001), 0x0000_6000);
}

#[test]
fn count_ones_counts_bits() {
    assert_eq!(count_ones(0), 0);
    assert_eq!(count_ones(0xFFFF_FFFF), 32);
    assert_eq!(count_ones(0x1FFF_E000), 16);
    assert_eq!(count_ones(0x8000_0001), 2);
}

#[test]
fn configure_grants_restricted_mask() {
    let mut h = handler();
    let (grant, min_difficulty) = h.handle_configure(Some(0xFFFF_FFFF), None);
    assert_eq!(grant, Ok(RollingGrant { mask: 0x1FFF_E000, min_bit_count: 0 }));
    assert!(!min_difficulty);
    assert_eq!(h.version_rolling_mask(), Some(0x1FFF_E000));
    assert_eq!(h.version_rolling_min_bit, Some(0));
}

#[test]
fn configure_without_mask_grants_nothing_to_roll() {
    let mut h = handler();
    let (grant, _) = h.handle_configure(None, None);
    assert_eq!(grant, Ok(RollingGrant { mask: 0, min_bit_count: 0 }));
    assert_eq!(h.version_rolling_mask(), Some(0));
}

#[test]
fn configure_rejects_min_bits_beyond_mask() {
    let mut h = handler();
    h.handle_configure(Some(0xFFFF_FFFF), None).0.unwrap();
    let (grant, min_difficulty) = h.handle_configure(Some(0x0000_6000), Some(3));
    assert_eq!(grant, Err(ConfigurationError::MinBitCountExceedsMask));
    assert!(!min_difficulty);
    assert_eq!(h.version_rolling_mask(), None);
    assert_eq!(h.version_rolling_min_bit, None);
    assert_eq!(
        negotiate_rolling(Some(0x0000_6000), Some(2)),
        Ok(RollingGrant { mask: 0x6000, min_bit_count: 2 })
    );
}

#[test]
fn subscribe_returns_difficulty_then_notify() {
    let h = handler();
    let subs = h.handle_subscribe();
    assert_eq!(
        subs,
        vec![
            Subscription { method: SubscriptionMethod::SetDifficulty, id: 0 },
            Subscription { method: SubscriptionMethod::Notify, id: 0 },
        ]
    );
}

#[test]
fn distinct_sessions_get_distinct_ids_and_extranonces() {
    let base = handler();
    let mut ids = SessionIds::new();
    let a = ids.issue().unwrap();
    let b = ids.issue().unwrap();
    assert_ne!(a, b);
    let mut sa = Sv1Handler::for_session(base.template.clone(), a);
    let mut sb = Sv1Handler::for_session(base.template.clone(), b);
    assert_ne!(sa.handle_subscribe()[0].id, sb.handle_subscribe()[0].id);
    assert_ne!(sa.handle_subscribe()[1].id, base.handle_subscribe()[1].id);
    let ea = sa.set_extranonce1(None);
    let eb = sb.set_extranonce1(None);
    assert_eq!(ea.len(), EXTRANONCE1_SIZE);
    assert_eq!(eb.len(), EXTRANONCE1_SIZE);
    assert_ne!(ea, eb);
}

#[test]
fn session_ids_stop_when_exhausted() {
    let mut ids = SessionIds { next: u64::MAX };
    assert_eq!(ids.issue(), None);
    assert_eq!(ids.next, u64::MAX);
    let mut fresh = SessionIds::new();
    assert_eq!(fresh.issue(), Some(1));
    assert_eq!(fresh.issue(), Some(2));
}

#[test]
fn extranonce1_is_big_endian_session_id() {
    let mut expected = vec![0u8; 16];
    expected.extend_from_slice(&[1, 2, 3, 4, 5, 6, 7, 8]);
    assert_eq!(session_extranonce1(0x0102_0304_0506_0708), expected);
    assert_eq!(session_extranonce1(0), vec![0; 24]);
    assert_eq!(EXTRANONCE1_SIZE, 24);
}

#[test]
fn supplied_extranonce1_of_right_length_is_kept() {
    let mut h = Sv1Handler::for_session(handler().template, 7);
    assert_eq!(h.extranonce1(), None);
    let e = h.set_extranonce1(Some(vec![9; 24]));
    assert_eq!(e, vec![9; 24]);
    assert_eq!(h.extranonce1(), Some(vec![9; 24]));
    let mut own = vec![0u8; 23];
    own.push(7);
    let e = h.set_extranonce1(Some(vec![9; 8]));
    assert_eq!(e, own);
    assert_eq!(h.extranonce1(), Some(own));
}

#[test]
fn authorization_is_monotonic() {
    let mut h = handler();
    assert!(!h.is_authorized("a"));
    assert_eq!(h.handle_authorize("a"), AuthorizeOutcome::Granted);
    assert!(h.is_authorized("b"));
    assert_eq!(h.handle_authorize("b"), AuthorizeOutcome::AlreadyAuthorized);
    h.authorize("c");
    h.handle_configure(Some(1), None);
    h.set_extranonce2_size(Some(2));
    assert!(h.is_authorized("a"));
}

#[test]
fn extranonce2_size_is_fixed() {
    let mut h = handler();
    assert_eq!(h.extranonce2_size(), None);
    assert_eq!(h.set_extranonce2_size(Some(4)), 8);
    assert_eq!(h.extranonce2_size(), Some(8));
    assert_eq!(h.set_extranonce2_size(None), EXTRANONCE2_SIZE);
    assert_eq!(h.set_extranonce2_size(Some(32)), 8);
}

#[test]
fn submission_accepted_when_all_checks_pass() {
    let mut jobs = JobLog::new();
    let mut h = ready_session();
    let job = h.notify(&mut jobs).unwrap();
    assert_eq!(h.handle_submit(&jobs, &share(job.job_id)), Ok(()));
    let mut s = share(job.job_id);
    s.version_bits = Some(0x0000_2000);
    assert_eq!(h.handle_submit(&jobs, &s), Ok(()));
}

#[test]
fn submission_rejected_when_unauthorized() {
    let mut jobs = JobLog::new();
    let mut h = handler();
    h.update_template(block(1, 100));
    h.set_extranonce2_size(None);
    let job = h.notify(&mut jobs).unwrap();
    assert_eq!(h.handle_submit(&jobs, &share(job.job_id)), Err(SubmissionRejected::Unauthorized));
}

#[test]
fn submission_rejected_for_unknown_job() {
    let mut jobs = JobLog::new();
    let mut h = ready_session();
    let job = h.notify(&mut jobs).unwrap();
    assert_eq!(h.handle_submit(&jobs, &share(job.job_id + 1)), Err(SubmissionRejected::StaleJob));
}

#[test]
fn submission_rejected_for_job_before_clean() {
    let mut jobs = JobLog::new();
    let mut h = ready_session();
    let old_job = h.notify(&mut jobs).unwrap();
    h.update_template(block(2, 101));
    let new_job = h.notify(&mut jobs).unwrap();
    assert!(new_job.clean_jobs);
    assert_eq!(h.handle_submit(&jobs, &share(old_job.job_id)), Err(SubmissionRejected::StaleJob));
    assert_eq!(h.handle_submit(&jobs, &share(new_job.job_id)), Ok(()));
}

#[test]
fn job_without_clean_flag_keeps_older_jobs() {
    let mut jobs = JobLog::new();
    let mut h = ready_session();
    let first = h.notify(&mut jobs).unwrap();
    let second = h.notify(&mut jobs).unwrap();
    assert!(!second.clean_jobs);
    assert_eq!(h.handle_submit(&jobs, &share(first.job_id)), Ok(()));
}

#[test]
fn submission_rejected_for_extranonce2_length() {
    let mut jobs = JobLog::new();
    let mut h = ready_session();
    let job = h.notify(&mut jobs).unwrap();
    let mut s = share(job.job_id);
    s.extranonce2 = vec![0; 4];
    assert_eq!(h.handle_submit(&jobs, &s), Err(SubmissionRejected::Extranonce2SizeMismatch));
    let mut fresh = handler();
    fresh.update_template(block(1, 100));
    fresh.authorize("w");
    let job = fresh.notify(&mut jobs).unwrap();
    assert_eq!(
        fresh.handle_submit(&jobs, &share(job.job_id)),
        Err(SubmissionRejected::Extranonce2SizeMismatch)
    );
}

#[test]
fn submission_rejected_for_version_bits_outside_mask() {
    let mut jobs = JobLog::new();
    let mut h = ready_session();
    let job = h.notify(&mut jobs).unwrap();
    let mut s = share(job.job_id);
    s.version_bits = Some(0x0000_1000);
    assert_eq!(h.handle_submit(&jobs, &s), Err(SubmissionRejected::VersionBitsOutsideMask));
}

#[test]
fn submission_rejected_for_malformed_field() {
    let mut jobs = JobLog::new();
    let mut h = ready_session();
    let job = h.notify(&mut jobs).unwrap();
    let mut s = share(job.job_id);
    s.ntime = vec![0, 1, 2];
    assert_eq!(h.handle_submit(&jobs, &s), Err(SubmissionRejected::MalformedField));
    let mut s = share(job.job_id);
    s.nonce = vec![0; 5];
    assert_eq!(h.handle_submit(&jobs, &s), Err(SubmissionRejected::MalformedField));
}

#[test]
fn update_then_notify_increases_job_id() {
    let mut jobs = JobLog::new();
    let mut h = handler();
    h.update_template(block(1, 100));
    let a = h.notify(&mut jobs).unwrap();
    assert_eq!(a.job_id, 0);
    assert!(a.clean_jobs);
    assert_eq!(a.prev_hash, vec![1; 32]);
    assert_eq!(a.height, 100);
    assert_eq!(a.bits, 0x1d00ffff);
    assert_eq!(a.version, 0x2000_0000);
    assert_eq!(a.curtime, 1_700_000_100);
    assert_eq!(a.coinbase_value, 312_500_000);
    h.update_template(block(1, 100));
    let b = h.notify(&mut jobs).unwrap();
    assert!(b.job_id > a.job_id);
    assert!(!b.clean_jobs);
    h.update_template(block(2, 101));
    let c = h.notify(&mut jobs).unwrap();
    assert!(c.job_id > b.job_id);
    assert!(c.clean_jobs);
    assert_eq!(c.height, 101);
}

#[test]
fn notify_without_template_is_not_ready() {
    let mut jobs = JobLog::new();
    let mut h = handler();
    assert_eq!(h.notify(&mut jobs).unwrap_err(), NotifyError::TemplateUnavailable);
    let (subs, job) = h.handle_subscribe_and_notify(&mut jobs);
    assert_eq!(subs.len(), 2);
    assert_eq!(job.unwrap_err(), NotifyError::TemplateUnavailable);
}

#[test]
fn notify_when_job_ids_exhausted() {
    let mut jobs = JobLog::new();
    let mut h = handler();
    h.update_template(block(1, 100));
    jobs.next_job_id = u64::MAX;
    jobs.oldest_valid_job = u64::MAX;
    assert_eq!(h.notify(&mut jobs).unwrap_err(), NotifyError::JobIdsExhausted);
}

#[test]
fn new_subscriber_gets_job_at_once() {
    let mut jobs = JobLog::new();
    let mut h = handler();
    h.update_template(block(3, 200));
    let (subs, job) = h.handle_subscribe_and_notify(&mut jobs);
    assert_eq!(subs[0].method, SubscriptionMethod::SetDifficulty);
    assert_eq!(subs[1].method, SubscriptionMethod::Notify);
    let job = job.unwrap();
    assert_eq!(job.job_id, 0);
    assert_eq!(job.height, 200);
    assert!(job.clean_jobs);
}

#[test]
fn extranonce_subscribe_changes_nothing() {
    let h = ready_session();
    h.handle_extranonce_subscribe();
    assert!(h.is_authorized("worker"));
}

#[test]
fn new_accepts_valid_configuration() {
    let t = Template::new(
        "testnet".to_string(),
        "sig".to_string(),
        TESTNET_ADDRESS.to_string(),
    )
    .unwrap();
    assert_eq!(t.network, Network::Testnet);
    assert_eq!(t.signature, "sig");
    assert_eq!(t.payout_address, TESTNET_ADDRESS);
    assert!(t.current.is_none());
    let h = handler();
    assert_eq!(h.template.network, Network::Bitcoin);
    assert_eq!(h.session_id, 0);
    assert!(!h.is_authorized);
}

#[test]
fn new_rejects_unknown_network() {
    let r = Sv1Handler::new("Bitcoin".to_string(), "s".to_string(), MAINNET_ADDRESS.to_string());
    assert_eq!(r.unwrap_err(), TemplateError::UnknownNetwork);
    let r = Template::new("mainnet".to_string(), "s".to_string(), MAINNET_ADDRESS.to_string());
    assert_eq!(r.unwrap_err(), TemplateError::UnknownNetwork);
}

#[test]
fn new_rejects_long_signature() {
    let long = "x".repeat(58);
    let r = Sv1Handler::new("bitcoin".to_string(), long, MAINNET_ADDRESS.to_string());
    assert_eq!(r.unwrap_err(), TemplateError::SignatureTooLong);
    let fits = "x".repeat(57);
    assert!(Sv1Handler::new("bitcoin".to_string(), fits, MAINNET_ADDRESS.to_string()).is_ok());
}

#[test]
fn new_rejects_address_of_other_network() {
    let r = Sv1Handler::new("bitcoin".to_string(), "s".to_string(), TESTNET_ADDRESS.to_string());
    assert_eq!(r.unwrap_err(), TemplateError::InvalidAddress);
    let r = Sv1Handler::new("bitcoin".to_string(), "s".to_string(), "not-an-address".to_string());
    assert_eq!(r.unwrap_err(), TemplateError::InvalidAddress);
    let r = Sv1Handler::new(
        "signet".to_string(),
        "s".to_string(),
        TESTNET_ADDRESS.to_string(),
    );
    assert!(r.is_ok());
}

#[test]
fn configure_rejects_mask_restricted_to_nothing() {
    let mut h = handler();
    let (grant, min_difficulty) = h.handle_configure(Some(0x0000_1FFF), None);
    assert_eq!(grant, Err(ConfigurationError::NothingToRoll));
    assert!(!min_difficulty);
    assert_eq!(h.version_rolling_mask(), None);
    assert_eq!(negotiate_rolling(Some(0), Some(0)), Err(ConfigurationError::NothingToRoll));
    assert_eq!(
        negotiate_rolling(Some(0), Some(1)),
        Err(ConfigurationError::MinBitCountExceedsMask)
    );
}

#[test]
fn job_ids_increase_across_sessions() {
    let mut jobs = JobLog::new();
    let mut ids = SessionIds::new();
    let mut template = handler().template;
    template.update(block(1, 100));
    let a = Sv1Handler::open_session(template.clone(), &mut ids).unwrap();
    let b = Sv1Handler::open_session(template.clone(), &mut ids).unwrap();
    assert_eq!(a.session_id, 1);
    assert_eq!(b.session_id, 2);
    let ja = a.notify(&mut jobs).unwrap();
    let jb = b.notify(&mut jobs).unwrap();
    assert_eq!(ja.job_id, 0);
    assert_eq!(jb.job_id, 1);
    assert!(ja.clean_jobs);
    assert!(!jb.clean_jobs);
    assert_eq!(jobs.next_job_id, 2);
}

#[test]
fn open_session_stops_when_ids_exhausted() {
    let mut ids = SessionIds { next: u64::MAX };
    assert!(Sv1Handler::open_session(handler().template, &mut ids).is_none());
}
