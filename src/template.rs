//! The block template a session mines on, and the jobs announced from it.

use bitcoincore_rpc_json::bitcoin;
use vstd::prelude::*;
use vstd::utf8::encode_utf8;

verus! {

/// Longest coinbase signature, in bytes, that still leaves room in the
/// 100-byte coinbase script for the height push (9 bytes), the signature's
/// push opcode and the pushed 24-byte extranonce1 and 8-byte extranonce2
/// (33 bytes with their push opcode).
pub const MAX_SIGNATURE_LEN: usize = 57;

/// The Bitcoin network the payout address and the node belong to.
#[derive(Clone, Copy, Debug, PartialEq, Eq, Structural)]
pub enum Network {
    Bitcoin,
    Testnet,
    Testnet4,
    Signet,
    Regtest,
}

/// The network a configured name stands for.
pub open spec fn network_named(name: Seq<char>) -> Option<Network> {
    if name == "bitcoin"@ {
        Some(Network::Bitcoin)
    } else if name == "testnet"@ {
        Some(Network::Testnet)
    } else if name == "testnet4"@ {
        Some(Network::Testnet4)
    } else if name == "signet"@ {
        Some(Network::Signet)
    } else if name == "regtest"@ {
        Some(Network::Regtest)
    } else {
        None
    }
}

/// Whether an address string parses and belongs to the network.
pub uninterp spec fn address_valid_for(address: Seq<char>, network: Network) -> bool;

/// Relies on `FromStr for bitcoin::Network`: it accepts exactly the five
/// lower-case network names.
#[verifier::external_body]
fn parse_network(name: &str) -> (r: Option<Network>)
    ensures
        r == network_named(name@),
{
    match name.parse::<bitcoin::Network>() {
        Ok(bitcoin::Network::Bitcoin) => Some(Network::Bitcoin),
        Ok(bitcoin::Network::Testnet) => Some(Network::Testnet),
        Ok(bitcoin::Network::Testnet4) => Some(Network::Testnet4),
        Ok(bitcoin::Network::Signet) => Some(Network::Signet),
        Ok(bitcoin::Network::Regtest) => Some(Network::Regtest),
        Err(_) => None,
    }
}

/// Relies on bitcoin's `Address` parsing and `is_valid_for_network`: whether the
/// string is an address of the given network.
#[verifier::external_body]
fn address_matches_network(address: &str, network: Network) -> (r: bool)
    ensures
        r == address_valid_for(address@, network),
{
    let n = match network {
        Network::Bitcoin => bitcoin::Network::Bitcoin,
        Network::Testnet => bitcoin::Network::Testnet,
        Network::Testnet4 => bitcoin::Network::Testnet4,
        Network::Signet => bitcoin::Network::Signet,
        Network::Regtest => bitcoin::Network::Regtest,
    };
    match address.parse::<bitcoin::Address<bitcoin::address::NetworkUnchecked>>() {
        Ok(a) => a.is_valid_for_network(n),
        Err(_) => false,
    }
}

/// The fields of a node's block template that jobs are built from.
#[derive(Clone, Debug)]
pub struct BlockTemplate {
    pub prev_hash: Vec<u8>,
    pub height: u64,
    pub version: u32,
    pub bits: u32,
    pub curtime: u64,
    pub coinbase_value: u64,
}

/// Why a template could not be built from its configuration.
#[derive(Clone, Copy, Debug, PartialEq, Eq, Structural)]
pub enum TemplateError {
    UnknownNetwork,
    SignatureTooLong,
    InvalidAddress,
}

/// Why no job could be announced.
#[derive(Clone, Copy, Debug, PartialEq, Eq, Structural)]
pub enum NotifyError {
    /// No block template has been received yet.
    TemplateUnavailable,
    /// Every job identifier has been used.
    JobIdsExhausted,
}

/// A job announced to a miner.
#[derive(Clone, Debug)]
pub struct NotifyRecord {
    pub job_id: u64,
    pub prev_hash: Vec<u8>,
    pub height: u64,
    pub version: u32,
    pub bits: u32,
    pub curtime: u64,
    pub coinbase_value: u64,
    pub clean_jobs: bool,
}

/// Solo-mining parameters and the latest block template. Sessions read it;
/// only the template poller replaces the block template.
#[derive(Clone, Debug)]
pub struct Template {
    pub network: Network,
    pub signature: String,
    pub payout_address: String,
    /// The latest block template, if one has arrived.
    pub current: Option<BlockTemplate>,
}

/// The jobs announced so far by one running instance, over all its sessions.
#[derive(Debug)]
pub struct JobLog {
    /// Identifier the next announced job gets.
    pub next_job_id: u64,
    /// Oldest job identifier still accepted: the last job announced with clean-jobs set.
    pub oldest_valid_job: u64,
    /// Previous-block hash of the last announced job.
    pub last_prev_hash: Option<Vec<u8>>,
}

/// Whether a job built on `t` must tell the miner to drop older jobs.
pub open spec fn clean_needed(last_prev_hash: Option<Vec<u8>>, t: BlockTemplate) -> bool {
    match last_prev_hash {
        None => true,
        Some(h) => h@ != t.prev_hash@,
    }
}

/// How announcing a job on `template` changes the instance's job log `pre`
/// into `post`, and what it answers: not-ready without a block template,
/// exhaustion when no job identifier is left, else a job under the instance's
/// next identifier, built on the current block template, with clean-jobs set
/// exactly when its previous-block hash differs from that of the last job the
/// instance announced.
pub open spec fn notified(
    template: Template,
    pre: JobLog,
    post: JobLog,
    r: Result<NotifyRecord, NotifyError>,
) -> bool {
    match template.current {
        None => r == Err::<NotifyRecord, NotifyError>(NotifyError::TemplateUnavailable) && post
            == pre,
        Some(t) => if pre.next_job_id == u64::MAX {
            r == Err::<NotifyRecord, NotifyError>(NotifyError::JobIdsExhausted) && post == pre
        } else {
            let clean = clean_needed(pre.last_prev_hash, t);
            &&& r is Ok
            &&& r->Ok_0.job_id == pre.next_job_id
            &&& r->Ok_0.prev_hash@ == t.prev_hash@
            &&& r->Ok_0.height == t.height
            &&& r->Ok_0.version == t.version
            &&& r->Ok_0.bits == t.bits
            &&& r->Ok_0.curtime == t.curtime
            &&& r->Ok_0.coinbase_value == t.coinbase_value
            &&& r->Ok_0.clean_jobs == clean
            &&& post.next_job_id == pre.next_job_id + 1
            &&& post.oldest_valid_job == if clean {
                pre.next_job_id
            } else {
                pre.oldest_valid_job
            }
            &&& post.last_prev_hash is Some
            &&& post.last_prev_hash->Some_0@ == t.prev_hash@
        },
    }
}

/// Whether the configuration is accepted, and with which network.
pub open spec fn configuration_result(
    network: Seq<char>,
    signature: Seq<char>,
    address: Seq<char>,
) -> Result<Network, TemplateError> {
    match network_named(network) {
        None => Err(TemplateError::UnknownNetwork),
        Some(n) => if encode_utf8(signature).len() > MAX_SIGNATURE_LEN {
            Err(TemplateError::SignatureTooLong)
        } else if !address_valid_for(address, n) {
            Err(TemplateError::InvalidAddress)
        } else {
            Ok(n)
        },
    }
}

/// Copies a byte string.
pub fn copy_bytes(b: &Vec<u8>) -> (r: Vec<u8>)
    ensures
        r@ == b@,
{
    let mut r: Vec<u8> = Vec::new();
    let mut i: usize = 0;
    while i < b.len()
        invariant
            i <= b@.len(),
            r@ == b@.subrange(0, i as int),
        decreases b@.len() - i,
    {
        r.push(b[i]);
        i = i + 1;
        assert(r@ =~= b@.subrange(0, i as int));
    }
    assert(r@ =~= b@);
    r
}

/// Whether two byte strings are equal.
pub fn bytes_equal(a: &Vec<u8>, b: &Vec<u8>) -> (r: bool)
    ensures
        r == (a@ == b@),
{
    if a.len() != b.len() {
        return false;
    }
    let mut i: usize = 0;
    while i < a.len()
        invariant
            i <= a@.len(),
            a@.len() == b@.len(),
            a@.subrange(0, i as int) == b@.subrange(0, i as int),
        decreases a@.len() - i,
    {
        if a[i] != b[i] {
            assert(a@[i as int] != b@[i as int]);
            return false;
        }
        i = i + 1;
        assert(a@.subrange(0, i as int) =~= b@.subrange(0, i as int));
    }
    assert(a@ =~= a@.subrange(0, i as int));
    assert(b@ =~= b@.subrange(0, i as int));
    true
}

impl BlockTemplate {
    /// Copies the template field by field.
    pub fn copy(&self) -> (r: BlockTemplate)
        ensures
            r.prev_hash@ == self.prev_hash@,
            r.height == self.height,
            r.version == self.version,
            r.bits == self.bits,
            r.curtime == self.curtime,
            r.coinbase_value == self.coinbase_value,
    {
        BlockTemplate {
            prev_hash: copy_bytes(&self.prev_hash),
            height: self.height,
            version: self.version,
            bits: self.bits,
            curtime: self.curtime,
            coinbase_value: self.coinbase_value,
        }
    }
}

impl JobLog {
    /// The clean point never passes the next identifier.
    pub open spec fn wf(&self) -> bool {
        self.oldest_valid_job <= self.next_job_id
    }

    /// Whether a share for job `job_id` may still be considered.
    pub open spec fn job_acceptable(&self, job_id: u64) -> bool {
        self.oldest_valid_job <= job_id < self.next_job_id
    }

    /// An instance that has announced nothing yet.
    pub fn new() -> (r: JobLog)
        ensures
            r.next_job_id == 0,
            r.oldest_valid_job == 0,
            r.last_prev_hash is None,
            r.wf(),
    {
        JobLog { next_job_id: 0, oldest_valid_job: 0, last_prev_hash: None }
    }
}

impl Template {
    /// Checks the solo-mining configuration and starts with no block template.
    pub fn new(bitcoin_network: String, solo_miner_signature: String, solo_miner_address: String)
        -> (r: Result<Template, TemplateError>)
        ensures
            match configuration_result(
                bitcoin_network@,
                solo_miner_signature@,
                solo_miner_address@,
            ) {
                Err(e) => r == Err::<Template, TemplateError>(e),
                Ok(n) => r is Ok && r->Ok_0.network == n && r->Ok_0.signature@
                    == solo_miner_signature@ && r->Ok_0.payout_address@ == solo_miner_address@
                    && r->Ok_0.current is None,
            },
    {
        let network = match parse_network(bitcoin_network.as_str()) {
            Some(n) => n,
            None => return Err(TemplateError::UnknownNetwork),
        };
        if solo_miner_signature.as_str().as_bytes().len() > MAX_SIGNATURE_LEN {
            return Err(TemplateError::SignatureTooLong);
        }
        if !address_matches_network(solo_miner_address.as_str(), network) {
            return Err(TemplateError::InvalidAddress);
        }
        Ok(
            Template {
                network,
                signature: solo_miner_signature,
                payout_address: solo_miner_address,
                current: None,
            },
        )
    }

    /// Replaces the block template wholesale.
    pub fn update(&mut self, block_template: BlockTemplate)
        ensures
            *final(self) == (Template { current: Some(block_template), ..*old(self) }),
    {
        self.current = Some(block_template);
    }

    /// Announces a job on the current block template under the instance's
    /// next job identifier.
    pub fn build_notify(&self, jobs: &mut JobLog) -> (r: Result<NotifyRecord, NotifyError>)
        requires
            old(jobs).wf(),
        ensures
            final(jobs).wf(),
            notified(*self, *old(jobs), *final(jobs), r),
    {
        let t = match &self.current {
            Some(t) => t.copy(),
            None => return Err(NotifyError::TemplateUnavailable),
        };
        if jobs.next_job_id == u64::MAX {
            return Err(NotifyError::JobIdsExhausted);
        }
        let clean = match &jobs.last_prev_hash {
            None => true,
            Some(h) => !bytes_equal(h, &t.prev_hash),
        };
        let job_id = jobs.next_job_id;
        if clean {
            jobs.oldest_valid_job = job_id;
        }
        jobs.next_job_id = job_id + 1;
        jobs.last_prev_hash = Some(copy_bytes(&t.prev_hash));
        Ok(
            NotifyRecord {
                job_id,
                prev_hash: t.prev_hash,
                height: t.height,
                version: t.version,
                bits: t.bits,
                curtime: t.curtime,
                coinbase_value: t.coinbase_value,
                clean_jobs: clean,
            },
        )
    }
}

/// Two jobs announced one after the other by one instance, from any sessions
/// and whatever template each was built on: the second has a larger
/// identifier, is flagged clean exactly when its previous-block hash differs
/// from the first's, and when not clean leaves older jobs acceptable.
pub proof fn lemma_successive_jobs(
    first_template: Template,
    template: Template,
    j0: JobLog,
    j1: JobLog,
    j2: JobLog,
    first: NotifyRecord,
    r: Result<NotifyRecord, NotifyError>,
)
    requires
        notified(first_template, j0, j1, Ok(first)),
        notified(template, j1, j2, r),
        template.current is Some,
        j1.next_job_id < u64::MAX,
    ensures
        r is Ok,
        r->Ok_0.job_id > first.job_id,
        r->Ok_0.clean_jobs == (first.prev_hash@ != template.current->Some_0.prev_hash@),
        !r->Ok_0.clean_jobs ==> j2.oldest_valid_job == j1.oldest_valid_job,
{
}

/// Once the instance has announced a job `prev`, a new block template followed
/// by an announcement gives a job with a larger identifier, flagged clean
/// exactly when the new template's previous-block hash differs from `prev`'s.
pub proof fn lemma_update_then_notify(
    t0: Template,
    block_template: BlockTemplate,
    j0: JobLog,
    j1: JobLog,
    j2: JobLog,
    prev: NotifyRecord,
    r: Result<NotifyRecord, NotifyError>,
)
    requires
        notified(t0, j0, j1, Ok(prev)),
        notified(Template { current: Some(block_template), ..t0 }, j1, j2, r),
        j1.next_job_id < u64::MAX,
    ensures
        r is Ok,
        r->Ok_0.job_id > prev.job_id,
        r->Ok_0.clean_jobs == (prev.prev_hash@ != block_template.prev_hash@),
{
}

} // verus!
