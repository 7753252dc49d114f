//! Server-side state of one downstream Stratum V1 session of a solo-mining
//! bridge: capability negotiation, authorization, extranonce allocation,
//! share eligibility and job notification from the current block template.

pub mod extranonce;
pub mod handler;
pub mod session_ids;
pub mod template;
pub mod version_rolling;

pub use extranonce::{session_extranonce1, EXTRANONCE1_SIZE, EXTRANONCE2_SIZE};
pub use handler::{
    AuthorizeOutcome, Share, SubmissionRejected, Subscription, SubscriptionMethod, Sv1Handler,
    SHARE_WORD_SIZE,
};
pub use session_ids::SessionIds;
pub use template::{
    bytes_equal, copy_bytes, BlockTemplate, JobLog, Network, NotifyError, NotifyRecord, Template,
    TemplateError, MAX_SIGNATURE_LEN,
};
pub use version_rolling::{
    count_ones, negotiate_mask, negotiate_rolling, ConfigurationError, RollingGrant,
    SERVER_VERSION_ROLLING_MASK,
};
