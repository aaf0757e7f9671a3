//! Execution unit of a comment-thread meta contract: validates transaction
//! payloads, appends comments to content-addressed threads, and decodes
//! fork payloads for minting.

pub mod text;
pub mod types;
pub mod policy;
pub mod errors;
pub mod gateway;
pub mod thread;
pub mod execute;
pub mod fork;

pub use errors::ContractError;
pub use execute::{on_clone, resume_execute, start_execute, ExecuteConfig, ExecuteStep, ExecuteVariant, Payload, PendingThread};
pub use fork::{finish_mint, plan_mint, start_mint, ForkSource, MintStep};
pub use gateway::{dag_get_args, gateway_output, get_timeout_string, make_cmd_args, GatewayConfig};
pub use policy::{is_nft_storage_link, is_profane, TextPolicy, ValidationError};
pub use types::{
    CommentPayload, Content, DataStructFork, FinalComment, FinalMetadata, MetaContract, MetaContractResult, Metadata,
    OpenSeaAttributes, SerdeMetadata, Transaction,
};
