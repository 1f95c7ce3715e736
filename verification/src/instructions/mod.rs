pub mod claim_nft;
pub mod claim_sol;
pub mod claim_spl_token;
pub mod create_will;
pub mod deposit_nft;
pub mod deposit_sol;
pub mod deposit_spl_token;
pub mod initialize;
pub mod send_heartbeat;
pub mod trigger_will;
pub mod update_config;
pub mod withdraw_sol;

pub use claim_nft::ClaimNft;
pub use claim_sol::ClaimSol;
pub use claim_spl_token::ClaimSplToken;
pub use create_will::CreateWill;
pub use deposit_nft::DepositNft;
pub use deposit_sol::DepositSol;
pub use deposit_spl_token::DepositSplToken;
pub use initialize::Initialize;
pub use send_heartbeat::SendHeartbeat;
pub use trigger_will::TriggerWill;
pub use update_config::{ConfigUpdate, UpdateConfig};
pub use withdraw_sol::WithdrawSol;
