pub mod init_carbon_token;
pub mod init_rwa_token;
pub mod initialize;
pub mod issue_consumer_cert;
pub mod issue_minter_cert;
pub mod mint_rwa_token;
pub mod retire_token;
pub mod update_quota_credit;
