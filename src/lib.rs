//! Wallet ledger, signed-message protocol, CAPTCHA session state machine and
//! claim orchestration decisions for an automated reward-claiming client.

pub mod codec;
pub mod wallet;
pub mod protocol;
pub mod remote;
pub mod captcha;
pub mod ledger;
pub mod orchestrator;
