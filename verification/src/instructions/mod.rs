//! One module per instruction: its accounts, the constraints they must
//! meet, and the handler that decides and changes the escrow.
pub mod close;
pub mod deposit;
pub mod dispute;
pub mod initialize;
pub mod refund;
pub mod release;
