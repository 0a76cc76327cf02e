//! Recovery of funds from a wallet seed: a set of the scripts of all
//! unspent outputs, loaded from a snapshot, and a search that derives keys
//! over a space of derivation paths and looks their scripts up in the set.

pub mod script_set;
pub mod uspk_set;
pub mod loader;
pub mod exploration;
pub mod keys;
pub mod search;
pub mod text;
pub mod paths;
pub mod gui_input;
pub mod bitcoincore_client;
pub mod retriever_specific;
pub mod explorer;
pub mod final_finds;
