//! Byte-level codecs and transaction primitives for a Bitcoin-style ledger.
pub mod endian;
pub mod hex_codec;
pub mod script;
pub mod utxo;
pub mod wallet;

pub use endian::{swap_endian_u32, to_big_endian};
pub use hex_codec::{bytes_to_hex, decode_hex, hex_to_bytes, DecodeError};
pub use script::{classify_script, read_pushdata, Opcode, ScriptError, ScriptType};
pub use utxo::{consume_utxo, move_txid, Outpoint, UTXO};
pub use wallet::{apply_fee, parse_satoshis, TestWallet, Wallet};
