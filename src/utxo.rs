//! Unspent transaction outputs and references to them.
use vstd::prelude::*;

verus! {

/// A reference to an output of an earlier transaction.
#[derive(Clone, Debug, PartialEq, Eq, Hash)]
pub struct Outpoint {
    /// The transaction's identifier, as hex text.
    pub txid: String,
    /// The index of the output within that transaction.
    pub vout: u8,
}

/// An unspent transaction output. A value of zero marks it as spent.
#[derive(Clone, Debug, PartialEq, Eq, Hash)]
pub struct UTXO {
    /// The transaction's identifier, as raw bytes.
    pub txid: Vec<u8>,
    /// The index of the output within that transaction.
    pub vout: u32,
    /// The amount, in the smallest unit of currency.
    pub value: u64,
}

/// The output `u` once spent: its value is zero and the rest is kept.
pub open spec fn spent(u: UTXO) -> UTXO {
    UTXO { txid: u.txid, vout: u.vout, value: 0 }
}

/// Marks an output as spent by setting its value to zero.
pub fn consume_utxo(utxo: UTXO) -> (r: UTXO)
    ensures
        r == spent(utxo),
{
    let mut utxo = utxo;
    utxo.value = 0;
    utxo
}

/// Spending is idempotent and changes the value alone.
pub proof fn lemma_consume_idempotent(u: UTXO)
    ensures
        spent(spent(u)) == spent(u),
        spent(spent(u)).value == 0,
        spent(u).txid == u.txid,
        spent(u).vout == u.vout,
{
}

/// Formats a transaction identifier for display, as `txid: ` followed by it.
pub fn move_txid(txid: String) -> (r: String)
    ensures
        r@ == "txid: "@ + txid@,
{
    let mut r = String::from_str("txid: ");
    r.append(txid.as_str());
    r
}

} // verus!
