use vstd::prelude::*;

use crate::codec::{le_bytes, push_le, push_text, text_bytes};
use crate::hasher::{blake2x256_of, identifier_of, Identifier};
use crate::table::Table;

verus! {

/// A declared transfer of `amount` to `recipient` on chain `to_chain`.
#[derive(Clone, Debug, PartialEq, Eq)]
pub struct BridgeRecord {
    pub from_chain: String,
    pub to_chain: String,
    pub amount: u128,
    pub recipient: String,
}

/// The label of the chain that records are declared on.
pub open spec fn local_chain() -> Seq<char> {
    "polkadot"@
}

/// The encoding of a record that its identifier is the digest of: the three
/// texts and the amount in declaration order.
pub open spec fn bridge_bytes(r: BridgeRecord) -> Seq<u8> {
    text_bytes(r.from_chain@) + text_bytes(r.to_chain@) + le_bytes(r.amount as nat, 16)
        + text_bytes(r.recipient@)
}

/// The identifier of record `r`.
pub open spec fn bridge_id(r: BridgeRecord) -> Seq<u8> {
    blake2x256_of(bridge_bytes(r))
}

/// Writes the encoding of `record`.
pub fn encode_bridge_record(record: &BridgeRecord) -> (r: Vec<u8>)
    ensures
        r@ == bridge_bytes(*record),
{
    let mut out: Vec<u8> = Vec::new();
    push_text(&mut out, &record.from_chain);
    push_text(&mut out, &record.to_chain);
    push_le(&mut out, record.amount, 16);
    push_text(&mut out, &record.recipient);
    assert(out@ =~= bridge_bytes(*record));
    out
}

/// The record of a transfer of `amount` from the local chain to `recipient` on
/// `to_chain`.
pub fn bridge_record(to_chain: String, amount: u128, recipient: String) -> (r: BridgeRecord)
    ensures
        r.from_chain@ == local_chain(),
        r.to_chain == to_chain,
        r.amount == amount,
        r.recipient == recipient,
{
    BridgeRecord { from_chain: "polkadot".to_owned(), to_chain, amount, recipient }
}

/// Bridge records stored under their identifiers; none is ever removed.
pub struct BridgeStore {
    records: Table<Identifier, BridgeRecord>,
}

impl BridgeStore {
    /// The stored records by identifier.
    pub closed spec fn stored(&self) -> Map<Identifier, BridgeRecord> {
        self.records@
    }

    pub closed spec fn wf(&self) -> bool {
        self.records.wf()
    }

    /// No records.
    pub fn new() -> (s: BridgeStore)
        ensures
            s.wf(),
            s.stored() == Map::<Identifier, BridgeRecord>::empty(),
    {
        BridgeStore { records: Table::new() }
    }

    /// Stores `record` under `id`, replacing a record stored there before.
    pub fn record_bridge(&mut self, id: Identifier, record: BridgeRecord)
        requires
            old(self).wf(),
        ensures
            final(self).wf(),
            final(self).stored() == old(self).stored().insert(id, record),
    {
        self.records.insert(id, record);
    }

    /// Declares a transfer of `amount` from the local chain to `recipient` on
    /// `to_chain`, stores the record under its identifier and returns that
    /// identifier. A record with the same fields stored earlier is replaced.
    pub fn bridge_tokens(&mut self, to_chain: String, amount: u128, recipient: String) -> (r:
        Identifier)
        requires
            old(self).wf(),
        ensures
            final(self).wf(),
            final(self).stored().contains_key(r),
            ({
                let rec = final(self).stored()[r];
                &&& rec.from_chain@ == local_chain()
                &&& rec.to_chain == to_chain
                &&& rec.amount == amount
                &&& rec.recipient == recipient
                &&& r@ == bridge_id(rec)
                &&& final(self).stored() == old(self).stored().insert(r, rec)
            }),
    {
        let record = bridge_record(to_chain, amount, recipient);
        let id = identifier_of(&encode_bridge_record(&record));
        self.record_bridge(id, record);
        id
    }

    /// The record stored under `id`, if any.
    pub fn get_bridge_record(&self, id: &Identifier) -> (r: Option<BridgeRecord>)
        requires
            self.wf(),
        ensures
            r == if self.stored().contains_key(*id) {
                Some(self.stored()[*id])
            } else {
                None
            },
    {
        match self.records.get(id) {
            Some(rec) => Some(
                BridgeRecord {
                    from_chain: rec.from_chain.clone(),
                    to_chain: rec.to_chain.clone(),
                    amount: rec.amount,
                    recipient: rec.recipient.clone(),
                },
            ),
            None => None,
        }
    }
}

} // verus!
