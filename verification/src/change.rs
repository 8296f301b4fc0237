//! A record of the change log.

use vstd::prelude::*;

verus! {

/// One logged change: its identifier in the log and its payload.
#[derive(Debug, Clone, PartialEq, Eq)]
pub struct ChangeData {
    pub id: u128,
    pub update: Vec<u8>,
}

/// The identifiers of `data`, in order.
pub open spec fn change_ids(data: Seq<ChangeData>) -> Seq<u128> {
    data.map_values(|change: ChangeData| change.id)
}

/// The payloads of `data`, in order.
pub open spec fn change_payloads(data: Seq<ChangeData>) -> Seq<Seq<u8>> {
    data.map_values(|change: ChangeData| change.update@)
}

/// What a list of byte strings holds.
pub open spec fn frames_of(frames: Seq<Vec<u8>>) -> Seq<Seq<u8>> {
    frames.map_values(|frame: Vec<u8>| frame@)
}

impl ChangeData {
    /// Splits records into their identifiers and their payloads, each in
    /// the order of the records.
    pub fn split_data(data: Vec<Self>) -> (split: (Vec<u128>, Vec<Vec<u8>>))
        ensures
            split.0@ == change_ids(data@),
            frames_of(split.1@) == change_payloads(data@),
    {
        let mut id: Vec<u128> = Vec::new();
        let mut update: Vec<Vec<u8>> = Vec::new();
        for change in records: data
            invariant
                records.seq() == data@,
                id@ == change_ids(data@.take(records.index() as int)),
                frames_of(update@) == change_payloads(data@.take(records.index() as int)),
        {
            proof {
                let next = data@.take(records.index() + 1);
                assert(next.drop_last() == data@.take(records.index() as int));
            }
            let ghost frames = frames_of(update@);
            id.push(change.id);
            update.push(change.update);
            assert(frames_of(update@) == frames.push(change.update@));
        }
        assert(data@.take(data@.len() as int) == data@);
        (id, update)
    }
}

} // verus!
