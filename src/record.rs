//! Records, which hold a balance and a storage buffer, and the funders that
//! pay for their growth.

use vstd::prelude::*;

verus! {

/// What a record holds: its balance and the contents of its buffer. The
/// record's size is the buffer's length.
pub struct RecordState {
    pub balance: u64,
    pub data: Seq<u8>,
}

impl RecordState {
    pub open spec fn size(self) -> nat {
        self.data.len()
    }
}

/// A persistent record: a balance that funds its retention and a byte buffer.
/// Its balance and size change only through the growth operation; its bytes
/// through `write_bytes`.
pub struct Record {
    balance: u64,
    data: Vec<u8>,
}

impl View for Record {
    type V = RecordState;

    closed spec fn view(&self) -> RecordState {
        RecordState { balance: self.balance, data: self.data@ }
    }
}

impl Record {
    /// A record with the given balance and buffer.
    pub fn new(balance: u64, data: Vec<u8>) -> (r: Record)
        ensures
            r@ == (RecordState { balance, data: data@ }),
    {
        Record { balance, data }
    }

    pub fn balance(&self) -> (r: u64)
        ensures
            r == self@.balance,
    {
        self.balance
    }

    pub fn size(&self) -> (r: usize)
        ensures
            r == self@.size(),
    {
        self.data.len()
    }

    pub fn data(&self) -> (r: &[u8])
        ensures
            r@ == self@.data,
    {
        self.data.as_slice()
    }

    /// Overwrites the buffer from `offset` on with `bytes`. Refuses, changing
    /// nothing, when they do not fit in the buffer.
    pub fn write_bytes(&mut self, offset: usize, bytes: &[u8]) -> (ok: bool)
        ensures
            ok == (offset + bytes@.len() <= old(self)@.size()),
            final(self)@.balance == old(self)@.balance,
            ok ==> final(self)@.data == old(self)@.data.subrange(0, offset as int)
                + bytes@
                + old(self)@.data.subrange(offset + bytes@.len(), old(self)@.size() as int),
            !ok ==> final(self)@ == old(self)@,
    {
        let len = self.data.len();
        if offset > len || bytes.len() > len - offset {
            return false;
        }
        let ghost before = self.data@;
        let mut i: usize = 0;
        while i < bytes.len()
            invariant
                i <= bytes@.len(),
                offset + bytes@.len() <= before.len(),
                len == before.len(),
                self.data@.len() == before.len(),
                self.balance == old(self).balance,
                before == old(self).data@,
                forall|j: int| 0 <= j < offset ==> self.data@[j] == before[j],
                forall|j: int| 0 <= j < i ==> self.data@[offset + j] == bytes@[j],
                forall|j: int| offset + i <= j < before.len() ==> self.data@[j] == before[j],
            decreases bytes@.len() - i,
        {
            self.data.set(offset + i, bytes[i]);
            i = i + 1;
        }
        assert(self.data@ =~= before.subrange(0, offset as int) + bytes@ + before.subrange(
            offset + bytes@.len(),
            before.len() as int,
        ));
        true
    }

    /// Adds `amount` to the balance.
    pub(crate) fn credit(&mut self, amount: u64)
        requires
            old(self)@.balance + amount <= u64::MAX,
        ensures
            final(self)@ == (RecordState { balance: (old(self)@.balance + amount) as u64, ..old(self)@ }),
    {
        self.balance = self.balance + amount;
    }

    /// Sets the buffer's length to `new_size`, keeping the bytes both lengths
    /// share. What the bytes past the old length hold is left open.
    pub(crate) fn set_size(&mut self, new_size: usize)
        ensures
            final(self)@.balance == old(self)@.balance,
            final(self)@.size() == new_size,
            preserves_prefix(old(self)@.data, final(self)@.data),
    {
        self.data.resize(new_size, 0u8);
    }
}

/// `after` keeps the bytes of `before` that both lengths share.
pub open spec fn preserves_prefix(before: Seq<u8>, after: Seq<u8>) -> bool {
    forall|i: int| 0 <= i < before.len() && i < after.len() ==> #[trigger] after[i] == before[i]
}

/// What a funder holds: its balance, and whether it has authorized paying for
/// a growth.
pub struct FunderState {
    pub balance: u64,
    pub authorized: bool,
}

/// An account that pays for a record's growth.
pub struct Funder {
    balance: u64,
    authorized: bool,
}

impl View for Funder {
    type V = FunderState;

    closed spec fn view(&self) -> FunderState {
        FunderState { balance: self.balance, authorized: self.authorized }
    }
}

impl Funder {
    pub fn new(balance: u64, authorized: bool) -> (r: Funder)
        ensures
            r@ == (FunderState { balance, authorized }),
    {
        Funder { balance, authorized }
    }

    pub fn balance(&self) -> (r: u64)
        ensures
            r == self@.balance,
    {
        self.balance
    }

    pub fn is_authorized(&self) -> (r: bool)
        ensures
            r == self@.authorized,
    {
        self.authorized
    }

    /// Takes `amount` from the balance.
    pub(crate) fn debit(&mut self, amount: u64)
        requires
            amount <= old(self)@.balance,
        ensures
            final(self)@ == (FunderState { balance: (old(self)@.balance - amount) as u64, ..old(self)@ }),
    {
        self.balance = self.balance - amount;
    }
}

} // verus!
