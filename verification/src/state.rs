//! The record that an account's buffer holds.

use vstd::prelude::*;
use crate::codec::{
    le_bytes, le_value, lemma_le_bytes_of_le_value, lemma_le_value_of_le_bytes, u32_serialize,
    u32_try_from_slice, COUNTER_LEN,
};
use crate::error::ErrorKind;

verus! {

/// The state stored in a greeted account.
#[derive(Debug, Clone, Copy, PartialEq, Eq, Structural)]
pub struct GreetingAccount {
    /// Number of greetings.
    pub counter: u32,
}

impl GreetingAccount {
    /// The record that `bytes` encodes: exactly four bytes, the counter in
    /// little-endian order. Any other length encodes nothing.
    pub open spec fn decoded(bytes: Seq<u8>) -> Option<GreetingAccount> {
        if bytes.len() == COUNTER_LEN {
            Some(GreetingAccount { counter: le_value(bytes) as u32 })
        } else {
            None
        }
    }

    /// The four bytes that encode this record.
    pub open spec fn encoded(self) -> Seq<u8> {
        le_bytes(self.counter)
    }

    /// This record after one more greeting. The counter wraps to zero after
    /// the largest 32-bit value.
    pub open spec fn greeted(self) -> GreetingAccount {
        GreetingAccount { counter: ((self.counter + 1) % 0x1_0000_0000) as u32 }
    }

    /// Decodes a record from a buffer that holds nothing else.
    pub fn try_from_slice(bytes: &[u8]) -> (r: Result<GreetingAccount, ErrorKind>)
        ensures
            r == match Self::decoded(bytes@) {
                Some(record) => Ok::<GreetingAccount, ErrorKind>(record),
                None => Err(ErrorKind::DecodeError),
            },
    {
        match u32_try_from_slice(bytes) {
            Ok(counter) => Ok(GreetingAccount { counter }),
            Err(_) => Err(ErrorKind::DecodeError),
        }
    }

    /// Counts one more greeting, wrapping on overflow.
    pub fn greet(&mut self)
        ensures
            *final(self) == old(self).greeted(),
    {
        self.counter = self.counter.wrapping_add(1);
    }

    /// Encodes this record into the front of `buf`, in place. A buffer that is
    /// too small is reported and left as it was.
    pub fn serialize(&self, buf: &mut [u8]) -> (r: Result<(), ErrorKind>)
        ensures
            r == if old(buf)@.len() >= COUNTER_LEN {
                Ok::<(), ErrorKind>(())
            } else {
                Err(ErrorKind::EncodeError)
            },
            final(buf)@ == if old(buf)@.len() >= COUNTER_LEN {
                self.encoded() + old(buf)@.skip(COUNTER_LEN as int)
            } else {
                old(buf)@
            },
    {
        if buf.len() < COUNTER_LEN {
            return Err(ErrorKind::EncodeError);
        }
        match u32_serialize(self.counter, buf) {
            Ok(()) => Ok(()),
            Err(_) => Err(ErrorKind::EncodeError),
        }
    }
}

/// A record survives being encoded and decoded.
pub proof fn lemma_decoded_of_encoded(record: GreetingAccount)
    ensures
        GreetingAccount::decoded(record.encoded()) == Some(record),
{
    lemma_le_value_of_le_bytes(record.counter);
}

/// A buffer that decodes is the encoding of what it decodes to.
pub proof fn lemma_encoded_of_decoded(bytes: Seq<u8>)
    requires
        bytes.len() == COUNTER_LEN,
    ensures
        GreetingAccount::decoded(bytes) matches Some(record) && record.encoded() == bytes,
{
    lemma_le_bytes_of_le_value(bytes);
}

/// Records with the same encoding are the same record.
pub proof fn lemma_encoded_is_injective(a: GreetingAccount, b: GreetingAccount)
    requires
        a.encoded() == b.encoded(),
    ensures
        a == b,
{
    lemma_decoded_of_encoded(a);
    lemma_decoded_of_encoded(b);
}

/// Every greeting changes the record: one greeting adds one to the counter
/// and two add two, each modulo 2^32, so neither leaves it as it was before.
pub proof fn lemma_greeted_counts(record: GreetingAccount)
    ensures
        record.greeted().counter == (record.counter + 1) % 0x1_0000_0000,
        record.greeted().greeted().counter == (record.counter + 2) % 0x1_0000_0000,
        record.counter < u32::MAX ==> record.greeted().counter == record.counter + 1,
        record.counter == u32::MAX ==> record.greeted().counter == 0,
        record.greeted() != record,
        record.greeted().greeted() != record.greeted(),
{
}

} // verus!
