//! The handler that the host runtime invokes.

use vstd::prelude::*;
use crate::account::{Account, AccountView, ProgramId};
use crate::codec::COUNTER_LEN;
use crate::error::ErrorKind;
use crate::state::{
    lemma_decoded_of_encoded, lemma_encoded_is_injective, lemma_greeted_counts, GreetingAccount,
};

verus! {

/// The accounts of a list, each as plain sequences.
pub open spec fn views(accounts: Seq<Account>) -> Seq<AccountView> {
    accounts.map_values(|account: Account| account@)
}

/// How an invocation ends: the first of the checks that fails, in the order in
/// which the handler makes them, or success. The payload plays no part.
pub open spec fn outcome(
    program_id: Seq<u8>,
    accounts: Seq<AccountView>,
    payload: Seq<u8>,
) -> Result<(), ErrorKind> {
    if accounts.len() == 0 {
        Err(ErrorKind::MissingAccount)
    } else if accounts[0].owner != program_id {
        Err(ErrorKind::IncorrectOwner)
    } else if GreetingAccount::decoded(accounts[0].data) is None {
        Err(ErrorKind::DecodeError)
    } else {
        Ok(())
    }
}

/// The accounts as an invocation leaves them. One that succeeds replaces the
/// first account's buffer by the encoding of its record greeted once more; one
/// that fails changes nothing.
pub open spec fn accounts_after(
    program_id: Seq<u8>,
    accounts: Seq<AccountView>,
    payload: Seq<u8>,
) -> Seq<AccountView> {
    if outcome(program_id, accounts, payload) is Ok {
        accounts.update(
            0,
            AccountView {
                owner: accounts[0].owner,
                data: GreetingAccount::decoded(accounts[0].data).unwrap().greeted().encoded(),
            },
        )
    } else {
        accounts
    }
}

/// Greets the first of `accounts`: checks that the executing program owns it,
/// decodes the record in its buffer, counts one more greeting and encodes the
/// record back into the same buffer. `instruction_data` is ignored.
pub fn process_instruction(
    program_id: &ProgramId,
    accounts: &mut [Account],
    instruction_data: &[u8],
) -> (r: Result<(), ErrorKind>)
    ensures
        r == outcome(program_id@, views(old(accounts)@), instruction_data@),
        final(accounts)@.len() == old(accounts)@.len(),
        views(final(accounts)@) == accounts_after(
            program_id@,
            views(old(accounts)@),
            instruction_data@,
        ),
{
    if accounts.len() == 0 {
        return Err(ErrorKind::MissingAccount);
    }
    let account = &mut accounts[0];
    if account.owner != *program_id {
        return Err(ErrorKind::IncorrectOwner);
    }
    let mut greeting_account = GreetingAccount::try_from_slice(account.data.as_slice())?;
    greeting_account.greet();
    greeting_account.serialize(account.data.as_mut_slice())?;
    Ok(())
}

/// One invocation on a buffer that encodes a record, for the program that owns
/// the account, succeeds; the buffer then decodes to that record with one more
/// greeting, and nothing else has changed.
pub proof fn lemma_single_invocation(
    program_id: Seq<u8>,
    accounts: Seq<AccountView>,
    payload: Seq<u8>,
    record: GreetingAccount,
)
    requires
        accounts.len() > 0,
        accounts[0].owner == program_id,
        accounts[0].data == record.encoded(),
    ensures
        outcome(program_id, accounts, payload) == Ok::<(), ErrorKind>(()),
        ({
            let after = accounts_after(program_id, accounts, payload);
            &&& after.len() == accounts.len()
            &&& after[0].owner == accounts[0].owner
            &&& GreetingAccount::decoded(after[0].data) == Some(record.greeted())
            &&& record.greeted().counter == (record.counter + 1) % 0x1_0000_0000
            &&& forall|i: int| 1 <= i < accounts.len() ==> after[i] == accounts[i]
        }),
{
    lemma_decoded_of_encoded(record);
    lemma_decoded_of_encoded(record.greeted());
    lemma_greeted_counts(record);
}

/// A second invocation counts again: two in a row leave the record greeted
/// twice, which is never the record greeted once.
pub proof fn lemma_two_invocations(
    program_id: Seq<u8>,
    accounts: Seq<AccountView>,
    first_payload: Seq<u8>,
    second_payload: Seq<u8>,
)
    requires
        outcome(program_id, accounts, first_payload) is Ok,
    ensures
        ({
            let record = GreetingAccount::decoded(accounts[0].data).unwrap();
            let once = accounts_after(program_id, accounts, first_payload);
            let twice = accounts_after(program_id, once, second_payload);
            &&& outcome(program_id, once, second_payload) == Ok::<(), ErrorKind>(())
            &&& GreetingAccount::decoded(twice[0].data) == Some(record.greeted().greeted())
            &&& record.greeted().greeted().counter == (record.counter + 2) % 0x1_0000_0000
            &&& record.greeted().greeted() != record.greeted()
            &&& twice[0].data != once[0].data
        }),
{
    let record = GreetingAccount::decoded(accounts[0].data).unwrap();
    let once = accounts_after(program_id, accounts, first_payload);
    let twice = accounts_after(program_id, once, second_payload);
    assert(once[0].data == record.greeted().encoded());
    lemma_decoded_of_encoded(record.greeted());
    assert(outcome(program_id, once, second_payload) is Ok);
    assert(twice[0].data == record.greeted().greeted().encoded());
    lemma_decoded_of_encoded(record.greeted().greeted());
    lemma_greeted_counts(record);
    if twice[0].data == once[0].data {
        lemma_encoded_is_injective(record.greeted().greeted(), record.greeted());
    }
}

/// An account that another program owns is refused, whatever its buffer
/// holds, and no byte of any account changes.
pub proof fn lemma_wrong_owner_is_refused(
    program_id: Seq<u8>,
    accounts: Seq<AccountView>,
    payload: Seq<u8>,
)
    requires
        accounts.len() > 0,
        accounts[0].owner != program_id,
    ensures
        outcome(program_id, accounts, payload) == Err::<(), ErrorKind>(ErrorKind::IncorrectOwner),
        accounts_after(program_id, accounts, payload) == accounts,
{
}

/// Without an account there is nothing to greet.
pub proof fn lemma_empty_list_is_refused(program_id: Seq<u8>, payload: Seq<u8>)
    ensures
        outcome(program_id, Seq::<AccountView>::empty(), payload) == Err::<(), ErrorKind>(
            ErrorKind::MissingAccount,
        ),
        accounts_after(program_id, Seq::<AccountView>::empty(), payload) == Seq::<
            AccountView,
        >::empty(),
{
}

/// A buffer of any length but that of an encoded record is refused and left
/// as it was; a truncated buffer is one such.
pub proof fn lemma_malformed_buffer_is_refused(
    program_id: Seq<u8>,
    accounts: Seq<AccountView>,
    payload: Seq<u8>,
)
    requires
        accounts.len() > 0,
        accounts[0].owner == program_id,
        accounts[0].data.len() != COUNTER_LEN,
    ensures
        outcome(program_id, accounts, payload) == Err::<(), ErrorKind>(ErrorKind::DecodeError),
        accounts_after(program_id, accounts, payload) == accounts,
{
}

/// Two invocations that differ only in their payload end alike and leave the
/// accounts alike.
pub proof fn lemma_payload_is_ignored(
    program_id: Seq<u8>,
    accounts: Seq<AccountView>,
    payload: Seq<u8>,
    other_payload: Seq<u8>,
)
    ensures
        outcome(program_id, accounts, payload) == outcome(program_id, accounts, other_payload),
        accounts_after(program_id, accounts, payload) == accounts_after(
            program_id,
            accounts,
            other_payload,
        ),
{
}

/// An invocation never resizes a buffer, never touches an owner, and changes
/// no account but the first; one that fails changes nothing at all. Encoding
/// cannot fail once decoding has succeeded, so no invocation ends with
/// `EncodeError`.
pub proof fn lemma_invocation_is_atomic(
    program_id: Seq<u8>,
    accounts: Seq<AccountView>,
    payload: Seq<u8>,
)
    ensures
        outcome(program_id, accounts, payload) != Err::<(), ErrorKind>(ErrorKind::EncodeError),
        outcome(program_id, accounts, payload) is Err ==> accounts_after(
            program_id,
            accounts,
            payload,
        ) == accounts,
        ({
            let after = accounts_after(program_id, accounts, payload);
            &&& after.len() == accounts.len()
            &&& forall|i: int|
                0 <= i < accounts.len() ==> {
                    &&& (#[trigger] after[i]).owner == accounts[i].owner
                    &&& after[i].data.len() == accounts[i].data.len()
                    &&& i > 0 ==> after[i] == accounts[i]
                }
        }),
{
}

} // verus!
