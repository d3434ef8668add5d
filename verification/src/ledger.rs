//! Plain-data snapshots of the ledger collaborators.
//!
//! The engine never talks to a live ledger: the surrounding node hands it a
//! [`BankForks`] snapshot holding, per slot, exactly the facts the engine
//! queries — account state with the slot it was last modified in, the accounts
//! a program owns that changed since the parent bank, collected transaction
//! logs, signature statuses processed since the parent, and the pre-rendered
//! parsed form of accounts whose owning program the node's account parser
//! understands. Transaction errors likewise arrive pre-rendered as JSON
//! fragments, since their shape belongs to the collaborator.
//!
//! Lookups take the first entry with a matching key, in both the executable
//! code and its specification.

use vstd::prelude::*;

verus! {

/// Ledger state of one account.
#[derive(Debug)]
pub struct Account {
    pub lamports: u64,
    pub data: Vec<u8>,
    /// The owning program id (raw bytes, not base58).
    pub owner: Vec<u8>,
    pub executable: bool,
    pub rent_epoch: u64,
}

/// One account record in a bank: its address, state, and the slot it was last
/// modified in.
#[derive(Debug)]
pub struct AccountEntry {
    pub pubkey: Vec<u8>,
    pub account: Account,
    pub modified_slot: u64,
}

/// One account owned by a program that was modified since the parent bank.
#[derive(Debug)]
pub struct ProgramAccountEntry {
    pub program: Vec<u8>,
    pub pubkey: Vec<u8>,
    pub account: Account,
}

/// One transaction's collected logs.
#[derive(Debug)]
pub struct TransactionLogInfo {
    pub signature: Vec<u8>,
    /// The execution error, pre-rendered as a JSON fragment; `None` on success.
    pub err: Option<Vec<u8>>,
    pub is_vote: bool,
    pub log_messages: Vec<String>,
    /// The addresses the transaction mentions, for single-address filtering.
    pub addresses: Vec<Vec<u8>>,
}

/// One signature whose status was processed since the parent bank.
#[derive(Debug)]
pub struct SignatureStatusEntry {
    pub signature: Vec<u8>,
    /// The execution error, pre-rendered as a JSON fragment; `None` on success.
    pub err: Option<Vec<u8>>,
}

/// The parsed rendering of one account, from the node's account parser.
#[derive(Debug)]
pub struct ParsedAccountEntry {
    pub pubkey: Vec<u8>,
    pub json: Vec<u8>,
}

/// A queryable snapshot of ledger state at one slot.
#[derive(Debug)]
pub struct LedgerBank {
    pub slot: u64,
    pub accounts: Vec<AccountEntry>,
    pub program_accounts: Vec<ProgramAccountEntry>,
    pub logs: Vec<TransactionLogInfo>,
    pub signature_statuses: Vec<SignatureStatusEntry>,
    pub parsed_accounts: Vec<ParsedAccountEntry>,
}

/// The banks the node currently holds, one per live slot.
#[derive(Debug)]
pub struct BankForks {
    pub banks: Vec<LedgerBank>,
}

/// The commitment snapshot the resolver consumes.
#[derive(Clone, Copy, Debug, PartialEq, Eq, Structural)]
pub struct CommitmentSlots {
    /// The processed tip.
    pub slot: u64,
    pub highest_confirmed_slot: u64,
    /// The finalized slot.
    pub highest_confirmed_root: u64,
}

impl CommitmentSlots {
    /// A snapshot with every slot at zero.
    pub fn new() -> (r: CommitmentSlots)
        ensures
            r == (CommitmentSlots { slot: 0, highest_confirmed_slot: 0, highest_confirmed_root: 0 }),
    {
        CommitmentSlots { slot: 0, highest_confirmed_slot: 0, highest_confirmed_root: 0 }
    }
}

/// The first account entry for `pk`, scanning from the front.
pub open spec fn spec_find_account(s: Seq<AccountEntry>, pk: Seq<u8>) -> Option<AccountEntry>
    decreases s.len(),
{
    if s.len() == 0 {
        None
    } else if s[0].pubkey@ == pk {
        Some(s[0])
    } else {
        spec_find_account(s.drop_first(), pk)
    }
}

/// The first status entry for `sig`, scanning from the front.
pub open spec fn spec_find_status(s: Seq<SignatureStatusEntry>, sig: Seq<u8>) -> Option<
    SignatureStatusEntry,
>
    decreases s.len(),
{
    if s.len() == 0 {
        None
    } else if s[0].signature@ == sig {
        Some(s[0])
    } else {
        spec_find_status(s.drop_first(), sig)
    }
}

/// The first parsed rendering for `pk`, scanning from the front.
pub open spec fn spec_find_parsed(s: Seq<ParsedAccountEntry>, pk: Seq<u8>) -> Option<
    ParsedAccountEntry,
>
    decreases s.len(),
{
    if s.len() == 0 {
        None
    } else if s[0].pubkey@ == pk {
        Some(s[0])
    } else {
        spec_find_parsed(s.drop_first(), pk)
    }
}

/// The first bank for `slot`, scanning from the front.
pub open spec fn spec_find_bank(s: Seq<LedgerBank>, slot: u64) -> Option<LedgerBank>
    decreases s.len(),
{
    if s.len() == 0 {
        None
    } else if s[0].slot == slot {
        Some(s[0])
    } else {
        spec_find_bank(s.drop_first(), slot)
    }
}

/// The program-account entries owned by `prog`, in bank order.
pub open spec fn spec_program_accounts(s: Seq<ProgramAccountEntry>, prog: Seq<u8>) -> Seq<
    ProgramAccountEntry,
>
    decreases s.len(),
{
    if s.len() == 0 {
        Seq::empty()
    } else if s.last().program@ == prog {
        spec_program_accounts(s.drop_last(), prog).push(s.last())
    } else {
        spec_program_accounts(s.drop_last(), prog)
    }
}

/// Whether a transaction log mentions `pk`.
pub open spec fn spec_log_mentions(l: TransactionLogInfo, pk: Seq<u8>) -> bool {
    exists|i: int| 0 <= i < l.addresses@.len() && l.addresses@[i]@ == pk
}

/// Whether a log entry passes an optional single-address filter.
pub open spec fn spec_log_selected(l: TransactionLogInfo, addr: Option<Seq<u8>>) -> bool {
    match addr {
        None => true,
        Some(pk) => spec_log_mentions(l, pk),
    }
}

/// The log entries that pass an optional single-address filter, in bank order.
pub open spec fn spec_logs_for(s: Seq<TransactionLogInfo>, addr: Option<Seq<u8>>) -> Seq<
    TransactionLogInfo,
>
    decreases s.len(),
{
    if s.len() == 0 {
        Seq::empty()
    } else if spec_log_selected(s.last(), addr) {
        spec_logs_for(s.drop_last(), addr).push(s.last())
    } else {
        spec_logs_for(s.drop_last(), addr)
    }
}

impl LedgerBank {
    /// The account at `pubkey` with the slot it was last modified in, if the
    /// bank holds one.
    pub fn get_account_modified_slot(&self, pubkey: &Vec<u8>) -> (r: Option<(&Account, u64)>)
        ensures
            match r {
                None => spec_find_account(self.accounts@, pubkey@) is None,
                Some((a, s)) => {
                    &&& spec_find_account(self.accounts@, pubkey@) matches Some(e)
                    &&& *a == e.account
                    &&& s == e.modified_slot
                },
            },
    {
        let n = self.accounts.len();
        proof {
            assert(self.accounts@.skip(0) =~= self.accounts@);
        }
        let mut i: usize = 0;
        while i < n
            invariant
                n == self.accounts@.len(),
                0 <= i <= n,
                spec_find_account(self.accounts@, pubkey@) == spec_find_account(
                    self.accounts@.skip(i as int),
                    pubkey@,
                ),
            decreases n - i,
        {
            proof {
                assert(self.accounts@.skip(i as int)[0] == self.accounts@[i as int]);
                assert(self.accounts@.skip(i as int).drop_first() =~= self.accounts@.skip(
                    i as int + 1,
                ));
            }
            if crate::params::bytes_eq(&self.accounts[i].pubkey, pubkey) {
                return Some((&self.accounts[i].account, self.accounts[i].modified_slot));
            }
            i += 1;
        }
        None
    }

    /// The status of `signature` if it was processed since the parent bank:
    /// `Some(None)` for success, `Some(Some(err))` for a failed execution.
    pub fn get_signature_status_processed_since_parent(&self, signature: &Vec<u8>) -> (r: Option<
        &Option<Vec<u8>>,
    >)
        ensures
            match r {
                None => spec_find_status(self.signature_statuses@, signature@) is None,
                Some(e) => {
                    &&& spec_find_status(self.signature_statuses@, signature@) matches Some(st)
                    &&& *e == st.err
                },
            },
    {
        let n = self.signature_statuses.len();
        proof {
            assert(self.signature_statuses@.skip(0) =~= self.signature_statuses@);
        }
        let mut i: usize = 0;
        while i < n
            invariant
                n == self.signature_statuses@.len(),
                0 <= i <= n,
                spec_find_status(self.signature_statuses@, signature@) == spec_find_status(
                    self.signature_statuses@.skip(i as int),
                    signature@,
                ),
            decreases n - i,
        {
            proof {
                assert(self.signature_statuses@.skip(i as int)[0]
                    == self.signature_statuses@[i as int]);
                assert(self.signature_statuses@.skip(i as int).drop_first()
                    =~= self.signature_statuses@.skip(i as int + 1));
            }
            if crate::params::bytes_eq(&self.signature_statuses[i].signature, signature) {
                return Some(&self.signature_statuses[i].err);
            }
            i += 1;
        }
        None
    }

    /// The parsed rendering of the account at `pubkey`, if the node's account
    /// parser produced one.
    pub fn get_parsed_account(&self, pubkey: &Vec<u8>) -> (r: Option<&Vec<u8>>)
        ensures
            match r {
                None => spec_find_parsed(self.parsed_accounts@, pubkey@) is None,
                Some(j) => {
                    &&& spec_find_parsed(self.parsed_accounts@, pubkey@) matches Some(e)
                    &&& *j == e.json
                },
            },
    {
        let n = self.parsed_accounts.len();
        proof {
            assert(self.parsed_accounts@.skip(0) =~= self.parsed_accounts@);
        }
        let mut i: usize = 0;
        while i < n
            invariant
                n == self.parsed_accounts@.len(),
                0 <= i <= n,
                spec_find_parsed(self.parsed_accounts@, pubkey@) == spec_find_parsed(
                    self.parsed_accounts@.skip(i as int),
                    pubkey@,
                ),
            decreases n - i,
        {
            proof {
                assert(self.parsed_accounts@.skip(i as int)[0] == self.parsed_accounts@[i as int]);
                assert(self.parsed_accounts@.skip(i as int).drop_first()
                    =~= self.parsed_accounts@.skip(i as int + 1));
            }
            if crate::params::bytes_eq(&self.parsed_accounts[i].pubkey, pubkey) {
                return Some(&self.parsed_accounts[i].json);
            }
            i += 1;
        }
        None
    }

    /// The accounts owned by `program` that were modified since the parent
    /// bank, in bank order.
    pub fn get_program_accounts_modified_since_parent(&self, program: &Vec<u8>) -> (r: Vec<
        &ProgramAccountEntry,
    >)
        ensures
            r@.map_values(|e: &ProgramAccountEntry| *e) == spec_program_accounts(
                self.program_accounts@,
                program@,
            ),
    {
        let n = self.program_accounts.len();
        let mut out: Vec<&ProgramAccountEntry> = Vec::new();
        let mut i: usize = 0;
        while i < n
            invariant
                n == self.program_accounts@.len(),
                0 <= i <= n,
                out@.map_values(|e: &ProgramAccountEntry| *e) == spec_program_accounts(
                    self.program_accounts@.take(i as int),
                    program@,
                ),
            decreases n - i,
        {
            proof {
                let t = self.program_accounts@.take(i as int + 1);
                assert(t.drop_last() =~= self.program_accounts@.take(i as int));
                assert(t.last() == self.program_accounts@[i as int]);
            }
            let ghost prev = out@;
            if crate::params::bytes_eq(&self.program_accounts[i].program, program) {
                out.push(&self.program_accounts[i]);
                proof {
                    assert(out@.map_values(|e: &ProgramAccountEntry| *e) =~= prev.map_values(
                        |e: &ProgramAccountEntry| *e,
                    ).push(self.program_accounts@[i as int]));
                }
            }
            i += 1;
        }
        proof {
            assert(self.program_accounts@.take(n as int) =~= self.program_accounts@);
        }
        out
    }

    /// The collected transaction logs, optionally restricted to transactions
    /// that mention one address.
    pub fn get_transaction_logs(&self, address: Option<&Vec<u8>>) -> (r: Vec<&TransactionLogInfo>)
        ensures
            r@.map_values(|e: &TransactionLogInfo| *e) == spec_logs_for(
                self.logs@,
                match address {
                    None => None,
                    Some(pk) => Some(pk@),
                },
            ),
    {
        let ghost addr: Option<Seq<u8>> = match address {
            None => None,
            Some(pk) => Some(pk@),
        };
        let n = self.logs.len();
        let mut out: Vec<&TransactionLogInfo> = Vec::new();
        let mut i: usize = 0;
        while i < n
            invariant
                n == self.logs@.len(),
                0 <= i <= n,
                addr == (match address {
                    None => None::<Seq<u8>>,
                    Some(pk) => Some(pk@),
                }),
                out@.map_values(|e: &TransactionLogInfo| *e) == spec_logs_for(
                    self.logs@.take(i as int),
                    addr,
                ),
            decreases n - i,
        {
            proof {
                let t = self.logs@.take(i as int + 1);
                assert(t.drop_last() =~= self.logs@.take(i as int));
                assert(t.last() == self.logs@[i as int]);
            }
            let ghost prev = out@;
            let selected: bool = match address {
                None => true,
                Some(pk) => log_mentions(&self.logs[i], pk),
            };
            if selected {
                out.push(&self.logs[i]);
                proof {
                    assert(out@.map_values(|e: &TransactionLogInfo| *e) =~= prev.map_values(
                        |e: &TransactionLogInfo| *e,
                    ).push(self.logs@[i as int]));
                }
            }
            i += 1;
        }
        proof {
            assert(self.logs@.take(n as int) =~= self.logs@);
        }
        out
    }
}

/// Whether a transaction log mentions `pk`.
fn log_mentions(l: &TransactionLogInfo, pk: &Vec<u8>) -> (r: bool)
    ensures
        r == spec_log_mentions(*l, pk@),
{
    let n = l.addresses.len();
    let mut i: usize = 0;
    while i < n
        invariant
            n == l.addresses@.len(),
            0 <= i <= n,
            forall|j: int| 0 <= j < i ==> l.addresses@[j]@ != pk@,
        decreases n - i,
    {
        if crate::params::bytes_eq(&l.addresses[i], pk) {
            return true;
        }
        i += 1;
    }
    false
}

impl BankForks {
    /// The bank at `slot`, if the node holds one.
    pub fn get(&self, slot: u64) -> (r: Option<&LedgerBank>)
        ensures
            match r {
                None => spec_find_bank(self.banks@, slot) is None,
                Some(b) => spec_find_bank(self.banks@, slot) == Some(*b),
            },
    {
        let n = self.banks.len();
        proof {
            assert(self.banks@.skip(0) =~= self.banks@);
        }
        let mut i: usize = 0;
        while i < n
            invariant
                n == self.banks@.len(),
                0 <= i <= n,
                spec_find_bank(self.banks@, slot) == spec_find_bank(
                    self.banks@.skip(i as int),
                    slot,
                ),
            decreases n - i,
        {
            proof {
                assert(self.banks@.skip(i as int)[0] == self.banks@[i as int]);
                assert(self.banks@.skip(i as int).drop_first() =~= self.banks@.skip(i as int + 1));
            }
            if self.banks[i].slot == slot {
                return Some(&self.banks[i]);
            }
            i += 1;
        }
        None
    }
}

} // verus!
