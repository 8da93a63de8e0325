//! The account registry: one record per address, and the only writer of
//! balances.

use crate::error::{outcome, ContractError, ErrorView};
use crate::state::{User, UserView};
use vstd::prelude::*;

verus! {

/// The accounts as the specifications see them: each address with its record.
pub type Accounts = Map<Seq<char>, UserView>;

/// Opening an account: refused where the address has one, else a new record
/// with a balance of zero.
pub open spec fn open_account_spec(
    users: Accounts,
    address: Seq<char>,
    name: Seq<char>,
    lastname: Seq<char>,
) -> (Accounts, Result<UserView, ErrorView>) {
    if users.contains_key(address) {
        (users, Err(ErrorView::UserAlreadyExists { address }))
    } else {
        let user = UserView { address, name, lastname, balance: 0 };
        (users.insert(address, user), Ok(user))
    }
}

/// Reading a balance.
pub open spec fn get_balance_spec(users: Accounts, address: Seq<char>) -> Result<u64, ErrorView> {
    if users.contains_key(address) {
        Ok(users[address].balance)
    } else {
        Err(ErrorView::UserDoesNotExist { address })
    }
}

/// Adding `amount` to a balance: refused where the account is missing or the
/// sum leaves the range of the balance.
pub open spec fn deposit_spec(users: Accounts, address: Seq<char>, amount: u64) -> (
    Accounts,
    Result<u64, ErrorView>,
) {
    if !users.contains_key(address) {
        (users, Err(ErrorView::UserDoesNotExist { address }))
    } else if users[address].balance + amount > u64::MAX {
        (users, Err(ErrorView::AmountOverflow { balance: users[address].balance }))
    } else {
        let balance = (users[address].balance + amount) as u64;
        (users.insert(address, UserView { balance, ..users[address] }), Ok(balance))
    }
}

/// Taking `amount` from a balance: refused where the account is missing or
/// holds less than `amount`. The result is the record after the debit.
pub open spec fn debit_spec(users: Accounts, address: Seq<char>, amount: int) -> (
    Accounts,
    Result<UserView, ErrorView>,
) {
    if !users.contains_key(address) {
        (users, Err(ErrorView::UserDoesNotExist { address }))
    } else if amount > users[address].balance {
        (users, Err(ErrorView::InsufficientBalance { balance: users[address].balance }))
    } else {
        let user = UserView {
            balance: (users[address].balance - amount) as u64,
            ..users[address]
        };
        (users.insert(address, user), Ok(user))
    }
}

/// A withdrawal is a debit that reports the new balance.
pub open spec fn withdraw_spec(users: Accounts, address: Seq<char>, amount: u64) -> (
    Accounts,
    Result<u64, ErrorView>,
) {
    let (after, debited) = debit_spec(users, address, amount as int);
    (
        after,
        match debited {
            Ok(user) => Ok(user.balance),
            Err(e) => Err(e),
        },
    )
}

/// The accounts, each found by its address.
pub struct AccountRegistry {
    users: Vec<User>,
}

impl View for AccountRegistry {
    type V = Accounts;

    closed spec fn view(&self) -> Accounts {
        Map::new(
            |a: Seq<char>| Self::holds(self.users@, a),
            |a: Seq<char>| self.users@[Self::position(self.users@, a)]@,
        )
    }
}

impl AccountRegistry {
    spec fn holds(users: Seq<User>, address: Seq<char>) -> bool {
        exists|i: int| 0 <= i < users.len() && #[trigger] users[i].address@ == address
    }

    spec fn position(users: Seq<User>, address: Seq<char>) -> int {
        choose|i: int| 0 <= i < users.len() && #[trigger] users[i].address@ == address
    }

    /// No address has two records.
    pub closed spec fn wf(&self) -> bool {
        forall|i: int, j: int|
            0 <= i < j < self.users@.len() ==> (#[trigger] self.users@[i]).address@ != (
            #[trigger] self.users@[j]).address@
    }

    /// Each record is filed under its own address.
    pub proof fn lemma_keyed(&self)
        ensures
            forall|a: Seq<char>| #[trigger] self@.contains_key(a) ==> self@[a].address == a,
    {
    }

    proof fn lemma_at(&self, i: int)
        requires
            self.wf(),
            0 <= i < self.users@.len(),
        ensures
            self@.contains_key(self.users@[i].address@),
            self@[self.users@[i].address@] == self.users@[i]@,
    {
        let a = self.users@[i].address@;
        let p = Self::position(self.users@, a);
        assert(p == i);
    }

    /// A registry without accounts.
    pub fn new() -> (registry: Self)
        ensures
            registry.wf(),
            registry@ == Accounts::empty(),
    {
        let registry = AccountRegistry { users: Vec::new() };
        assert(registry@ =~= Accounts::empty());
        registry
    }

    fn find(&self, address: &String) -> (found: Option<usize>)
        requires
            self.wf(),
        ensures
            found.is_some() == self@.contains_key(address@),
            match found {
                Some(i) => i < self.users@.len() && self.users@[i as int].address@ == address@
                    && self@[address@] == self.users@[i as int]@,
                None => forall|i: int|
                    0 <= i < self.users@.len() ==> (#[trigger] self.users@[i]).address@
                        != address@,
            },
    {
        let mut i: usize = 0;
        while i < self.users.len()
            invariant
                self.wf(),
                i <= self.users@.len(),
                forall|k: int| 0 <= k < i ==> (#[trigger] self.users@[k]).address@ != address@,
            decreases self.users@.len() - i,
        {
            if self.users[i].address == *address {
                proof {
                    self.lemma_at(i as int);
                }
                return Some(i);
            }
            i += 1;
        }
        None
    }

    /// The record filed under `address`, if there is one.
    pub fn may_load(&self, address: &String) -> (found: Option<User>)
        requires
            self.wf(),
        ensures
            match found {
                Some(user) => self@.contains_key(address@) && user@ == self@[address@],
                None => !self@.contains_key(address@),
            },
    {
        match self.find(address) {
            Some(i) => Some(self.users[i].clone()),
            None => None,
        }
    }

    /// Files `user` under its address, in place of the record that was there,
    /// if any.
    pub fn save(&mut self, user: User)
        requires
            old(self).wf(),
        ensures
            final(self).wf(),
            final(self)@ == old(self)@.insert(user.address@, user@),
    {
        let ghost before = *self;
        let ghost a = user.address@;
        let ghost u = user@;
        match self.find(&user.address) {
            Some(i) => {
                self.users.set(i, user);
                proof {
                    assert forall|b: Seq<char>| #[trigger]
                        self@.contains_key(b) == before@.insert(a, u).contains_key(b) by {
                        if Self::holds(self.users@, b) {
                            let k = Self::position(self.users@, b);
                            assert(before.users@[k].address@ == b);
                        }
                        if Self::holds(before.users@, b) {
                            let k = Self::position(before.users@, b);
                            assert(self.users@[k].address@ == b);
                        }
                    }
                    assert forall|b: Seq<char>| #[trigger]
                        self@.contains_key(b) implies self@[b] == before@.insert(a, u)[b] by {
                        let k = Self::position(self.users@, b);
                        if b == a {
                            assert(k == i);
                        } else {
                            before.lemma_at(k);
                        }
                    }
                    assert(self@ =~= before@.insert(a, u));
                }
            },
            None => {
                self.users.push(user);
                proof {
                    let n = before.users@.len() as int;
                    assert(self.users@[n].address@ == a);
                    assert forall|b: Seq<char>| #[trigger]
                        self@.contains_key(b) == before@.insert(a, u).contains_key(b) by {
                        if Self::holds(self.users@, b) {
                            let k = Self::position(self.users@, b);
                            if k < n {
                                assert(before.users@[k].address@ == b);
                            }
                        }
                        if Self::holds(before.users@, b) {
                            let k = Self::position(before.users@, b);
                            assert(self.users@[k].address@ == b);
                        }
                    }
                    assert forall|b: Seq<char>| #[trigger]
                        self@.contains_key(b) implies self@[b] == before@.insert(a, u)[b] by {
                        let k = Self::position(self.users@, b);
                        if b == a {
                            assert(k == n);
                        } else {
                            assert(before.users@[k] == self.users@[k]);
                            before.lemma_at(k);
                        }
                    }
                    assert(self@ =~= before@.insert(a, u));
                }
            },
        }
    }

    /// Opens an account with a balance of zero.
    pub fn open_account(&mut self, address: &String, name: String, lastname: String) -> (r: Result<
        User,
        ContractError,
    >)
        requires
            old(self).wf(),
        ensures
            final(self).wf(),
            (final(self)@, outcome(r)) == open_account_spec(
                old(self)@,
                address@,
                name@,
                lastname@,
            ),
    {
        if self.find(address).is_some() {
            return Err(ContractError::UserAlreadyExists { address: address.clone() });
        }
        let user = User { address: address.clone(), name, lastname, balance: 0 };
        let created = user.clone();
        self.save(user);
        Ok(created)
    }

    /// The balance of the account at `address`.
    pub fn get_balance(&self, address: &String) -> (r: Result<u64, ContractError>)
        requires
            self.wf(),
        ensures
            outcome(r) == get_balance_spec(self@, address@),
    {
        match self.find(address) {
            Some(i) => Ok(self.users[i].balance),
            None => Err(ContractError::UserDoesNotExist { address: address.clone() }),
        }
    }

    /// Adds `amount` to the balance and returns the new balance.
    pub fn deposit(&mut self, address: &String, amount: u64) -> (r: Result<u64, ContractError>)
        requires
            old(self).wf(),
        ensures
            final(self).wf(),
            (final(self)@, outcome(r)) == deposit_spec(old(self)@, address@, amount),
    {
        let i = match self.find(address) {
            Some(i) => i,
            None => {
                return Err(ContractError::UserDoesNotExist { address: address.clone() });
            },
        };
        let balance: u64 = self.users[i].balance;
        if amount > u64::MAX - balance {
            return Err(ContractError::AmountOverflow { balance });
        }
        let user = User {
            address: self.users[i].address.clone(),
            name: self.users[i].name.clone(),
            lastname: self.users[i].lastname.clone(),
            balance: balance + amount,
        };
        self.save(user);
        Ok(balance + amount)
    }

    /// Takes `amount` from the balance and returns the new balance.
    pub fn withdraw(&mut self, address: &String, amount: u64) -> (r: Result<u64, ContractError>)
        requires
            old(self).wf(),
        ensures
            final(self).wf(),
            (final(self)@, outcome(r)) == withdraw_spec(old(self)@, address@, amount),
    {
        match self.debit_for_rental(address, amount as u128) {
            Ok(user) => Ok(user.balance),
            Err(e) => Err(e),
        }
    }

    /// Takes `amount` from the balance and returns the account as it then
    /// stands. An amount beyond the range of a balance is more than any
    /// account holds.
    pub fn debit_for_rental(&mut self, address: &String, amount: u128) -> (r: Result<
        User,
        ContractError,
    >)
        requires
            old(self).wf(),
        ensures
            final(self).wf(),
            (final(self)@, outcome(r)) == debit_spec(old(self)@, address@, amount as int),
    {
        let i = match self.find(address) {
            Some(i) => i,
            None => {
                return Err(ContractError::UserDoesNotExist { address: address.clone() });
            },
        };
        let balance: u64 = self.users[i].balance;
        if amount > balance as u128 {
            return Err(ContractError::InsufficientBalance { balance });
        }
        let user = User {
            address: self.users[i].address.clone(),
            name: self.users[i].name.clone(),
            lastname: self.users[i].lastname.clone(),
            balance: balance - (amount as u64),
        };
        let debited = user.clone();
        self.save(user);
        Ok(debited)
    }
}

} // verus!
