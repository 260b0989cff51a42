//! The contract's persistent state, modelled as plain values: the singleton
//! configuration record and the ledger of accumulated deposits.
//!
//! The host's key-value store holds serialized copies of these records; the
//! adapter around this crate loads them before a call and saves them after a
//! successful one, so the functions here see and return whole values.

use vstd::prelude::*;

verus! {

use crate::math::Decimal;

/// A canonical participant address.
///
/// Real validation belongs to the host and is performed by the adapter; the
/// core models it as rejecting exactly the empty token, which is all the
/// contract's rules depend on (an empty admin field means "frozen", so an
/// empty string must never be accepted as an address).
#[derive(Clone, Debug, PartialEq)]
pub struct Addr(pub String);

impl View for Addr {
    type V = Seq<char>;

    open spec fn view(&self) -> Seq<char> {
        self.0@
    }
}

/// What the core requires of an address token: it is not empty.
pub open spec fn valid_addr(s: Seq<char>) -> bool {
    s.len() > 0
}

impl Addr {
    /// Wraps a string without validating it, as test fixtures do.
    pub fn unchecked(input: String) -> (a: Addr)
        ensures
            a@ == input@,
    {
        Addr(input)
    }

    pub fn as_str(&self) -> (s: &str)
        ensures
            s@ == self@,
    {
        self.0.as_str()
    }

    /// An owned copy with the same characters.
    pub fn duplicate(&self) -> (a: Addr)
        ensures
            a@ == self@,
    {
        Addr(self.0.clone())
    }
}

/// Compares two string slices by their characters.
pub fn str_eq(a: &str, b: &str) -> (r: bool)
    ensures
        r == (a@ == b@),
{
    let left: String = a.to_owned();
    let right: String = b.to_owned();
    left == right
}

/// A payee on the distribution whitelist: an address paid under a protocol
/// name. Payout order is the list order; protocol names need not be unique,
/// and a repeated name simply fans out more than one payment.
#[derive(Clone, Debug, PartialEq)]
pub struct Whitelist {
    pub address: Addr,
    pub protocol: String,
}

/// The share of the distributable amount assigned to one protocol name.
#[derive(Clone, Debug, PartialEq)]
pub struct WeightPerProtocol {
    pub protocol: String,
    pub weight: Decimal,
}

/// The singleton configuration record.
///
/// An empty `admin` string is the deliberate, irreversible "frozen" state: no
/// further update is possible. The three percentages are fixed at
/// instantiation and are shares of a source amount, so each is at most one.
#[derive(Clone, Debug, PartialEq)]
pub struct Config {
    pub admin: String,
    pub burn_address: Addr,
    pub developer_address: Option<Addr>,
    pub whitelist: Vec<Whitelist>,
    pub weight_per_protocol: Vec<WeightPerProtocol>,
    pub percent_to_burn: Decimal,
    pub percent_to_developer: Decimal,
    pub percent_to_distribute: Decimal,
}

impl Config {
    /// Well-formedness: every stored address was validated, and every stored
    /// percentage is a share in `[0, 1]`. Constructors establish this and
    /// updates preserve it.
    pub open spec fn wf(self) -> bool {
        &&& valid_addr(self.burn_address@)
        &&& (self.developer_address matches Some(a) ==> valid_addr(a@))
        &&& (forall|i: int|
            0 <= i < self.whitelist@.len() ==> valid_addr(
                (#[trigger] self.whitelist@[i]).address@,
            ))
        &&& (forall|i: int|
            0 <= i < self.weight_per_protocol@.len() ==> (#[trigger] self.weight_per_protocol@[i]).weight.le_one())
        &&& self.percent_to_burn.le_one()
        &&& self.percent_to_developer.le_one()
        &&& self.percent_to_distribute.le_one()
    }

    /// The terminal state of the authorization gate: the admin field was
    /// cleared, and the configuration can never change again.
    pub open spec fn frozen(self) -> bool {
        self.admin@.len() == 0
    }
}

/// One ledger record: the accumulated amount a depositor holds in one
/// denomination.
#[derive(Clone, Debug, PartialEq)]
pub struct DepositEntry {
    pub address: String,
    pub denom: String,
    pub amount: u128,
}

/// Whether `e` is the record for the key `(addr, denom)`.
pub open spec fn entry_matches(e: DepositEntry, addr: Seq<char>, denom: Seq<char>) -> bool {
    e.address@ == addr && e.denom@ == denom
}

/// The amount the first record for `(addr, denom)` holds, or zero when no
/// record exists: a missing key is a zero balance.
pub open spec fn amount_in(s: Seq<DepositEntry>, addr: Seq<char>, denom: Seq<char>) -> u128
    decreases s.len(),
{
    if s.len() == 0 {
        0
    } else if entry_matches(s[0], addr, denom) {
        s[0].amount
    } else {
        amount_in(s.drop_first(), addr, denom)
    }
}

/// Whether some record for `(addr, denom)` exists.
pub open spec fn has_entry(s: Seq<DepositEntry>, addr: Seq<char>, denom: Seq<char>) -> bool {
    exists|i: int| 0 <= i < s.len() && entry_matches(#[trigger] s[i], addr, denom)
}

/// The deposit ledger: a mapping from (depositor, denomination) to an
/// accumulated unsigned amount, stored as a list of records and read through
/// the `balance` function. Records are never deleted; a zero amount is a
/// valid stored value, indistinguishable from an absent key.
#[derive(Clone, Debug, PartialEq)]
pub struct Deposits {
    pub entries: Vec<DepositEntry>,
}

impl Deposits {
    /// The abstract ledger: the balance stored under `(addr, denom)`.
    pub open spec fn balance(self, addr: Seq<char>, denom: Seq<char>) -> u128 {
        amount_in(self.entries@, addr, denom)
    }

    /// An empty ledger: every balance is zero.
    pub fn new() -> (d: Deposits)
        ensures
            forall|a: Seq<char>, dn: Seq<char>| d.balance(a, dn) == 0,
    {
        Deposits { entries: Vec::new() }
    }

    /// Reads the balance stored under `(address, denom)`.
    pub fn balance_of(&self, address: &str, denom: &str) -> (r: u128)
        ensures
            r == self.balance(address@, denom@),
    {
        let n = self.entries.len();
        let mut i: usize = 0;
        while i < n
            invariant
                n == self.entries@.len(),
                0 <= i <= n,
                forall|j: int| 0 <= j < i ==> !entry_matches(self.entries@[j], address@, denom@),
            decreases n - i,
        {
            let e = &self.entries[i];
            if str_eq(e.address.as_str(), address) && str_eq(e.denom.as_str(), denom) {
                proof {
                    lemma_amount_in_first_match(self.entries@, i as int, address@, denom@);
                }
                return e.amount;
            }
            i = i + 1;
        }
        proof {
            lemma_amount_in_absent(self.entries@, address@, denom@);
        }
        0
    }

    /// Stores `value` under `(address, denom)`, leaving every other key
    /// untouched.
    pub(crate) fn set_balance(&mut self, address: &str, denom: &str, value: u128)
        ensures
            final(self).balance(address@, denom@) == value,
            forall|a: Seq<char>, dn: Seq<char>|
                !(a == address@ && dn == denom@) ==> final(self).balance(a, dn) == old(
                    self,
                ).balance(a, dn),
    {
        let n = self.entries.len();
        let mut i: usize = 0;
        while i < n
            invariant
                n == self.entries@.len(),
                0 <= i <= n,
                *self == *old(self),
                forall|j: int| 0 <= j < i ==> !entry_matches(self.entries@[j], address@, denom@),
            decreases n - i,
        {
            let matched = {
                let e = &self.entries[i];
                str_eq(e.address.as_str(), address) && str_eq(e.denom.as_str(), denom)
            };
            if matched {
                let replacement = DepositEntry {
                    address: address.to_owned(),
                    denom: denom.to_owned(),
                    amount: value,
                };
                proof {
                    lemma_amount_in_update_all(self.entries@, i as int, replacement);
                }
                self.entries[i] = replacement;
                return ;
            }
            i = i + 1;
        }
        let fresh = DepositEntry {
            address: address.to_owned(),
            denom: denom.to_owned(),
            amount: value,
        };
        proof {
            lemma_amount_in_push_all(self.entries@, fresh);
        }
        self.entries.push(fresh);
    }
}

/// When no record for `(addr, denom)` exists, the balance read is zero.
proof fn lemma_amount_in_absent(s: Seq<DepositEntry>, addr: Seq<char>, denom: Seq<char>)
    requires
        !has_entry(s, addr, denom),
    ensures
        amount_in(s, addr, denom) == 0,
    decreases s.len(),
{
    if s.len() > 0 {
        assert(!entry_matches(s[0], addr, denom));
        assert(!has_entry(s.drop_first(), addr, denom)) by {
            if has_entry(s.drop_first(), addr, denom) {
                let j = choose|j: int|
                    0 <= j < s.drop_first().len() && entry_matches(
                        #[trigger] s.drop_first()[j],
                        addr,
                        denom,
                    );
                assert(s.drop_first()[j] == s[j + 1]);
                assert(entry_matches(s[j + 1], addr, denom));
            }
        }
        lemma_amount_in_absent(s.drop_first(), addr, denom);
    }
}

/// The balance read is the amount of the first matching record.
proof fn lemma_amount_in_first_match(s: Seq<DepositEntry>, i: int, addr: Seq<char>, denom: Seq<char>)
    requires
        0 <= i < s.len(),
        entry_matches(s[i], addr, denom),
        forall|j: int| 0 <= j < i ==> !entry_matches(s[j], addr, denom),
    ensures
        amount_in(s, addr, denom) == s[i].amount,
    decreases i,
{
    if i == 0 {
    } else {
        assert(s.drop_first()[i - 1] == s[i]);
        assert(forall|j: int| 0 <= j < i - 1 ==> s.drop_first()[j] == s[j + 1]);
        lemma_amount_in_first_match(s.drop_first(), i - 1, addr, denom);
    }
}

/// Appending a record changes only the balances of its key, and only when
/// that key had no record yet.
proof fn lemma_amount_in_push(
    s: Seq<DepositEntry>,
    e: DepositEntry,
    addr: Seq<char>,
    denom: Seq<char>,
)
    ensures
        amount_in(s.push(e), addr, denom) == if !has_entry(s, addr, denom) && entry_matches(
            e,
            addr,
            denom,
        ) {
            e.amount
        } else {
            amount_in(s, addr, denom)
        },
    decreases s.len(),
{
    if s.len() == 0 {
        assert(s.push(e)[0] == e);
        assert(!has_entry(s, addr, denom));
        if !entry_matches(e, addr, denom) {
            assert(s.push(e).drop_first() =~= Seq::<DepositEntry>::empty());
            assert(amount_in(Seq::<DepositEntry>::empty(), addr, denom) == 0);
        }
    } else {
        assert(s.push(e)[0] == s[0]);
        if entry_matches(s[0], addr, denom) {
            assert(has_entry(s, addr, denom));
            assert(amount_in(s.push(e), addr, denom) == s[0].amount);
            assert(amount_in(s, addr, denom) == s[0].amount);
        } else {
            assert(s.push(e).drop_first() =~= s.drop_first().push(e));
            lemma_amount_in_push(s.drop_first(), e, addr, denom);
            assert(amount_in(s.push(e), addr, denom) == amount_in(
                s.drop_first().push(e),
                addr,
                denom,
            ));
            assert(amount_in(s, addr, denom) == amount_in(s.drop_first(), addr, denom));
            assert(has_entry(s, addr, denom) == has_entry(s.drop_first(), addr, denom)) by {
                if has_entry(s, addr, denom) {
                    let j = choose|j: int|
                        0 <= j < s.len() && entry_matches(#[trigger] s[j], addr, denom);
                    assert(j != 0);
                    assert(s.drop_first()[j - 1] == s[j]);
                    assert(entry_matches(s.drop_first()[j - 1], addr, denom));
                }
                if has_entry(s.drop_first(), addr, denom) {
                    let j = choose|j: int|
                        0 <= j < s.drop_first().len() && entry_matches(
                            #[trigger] s.drop_first()[j],
                            addr,
                            denom,
                        );
                    assert(s.drop_first()[j] == s[j + 1]);
                    assert(entry_matches(s[j + 1], addr, denom));
                }
            }
        }
    }
}

/// `lemma_amount_in_push`, stated for every key at once.
proof fn lemma_amount_in_push_all(s: Seq<DepositEntry>, e: DepositEntry)
    ensures
        forall|addr: Seq<char>, denom: Seq<char>|
            #[trigger] amount_in(s.push(e), addr, denom) == if !has_entry(s, addr, denom)
                && entry_matches(e, addr, denom) {
                e.amount
            } else {
                amount_in(s, addr, denom)
            },
{
    assert forall|addr: Seq<char>, denom: Seq<char>|
        #[trigger] amount_in(s.push(e), addr, denom) == if !has_entry(s, addr, denom)
            && entry_matches(e, addr, denom) {
            e.amount
        } else {
            amount_in(s, addr, denom)
        } by {
        lemma_amount_in_push(s, e, addr, denom);
    }
}

/// Replacing the first record of a key with a record of the same key changes
/// only that key's balance.
proof fn lemma_amount_in_update(
    s: Seq<DepositEntry>,
    i: int,
    e2: DepositEntry,
    addr: Seq<char>,
    denom: Seq<char>,
)
    requires
        0 <= i < s.len(),
        s[i].address@ == e2.address@,
        s[i].denom@ == e2.denom@,
        forall|j: int| 0 <= j < i ==> !entry_matches(s[j], e2.address@, e2.denom@),
    ensures
        amount_in(s.update(i, e2), addr, denom) == if entry_matches(e2, addr, denom) {
            e2.amount
        } else {
            amount_in(s, addr, denom)
        },
    decreases i,
{
    if i == 0 {
        assert(s.update(0, e2)[0] == e2);
        if entry_matches(e2, addr, denom) {
        } else {
            assert(s.update(0, e2).drop_first() =~= s.drop_first());
            if entry_matches(s[0], addr, denom) {
                assert(entry_matches(e2, addr, denom));
            }
        }
    } else {
        assert(s.update(i, e2)[0] == s[0]);
        if entry_matches(s[0], addr, denom) {
            if entry_matches(e2, addr, denom) {
                assert(entry_matches(s[0], e2.address@, e2.denom@));
            }
        } else {
            assert(s.update(i, e2).drop_first() =~= s.drop_first().update(i - 1, e2));
            assert(s.drop_first()[i - 1] == s[i]);
            assert(forall|j: int| 0 <= j < i - 1 ==> s.drop_first()[j] == s[j + 1]);
            lemma_amount_in_update(s.drop_first(), i - 1, e2, addr, denom);
        }
    }
}

/// `lemma_amount_in_update`, stated for every key at once.
proof fn lemma_amount_in_update_all(s: Seq<DepositEntry>, i: int, e2: DepositEntry)
    requires
        0 <= i < s.len(),
        s[i].address@ == e2.address@,
        s[i].denom@ == e2.denom@,
        forall|j: int| 0 <= j < i ==> !entry_matches(s[j], e2.address@, e2.denom@),
    ensures
        forall|addr: Seq<char>, denom: Seq<char>|
            #[trigger] amount_in(s.update(i, e2), addr, denom) == if entry_matches(
                e2,
                addr,
                denom,
            ) {
                e2.amount
            } else {
                amount_in(s, addr, denom)
            },
{
    assert forall|addr: Seq<char>, denom: Seq<char>|
        #[trigger] amount_in(s.update(i, e2), addr, denom) == if entry_matches(
            e2,
            addr,
            denom,
        ) {
            e2.amount
        } else {
            amount_in(s, addr, denom)
        } by {
        lemma_amount_in_update(s, i, e2, addr, denom);
    }
}

} // verus!
