use crate::models::seq_model;
use vstd::prelude::*;

verus! {

/// A configured connection to one linkding server.
#[derive(Debug, PartialEq, Eq)]
pub struct Account {
    pub id: Option<i64>,
    pub display_name: String,
    pub enable_sharing: bool,
}

/// What an [`Account`] holds, as mathematical values.
pub struct AccountModel {
    pub id: Option<i64>,
    pub display_name: Seq<char>,
    pub enable_sharing: bool,
}

impl View for Account {
    type V = AccountModel;

    open spec fn view(&self) -> AccountModel {
        AccountModel {
            id: self.id,
            display_name: self.display_name@,
            enable_sharing: self.enable_sharing,
        }
    }
}

impl Clone for Account {
    fn clone(&self) -> (copy: Self)
        ensures
            copy@ == self@,
    {
        Account {
            id: self.id,
            display_name: self.display_name.clone(),
            enable_sharing: self.enable_sharing,
        }
    }
}

/// Whether the account at `position` is the first of `accounts` with the id `id`.
pub open spec fn is_owner_at(accounts: Seq<AccountModel>, id: Option<i64>, position: int) -> bool {
    &&& 0 <= position < accounts.len()
    &&& accounts[position].id == id
    &&& forall|earlier: int| 0 <= earlier < position ==> (#[trigger] accounts[earlier]).id != id
}

/// Where the account of a bookmark stands: the first of `accounts` whose id
/// is `id`, the account id that the bookmark carries. An absent id is an id
/// like any other.
pub open spec fn owner_position(accounts: Seq<AccountModel>, id: Option<i64>) -> Option<int> {
    if exists|position: int| is_owner_at(accounts, id, position) {
        Some(choose|position: int| is_owner_at(accounts, id, position))
    } else {
        None
    }
}

/// The first account with the id is the owner, whichever others follow it.
pub proof fn law_first_with_id_is_owner(
    accounts: Seq<AccountModel>,
    id: Option<i64>,
    position: int,
)
    requires
        is_owner_at(accounts, id, position),
    ensures
        owner_position(accounts, id) == Some(position),
{
    let chosen = choose|p: int| is_owner_at(accounts, id, p);
    assert(is_owner_at(accounts, id, chosen));
}

/// The owner is the first account with the id: no account before it has
/// the id, and where there is no owner, no account has it.
pub proof fn law_owner_is_first_with_id(accounts: Seq<AccountModel>, id: Option<i64>)
    ensures
        match owner_position(accounts, id) {
            Some(position) => is_owner_at(accounts, id, position),
            None => forall|position: int|
                0 <= position < accounts.len() ==> (#[trigger] accounts[position]).id != id,
        },
{
    if !exists|position: int| is_owner_at(accounts, id, position) {
        assert forall|position: int| 0 <= position < accounts.len() implies (
        #[trigger] accounts[position]).id != id by {
            lemma_no_owner_before(accounts, id, position + 1);
        }
    }
}

proof fn lemma_no_owner_before(accounts: Seq<AccountModel>, id: Option<i64>, end: int)
    requires
        0 <= end <= accounts.len(),
        !exists|position: int| is_owner_at(accounts, id, position),
    ensures
        forall|position: int| 0 <= position < end ==> (#[trigger] accounts[position]).id != id,
    decreases end,
{
    if end > 0 {
        lemma_no_owner_before(accounts, id, end - 1);
        if accounts[end - 1].id == id {
            assert(is_owner_at(accounts, id, end - 1));
        }
    }
}

/// Whether two account ids are the same.
pub fn same_id(left: Option<i64>, right: Option<i64>) -> (same: bool)
    ensures
        same == (left == right),
{
    match (left, right) {
        (Some(l), Some(r)) => l == r,
        (None, None) => true,
        _ => false,
    }
}

/// Finds the account of a bookmark: the first of `accounts` whose id is `id`.
pub fn find_account(accounts: &[Account], id: Option<i64>) -> (found: Option<usize>)
    ensures
        match found {
            Some(position) => is_owner_at(seq_model(accounts@), id, position as int),
            None => forall|position: int|
                0 <= position < accounts.len() ==> (#[trigger] seq_model(
                    accounts@,
                )[position]).id != id,
        },
        match owner_position(seq_model(accounts@), id) {
            Some(position) => found == Some(position as usize),
            None => found is None,
        },
{
    let ghost models = seq_model(accounts@);
    let mut i: usize = 0;
    while i < accounts.len()
        invariant
            i <= accounts.len(),
            models == seq_model(accounts@),
            forall|earlier: int| 0 <= earlier < i ==> (#[trigger] models[earlier]).id != id,
        decreases accounts.len() - i,
    {
        if same_id(accounts[i].id, id) {
            proof {
                law_first_with_id_is_owner(models, id, i as int);
            }
            return Some(i);
        }
        i += 1;
    }
    None
}

} // verus!
