//! Account addresses, as they arrive in a resource query.

use crate::error::Error;
use crate::text::{
    chars_of, find_first, first_occurrence, lemma_first_occurrence, lemma_first_occurrence_found,
    lemma_split_pieces, occurs_at, split, split_str,
};
use itertools::Itertools;
use vstd::prelude::*;

verus! {

/// The scheme that introduces an account address in a resource query.
pub const ACCT_SCHEME: &'static str = "acct:";

/// The character between the user name and the domain.
pub const SEPARATOR: char = '@';

/// The part of a resource query that holds the address: what follows the
/// first `acct:`, or the whole query where it holds no `acct:`.
pub open spec fn address_of(resource: Seq<char>) -> Seq<char> {
    match first_occurrence(resource, ACCT_SCHEME@) {
        Some(at) => resource.skip(at + ACCT_SCHEME@.len()),
        None => resource,
    }
}

/// Where no `acct:` stands in `prefix`, the address of a query made of
/// `prefix`, `acct:` and `rest` is `rest`.
pub proof fn lemma_address_after_scheme(prefix: Seq<char>, rest: Seq<char>)
    requires
        first_occurrence(prefix, ACCT_SCHEME@) is None,
    ensures
        address_of(prefix + ACCT_SCHEME@ + rest) == rest,
{
    let scheme = ACCT_SCHEME@;
    let resource = prefix + scheme + rest;
    let start = prefix.len() as int;
    reveal_strlit("acct:");
    assert(resource.subrange(start, start + 5) =~= scheme);
    lemma_first_occurrence(prefix, scheme);
    assert forall|earlier: int| 0 <= earlier < start implies !occurs_at(
        resource,
        scheme,
        earlier,
    ) by {
        if occurs_at(resource, scheme, earlier) {
            let found = resource.subrange(earlier, earlier + 5);
            if earlier + 5 <= start {
                // It would stand in the prefix.
                assert(prefix.subrange(earlier, earlier + 5) =~= found);
                assert(occurs_at(prefix, scheme, earlier));
            } else {
                // Its colon would be one of the letters of this `acct`.
                assert(found[4] == resource[earlier + 4]);
            }
        }
    }
    lemma_first_occurrence_found(resource, scheme, start);
}

/// The user name and the domain that a resource query names. It names them
/// where its address splits at `@` into exactly two pieces, neither of them
/// empty.
pub open spec fn parse_resource(resource: Seq<char>) -> Option<(Seq<char>, Seq<char>)> {
    let pieces = split(address_of(resource), SEPARATOR);
    if pieces.len() == 2 && pieces[0].len() > 0 && pieces[1].len() > 0 {
        Some((pieces[0], pieces[1]))
    } else {
        None
    }
}

/// A user name and the domain at which it is registered.
#[derive(Debug, PartialEq, Eq)]
pub struct AccountAddress {
    pub username: String,
    pub domain: String,
}

/// `Itertools::collect_tuple`, asked for a pair: the two items of `parts` in
/// their order where `parts` holds exactly two, and nothing otherwise.
#[verifier::external_body]
fn collect_pair(parts: Vec<String>) -> (pair: Option<(String, String)>)
    ensures
        match pair {
            Some((first, second)) => parts@.len() == 2 && first@ == parts@[0]@ && second@
                == parts@[1]@,
            None => parts@.len() != 2,
        },
{
    parts.into_iter().collect_tuple()
}

impl AccountAddress {
    /// Both fields hold at least one character, and neither holds an `@`.
    pub open spec fn well_formed(&self) -> bool {
        &&& self.username@.len() > 0
        &&& self.domain@.len() > 0
        &&& !self.username@.contains(SEPARATOR)
        &&& !self.domain@.contains(SEPARATOR)
    }

    /// Reads the address out of a resource query.
    pub fn parse(resource: &str) -> (parsed: Result<AccountAddress, Error>)
        ensures
            match parsed {
                Ok(address) => address.well_formed() && parse_resource(resource@) == Some(
                    (address.username@, address.domain@),
                ),
                Err(error) => error == Error::MalformedResource && parse_resource(resource@)
                    is None,
            },
    {
        let chars = chars_of(resource);
        let scheme = chars_of(ACCT_SCHEME);
        proof {
            lemma_first_occurrence(resource@, ACCT_SCHEME@);
        }
        let end = chars.len();
        let start = match find_first(&chars, &scheme) {
            Some(at) => at + scheme.len(),
            None => 0,
        };
        let address = resource.substring_char(start, end);
        assert(address@ =~= address_of(resource@));
        let parts = split_str(address, SEPARATOR);
        proof {
            lemma_split_pieces(address@, SEPARATOR);
        }
        match collect_pair(parts) {
            Some((username, domain)) => {
                if username.as_str().is_empty() || domain.as_str().is_empty() {
                    Err(Error::MalformedResource)
                } else {
                    Ok(AccountAddress { username, domain })
                }
            },
            None => Err(Error::MalformedResource),
        }
    }
}

} // verus!
