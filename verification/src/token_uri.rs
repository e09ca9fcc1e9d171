//! The address of the metadata of a token: the base address of the
//! collection, the number of the token in decimal, and `.json`.

use crate::account::AccountId;
use crate::types::Shiden34Error;
use vstd::prelude::*;
use vstd::string::StringExecFns;

verus! {

/// The character of a decimal digit.
pub open spec fn digit_char(digit: nat) -> char {
    if digit == 0 {
        '0'
    } else if digit == 1 {
        '1'
    } else if digit == 2 {
        '2'
    } else if digit == 3 {
        '3'
    } else if digit == 4 {
        '4'
    } else if digit == 5 {
        '5'
    } else if digit == 6 {
        '6'
    } else if digit == 7 {
        '7'
    } else if digit == 8 {
        '8'
    } else {
        '9'
    }
}

/// A number in decimal, without leading zeros.
pub open spec fn decimal(n: nat) -> Seq<char>
    decreases n,
{
    if n < 10 {
        seq![digit_char(n)]
    } else {
        decimal(n / 10).push(digit_char(n % 10))
    }
}

/// The address of the metadata of a token under a base address.
pub open spec fn uri_of(base_uri: Seq<char>, token_id: u64) -> Seq<char> {
    base_uri + decimal(token_id as nat) + ".json"@
}

fn digit_str(digit: u64) -> (text: &'static str)
    requires
        digit < 10,
    ensures
        text@ == seq![digit_char(digit as nat)],
{
    proof {
        reveal_strlit("0");
        reveal_strlit("1");
        reveal_strlit("2");
        reveal_strlit("3");
        reveal_strlit("4");
        reveal_strlit("5");
        reveal_strlit("6");
        reveal_strlit("7");
        reveal_strlit("8");
        reveal_strlit("9");
    }
    let text = match digit {
        0 => "0",
        1 => "1",
        2 => "2",
        3 => "3",
        4 => "4",
        5 => "5",
        6 => "6",
        7 => "7",
        8 => "8",
        _ => "9",
    };
    assert(text@ =~= seq![digit_char(digit as nat)]);
    text
}

/// Appends a number in decimal.
pub fn append_decimal(out: &mut String, n: u64)
    ensures
        final(out)@ == old(out)@ + decimal(n as nat),
    decreases n,
{
    if n >= 10 {
        append_decimal(out, n / 10);
    }
    out.append(digit_str(n % 10));
    assert(out@ =~= old(out)@ + decimal(n as nat));
}

/// Whether a token exists by the ledger: it does exactly when it has an
/// owner.
pub fn token_exists(owner: &Option<AccountId>) -> (exists: Result<(), Shiden34Error>)
    ensures
        exists == if owner is Some {
            Ok::<(), Shiden34Error>(())
        } else {
            Err::<(), Shiden34Error>(Shiden34Error::TokenNotExists)
        },
{
    match owner {
        Some(_) => Ok(()),
        None => Err(Shiden34Error::TokenNotExists),
    }
}

/// The address of the metadata of a token, with `owner` the owner of the
/// token by the ledger and `base_uri` the base address of the collection. A
/// token without an owner has not been minted and has no address.
pub fn token_uri(token_id: u64, owner: &Option<AccountId>, base_uri: &str) -> (uri: Result<
    String,
    Shiden34Error,
>)
    ensures
        match uri {
            Ok(text) => owner is Some && text@ == uri_of(base_uri@, token_id),
            Err(error) => owner is None && error == Shiden34Error::TokenNotExists,
        },
{
    match token_exists(owner) {
        Err(error) => {
            return Err(error);
        },
        Ok(_) => {},
    }
    let mut token_uri = base_uri.to_owned();
    append_decimal(&mut token_uri, token_id);
    token_uri.append(".json");
    Ok(token_uri)
}

} // verus!
