use vstd::prelude::*;
use vstd::string::StrSliceExecFns;
use crate::text::{trim_text, trimmed};

verus! {

/// What the user asked for at the menu.
#[derive(Debug, Clone, Copy, PartialEq, Eq, Structural)]
pub enum MenuOption {
    /// `1`: show an account's information.
    FetchAccountInfo,
    /// `2`: create an account.
    CreateAccount,
    /// `3`: send hbars.
    SendHbars,
    /// `4`: transfer tokens.
    TransferTokens,
    /// `5`: deploy a smart contract.
    DeploySmartContract,
    /// Anything else.
    Invalid,
}

/// The option that the answer `choice` names.
pub open spec fn option_named(choice: Seq<char>) -> MenuOption {
    if choice == seq!['1'] {
        MenuOption::FetchAccountInfo
    } else if choice == seq!['2'] {
        MenuOption::CreateAccount
    } else if choice == seq!['3'] {
        MenuOption::SendHbars
    } else if choice == seq!['4'] {
        MenuOption::TransferTokens
    } else if choice == seq!['5'] {
        MenuOption::DeploySmartContract
    } else {
        MenuOption::Invalid
    }
}

/// The option that the answer `choice`, already trimmed, names.
pub fn option_for(choice: &str) -> (r: MenuOption)
    ensures
        r == option_named(choice@),
{
    if choice.unicode_len() != 1 {
        return MenuOption::Invalid;
    }
    let c = choice.get_char(0);
    assert(choice@ == seq![c] <==> choice@ =~= seq![c]);
    if c == '1' {
        MenuOption::FetchAccountInfo
    } else if c == '2' {
        MenuOption::CreateAccount
    } else if c == '3' {
        MenuOption::SendHbars
    } else if c == '4' {
        MenuOption::TransferTokens
    } else if c == '5' {
        MenuOption::DeploySmartContract
    } else {
        MenuOption::Invalid
    }
}

/// The option that the line `line`, as typed at the menu, names: the line is
/// read without its leading and trailing white space.
pub fn read_choice(line: &str) -> (r: MenuOption)
    ensures
        r == option_named(trimmed(line@)),
{
    let choice = trim_text(line);
    option_for(choice)
}

/// An answer selects an operation exactly when it is a single digit from 1
/// to 5: 1 account information, 2 account creation, 3 hbar transfer, 4 token
/// transfer, 5 contract deployment; anything else is invalid.
pub proof fn law_menu_digits(choice: Seq<char>)
    ensures
        (option_named(choice) != MenuOption::Invalid) <==> (choice.len() == 1 && '1' <= choice[0]
            && choice[0] <= '5'),
        choice.len() == 1 && choice[0] == '1' ==> option_named(choice)
            == MenuOption::FetchAccountInfo,
        choice.len() == 1 && choice[0] == '2' ==> option_named(choice) == MenuOption::CreateAccount,
        choice.len() == 1 && choice[0] == '3' ==> option_named(choice) == MenuOption::SendHbars,
        choice.len() == 1 && choice[0] == '4' ==> option_named(choice)
            == MenuOption::TransferTokens,
        choice.len() == 1 && choice[0] == '5' ==> option_named(choice)
            == MenuOption::DeploySmartContract,
{
    if choice.len() == 1 {
        assert(choice == seq![choice[0]]);
    }
}

} // verus!
