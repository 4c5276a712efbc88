//! The local account that the console registers and speaks as.

use vstd::prelude::*;

verus! {

/// Identifier of the local account.
pub const BOT_ID: &'static str = "console";

/// How an account is described when it is registered.
#[derive(Clone, Debug, PartialEq, Eq)]
pub struct AccountInfo {
    pub uin: String,
    pub name: String,
    pub avatar: String,
}

/// The name under which the local account of the application `app_name` is
/// registered: the application's name, a slash and the account's identifier.
pub open spec fn registered_name(app_name: Seq<char>) -> Seq<char> {
    app_name + seq!['/'] + BOT_ID@
}

/// Describes the local account of the application `app_name`. It has no
/// avatar.
pub fn local_account(app_name: &str) -> (account: AccountInfo)
    ensures
        account.uin@ == BOT_ID@,
        account.name@ == registered_name(app_name@),
        account.avatar@ == Seq::<char>::empty(),
{
    let mut name = app_name.to_owned();
    name.append("/");
    name.append(BOT_ID);
    proof {
        reveal_strlit("/");
        assert("/"@ =~= seq!['/']);
    }
    AccountInfo { uin: BOT_ID.to_owned(), name, avatar: String::new() }
}

} // verus!
