//! The errors that commands report to users, and their wording.
use vstd::prelude::*;

verus! {

/// A permission that a command lacks.
#[derive(Clone, Copy, Debug)]
pub enum PermissionType<'b> {
    /// The calling user lacks the named permission.
    UserPerm(&'b str),
    /// The command (first) cannot act on a user who holds the role (second).
    Mention(&'b str, &'b str),
    /// The bot itself lacks the named permission.
    External(&'b str),
}

/// An error that a command reports to the user.
#[derive(Debug)]
pub enum JesterError<'a> {
    PermissionError(PermissionType<'a>),
    /// A required argument, by name, was not given.
    MissingError(&'a str),
    /// The named command could not be carried out on the user.
    UnsuccessfulError(&'a str),
}

/// The wording of a missing permission.
pub open spec fn permission_text(p: PermissionType) -> Seq<char> {
    match p {
        PermissionType::UserPerm(perm) => "You can't execute this command because you do not have the `"@
            + perm@ + "` permission!\n"@,
        PermissionType::Mention(cmd, perm) => "I can't "@ + cmd@ + " an "@ + perm@
            + "! Please demote the user and try again"@,
        PermissionType::External(perm) => "The bot can't execute this because it doesn't have the `"@
            + perm@ + "` permission! Please grant it on the bot's role."@,
    }
}

/// The wording of an error.
pub open spec fn error_text(e: JesterError) -> Seq<char> {
    match e {
        JesterError::PermissionError(p) => permission_text(p),
        JesterError::MissingError(missing) => "Please provide a "@ + missing@ + "!"@,
        JesterError::UnsuccessfulError(cmd) => cmd@
            + " unsuccessful. The user must be in the guild and the bot must be above the user's role!"@,
    }
}

impl<'b> PermissionType<'b> {
    /// The message shown to the user.
    pub fn message(&self) -> (r: String)
        ensures
            r@ == permission_text(*self),
    {
        match *self {
            PermissionType::UserPerm(perm) => {
                let mut r = String::from_str(
                    "You can't execute this command because you do not have the `",
                );
                r.append(perm);
                r.append("` permission!\n");
                r
            },
            PermissionType::Mention(cmd, perm) => {
                let mut r = String::from_str("I can't ");
                r.append(cmd);
                r.append(" an ");
                r.append(perm);
                r.append("! Please demote the user and try again");
                r
            },
            PermissionType::External(perm) => {
                let mut r = String::from_str(
                    "The bot can't execute this because it doesn't have the `",
                );
                r.append(perm);
                r.append("` permission! Please grant it on the bot's role.");
                r
            },
        }
    }
}

impl<'a> JesterError<'a> {
    /// The message shown to the user.
    pub fn message(&self) -> (r: String)
        ensures
            r@ == error_text(*self),
    {
        match self {
            JesterError::PermissionError(perm) => perm.message(),
            JesterError::MissingError(missing) => {
                let mut r = String::from_str("Please provide a ");
                r.append(missing);
                r.append("!");
                r
            },
            JesterError::UnsuccessfulError(cmd) => {
                let mut r = String::from_str(cmd);
                r.append(
                    " unsuccessful. The user must be in the guild and the bot must be above the user's role!",
                );
                r
            },
        }
    }
}

} // verus!
