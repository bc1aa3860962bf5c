//! Which of the processes that were launched owns the downloads. The one
//! that claims the local channel is the owner; every other one hands its
//! link to the owner, or says that an instance is running, and exits.

use vstd::prelude::*;

verus! {

/// How the process was asked to run.
#[derive(Debug)]
pub enum Launch {
    /// With the user interface and nothing to queue.
    Interactive,
    /// Without the user interface.
    Headless,
    /// As the handler of a link, which is to be queued.
    Link(String),
    /// With more arguments than one: nothing is done.
    TooManyArguments,
    /// With an argument that is neither a link nor `-d`: nothing is done.
    UnexpectedArgument,
}

/// What the attempt to claim the channel showed.
#[derive(Clone, Copy, Debug, PartialEq, Eq, Structural)]
pub enum Claim {
    /// The channel was bound: no other process holds it.
    Won,
    /// Another process holds the channel and accepts connections.
    Held,
    /// The channel exists and nothing accepts connections on it.
    Stale,
}

/// What the process is to do.
#[derive(Debug)]
pub enum Role {
    /// Listen on the channel and run the downloads.
    Owner,
    /// Write the link to the channel and exit with success.
    Forward(String),
    /// Report that an instance is running and exit.
    AlreadyRunning,
    /// Remove what a crashed owner left and try once more to bind.
    Reclaim,
    /// The channel could not be claimed: exit with a failure.
    GiveUp,
}

/// Whether `text` begins with the scheme of a link.
pub open spec fn is_link(text: Seq<char>) -> bool {
    text.len() >= 6 && text.subrange(0, 6) == seq!['n', 'x', 'm', ':', '/', '/']
}

/// Whether `text` is the flag that asks to run without the user interface.
pub open spec fn is_headless_flag(text: Seq<char>) -> bool {
    text == seq!['-', 'd']
}

/// Whether `text` begins with the scheme of a link.
pub fn starts_with_scheme(text: &str) -> (r: bool)
    ensures
        r == is_link(text@),
{
    if text.unicode_len() < 6 {
        return false;
    }
    let r = text.get_char(0) == 'n' && text.get_char(1) == 'x' && text.get_char(2) == 'm' && text.get_char(3)
        == ':' && text.get_char(4) == '/' && text.get_char(5) == '/';
    proof {
        let head = text@.subrange(0, 6);
        if r {
            assert(head =~= seq!['n', 'x', 'm', ':', '/', '/']);
        } else {
            assert(head[0] == text@[0] && head[1] == text@[1] && head[2] == text@[2] && head[3] == text@[3]
                && head[4] == text@[4] && head[5] == text@[5]);
        }
    }
    r
}

fn is_headless(text: &str) -> (r: bool)
    ensures
        r == is_headless_flag(text@),
{
    if text.unicode_len() != 2 {
        return false;
    }
    let r = text.get_char(0) == '-' && text.get_char(1) == 'd';
    proof {
        if r {
            assert(text@ =~= seq!['-', 'd']);
        }
    }
    r
}

/// Reads the command line, the program's name first.
pub fn launch_mode(args: &Vec<String>) -> (r: Launch)
    ensures
        args@.len() > 2 ==> r is TooManyArguments,
        args@.len() < 2 ==> r is Interactive,
        args@.len() == 2 ==> match r {
            Launch::Link(link) => is_link(args@[1]@) && link@ == args@[1]@,
            Launch::Headless => !is_link(args@[1]@) && is_headless_flag(args@[1]@),
            Launch::UnexpectedArgument => !is_link(args@[1]@) && !is_headless_flag(args@[1]@),
            _ => false,
        },
{
    if args.len() > 2 {
        Launch::TooManyArguments
    } else if args.len() == 2 {
        let first = &args[1];
        if starts_with_scheme(first.as_str()) {
            Launch::Link(first.clone())
        } else if is_headless(first.as_str()) {
            Launch::Headless
        } else {
            Launch::UnexpectedArgument
        }
    } else {
        Launch::Interactive
    }
}

/// The role that follows from a claim. `reclaimed` says that a stale
/// channel was removed once already.
pub open spec fn role_of(claim: Claim, link: Option<String>, reclaimed: bool) -> Role {
    match claim {
        Claim::Won => Role::Owner,
        Claim::Held => match link {
            Some(text) => Role::Forward(text),
            None => Role::AlreadyRunning,
        },
        Claim::Stale => if reclaimed {
            Role::GiveUp
        } else {
            Role::Reclaim
        },
    }
}

/// Decides what the process does. It owns the downloads only where it won
/// the channel.
pub fn resolve(claim: Claim, link: Option<String>, reclaimed: bool) -> (r: Role)
    ensures
        r == role_of(claim, link, reclaimed),
        r is Owner <==> claim == Claim::Won,
{
    match claim {
        Claim::Won => Role::Owner,
        Claim::Held => match link {
            Some(text) => Role::Forward(text),
            None => Role::AlreadyRunning,
        },
        Claim::Stale => if reclaimed {
            Role::GiveUp
        } else {
            Role::Reclaim
        },
    }
}

} // verus!
