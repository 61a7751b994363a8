//! The served process: how the file server is invoked, and how what the
//! operating system reports of it is read.

use crate::config::Credential;
use crate::machine::{Event, ProcessStatus};
use crate::text::{decimal, decimal_string};
use vstd::prelude::*;
use vstd::string::StringExecFns;

verus! {

/// The status recorded for a process that a signal ended and that left no
/// exit code.
pub const SIGNALLED: i32 = -1;

/// The authentication parameter for one user: name, digest algorithm and
/// digest, with colons between.
pub open spec fn auth_parameter(user: (Seq<char>, Seq<char>)) -> Seq<char> {
    user.0 + ":sha512:"@ + user.1
}

/// The arguments that admit `users`: `-a` and a parameter for each, in
/// order.
pub open spec fn auth_arguments(users: Seq<(Seq<char>, Seq<char>)>) -> Seq<Seq<char>>
    decreases users.len(),
{
    if users.len() == 0 {
        Seq::empty()
    } else {
        auth_arguments(users.drop_last()).push("-a"@).push(auth_parameter(users.last()))
    }
}

/// The arguments of the file server: hidden files shown, bound to the
/// loopback interface and the local port, the users where serving is
/// secure, and the directory last.
pub open spec fn server_arguments(
    local_port: u16,
    secure: bool,
    users: Seq<(Seq<char>, Seq<char>)>,
    directory: Seq<char>,
) -> Seq<Seq<char>> {
    seq!["-H"@, "-i"@, "127.0.0.1"@, "-p"@, decimal(local_port as nat)] + (if secure {
        auth_arguments(users)
    } else {
        Seq::empty()
    }).push(directory)
}

/// The program that serves the files.
pub fn server_program() -> (name: &'static str)
    ensures
        name@ == "miniserve"@,
{
    "miniserve"
}

/// Builds the arguments of the file server.
pub fn server_args(local_port: u16, secure: bool, users: &Vec<Credential>, directory: &str) -> (args:
    Vec<String>)
    ensures
        args.deep_view() == server_arguments(local_port, secure, users.deep_view(), directory@),
{
    let mut args: Vec<String> = Vec::new();
    args.push("-H".to_owned());
    args.push("-i".to_owned());
    args.push("127.0.0.1".to_owned());
    args.push("-p".to_owned());
    args.push(decimal_string(local_port));
    let ghost fixed = seq!["-H"@, "-i"@, "127.0.0.1"@, "-p"@, decimal(local_port as nat)];
    assert(args.deep_view() =~= fixed);
    if secure {
        let mut i: usize = 0;
        assert(users.deep_view().take(0) =~= Seq::empty());
        assert(args.deep_view() =~= fixed + auth_arguments(users.deep_view().take(0)));
        while i < users.len()
            invariant
                i <= users.len(),
                args.deep_view() == fixed + auth_arguments(users.deep_view().take(i as int)),
            decreases users.len() - i,
        {
            let ghost so_far = args.deep_view();
            let ghost before = users.deep_view().take(i as int);
            let ghost now = users.deep_view().take(i + 1);
            let mut parameter = users[i].username.clone();
            parameter.append(":sha512:");
            parameter.append(users[i].digest.as_str());
            proof {
                assert(now.drop_last() =~= before);
                assert(now.last() == users[i as int].deep_view());
                assert(parameter@ =~= auth_parameter(now.last()));
            }
            args.push("-a".to_owned());
            args.push(parameter);
            assert(args.deep_view() =~= so_far.push("-a"@).push(parameter@));
            assert(args.deep_view() =~= fixed + auth_arguments(now));
            i += 1;
        }
        assert(users.deep_view().take(users.len() as int) =~= users.deep_view());
    }
    let ghost so_far = args.deep_view();
    args.push(directory.to_owned());
    assert(args.deep_view() =~= so_far.push(directory@));
    assert(args.deep_view() =~= server_arguments(
        local_port,
        secure,
        users.deep_view(),
        directory@,
    ));
    args
}

impl ProcessStatus {
    /// What a poll says of the served process. `polled` is `false` where
    /// the poll itself failed; `exit` is `None` while the process runs, and
    /// holds its exit code once it has exited, if it left one.
    pub open spec fn of_poll(polled: bool, exit: Option<Option<i32>>) -> ProcessStatus {
        if !polled {
            ProcessStatus::PollError
        } else {
            match exit {
                None => ProcessStatus::Running,
                Some(Some(code)) => if code == 0 {
                    ProcessStatus::ExitedOk
                } else {
                    ProcessStatus::ExitedError(code)
                },
                Some(None) => ProcessStatus::ExitedError(SIGNALLED),
            }
        }
    }

    /// Whether the status is worth a warning: every one but `Running`.
    pub open spec fn warns(self) -> bool {
        !(self is Running)
    }

    /// Reads the result of a poll.
    pub fn from_poll(polled: bool, exit: Option<Option<i32>>) -> (status: ProcessStatus)
        ensures
            status == ProcessStatus::of_poll(polled, exit),
    {
        if !polled {
            ProcessStatus::PollError
        } else {
            match exit {
                None => ProcessStatus::Running,
                Some(Some(code)) => {
                    if code == 0 {
                        ProcessStatus::ExitedOk
                    } else {
                        ProcessStatus::ExitedError(code)
                    }
                },
                Some(None) => ProcessStatus::ExitedError(SIGNALLED),
            }
        }
    }

    /// Whether the status is worth a warning.
    pub fn is_warning(self) -> (warning: bool)
        ensures
            warning == self.warns(),
    {
        match self {
            ProcessStatus::Running => false,
            _ => true,
        }
    }
}

/// The event that ends termination. The process counts as reaped where
/// waiting for it returned its exit status. That the termination request
/// itself failed does not matter: it fails for a process that has already
/// exited, and that is no error.
#[allow(unused_variables)]
pub fn reaped(terminated: bool, waited: bool) -> (event: Event)
    ensures
        event == Event::Reaped(waited),
{
    Event::Reaped(waited)
}

} // verus!
