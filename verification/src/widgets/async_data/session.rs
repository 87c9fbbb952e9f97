//! The shell session that a prompt is drawn for.

use vstd::prelude::*;

use crate::text::{parse_i32, parse_i32_spec, parse_u32, parse_u32_spec, str_of};

verus! {

/// The variable in which the shell hands over its process id.
pub const SHELL_PID_VAR: &'static str = "SHELL_PID";

/// The variable in which the shell hands over the number of the command
/// cycle.
pub const EXEC_NO_VAR: &'static str = "PS1_EXEC_NO";

/// What one drawing of the prompt knows of its shell: which shell it is, and
/// which of its command cycles is being drawn.
#[derive(Debug, Clone, Copy, PartialEq, Eq)]
pub struct Session {
    /// The process id of the shell, which stays the same while it lives.
    pub shell_pid: i32,
    /// The number of the command cycle, which grows with each command.
    pub generation: u32,
}

/// The process id that the text `var` names, if it names one: a decimal
/// integer above zero.
pub open spec fn shell_pid_of(var: Option<Seq<char>>) -> Option<i32> {
    match var {
        Some(text) => match parse_i32_spec(text) {
            Some(pid) => if pid > 0 {
                Some(pid)
            } else {
                None
            },
            None => None,
        },
        None => None,
    }
}

/// The generation that the text `var` names, if it names one.
pub open spec fn exec_no_of(var: Option<Seq<char>>) -> Option<u32> {
    match var {
        Some(text) => parse_u32_spec(text),
        None => None,
    }
}

/// The session that the two texts name, if each names its part.
pub open spec fn session_of(shell_pid_var: Option<Seq<char>>, exec_no_var: Option<Seq<char>>)
    -> Option<Session> {
    match (shell_pid_of(shell_pid_var), exec_no_of(exec_no_var)) {
        (Some(shell_pid), Some(generation)) => Some(Session { shell_pid, generation }),
        _ => None,
    }
}

/// The process id of the shell, from the value of the variable that the
/// shell sets for it, if it is set.
pub fn shell_pid(var: Option<&str>) -> (r: Option<i32>)
    ensures
        r == shell_pid_of(str_of(var)),
{
    match var {
        Some(text) => match parse_i32(text) {
            Some(pid) => if pid > 0 {
                Some(pid)
            } else {
                None
            },
            None => None,
        },
        None => None,
    }
}

/// The number of the command cycle, from the value of the variable that the
/// shell sets for it, if it is set.
pub fn exec_no(var: Option<&str>) -> (r: Option<u32>)
    ensures
        r == exec_no_of(str_of(var)),
{
    match var {
        Some(text) => parse_u32(text),
        None => None,
    }
}

/// The session that the two variables of the shell describe. There is none
/// where one of them is unset or is no number of its kind.
pub fn session(shell_pid_var: Option<&str>, exec_no_var: Option<&str>) -> (r: Option<Session>)
    ensures
        r == session_of(str_of(shell_pid_var), str_of(exec_no_var)),
{
    match (shell_pid(shell_pid_var), exec_no(exec_no_var)) {
        (Some(shell_pid), Some(generation)) => Some(Session { shell_pid, generation }),
        _ => None,
    }
}

} // verus!
