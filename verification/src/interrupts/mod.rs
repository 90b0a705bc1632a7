//! System calls and the interrupt vector table.
//!
//! A system call reaches the kernel with two values: the stack pointer under
//! which the caller's registers were saved, and the number of the call. The
//! dispatcher turns the number into a [`SyscallCommand`], hands the work to
//! the process manager and returns the stack pointer that the manager
//! reports: that of the process that runs next, which may be another one.

use vstd::prelude::*;

pub mod idt;

verus! {

/// The system calls. Numbers below 10 are kept free.
#[derive(Clone, Copy, Debug, PartialEq, Eq, Structural)]
pub enum SyscallCommand {
    /// Give up the processor; number 10.
    Yield,
    /// End the calling process; number 11.
    Terminate,
}

/// A number that is no system call.
#[derive(Clone, Copy, Debug, PartialEq, Eq, Structural)]
pub struct TryFromPrimitiveError {
    /// The number that was refused.
    pub number: u64,
}

impl SyscallCommand {
    /// The number of a system call.
    pub open spec fn spec_number(self) -> u64 {
        match self {
            SyscallCommand::Yield => 10,
            SyscallCommand::Terminate => 11,
        }
    }

    /// The system call with the given number, if there is one.
    pub open spec fn from_number(number: u64) -> Option<SyscallCommand> {
        if number == 10 {
            Some(SyscallCommand::Yield)
        } else if number == 11 {
            Some(SyscallCommand::Terminate)
        } else {
            None
        }
    }

    /// The number under which the call is made.
    pub fn number(self) -> (number: u64)
        ensures
            number == self.spec_number(),
    {
        match self {
            SyscallCommand::Yield => 10,
            SyscallCommand::Terminate => 11,
        }
    }

    /// The system call with the given number, or the number back in an error
    /// if it names none.
    pub fn try_from_primitive(number: u64) -> (command: Result<
        SyscallCommand,
        TryFromPrimitiveError,
    >)
        ensures
            command == match SyscallCommand::from_number(number) {
                Some(c) => Ok::<SyscallCommand, TryFromPrimitiveError>(c),
                None => Err((TryFromPrimitiveError { number })),
            },
    {
        if number == 10 {
            Ok(SyscallCommand::Yield)
        } else if number == 11 {
            Ok(SyscallCommand::Terminate)
        } else {
            Err(TryFromPrimitiveError { number })
        }
    }

    /// Numbers and system calls correspond one to one: a command is found
    /// again from its number, and a number that names a command is that
    /// command's number.
    pub proof fn lemma_number_round_trip(command: SyscallCommand, number: u64)
        ensures
            SyscallCommand::from_number(command.spec_number()) == Some(command),
            SyscallCommand::from_number(number) == Some(command) ==> number
                == command.spec_number(),
            SyscallCommand::from_number(number) is Some <==> number == 10 || number == 11,
    {
    }
}

/// Carries out `command` for the process whose context lies under
/// `stack_p`, and returns the stack pointer to resume from.
///
/// The two operations of the process manager come as functions. For `Yield`
/// the manager is told the caller's stack pointer and names the next
/// process; for `Terminate` it drops the caller and names the next process.
/// Exactly one of the two is called, once, and what it reports is returned
/// as it is.
pub fn dispatch<Y, E>(
    command: SyscallCommand,
    stack_p: usize,
    yield_current_process: Y,
    end_current_process: E,
) -> (next: usize) where Y: FnOnce(usize) -> usize, E: FnOnce() -> usize
    requires
        command == SyscallCommand::Yield ==> call_requires(yield_current_process, (stack_p,)),
        command == SyscallCommand::Terminate ==> call_requires(end_current_process, ()),
    ensures
        command == SyscallCommand::Yield ==> call_ensures(
            yield_current_process,
            (stack_p,),
            next,
        ),
        command == SyscallCommand::Terminate ==> call_ensures(end_current_process, (), next),
{
    match command {
        SyscallCommand::Yield => yield_current_process(stack_p),
        SyscallCommand::Terminate => end_current_process(),
    }
}

/// The dispatcher as the system-call entry sequence calls it: with the
/// stack pointer and the raw number of the call. It returns the stack
/// pointer that the process manager reports for the call of that number.
///
/// There is no way to report an error across this boundary, so the number
/// must name a system call; [`SyscallCommand::try_from_primitive`] tells.
pub fn internal_syscall<Y, E>(
    stack_p: usize,
    call_num: usize,
    yield_current_process: Y,
    end_current_process: E,
) -> (next: usize) where Y: FnOnce(usize) -> usize, E: FnOnce() -> usize
    requires
        SyscallCommand::from_number(call_num as u64) is Some,
        SyscallCommand::from_number(call_num as u64) == Some(SyscallCommand::Yield)
            ==> call_requires(yield_current_process, (stack_p,)),
        SyscallCommand::from_number(call_num as u64) == Some(SyscallCommand::Terminate)
            ==> call_requires(end_current_process, ()),
    ensures
        SyscallCommand::from_number(call_num as u64) == Some(SyscallCommand::Yield)
            ==> call_ensures(yield_current_process, (stack_p,), next),
        SyscallCommand::from_number(call_num as u64) == Some(SyscallCommand::Terminate)
            ==> call_ensures(end_current_process, (), next),
{
    match SyscallCommand::try_from_primitive(call_num as u64) {
        Ok(command) => dispatch(command, stack_p, yield_current_process, end_current_process),
        Err(_) => unreached(),
    }
}

} // verus!
