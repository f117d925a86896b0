//! The syscall vocabulary the CPU chip distinguishes, with the numeric
//! identifier each syscall writes into the syscall register.
use vstd::prelude::*;

verus! {

/// A syscall code.
#[derive(Clone, Copy, Debug, PartialEq, Eq, Structural, Hash)]
pub enum SyscallCode {
    /// Halts the program.
    Halt,
    /// Enters unconstrained execution.
    EnterUnconstrained,
    /// Reads the length of the next hint.
    Hintlen,
    /// Commits one word of the public-value digest.
    Commit,
    /// Commits one word of the deferred-proof digest.
    CommitDeferredProofs,
    /// Xors a Keccak-256 rate with a message block.
    Keccak256Xor,
    /// Runs the Keccak permutation.
    KeccakPermute,
}

impl SyscallCode {
    /// The numeric identifier of the syscall.
    pub open spec fn spec_syscall_id(self) -> u32 {
        match self {
            SyscallCode::Halt => 0x00,
            SyscallCode::EnterUnconstrained => 0x03,
            SyscallCode::Hintlen => 0xF0,
            SyscallCode::Commit => 0x10,
            SyscallCode::CommitDeferredProofs => 0x1A,
            SyscallCode::Keccak256Xor => 0x01_01_0B,
            SyscallCode::KeccakPermute => 0x01_01_09,
        }
    }

    /// Returns the numeric identifier of the syscall.
    #[verifier::when_used_as_spec(spec_syscall_id)]
    pub fn syscall_id(self) -> (r: u32)
        ensures
            r == self.spec_syscall_id(),
    {
        match self {
            SyscallCode::Halt => 0x00,
            SyscallCode::EnterUnconstrained => 0x03,
            SyscallCode::Hintlen => 0xF0,
            SyscallCode::Commit => 0x10,
            SyscallCode::CommitDeferredProofs => 0x1A,
            SyscallCode::Keccak256Xor => 0x01_01_0B,
            SyscallCode::KeccakPermute => 0x01_01_09,
        }
    }
}

} // verus!
