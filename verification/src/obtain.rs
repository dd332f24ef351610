//! Obtaining a handle: the negotiation with the operating system.
//!
//! The length of a handle depends on the filesystem and is not known in
//! advance, so `name_to_handle_at` is called twice: once on a buffer that holds
//! a header only, which the operating system answers with `EOVERFLOW` and the
//! length it needs, and once on a buffer of that length.
//!
//! This module decides; it issues no system call. A [`Negotiation`] hands out
//! the buffer for each call as an [`Action`], the caller issues the call with
//! [`Negotiation::path`] and [`Negotiation::flags`] and reports what came back
//! as a [`SyscallOutcome`], and [`Negotiation::step`] answers with the next
//! action.

use vstd::prelude::*;
use vstd::string::StringSliceAdditionalSpecFns;
use crate::error::HandleError;
use crate::handle::{mount_of, HandleView, LinuxFileHandle};
use crate::platform::{AT_EMPTY_PATH, AT_FDCWD, AT_SYMLINK_FOLLOW, EOVERFLOW};
use crate::reserve::{extend_reserved, try_grow, zero_extend_reserved, zeros};
use crate::sizes::aligned_words;

verus! {

/// The number of words in the header of a handle buffer: the length of the
/// payload in bytes, and the handle's type.
pub const HEADER_WORDS: usize = 2;

/// Where a negotiation stands.
#[derive(Clone, Copy, Debug, PartialEq, Eq, Structural)]
pub enum Phase {
    /// The sizing call, on a buffer that holds a header only, is outstanding.
    Probing,
    /// The call on the buffer of full length is outstanding.
    Filling,
    /// The negotiation has ended; no further call is to be issued.
    Finished,
}

/// What a `name_to_handle_at` call left behind.
#[derive(Debug, PartialEq, Eq)]
pub struct SyscallOutcome {
    /// The value that the call returned: zero on success.
    pub ret: i32,
    /// The error code of the calling thread, read after the call.
    pub errno: i32,
    /// The mount identifier that the call stored.
    pub mnt_id: i32,
    /// The buffer that the call was issued on, as the call left it.
    pub buffer: Vec<u32>,
}

/// What the caller of a negotiation is to do next.
#[derive(Debug, PartialEq, Eq)]
pub enum Action {
    /// Issue `name_to_handle_at` on this buffer, with the negotiation's path
    /// and flags, and report the outcome.
    Call(Vec<u32>),
    /// The handle has been obtained.
    Done(LinuxFileHandle),
    /// The handle cannot be obtained.
    Fail(HandleError),
}

/// What an [`Action`] stands for.
pub enum ActionView {
    Call(Seq<u32>),
    Done(HandleView),
    Fail(HandleError),
}

impl View for Action {
    type V = ActionView;

    open spec fn view(&self) -> ActionView {
        match self {
            Action::Call(buffer) => ActionView::Call(buffer@),
            Action::Done(handle) => ActionView::Done(handle@),
            Action::Fail(error) => ActionView::Fail(*error),
        }
    }
}

/// The decisions of one acquisition: which buffer each system call is issued
/// on, and what its outcome means.
#[derive(Debug)]
pub struct Negotiation {
    path: Vec<u8>,
    flags: i32,
    phase: Phase,
    words: usize,
}

/// What a [`Negotiation`] stands for.
pub struct NegotiationView {
    /// The path handed to every call, with its terminating zero byte.
    pub path: Seq<u8>,
    /// The lookup flags handed to every call.
    pub flags: i32,
    /// Where the negotiation stands.
    pub phase: Phase,
    /// The length in words of the buffer that was handed out last.
    pub words: nat,
}

impl View for Negotiation {
    type V = NegotiationView;

    closed spec fn view(&self) -> NegotiationView {
        NegotiationView {
            path: self.path@,
            flags: self.flags,
            phase: self.phase,
            words: self.words as nat,
        }
    }
}

/// The state in which a negotiation for `path` with `flags` begins: the
/// sizing call on a header-only buffer is outstanding.
pub open spec fn initial(path: Seq<u8>, flags: i32) -> NegotiationView {
    NegotiationView {
        path: path + seq![0u8],
        flags,
        phase: Phase::Probing,
        words: HEADER_WORDS as nat,
    }
}

/// The state `pre` after its end.
pub open spec fn finished(pre: NegotiationView) -> NegotiationView {
    NegotiationView { phase: Phase::Finished, ..pre }
}

/// The buffer of full length that follows a sizing call: the header as the
/// operating system left it, and zeroed words for the payload, whose length in
/// bytes the first header word declares; no word beyond those that hold it.
pub open spec fn full_buffer(header: Seq<u32>) -> Seq<u32> {
    header + zeros(aligned_words(header[0] as int))
}

/// Whether `outcome` is the expected answer to the sizing call of `pre`: the
/// call failed, and it failed with `EOVERFLOW`.
pub open spec fn asks_for_room(pre: NegotiationView, outcome: SyscallOutcome) -> bool {
    &&& pre.phase == Phase::Probing
    &&& outcome.buffer@.len() == pre.words
    &&& outcome.ret != 0
    &&& outcome.errno == EOVERFLOW
}

/// The state and the action that follow `outcome` in state `pre`, where the
/// allocator grants the room that a longer buffer needs.
pub open spec fn next(pre: NegotiationView, outcome: SyscallOutcome) -> (
    NegotiationView,
    ActionView,
) {
    if pre.phase == Phase::Finished || outcome.buffer@.len() != pre.words {
        (finished(pre), ActionView::Fail(HandleError::Protocol))
    } else if pre.phase == Phase::Probing {
        if outcome.ret == 0 {
            (finished(pre), ActionView::Fail(HandleError::UnexpectedSuccess))
        } else if outcome.errno != EOVERFLOW {
            (finished(pre), ActionView::Fail(HandleError::Os(outcome.errno)))
        } else {
            let buffer = full_buffer(outcome.buffer@);
            (
                NegotiationView { phase: Phase::Filling, words: buffer.len(), ..pre },
                ActionView::Call(buffer),
            )
        }
    } else {
        if outcome.ret == 0 {
            (
                finished(pre),
                ActionView::Done(
                    HandleView { words: outcome.buffer@, mount: mount_of(outcome.mnt_id) },
                ),
            )
        } else {
            (finished(pre), ActionView::Fail(HandleError::Os(outcome.errno)))
        }
    }
}

/// The directory argument of the system call: the descriptor given, or the
/// current working directory where none is given.
pub fn directory_argument(dirfd: Option<i32>) -> (r: i32)
    ensures
        r == match dirfd {
            Some(fd) => fd,
            None => AT_FDCWD,
        },
{
    match dirfd {
        Some(fd) => fd,
        None => AT_FDCWD,
    }
}

impl Negotiation {
    /// A buffer that was handed out holds at least the header.
    #[verifier::type_invariant]
    spec fn holds_header(self) -> bool {
        self.words >= HEADER_WORDS
    }

    /// The path to hand to every call: the bytes of the path, ended by a zero
    /// byte.
    pub fn path(&self) -> (r: &[u8])
        ensures
            r@ == self@.path,
    {
        self.path.as_slice()
    }

    /// The lookup flags to hand to every call.
    pub fn flags(&self) -> (r: i32)
        ensures
            r == self@.flags,
    {
        self.flags
    }

    /// Where the negotiation stands.
    pub fn phase(&self) -> (r: Phase)
        ensures
            r == self@.phase,
    {
        self.phase
    }

    /// Ends the negotiation with `error`.
    fn fail(&mut self, error: HandleError) -> (action: Action)
        ensures
            final(self)@ == finished(old(self)@),
            action@ == ActionView::Fail(error),
    {
        proof {
            use_type_invariant(&*self);
        }
        self.phase = Phase::Finished;
        Action::Fail(error)
    }

    /// Takes the outcome of the system call that the last action asked for,
    /// and says what to do next.
    ///
    /// An outcome of the sizing call is the expected one if the call failed
    /// with `EOVERFLOW`: the next action is then a call on the full buffer, or
    /// the failure `Alloc` where the allocator refuses the words it needs. The
    /// sizing call must not succeed, and any other error code of it ends the
    /// negotiation with that code: no second call is asked for. The call on the
    /// longer buffer ends the negotiation either way, with the handle or with
    /// the error code. The path and the flags never change.
    pub fn step(&mut self, outcome: SyscallOutcome) -> (action: Action)
        ensures
            (final(self)@, action@) == next(old(self)@, outcome) || (asks_for_room(
                old(self)@,
                outcome,
            ) && aligned_words(outcome.buffer@[0] as int) > 0 && final(self)@ == finished(
                old(self)@,
            ) && action@ == ActionView::Fail(HandleError::Alloc)),
    {
        proof {
            use_type_invariant(&*self);
        }
        if outcome.buffer.len() != self.words {
            return self.fail(HandleError::Protocol);
        }
        match self.phase {
            Phase::Finished => self.fail(HandleError::Protocol),
            Phase::Probing => {
                if outcome.ret == 0 {
                    return self.fail(HandleError::UnexpectedSuccess);
                }
                if outcome.errno != EOVERFLOW {
                    return self.fail(HandleError::Os(outcome.errno));
                }
                let size = match LinuxFileHandle::get_usize(outcome.buffer[0]) {
                    Ok(size) => size,
                    Err(error) => {
                        return self.fail(error);
                    },
                };
                let extra = LinuxFileHandle::get_aligned_fh_size(size);
                match zero_extend_reserved(try_grow(outcome.buffer, extra), extra) {
                    Ok(buffer) => {
                        self.phase = Phase::Filling;
                        self.words = buffer.len();
                        Action::Call(buffer)
                    },
                    Err(_) => self.fail(HandleError::Alloc),
                }
            },
            Phase::Filling => {
                if outcome.ret == 0 {
                    self.phase = Phase::Finished;
                    Action::Done(LinuxFileHandle::from_parts(outcome.buffer, outcome.mnt_id))
                } else {
                    self.fail(HandleError::Os(outcome.errno))
                }
            },
        }
    }
}

impl LinuxFileHandle {
    /// Begins a negotiation for `path` with the lookup flags `flags`: the
    /// result is the negotiation and the header-only buffer of its sizing
    /// call. Fails only where the allocator refuses the storage for the buffer
    /// or for the path.
    pub fn obtain_impl(path: &str, flags: i32) -> (r: Result<(Negotiation, Vec<u32>), HandleError>)
        ensures
            match r {
                Ok((negotiation, probe)) => negotiation@ == initial(path.spec_bytes(), flags)
                    && probe@ == zeros(HEADER_WORDS as int),
                Err(error) => error == HandleError::Alloc,
            },
    {
        let probe = match zero_extend_reserved(try_grow(Vec::new(), HEADER_WORDS), HEADER_WORDS) {
            Ok(probe) => probe,
            Err(_) => {
                return Err(HandleError::Alloc);
            },
        };
        let bytes = path.as_bytes();
        let room = bytes.len().saturating_add(1);
        let mut terminated = match extend_reserved(try_grow(Vec::new(), room), bytes) {
            Ok(copy) => copy,
            Err(_) => {
                return Err(HandleError::Alloc);
            },
        };
        terminated.push(0);
        assert(terminated@ == path.spec_bytes() + seq![0u8]);
        let negotiation = Negotiation {
            path: terminated,
            flags,
            phase: Phase::Probing,
            words: HEADER_WORDS,
        };
        Ok((negotiation, probe))
    }

    /// Begins obtaining a handle for the file at `path`. Where the last
    /// component of the path is a symbolic link, the handle is for the link
    /// itself.
    pub fn obtain(path: &str) -> (r: Result<(Negotiation, Vec<u32>), HandleError>)
        ensures
            match r {
                Ok((negotiation, probe)) => negotiation@ == initial(path.spec_bytes(), 0)
                    && probe@ == zeros(HEADER_WORDS as int),
                Err(error) => error == HandleError::Alloc,
            },
    {
        Self::obtain_impl(path, 0)
    }

    /// Begins obtaining a handle for the file at `path`. Where the last
    /// component of the path is a symbolic link, the handle is for the file
    /// that the link leads to.
    pub fn obtain_follow(path: &str) -> (r: Result<(Negotiation, Vec<u32>), HandleError>)
        ensures
            match r {
                Ok((negotiation, probe)) => negotiation@ == initial(
                    path.spec_bytes(),
                    AT_SYMLINK_FOLLOW,
                ) && probe@ == zeros(HEADER_WORDS as int),
                Err(error) => error == HandleError::Alloc,
            },
    {
        Self::obtain_impl(path, AT_SYMLINK_FOLLOW)
    }

    /// Begins obtaining a handle for the file that an open descriptor refers
    /// to: the path is empty, and the descriptor is handed to the system call
    /// as its directory argument.
    pub fn obtain_fd() -> (r: Result<(Negotiation, Vec<u32>), HandleError>)
        ensures
            match r {
                Ok((negotiation, probe)) => negotiation@ == initial(Seq::empty(), AT_EMPTY_PATH)
                    && probe@ == zeros(HEADER_WORDS as int),
                Err(error) => error == HandleError::Alloc,
            },
    {
        let r = Self::obtain_impl("", AT_EMPTY_PATH);
        proof {
            reveal_strlit("");
        }
        r
    }
}

} // verus!
