//! The operations that return a stream of incremental results. Whatever a
//! stream builds on is made behind the checks and before the stream exists.

use vstd::prelude::*;
use crate::check::{Check, PolicyKind};
use crate::context::ID;
use crate::mutation::THREAD_MISSING;
use crate::operation::{Call, Operation};

verus! {

pub const NOT_THREAD_OWNER: &'static str = "You must be the thread owner to create a run";

#[derive(Clone, Copy, Debug)]
pub struct Subscription;

impl Subscription {
    /// Creates a thread with its first user message and streams the answer. The
    /// thread is created behind the checks and before the run is started; the
    /// run is started on the thread that was created, and its stream gives
    /// the user message and the notice of the new thread as well.
    pub fn create_thread_and_run() -> (op: Operation)
        ensures
            op.plan@ == seq![
                Check::User { allow_auth_token: true },
                Check::Valid,
                Check::Persist { call: Call::ThreadCreate },
            ],
            op.call == (Call::ThreadCreateRun {
                yield_last_user_message: true,
                yield_thread_created: true,
            }),
            op.window is None,
    {
        Operation {
            plan: vec![
                Check::User { allow_auth_token: true },
                Check::Valid,
                Check::Persist { call: Call::ThreadCreate },
            ],
            call: Call::ThreadCreateRun {
                yield_last_user_message: true,
                yield_thread_created: true,
            },
            window: None,
        }
    }

    /// Appends a user message to the caller's own thread and streams the answer.
    /// The message is appended behind the checks and before the run is
    /// started; the run's stream gives the user message as well, and no
    /// notice of a new thread.
    pub fn create_thread_run(thread_id: ID) -> (op: Operation)
        ensures
            op.plan@ == seq![
                Check::User { allow_auth_token: true },
                Check::Valid,
                Check::Thread { id: thread_id, missing: THREAD_MISSING },
                Check::ThreadOwner { message: NOT_THREAD_OWNER },
                Check::Persist { call: Call::ThreadAppendUserMessage },
            ],
            op.call == (Call::ThreadCreateRun {
                yield_last_user_message: true,
                yield_thread_created: false,
            }),
            op.window is None,
    {
        Operation {
            plan: vec![
                Check::User { allow_auth_token: true },
                Check::Valid,
                Check::Thread { id: thread_id, missing: THREAD_MISSING },
                Check::ThreadOwner { message: NOT_THREAD_OWNER },
                Check::Persist { call: Call::ThreadAppendUserMessage },
            ],
            call: Call::ThreadCreateRun {
                yield_last_user_message: true,
                yield_thread_created: false,
            },
            window: None,
        }
    }

    /// Creates a page and streams its content as it is written. The page service
    /// must exist; it makes the page itself before it hands the stream out.
    pub fn create_page_run() -> (op: Operation)
        ensures
            op.plan@ == seq![
                Check::User { allow_auth_token: false },
                Check::PageService,
            ],
            op.call == Call::PageCreateRun,
            op.window is None,
    {
        Operation {
            plan: vec![Check::User { allow_auth_token: false }, Check::PageService],
            call: Call::PageCreateRun,
            window: None,
        }
    }

    /// Turns a thread and its messages into a page: a title, a summary and a few
    /// sections, streamed as they are written. The page service must exist.
    pub fn create_thread_to_page_run() -> (op: Operation)
        ensures
            op.plan@ == seq![
                Check::User { allow_auth_token: false },
                Check::PageService,
            ],
            op.call == Call::PageConvertThread,
            op.window is None,
    {
        Operation {
            plan: vec![Check::User { allow_auth_token: false }, Check::PageService],
            call: Call::PageConvertThread,
            window: None,
        }
    }

    /// Appends a section to a page and streams it as it is written: the caller's
    /// policy must allow changing the page.
    pub fn create_page_section_run(page_id: ID) -> (op: Operation)
        ensures
            op.plan@ == seq![
                Check::User { allow_auth_token: false },
                Check::PageService,
                Check::Page { id: page_id },
                Check::Policy(PolicyKind::UpdatePage),
            ],
            op.call == Call::PageAppendSection,
            op.window is None,
    {
        Operation {
            plan: vec![
                Check::User { allow_auth_token: false },
                Check::PageService,
                Check::Page { id: page_id },
                Check::Policy(PolicyKind::UpdatePage),
            ],
            call: Call::PageAppendSection,
            window: None,
        }
    }
}

} // verus!
