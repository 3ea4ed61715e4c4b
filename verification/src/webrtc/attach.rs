//! Adding and linking a receive branch as one transaction.
//!
//! The media runtime does not undo what was added or linked when a later
//! operation fails, so that is done here, before the session goes on.

use vstd::prelude::*;
use vstd::string::*;

use super::ReceiveKind;

verus! {

/// What is done next.
#[derive(Debug, Clone, Copy, PartialEq, Eq, Structural)]
pub enum AttachAction {
    /// Put an element into the pipeline.
    Add(usize),
    /// Link the elements with each other.
    LinkElements,
    /// Link the incoming pad with the first element.
    LinkPad,
    /// Bring an element to the pipeline's state.
    Sync(usize),
    /// Take the incoming pad off the first element.
    UnlinkPad,
    /// Stop an element and take it out of the pipeline.
    Remove(usize),
    /// Let data flow through the incoming pad again.
    Unblock,
}

#[derive(Debug, Clone, Copy, PartialEq, Eq, Structural)]
pub enum AttachPhase {
    Adding,
    LinkingElements,
    LinkingPad,
    Syncing,
    Unlinking,
    Removing,
    Unblocking,
    Done,
}

/// How far a transaction has come.
#[derive(Debug, Clone, Copy, PartialEq, Eq, Structural)]
pub struct Attach {
    pub phase: AttachPhase,
    /// How many elements the branch has.
    pub count: usize,
    /// The incoming pad is blocked by a probe of this transaction.
    pub blocked: bool,
    pub added: usize,
    pub synced: usize,
    pub removed: usize,
    pub failed: bool,
}

/// The action of a state; there is none once the transaction is done.
pub open spec fn action_of(attach: Attach) -> Option<AttachAction> {
    match attach.phase {
        AttachPhase::Adding => Some(AttachAction::Add(attach.added)),
        AttachPhase::LinkingElements => Some(AttachAction::LinkElements),
        AttachPhase::LinkingPad => Some(AttachAction::LinkPad),
        AttachPhase::Syncing => Some(AttachAction::Sync(attach.synced)),
        AttachPhase::Unlinking => Some(AttachAction::UnlinkPad),
        AttachPhase::Removing => Some(
            AttachAction::Remove((attach.added - attach.removed - 1) as usize),
        ),
        AttachPhase::Unblocking => Some(AttachAction::Unblock),
        AttachPhase::Done => None,
    }
}

/// What can be said of every state.
pub open spec fn sound(attach: Attach) -> bool {
    &&& attach.count > 0
    &&& attach.removed <= attach.added <= attach.count
    &&& attach.synced <= attach.count
    &&& match attach.phase {
        AttachPhase::Adding => !attach.failed && attach.added < attach.count && attach.synced == 0
            && attach.removed == 0,
        AttachPhase::LinkingElements => !attach.failed && attach.added == attach.count
            && attach.synced == 0 && attach.removed == 0,
        AttachPhase::LinkingPad => !attach.failed && attach.added == attach.count && attach.synced
            == 0 && attach.removed == 0,
        AttachPhase::Syncing => !attach.failed && attach.added == attach.count && attach.synced
            < attach.count && attach.removed == 0,
        AttachPhase::Unlinking => attach.failed && attach.removed == 0,
        AttachPhase::Removing => attach.failed && attach.removed < attach.added,
        AttachPhase::Unblocking => if attach.failed {
            attach.removed == attach.added
        } else {
            attach.added == attach.count && attach.synced == attach.count && attach.removed == 0
        },
        AttachPhase::Done => if attach.failed {
            attach.removed == attach.added
        } else {
            attach.added == attach.count && attach.synced == attach.count && attach.removed == 0
        },
    }
}

/// The last phases: unblock the pad where it is blocked.
pub open spec fn ending(attach: Attach) -> AttachPhase {
    if attach.blocked {
        AttachPhase::Unblocking
    } else {
        AttachPhase::Done
    }
}

/// The state after the action of a state went well or not. What is undone
/// goes on whether it goes well or not.
pub open spec fn attach_after(attach: Attach, ok: bool) -> Attach {
    match attach.phase {
        AttachPhase::Adding => if !ok {
            Attach { phase: AttachPhase::Unlinking, failed: true, ..attach }
        } else {
            Attach {
                added: (attach.added + 1) as usize,
                phase: if attach.added + 1 < attach.count {
                    AttachPhase::Adding
                } else {
                    AttachPhase::LinkingElements
                },
                ..attach
            }
        },
        AttachPhase::LinkingElements => if ok {
            Attach { phase: AttachPhase::LinkingPad, ..attach }
        } else {
            Attach { phase: AttachPhase::Unlinking, failed: true, ..attach }
        },
        AttachPhase::LinkingPad => if ok {
            Attach { phase: AttachPhase::Syncing, ..attach }
        } else {
            Attach { phase: AttachPhase::Unlinking, failed: true, ..attach }
        },
        AttachPhase::Syncing => if !ok {
            Attach { phase: AttachPhase::Unlinking, failed: true, ..attach }
        } else {
            Attach {
                synced: (attach.synced + 1) as usize,
                phase: if attach.synced + 1 < attach.count {
                    AttachPhase::Syncing
                } else {
                    ending(attach)
                },
                ..attach
            }
        },
        AttachPhase::Unlinking => Attach {
            phase: if attach.added > 0 {
                AttachPhase::Removing
            } else {
                ending(attach)
            },
            ..attach
        },
        AttachPhase::Removing => Attach {
            removed: (attach.removed + 1) as usize,
            phase: if attach.removed + 1 < attach.added {
                AttachPhase::Removing
            } else {
                ending(attach)
            },
            ..attach
        },
        AttachPhase::Unblocking => Attach { phase: AttachPhase::Done, ..attach },
        AttachPhase::Done => attach,
    }
}

pub open spec fn new_attach(count: usize, blocked: bool) -> Attach {
    Attach {
        phase: AttachPhase::Adding,
        count,
        blocked,
        added: 0,
        synced: 0,
        removed: 0,
        failed: false,
    }
}

impl Attach {
    /// Starts the transaction for a branch of `count` elements.
    pub fn new(count: usize, blocked: bool) -> (attach: Attach)
        requires
            count > 0,
        ensures
            attach == new_attach(count, blocked),
            sound(attach),
    {
        Attach {
            phase: AttachPhase::Adding,
            count,
            blocked,
            added: 0,
            synced: 0,
            removed: 0,
            failed: false,
        }
    }

    /// What is done next.
    pub fn action(&self) -> (action: Option<AttachAction>)
        requires
            sound(*self),
        ensures
            action == action_of(*self),
    {
        match self.phase {
            AttachPhase::Adding => Some(AttachAction::Add(self.added)),
            AttachPhase::LinkingElements => Some(AttachAction::LinkElements),
            AttachPhase::LinkingPad => Some(AttachAction::LinkPad),
            AttachPhase::Syncing => Some(AttachAction::Sync(self.synced)),
            AttachPhase::Unlinking => Some(AttachAction::UnlinkPad),
            AttachPhase::Removing => Some(AttachAction::Remove(self.added - self.removed - 1)),
            AttachPhase::Unblocking => Some(AttachAction::Unblock),
            AttachPhase::Done => None,
        }
    }

    /// The branch stands.
    pub fn succeeded(&self) -> (yes: bool)
        ensures
            yes == (self.phase == AttachPhase::Done && !self.failed),
    {
        match self.phase {
            AttachPhase::Done => !self.failed,
            _ => false,
        }
    }
}

/// One step of the transaction: the action of the state went well or not.
pub fn attach_receive_elements(attach: Attach, ok: bool) -> (next: Attach)
    requires
        sound(attach),
    ensures
        next == attach_after(attach, ok),
        sound(next),
{
    let mut next = attach;
    let end = if attach.blocked {
        AttachPhase::Unblocking
    } else {
        AttachPhase::Done
    };
    match attach.phase {
        AttachPhase::Adding => {
            if ok {
                next.added = attach.added + 1;
                if next.added == attach.count {
                    next.phase = AttachPhase::LinkingElements;
                }
            } else {
                next.phase = AttachPhase::Unlinking;
                next.failed = true;
            }
        },
        AttachPhase::LinkingElements => {
            if ok {
                next.phase = AttachPhase::LinkingPad;
            } else {
                next.phase = AttachPhase::Unlinking;
                next.failed = true;
            }
        },
        AttachPhase::LinkingPad => {
            if ok {
                next.phase = AttachPhase::Syncing;
            } else {
                next.phase = AttachPhase::Unlinking;
                next.failed = true;
            }
        },
        AttachPhase::Syncing => {
            if ok {
                next.synced = attach.synced + 1;
                if next.synced == attach.count {
                    next.phase = end;
                }
            } else {
                next.phase = AttachPhase::Unlinking;
                next.failed = true;
            }
        },
        AttachPhase::Unlinking => {
            next.phase = if attach.added > 0 {
                AttachPhase::Removing
            } else {
                end
            };
        },
        AttachPhase::Removing => {
            next.removed = attach.removed + 1;
            if next.removed == attach.added {
                next.phase = end;
            }
        },
        AttachPhase::Unblocking => {
            next.phase = AttachPhase::Done;
        },
        AttachPhase::Done => {},
    }
    next
}

/// A transaction over the outcomes of its actions.
pub open spec fn attach_run(count: usize, blocked: bool, outcomes: Seq<bool>) -> Attach
    decreases outcomes.len(),
{
    if outcomes.len() == 0 {
        new_attach(count, blocked)
    } else {
        attach_after(attach_run(count, blocked, outcomes.drop_last()), outcomes.last())
    }
}

/// The actions that a transaction took.
pub open spec fn attach_actions(count: usize, blocked: bool, outcomes: Seq<bool>) -> Seq<
    AttachAction,
>
    decreases outcomes.len(),
{
    if outcomes.len() == 0 {
        Seq::empty()
    } else {
        let before = attach_actions(count, blocked, outcomes.drop_last());
        match action_of(attach_run(count, blocked, outcomes.drop_last())) {
            Some(action) => before.push(action),
            None => before,
        }
    }
}

/// A transaction that is done leaves all of its branch or nothing of it:
/// either every element was added and synchronised and none removed, or every
/// element that was added was removed again.
pub proof fn done_means_all_or_nothing(count: usize, blocked: bool, outcomes: Seq<bool>)
    requires
        count > 0,
    ensures
        sound(attach_run(count, blocked, outcomes)),
        attach_run(count, blocked, outcomes).count == count,
        attach_run(count, blocked, outcomes).blocked == blocked,
        attach_run(count, blocked, outcomes).phase is Done ==> {
            let done = attach_run(count, blocked, outcomes);
            if done.failed {
                done.removed == done.added
            } else {
                done.added == count && done.synced == count && done.removed == 0
            }
        },
    decreases outcomes.len(),
{
    if outcomes.len() > 0 {
        done_means_all_or_nothing(count, blocked, outcomes.drop_last());
    }
}

/// An incoming pad that was blocked is unblocked by the time the transaction
/// is done, whether it failed or not.
pub proof fn blocked_pad_is_unblocked(count: usize, blocked: bool, outcomes: Seq<bool>)
    requires
        count > 0,
        attach_run(count, blocked, outcomes).phase is Done,
    ensures
        blocked ==> attach_actions(count, blocked, outcomes).contains(AttachAction::Unblock),
    decreases outcomes.len(),
{
    if outcomes.len() > 0 {
        let earlier = outcomes.drop_last();
        done_means_all_or_nothing(count, blocked, earlier);
        let before = attach_run(count, blocked, earlier);
        let actions = attach_actions(count, blocked, outcomes);
        if before.phase is Done {
            blocked_pad_is_unblocked(count, blocked, earlier);
        } else if blocked {
            assert(before.phase is Unblocking);
            assert(actions.last() == AttachAction::Unblock);
            assert(actions.contains(AttachAction::Unblock));
        }
    }
}

/// Elements are taken out in the reverse of the order in which they were put
/// in: the one that is removed next is the last one left.
pub proof fn elements_leave_in_reverse(attach: Attach)
    requires
        sound(attach),
        attach.phase is Removing,
    ensures
        action_of(attach) == Some(
            AttachAction::Remove((attach.added - attach.removed - 1) as usize),
        ),
        forall|ok: bool|
            (#[trigger] attach_after(attach, ok)).phase is Removing ==> action_of(
                attach_after(attach, ok),
            ) == Some(AttachAction::Remove((attach.added - attach.removed - 2) as usize)),
{
}

/// The name under which an action is recorded; what undoes another action is
/// not.
pub open spec fn operation_text(action: AttachAction, kind: ReceiveKind) -> Option<Seq<char>> {
    let video = kind == ReceiveKind::Video;
    match action {
        AttachAction::Add(_) => Some("pipeline-add"@),
        AttachAction::LinkElements => Some(
            if video {
                "link-video-receive-elements"@
            } else {
                "link-audio-receive-elements"@
            },
        ),
        AttachAction::LinkPad => Some(
            if video {
                "link-incoming-video-rtp-pad"@
            } else {
                "link-incoming-audio-rtp-pad"@
            },
        ),
        AttachAction::Sync(_) => Some("sync-state-with-parent"@),
        AttachAction::Unblock => Some(
            if video {
                "remove-incoming-video-block-probe"@
            } else {
                "remove-incoming-audio-block-probe"@
            },
        ),
        AttachAction::UnlinkPad => None,
        AttachAction::Remove(_) => None,
    }
}

pub fn attach_operation(action: AttachAction, kind: ReceiveKind) -> (name: Option<&'static str>)
    ensures
        match operation_text(action, kind) {
            Some(text) => name matches Some(word) && word@ == text,
            None => name is None,
        },
{
    let video = match kind {
        ReceiveKind::Video => true,
        ReceiveKind::Audio => false,
    };
    match action {
        AttachAction::Add(_) => Some("pipeline-add"),
        AttachAction::LinkElements => Some(
            if video {
                "link-video-receive-elements"
            } else {
                "link-audio-receive-elements"
            },
        ),
        AttachAction::LinkPad => Some(
            if video {
                "link-incoming-video-rtp-pad"
            } else {
                "link-incoming-audio-rtp-pad"
            },
        ),
        AttachAction::Sync(_) => Some("sync-state-with-parent"),
        AttachAction::Unblock => Some(
            if video {
                "remove-incoming-video-block-probe"
            } else {
                "remove-incoming-audio-block-probe"
            },
        ),
        AttachAction::UnlinkPad => None,
        AttachAction::Remove(_) => None,
    }
}

} // verus!
