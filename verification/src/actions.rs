//! A set of actions for a turn-based game, and how each is written as a tag.

use vstd::prelude::*;

use crate::types::ActionTag;

verus! {

/// What a delegate may be allowed to do in the game.
#[derive(Clone, Copy, Debug, PartialEq, Eq, Structural)]
pub enum ActionsForSession {
    StartGame,
    Move,
    Skip,
}

/// The tag of an action: its position in the declaration, which is also the
/// single byte that SCALE writes for it.
pub open spec fn tag_of(action: ActionsForSession) -> ActionTag {
    match action {
        ActionsForSession::StartGame => 0,
        ActionsForSession::Move => 1,
        ActionsForSession::Skip => 2,
    }
}

/// The action that a tag stands for, if any.
pub open spec fn action_of(tag: ActionTag) -> Option<ActionsForSession> {
    if tag == 0 {
        Some(ActionsForSession::StartGame)
    } else if tag == 1 {
        Some(ActionsForSession::Move)
    } else if tag == 2 {
        Some(ActionsForSession::Skip)
    } else {
        None
    }
}

/// Reading a tag back gives the action it was written for, and only the
/// tags of actions can be read back.
pub proof fn lemma_tag_round_trip(action: ActionsForSession, tag: ActionTag)
    ensures
        action_of(tag_of(action)) == Some(action),
        action_of(tag) matches Some(a) ==> tag_of(a) == tag,
        action_of(tag) is Some <==> tag <= 2,
{
}

impl ActionsForSession {
    /// The tag under which the action is filed in a session.
    pub fn tag(self) -> (tag: ActionTag)
        ensures
            tag == tag_of(self),
    {
        match self {
            ActionsForSession::StartGame => 0,
            ActionsForSession::Move => 1,
            ActionsForSession::Skip => 2,
        }
    }

    /// The action filed under `tag`, or `None` for a tag of no action.
    pub fn from_tag(tag: ActionTag) -> (action: Option<Self>)
        ensures
            action == action_of(tag),
    {
        if tag == 0 {
            Some(ActionsForSession::StartGame)
        } else if tag == 1 {
            Some(ActionsForSession::Move)
        } else if tag == 2 {
            Some(ActionsForSession::Skip)
        } else {
            None
        }
    }

    /// The tags of `actions`, in the same order.
    pub fn tags(actions: &Vec<ActionsForSession>) -> (tags: Vec<ActionTag>)
        ensures
            tags@.len() == actions@.len(),
            forall|i: int| 0 <= i < actions@.len() ==> tags@[i] == tag_of(#[trigger] actions@[i]),
    {
        let mut tags: Vec<ActionTag> = Vec::new();
        let mut i: usize = 0;
        while i < actions.len()
            invariant
                i <= actions@.len(),
                tags@.len() == i,
                forall|j: int| 0 <= j < i ==> tags@[j] == tag_of(#[trigger] actions@[j]),
            decreases actions@.len() - i,
        {
            tags.push(actions[i].tag());
            i = i + 1;
        }
        tags
    }
}

} // verus!
