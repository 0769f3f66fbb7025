//! Turning a requested group move in the map editor into an action.
//!
//! The decision depends only on the move request, the group's current
//! position and the number of groups in the background and foreground
//! stacks, so it takes those counts as plain values.

use vstd::prelude::*;

verus! {

/// A requested move of a map group: to the other stack, or to another
/// position in its own stack.
#[derive(Debug, Clone, Copy, PartialEq, Eq, Structural)]
pub enum MoveGroup {
    IsBackground(bool),
    Group(usize),
}

/// The action that records a group move, for execution and undo.
#[derive(Debug, Clone, Copy, PartialEq, Eq, Structural)]
pub struct ActMoveGroup {
    pub old_is_background: bool,
    pub old_group: usize,
    pub new_is_background: bool,
    pub new_group: usize,
}

/// Turn a requested move of the group at position `g` (in the background
/// stack when `is_background`) into an action, or nothing when the move is
/// a no-op or out of range.  A move to the other stack appends there; a
/// move inside the stack is allowed downward anywhere and upward only to
/// an occupied position.
pub fn group_move_to_act(
    mv: MoveGroup,
    is_background: bool,
    g: usize,
    background_len: usize,
    foreground_len: usize,
) -> (r: Option<ActMoveGroup>)
    ensures
        mv matches MoveGroup::IsBackground(nb) ==> {
            if nb == is_background {
                r is None
            } else {
                r == Some(
                    ActMoveGroup {
                        old_is_background: is_background,
                        old_group: g,
                        new_is_background: nb,
                        new_group: if nb {
                            background_len
                        } else {
                            foreground_len
                        },
                    },
                )
            }
        },
        mv matches MoveGroup::Group(ng) ==> {
            if ng == g {
                r is None
            } else if ng < g || ng < (if is_background {
                background_len
            } else {
                foreground_len
            }) {
                r == Some(
                    ActMoveGroup {
                        old_is_background: is_background,
                        old_group: g,
                        new_is_background: is_background,
                        new_group: ng,
                    },
                )
            } else {
                r is None
            }
        },
{
    match mv {
        MoveGroup::IsBackground(new_is_background) => {
            if new_is_background == is_background {
                return None;
            }
            let groups_len: usize = if new_is_background {
                background_len
            } else {
                foreground_len
            };
            Some(
                ActMoveGroup {
                    old_is_background: is_background,
                    old_group: g,
                    new_is_background,
                    new_group: groups_len,
                },
            )
        },
        MoveGroup::Group(new_group) => {
            if new_group == g {
                return None;
            }
            let groups_len: usize = if is_background {
                background_len
            } else {
                foreground_len
            };
            if new_group < g || new_group < groups_len {
                Some(
                    ActMoveGroup {
                        old_is_background: is_background,
                        old_group: g,
                        new_is_background: is_background,
                        new_group,
                    },
                )
            } else {
                None
            }
        },
    }
}

} // verus!
