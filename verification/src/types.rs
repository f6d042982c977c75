//! The value types the workflows produce: the cached identity summary of a
//! verified credential, and the projected conversation summary.

use vstd::prelude::*;

use crate::token::clone_opt_string;

verus! {

/// The cached result of the most recent successful identity verification.
#[derive(Debug, PartialEq, Eq)]
pub struct AuthSummary {
    pub team_id: Option<String>,
    pub user_id: Option<String>,
    pub team: Option<String>,
    pub user: Option<String>,
    pub url: Option<String>,
}

impl Clone for AuthSummary {
    /// An equal copy of the summary.
    fn clone(&self) -> (r: Self)
        ensures
            r == *self,
    {
        AuthSummary {
            team_id: clone_opt_string(&self.team_id),
            user_id: clone_opt_string(&self.user_id),
            team: clone_opt_string(&self.team),
            user: clone_opt_string(&self.user),
            url: clone_opt_string(&self.url),
        }
    }
}

/// One conversation as the listing returns it: flags the remote response
/// omitted are already resolved to `false`.
#[derive(Debug, PartialEq, Eq)]
pub struct ConversationSummary {
    pub id: String,
    pub name: Option<String>,
    pub is_im: bool,
    pub is_private: bool,
    pub is_mpim: bool,
    pub is_archived: bool,
    pub num_members: Option<u64>,
}

impl Clone for ConversationSummary {
    /// An equal copy of the summary.
    fn clone(&self) -> (r: Self)
        ensures
            r == *self,
    {
        ConversationSummary {
            id: self.id.clone(),
            name: clone_opt_string(&self.name),
            is_im: self.is_im,
            is_private: self.is_private,
            is_mpim: self.is_mpim,
            is_archived: self.is_archived,
            num_members: clone_opt_u64(&self.num_members),
        }
    }
}

/// A copy of an optional integer, equal to the original.
pub fn clone_opt_u64(o: &Option<u64>) -> (r: Option<u64>)
    ensures
        r == *o,
{
    match o {
        Some(v) => Some(*v),
        None => None,
    }
}

} // verus!
