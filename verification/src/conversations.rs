//! The conversation lister: bounded, cursor-driven pagination over the
//! remote listing call, as a verified request/absorb state machine.
//!
//! The embedding layer alternates `next_request`, the remote page fetch,
//! and `absorb_page` until `next_request` yields nothing. Every decision
//! of the loop in between is verified here: the page size formula, the
//! cursor carried forward, the cap on collected items, and the exact
//! projection of each returned item. A failed page fetch aborts the whole
//! listing; partial results are never handed out.

use vstd::prelude::*;

use crate::errors::{ClientError, ErrorKind};
use crate::token::{clone_opt_string, ApiToken};
use crate::types::{clone_opt_u64, ConversationSummary};
use crate::world::World;

verus! {

/// The cap a single page request may carry.
pub const PAGE_LIMIT: u16 = 200;

/// How many conversations a listing collects when the caller names no
/// bound.
pub const DEFAULT_LIMIT: u16 = 500;

/// The smaller of two integers.
pub open spec fn min_int(a: int, b: int) -> int {
    if a <= b {
        a
    } else {
        b
    }
}

/// The size of the next page request: the page cap, or exactly what is
/// still missing when that is less.
pub open spec fn page_size(max: int, have: int) -> int {
    min_int(PAGE_LIMIT as int, max - have)
}

/// One conversation as the remote response carries it: every flag still
/// optional.
#[derive(Debug, PartialEq, Eq)]
pub struct ChannelInfo {
    pub id: String,
    pub name: Option<String>,
    pub is_im: Option<bool>,
    pub is_private: Option<bool>,
    pub is_mpim: Option<bool>,
    pub is_archived: Option<bool>,
    pub num_members: Option<u64>,
}

/// A copy of an optional flag, equal to the original.
fn clone_opt_bool(o: &Option<bool>) -> (r: Option<bool>)
    ensures
        r == *o,
{
    match o {
        Some(b) => Some(*b),
        None => None,
    }
}

impl Clone for ChannelInfo {
    /// An equal copy of the channel record.
    fn clone(&self) -> (r: Self)
        ensures
            r == *self,
    {
        ChannelInfo {
            id: self.id.clone(),
            name: clone_opt_string(&self.name),
            is_im: clone_opt_bool(&self.is_im),
            is_private: clone_opt_bool(&self.is_private),
            is_mpim: clone_opt_bool(&self.is_mpim),
            is_archived: clone_opt_bool(&self.is_archived),
            num_members: clone_opt_u64(&self.num_members),
        }
    }
}

/// One page of the remote response: its items and the cursor that
/// continues the listing, if any.
#[derive(Debug)]
pub struct ConversationPage {
    pub channels: Vec<ChannelInfo>,
    pub next_cursor: Option<String>,
}

/// The next page fetch the embedding layer is asked to perform.
#[derive(Debug)]
pub struct PageRequest {
    pub limit: u16,
    pub cursor: Option<String>,
}

/// A flag the remote response may omit, resolved with `false` as the
/// default.
pub open spec fn opt_flag(o: Option<bool>) -> bool {
    match o {
        Some(b) => b,
        None => false,
    }
}

/// The projection of one remote item into a summary.
pub open spec fn summarize(c: ChannelInfo) -> ConversationSummary {
    ConversationSummary {
        id: c.id,
        name: c.name,
        is_im: opt_flag(c.is_im),
        is_private: opt_flag(c.is_private),
        is_mpim: opt_flag(c.is_mpim),
        is_archived: opt_flag(c.is_archived),
        num_members: c.num_members,
    }
}

/// The projection of a whole page of remote items.
pub open spec fn summaries_of(cs: Seq<ChannelInfo>) -> Seq<ConversationSummary> {
    cs.map(|i: int, c: ChannelInfo| summarize(c))
}

/// Resolve an optional flag to its value, with `false` for an omitted
/// one.
pub fn flag_or_false(o: Option<bool>) -> (r: bool)
    ensures
        r == opt_flag(o),
{
    match o {
        Some(b) => b,
        None => false,
    }
}

/// Project one remote item into a summary, resolving omitted flags to
/// `false`.
pub fn summarize_channel(c: ChannelInfo) -> (r: ConversationSummary)
    ensures
        r == summarize(c),
{
    ConversationSummary {
        id: c.id,
        name: c.name,
        is_im: flag_or_false(c.is_im),
        is_private: flag_or_false(c.is_private),
        is_mpim: flag_or_false(c.is_mpim),
        is_archived: flag_or_false(c.is_archived),
        num_members: c.num_members,
    }
}

/// The state of one listing: the bound, what has been collected, the
/// cursor for the next fetch, and whether the remote side reported the
/// listing exhausted.
#[derive(Debug)]
pub struct ConversationLister {
    pub max: usize,
    pub items: Vec<ConversationSummary>,
    pub cursor: Option<String>,
    pub exhausted: bool,
}

impl ConversationLister {
    /// The listing never holds more than its bound.
    pub open spec fn wf(&self) -> bool {
        self.items@.len() <= self.max
    }

    /// A fresh listing bounded by `limit`, or by the default bound when
    /// the caller names none.
    pub fn new(limit: Option<u16>) -> (r: ConversationLister)
        ensures
            r.wf(),
            r.max == (match limit {
                Some(l) => l as int,
                None => DEFAULT_LIMIT as int,
            }),
            r.items@.len() == 0,
            r.cursor is None,
            !r.exhausted,
    {
        let max: usize = match limit {
            Some(l) => l as usize,
            None => DEFAULT_LIMIT as usize,
        };
        ConversationLister { max, items: Vec::new(), cursor: None, exhausted: false }
    }

    /// The next page fetch, if one is still needed: none once the bound
    /// is reached or the remote side reported the end, so no page is ever
    /// requested beyond what the bound asks for. A request carries the
    /// cursor of the previous page and asks for `min(200, missing)`
    /// items.
    pub fn next_request(&self) -> (r: Option<PageRequest>)
        requires
            self.wf(),
        ensures
            r is None <==> (self.exhausted || self.items@.len() >= self.max),
            r matches Some(req) ==> {
                &&& req.limit as int == page_size(self.max as int, self.items@.len() as int)
                &&& 0 < req.limit <= PAGE_LIMIT
                &&& req.cursor == self.cursor
            },
    {
        if self.exhausted || self.items.len() >= self.max {
            return None;
        }
        let remaining = self.max - self.items.len();
        let limit: u16 = if remaining < PAGE_LIMIT as usize {
            remaining as u16
        } else {
            PAGE_LIMIT
        };
        Some(PageRequest { limit, cursor: clone_opt_string(&self.cursor) })
    }

    /// Take one fetched page: append the projection of its items, but
    /// never beyond the bound; remember its cursor; and record the end of
    /// the listing when the page carried no cursor.
    pub fn absorb_page(&mut self, page: ConversationPage)
        requires
            old(self).wf(),
            old(self).items@.len() < old(self).max,
        ensures
            final(self).wf(),
            final(self).max == old(self).max,
            final(self).items@ == old(self).items@ + summaries_of(page.channels@).take(
                min_int(page.channels@.len() as int, old(self).max - old(self).items@.len()),
            ),
            final(self).cursor == page.next_cursor,
            final(self).exhausted == (page.next_cursor is None),
    {
        let ConversationPage { channels, next_cursor } = page;
        let n = channels.len();
        let mut k: usize = 0;
        while k < n && self.items.len() < self.max
            invariant
                n == channels@.len(),
                k <= n,
                self.max == old(self).max,
                self.items@ == old(self).items@ + summaries_of(channels@).take(k as int),
                self.items@.len() == old(self).items@.len() + k,
                self.items@.len() <= self.max,
            decreases n - k,
        {
            let c = channels[k].clone();
            let s = summarize_channel(c);
            self.items.push(s);
            k = k + 1;
            proof {
                assert(summaries_of(channels@).take(k as int) =~= summaries_of(channels@).take(
                    k as int - 1,
                ).push(summarize(channels@[k as int - 1])));
            }
        }
        proof {
            let cap = old(self).max - old(self).items@.len();
            let m = min_int(channels@.len() as int, cap);
            assert(summaries_of(channels@).take(k as int) =~= summaries_of(channels@).take(m));
        }
        self.exhausted = next_cursor.is_none();
        self.cursor = next_cursor;
    }

    /// Hand out what the listing collected.
    pub fn into_items(self) -> (r: Vec<ConversationSummary>)
        ensures
            r@ == self.items@,
    {
        self.items
    }
}

/// The first step of a listing: resolve the active profile's credential
/// (`NotInitialized` when nothing is active, `NoCredential` when the
/// active entity has no token) and set up the bounded listing state.
pub fn begin_list_conversations(world: &World, limit: Option<u16>) -> (r: Result<
    (ApiToken, ConversationLister),
    ClientError,
>)
    requires
        world.wf(),
    ensures
        match r {
            Ok(p) => {
                &&& world.active_profile matches Some(e) && world.entry_of(e).token
                    matches Some(tok) && tok.token == p.0
                &&& p.1.wf()
                &&& p.1.items@.len() == 0
                &&& p.1.cursor is None
                &&& !p.1.exhausted
                &&& p.1.max == (match limit {
                    Some(l) => l as int,
                    None => DEFAULT_LIMIT as int,
                })
            },
            Err(e) => {
                &&& (e.kind == ErrorKind::NotInitialized <==> world.active_profile is None)
                &&& (e.kind == ErrorKind::NoCredential <==> (world.active_profile
                    matches Some(a) && world.entry_of(a).token is None))
            },
        },
        r is Ok <==> (world.active_profile matches Some(e) && world.entry_of(e).token is Some),
{
    let token = match world.active_token() {
        Ok(t) => t,
        Err(e) => {
            return Err(e);
        },
    };
    Ok((token, ConversationLister::new(limit)))
}

} // verus!
