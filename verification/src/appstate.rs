//! The state that all request handlers share, and what a build trigger
//! does to it.

use crate::auth::{signature_accepted, verify_hmac};
use crate::cfg::Cfg;
use vstd::prelude::*;
use vstd::utf8::encode_utf8;

verus! {

/// The largest body of a build trigger that is read, in bytes.
pub const BODY_LIMIT: u64 = 1024 * 2048;

/// What can happen to the build slot.
pub enum SlotEvent {
    /// An authentic build trigger arrives.
    Trigger,
    /// The running build ends.
    Finish,
}

/// Whether the slot is taken after `event`. A trigger leaves it taken,
/// whether it took it or found it taken; the end of the build frees it.
pub open spec fn slot_step(busy: bool, event: SlotEvent) -> bool {
    match event {
        SlotEvent::Trigger => true,
        SlotEvent::Finish => false,
    }
}

/// Whether the slot is taken after the events, in order.
pub open spec fn slot_after(busy: bool, events: Seq<SlotEvent>) -> bool
    decreases events.len(),
{
    if events.len() == 0 {
        busy
    } else {
        slot_step(slot_after(busy, events.drop_last()), events.last())
    }
}

/// Whether the `i`-th event is a trigger that is admitted: it finds the
/// slot free.
pub open spec fn admitted(busy: bool, events: Seq<SlotEvent>, i: int) -> bool {
    &&& 0 <= i < events.len()
    &&& events[i] is Trigger
    &&& !slot_after(busy, events.take(i))
}

/// The single build slot. At most one build runs at a time, whatever
/// repository it is for.
#[derive(Debug)]
pub struct BuildState {
    pub busy: bool,
}

/// The right to run a build. It is handed out when the slot is taken and
/// has to be handed back to free the slot, so the slot is freed only by
/// the build that took it, and only once.
#[derive(Debug)]
pub struct BuildPermit {
    held: (),
}

impl BuildState {
    /// A free slot.
    pub fn new() -> (slot: BuildState)
        ensures
            !slot.busy,
    {
        BuildState { busy: false }
    }

    /// Takes the slot if it is free. Never waits: a taken slot gives
    /// `None` at once and stays as it is.
    pub fn try_acquire(&mut self) -> (permit: Option<BuildPermit>)
        ensures
            permit is Some <==> !old(self).busy,
            final(self).busy == slot_step(old(self).busy, SlotEvent::Trigger),
    {
        if self.busy {
            None
        } else {
            self.busy = true;
            Some(BuildPermit { held: () })
        }
    }

    /// Frees the slot.
    pub fn release(&mut self, permit: BuildPermit)
        ensures
            final(self).busy == slot_step(old(self).busy, SlotEvent::Finish),
    {
        let BuildPermit { held: _ } = permit;
        self.busy = false;
    }
}

/// What all request handlers share.
#[derive(Debug)]
pub struct AppState {
    pub cfg: Cfg,
    pub busy: BuildState,
}

/// The answer to a build trigger.
#[derive(Debug)]
pub enum HookReply {
    /// The build was admitted; its outcome is not known yet.
    Accepted(BuildPermit),
    /// Another build is running.
    Busy,
    /// The signature is not the one that the body should carry.
    Forbidden,
}

impl HookReply {
    /// The HTTP status that goes with the answer.
    pub fn status(&self) -> (code: u16)
        ensures
            self is Accepted ==> code == 200,
            self is Busy ==> code == 503,
            self is Forbidden ==> code == 403,
    {
        match self {
            HookReply::Accepted(_) => 200,
            HookReply::Busy => 503,
            HookReply::Forbidden => 403,
        }
    }

    /// The text that goes with the answer.
    pub fn text(&self) -> (text: &'static str)
        ensures
            self is Accepted ==> text@ == "task spawned."@,
            self is Busy ==> text@ == "busy!"@,
            self is Forbidden ==> text@ == "not allowed"@,
    {
        match self {
            HookReply::Accepted(_) => "task spawned.",
            HookReply::Busy => "busy!",
            HookReply::Forbidden => "not allowed",
        }
    }
}

impl AppState {
    /// The state of a runner that is not building.
    pub fn new(cfg: Cfg) -> (state: AppState)
        ensures
            state.cfg == cfg,
            !state.busy.busy,
    {
        AppState { cfg, busy: BuildState::new() }
    }

    /// Whether `signature` is accepted for `body` under the configured
    /// secret.
    pub open spec fn accepts(&self, body: Seq<u8>, signature: Seq<char>) -> bool {
        signature_accepted(encode_utf8(self.cfg.hmac_key@), body, signature)
    }

    /// Decides a build trigger. The signature is checked first: a request
    /// that fails the check is refused and leaves the slot as it was. An
    /// authentic request takes the slot if it is free and is turned away
    /// if it is not.
    pub fn hook(&mut self, payload_bytes: &[u8], signature: &str) -> (reply: HookReply)
        ensures
            final(self).cfg == old(self).cfg,
            !old(self).accepts(payload_bytes@, signature@) ==> reply is Forbidden && final(self).busy
                == old(self).busy,
            old(self).accepts(payload_bytes@, signature@) && old(self).busy.busy ==> reply is Busy
                && final(self).busy.busy,
            old(self).accepts(payload_bytes@, signature@) && !old(self).busy.busy ==> reply is Accepted
                && final(self).busy.busy,
    {
        if !verify_hmac(&self.cfg, payload_bytes, signature) {
            return HookReply::Forbidden;
        }
        match self.busy.try_acquire() {
            Some(permit) => HookReply::Accepted(permit),
            None => HookReply::Busy,
        }
    }

    /// Ends a build: frees the slot.
    pub fn finish(&mut self, permit: BuildPermit)
        ensures
            final(self).cfg == old(self).cfg,
            !final(self).busy.busy,
    {
        self.busy.release(permit);
    }
}

/// The slot is taken after any run of events that ends in a trigger and
/// holds no end of a build behind some trigger.
proof fn lemma_taken_since_trigger(busy: bool, events: Seq<SlotEvent>, i: int, m: int)
    requires
        0 <= i < m <= events.len(),
        events[i] is Trigger,
        forall|k: int| i < k < m ==> !(#[trigger] events[k] is Finish),
    ensures
        slot_after(busy, events.take(m)),
{
    assert(events.take(m).drop_last() =~= events.take(m - 1));
    assert(events.take(m).last() == events[m - 1]);
}

/// Of two triggers with no end of a build between them, the later one is
/// turned away, and the earlier one is admitted exactly if it finds the
/// slot free: no build begins while another is running.
pub proof fn lemma_one_build_at_a_time(busy: bool, events: Seq<SlotEvent>, i: int, j: int)
    requires
        0 <= i < j < events.len(),
        events[i] is Trigger,
        events[j] is Trigger,
        forall|k: int| i < k < j ==> !(#[trigger] events[k] is Finish),
    ensures
        !admitted(busy, events, j),
        admitted(busy, events, i) <==> !slot_after(busy, events.take(i)),
{
    lemma_taken_since_trigger(busy, events, i, j);
}

/// Between two builds that are admitted, the first one ends.
pub proof fn lemma_builds_do_not_overlap(busy: bool, events: Seq<SlotEvent>, i: int, j: int)
    requires
        i < j,
        admitted(busy, events, i),
        admitted(busy, events, j),
    ensures
        exists|k: int| i < k < j && #[trigger] events[k] is Finish,
{
    if forall|k: int| i < k < j ==> !(#[trigger] events[k] is Finish) {
        lemma_one_build_at_a_time(busy, events, i, j);
    }
}

} // verus!
