//! Pilot authority: which connected client may write drive commands.

use vstd::prelude::*;

verus! {

/// The holder value that means "no pilot".
pub const NO_PILOT: u32 = 0;

/// Something that moves the authority.
pub enum AuthorityEvent {
    /// A client presented the secret token.
    Claim(u32),
    /// A client's connection ended.
    Release(u32),
}

/// The holder after one event: a claim always wins; a release clears the
/// authority only when it comes from the holder.
pub open spec fn next_holder(holder: u32, e: AuthorityEvent) -> u32 {
    match e {
        AuthorityEvent::Claim(id) => id,
        AuthorityEvent::Release(id) => if holder == id {
            NO_PILOT
        } else {
            holder
        },
    }
}

/// Whether client `id` holds the authority when `holder` does. The "no pilot"
/// value never does, whoever presents it.
pub open spec fn is_pilot(holder: u32, id: u32) -> bool {
    id != NO_PILOT && holder == id
}

/// The holder after a history of events, from `holder`.
pub open spec fn holder_after(holder: u32, es: Seq<AuthorityEvent>) -> u32
    decreases es.len(),
{
    if es.len() == 0 {
        holder
    } else {
        next_holder(holder_after(holder, es.drop_last()), es.last())
    }
}

/// Shared record of the current pilot.
pub struct PilotAuthority {
    holder: u32,
}

impl PilotAuthority {
    /// The current holder, `NO_PILOT` when nobody holds it.
    pub closed spec fn holder(&self) -> u32 {
        self.holder
    }

    /// No pilot yet.
    pub fn new() -> (r: Self)
        ensures
            r.holder() == NO_PILOT,
    {
        PilotAuthority { holder: NO_PILOT }
    }

    /// `id` becomes the pilot, displacing any other.
    pub fn claim(&mut self, id: u32)
        ensures
            final(self).holder() == next_holder(old(self).holder(), AuthorityEvent::Claim(id)),
            final(self).holder() == id,
    {
        self.holder = id;
    }

    /// The current holder.
    pub fn current(&self) -> (r: u32)
        ensures
            r == self.holder(),
    {
        self.holder
    }

    /// Whether client `id` is the pilot now.
    pub fn is_pilot(&self, id: u32) -> (r: bool)
        ensures
            r == is_pilot(self.holder(), id),
    {
        id != NO_PILOT && self.holder == id
    }

    /// Clears the authority if `id` holds it; says whether it did.
    pub fn release_if_holder(&mut self, id: u32) -> (released: bool)
        ensures
            released == (old(self).holder() == id),
            final(self).holder() == next_holder(old(self).holder(), AuthorityEvent::Release(id)),
            !released ==> *final(self) == *old(self),
    {
        if self.holder == id {
            self.holder = NO_PILOT;
            true
        } else {
            false
        }
    }
}

/// Whatever came before, the holder after a history that ends with a claim is
/// the client that made that claim.
pub proof fn lemma_last_claim_wins(start: u32, es: Seq<AuthorityEvent>, id: u32)
    requires
        es.len() > 0,
        es.last() == AuthorityEvent::Claim(id),
    ensures
        holder_after(start, es) == id,
{
}

/// After `claim(a)`, `claim(b)`, `claim(a)` the holder is `a`, not `b`, from
/// any start.
pub proof fn lemma_claim_a_b_a(start: u32, a: u32, b: u32)
    ensures
        holder_after(
            start,
            seq![AuthorityEvent::Claim(a), AuthorityEvent::Claim(b), AuthorityEvent::Claim(a)],
        ) == a,
{
    let es = seq![AuthorityEvent::Claim(a), AuthorityEvent::Claim(b), AuthorityEvent::Claim(a)];
    lemma_last_claim_wins(start, es, a);
}

/// When the holder's connection ends, nobody holds the authority.
pub proof fn lemma_holder_release_clears(start: u32, es: Seq<AuthorityEvent>)
    ensures
        holder_after(start, es.push(AuthorityEvent::Release(holder_after(start, es)))) == NO_PILOT,
{
    let es2 = es.push(AuthorityEvent::Release(holder_after(start, es)));
    assert(es2.drop_last() =~= es);
}

} // verus!
