//! The right to write to a serial port, which one client at a time may hold.
use crate::error::CoreError;
#[allow(unused_imports)]
use crate::error::CoreErrorView;
use crate::text::same_text;
#[allow(unused_imports)]
use crate::text::text_view;
use vstd::prelude::*;

verus! {

/// Who may write, if anyone.
#[derive(Debug)]
pub struct WriterLease {
    owner: Option<String>,
}

impl View for WriterLease {
    type V = Option<Seq<char>>;

    closed spec fn view(&self) -> Option<Seq<char>> {
        text_view(self.owner)
    }
}

impl Default for WriterLease {
    /// A lease that nobody holds.
    fn default() -> (lease: Self)
        ensures
            lease@ == None::<Seq<char>>,
    {
        WriterLease { owner: None }
    }
}

/// The lease after a client has claimed it: a free lease is the client's, a held one stays.
pub open spec fn after_claim(lease: Option<Seq<char>>, client: Seq<char>) -> Option<Seq<char>> {
    match lease {
        None => Some(client),
        Some(owner) => Some(owner),
    }
}

/// The lease after a client has given it back: only its owner frees it.
pub open spec fn after_release(lease: Option<Seq<char>>, client: Seq<char>) -> Option<Seq<char>> {
    if lease == Some(client) {
        None
    } else {
        lease
    }
}

impl WriterLease {
    /// The client that may write.
    pub fn owner(&self) -> (owner: Option<&str>)
        ensures
            owner is Some <==> self@ is Some,
            owner matches Some(client) ==> self@ == Some(client@),
    {
        match &self.owner {
            Some(client) => Some(client.as_str()),
            None => None,
        }
    }

    /// Takes the lease if it is free. Its owner may claim it again; anyone else is told who the
    /// owner is.
    pub fn claim(&mut self, client_id: &str) -> (outcome: Result<(), CoreError>)
        ensures
            final(self)@ == after_claim(old(self)@, client_id@),
            outcome is Ok <==> old(self)@ is None || old(self)@ == Some(client_id@),
            outcome matches Err(error) ==> error@ == CoreErrorView::WriterAlreadyClaimed(
                old(self)@->0,
            ),
    {
        match &self.owner {
            None => {
                self.owner = Some(client_id.to_owned());
                Ok(())
            },
            Some(owner) => {
                if same_text(owner, client_id) {
                    Ok(())
                } else {
                    Err(CoreError::WriterAlreadyClaimed(owner.clone()))
                }
            },
        }
    }

    /// Gives the lease back. Says whether it was held; a client that does not hold a held lease
    /// is refused.
    pub fn release(&mut self, client_id: &str) -> (outcome: Result<bool, CoreError>)
        ensures
            final(self)@ == after_release(old(self)@, client_id@),
            match outcome {
                Ok(freed) => if freed {
                    old(self)@ == Some(client_id@)
                } else {
                    old(self)@ is None
                },
                Err(error) => {
                    &&& old(self)@ is Some
                    &&& old(self)@ != Some(client_id@)
                    &&& error@ == CoreErrorView::WriterNotOwned(client_id@)
                },
            },
    {
        match &self.owner {
            None => Ok(false),
            Some(owner) => {
                if same_text(owner, client_id) {
                    self.owner = None;
                    Ok(true)
                } else {
                    Err(CoreError::WriterNotOwned(client_id.to_owned()))
                }
            },
        }
    }

    /// Gives the lease back if the client holds it, and says whether it did.
    pub fn release_if_owner(&mut self, client_id: &str) -> (freed: bool)
        ensures
            final(self)@ == after_release(old(self)@, client_id@),
            freed == (old(self)@ == Some(client_id@)),
    {
        let held = self.can_write(client_id);
        if held {
            self.owner = None;
        }
        held
    }

    /// Whether the client holds the lease.
    pub fn can_write(&self, client_id: &str) -> (allowed: bool)
        ensures
            allowed == (self@ == Some(client_id@)),
    {
        match &self.owner {
            Some(owner) => same_text(owner, client_id),
            None => false,
        }
    }
}

/// Only one client at a time may write: two that may are the same client.
pub proof fn one_writer_at_a_time(lease: WriterLease, first: Seq<char>, second: Seq<char>)
    requires
        lease@ == Some(first),
        lease@ == Some(second),
    ensures
        first == second,
{
}

/// After a claim the lease is held, and by the claiming client exactly if the claim was not
/// refused.
pub proof fn a_claim_decides_the_writer(lease: Option<Seq<char>>, client: Seq<char>)
    ensures
        after_claim(lease, client) is Some,
        after_claim(lease, client) == Some(client) <==> lease is None || lease == Some(client),
{
}

/// A claim that is refused changes nothing, and so does one that the owner repeats.
pub proof fn a_held_lease_stays(lease: Option<Seq<char>>, client: Seq<char>)
    requires
        lease is Some,
    ensures
        after_claim(lease, client) == lease,
{
}

/// Giving the lease back undoes a claim of a free lease.
pub proof fn a_release_undoes_a_claim(client: Seq<char>)
    ensures
        after_release(after_claim(None, client), client) == None::<Seq<char>>,
{
}

/// Nobody can take the lease from its owner: what another client claims or gives back leaves the
/// owner.
pub proof fn only_the_owner_frees(owner: Seq<char>, client: Seq<char>)
    requires
        client != owner,
    ensures
        after_claim(Some(owner), client) == Some(owner),
        after_release(Some(owner), client) == Some(owner),
{
}

/// Once the owner is gone, the lease is free for whoever claims it next.
pub proof fn a_freed_lease_can_be_claimed(owner: Seq<char>, next: Seq<char>)
    ensures
        after_claim(after_release(Some(owner), owner), next) == Some(next),
{
}

/// A release leaves the lease free or as it was, and free if the client held it.
pub proof fn a_release_only_frees(lease: Option<Seq<char>>, client: Seq<char>)
    ensures
        after_release(lease, client) is None || after_release(lease, client) == lease,
        after_release(lease, client) != Some(client),
        lease != Some(client) ==> after_release(lease, client) == lease,
{
}

} // verus!
