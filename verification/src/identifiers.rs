//! Application-layer identifiers handled by the bootstrap.
//!
//! A port identifier names an application endpoint on one chain; a channel
//! identifier names one side of an established channel. Both are opaque,
//! string-like values to this layer: it never parses them, it only carries
//! them, tags them with chain roles, and for channel identifiers enforces
//! that an assigned one is never empty.

use vstd::prelude::*;

verus! {

/// An application-layer endpoint name on one chain.
///
/// Opaque to this layer; tagged with one or two chain roles when held by the
/// bootstrap. Its view is the sequence of characters of the underlying name.
pub struct PortId {
    id: String,
}

impl View for PortId {
    type V = Seq<char>;

    closed spec fn view(&self) -> Seq<char> {
        self.id@
    }
}

impl PortId {
    /// Wrap a port name.
    pub fn new(id: String) -> (r: PortId)
        ensures
            r@ == id@,
    {
        PortId { id }
    }

    /// The underlying port name.
    pub fn as_str(&self) -> (r: &str)
        ensures
            r@ == self@,
    {
        self.id.as_str()
    }
}

impl Clone for PortId {
    /// Duplicating a port identifier yields an equal one.
    fn clone(&self) -> (r: Self)
        ensures
            r == *self,
    {
        PortId { id: self.id.clone() }
    }
}

/// The identifier a chain assigns to its side of an established channel.
///
/// An assigned channel identifier is never empty: construction rejects the
/// empty name, so every value of this type carries at least one character.
/// Its view is the sequence of characters of the underlying name.
pub struct ChannelId {
    id: String,
}

impl View for ChannelId {
    type V = Seq<char>;

    closed spec fn view(&self) -> Seq<char> {
        self.id@
    }
}

impl ChannelId {
    /// Holds of every channel identifier: construction rejects the empty
    /// name, so the underlying one is never empty. Obtained for a given
    /// identifier with `use_type_invariant`; [`ChannelId::lemma_non_empty`]
    /// carries it to the view.
    #[verifier::type_invariant]
    pub closed spec fn non_empty(self) -> bool {
        self.id@.len() > 0
    }

    /// A channel identifier satisfying its invariant has a non-empty view.
    pub proof fn lemma_non_empty(id: ChannelId)
        requires
            id.non_empty(),
        ensures
            id@.len() > 0,
    {
    }

    /// Wrap a channel name, rejecting the empty one.
    pub fn new(id: String) -> (r: Option<ChannelId>)
        ensures
            id@.len() == 0 ==> r is None,
            id@.len() > 0 ==> (r matches Some(c) && c@ == id@),
    {
        if id.as_str().is_empty() {
            None
        } else {
            Some(ChannelId { id })
        }
    }

    /// The underlying channel name.
    pub fn as_str(&self) -> (r: &str)
        ensures
            r@ == self@,
    {
        self.id.as_str()
    }
}

impl Clone for ChannelId {
    /// Duplicating a channel identifier yields an equal one.
    fn clone(&self) -> (r: Self)
        ensures
            r == *self,
    {
        proof {
            use_type_invariant(self);
        }
        ChannelId { id: self.id.clone() }
    }
}

} // verus!
