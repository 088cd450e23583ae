//! The order of the sockets: by their numbers.

use crate::register::Socket;
use core::cmp::Ordering;
use vstd::prelude::*;
use vstd::std_specs::cmp::{PartialOrdSpec, PartialOrdSpecImpl};

verus! {

/// How socket `a` compares with socket `b`: by their numbers.
pub open spec fn socket_order(a: Socket, b: Socket) -> Option<Ordering> {
    if a.index() < b.index() {
        Some(Ordering::Less)
    } else if a.index() == b.index() {
        Some(Ordering::Equal)
    } else {
        Some(Ordering::Greater)
    }
}

impl PartialOrdSpecImpl for Socket {
    open spec fn obeys_partial_cmp_spec() -> bool {
        true
    }

    open spec fn partial_cmp_spec(&self, other: &Socket) -> Option<Ordering> {
        socket_order(*self, *other)
    }
}

impl PartialOrd for Socket {
    /// Compares two sockets by their numbers.
    fn partial_cmp(&self, other: &Socket) -> (order: Option<Ordering>) {
        let (a, b) = (self.number(), other.number());
        if a < b {
            Some(Ordering::Less)
        } else if a == b {
            Some(Ordering::Equal)
        } else {
            Some(Ordering::Greater)
        }
    }
}

/// Sockets are named by their numbers, which lie below 8, and they order as their numbers do.
pub proof fn lemma_sockets_order_by_number(a: Socket, b: Socket)
    ensures
        a == b <==> a.index() == b.index(),
        a.index() < 8,
        PartialOrdSpec::partial_cmp_spec(&a, &b) == Some(Ordering::Less) <==> a.index() < b.index(),
        PartialOrdSpec::partial_cmp_spec(&a, &b) == Some(Ordering::Equal) <==> a == b,
        PartialOrdSpec::partial_cmp_spec(&a, &b) == Some(Ordering::Greater) <==> a.index() > b.index(),
{
}

} // verus!
