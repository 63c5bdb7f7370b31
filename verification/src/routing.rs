//! Routing policy: the rule mapping an HTTP method to a backend tier.
//!
//! The default rule sends `POST` to the write tier and every other method to
//! the read tier. This module is the single point of extension for other
//! method- or path-based splitting rules.

use vstd::prelude::*;

verus! {

/// The tier a request is routed to.
#[derive(Clone, Copy, PartialEq, Eq, Structural, Debug)]
pub enum Role {
    /// The write tier, which receives mutating traffic.
    Write,
    /// The read tier, which receives everything else.
    Read,
}

/// The routing rule: `POST` goes to the write tier, any other method to the
/// read tier.
pub open spec fn spec_classify(method: Seq<char>) -> Role {
    if method == "POST"@ {
        Role::Write
    } else {
        Role::Read
    }
}

/// Classifies a request by its HTTP method: `POST` routes to `Role::Write`,
/// every other method (`GET`, `PUT`, `DELETE`, `HEAD`, ...) to `Role::Read`.
/// Pure, with no failure modes: an unknown method is read traffic.
pub fn classify(method: &str) -> (r: Role)
    ensures
        r == spec_classify(method@),
{
    proof {
        reveal_strlit("POST");
    }
    if method.unicode_len() != 4 {
        return Role::Read;
    }
    let is_post = method.get_char(0) == 'P' && method.get_char(1) == 'O' && method.get_char(2)
        == 'S' && method.get_char(3) == 'T';
    if is_post {
        proof {
            assert(method@ =~= "POST"@);
        }
        Role::Write
    } else {
        proof {
            assert(method@ != "POST"@);
        }
        Role::Read
    }
}

} // verus!
