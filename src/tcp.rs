//! TCP listeners: how the two listening sockets of a port are set up, and
//! what the accept loop does with each accepted connection

use vstd::prelude::*;

verus! {

/// An IP family; a socket of a family is bound to its wildcard address
/// (`0.0.0.0` for IPv4, `::` for IPv6)
#[derive(Clone, Copy, PartialEq, Eq, Structural, Debug)]
pub enum Family {
    V4,
    V6,
}

/// Length of the queue of pending connections of a listening socket
pub const TCP_BACKLOG: i32 = 1024;

/// How one listening TCP socket is created, configured and bound
#[derive(Clone, Copy, PartialEq, Eq, Structural, Debug)]
pub struct BindPlan {
    pub family: Family,
    pub port: u16,
    /// Accept IPv6 traffic only, so that the two sockets of a port do not
    /// compete for the same connections
    pub only_v6: bool,
    /// Disable Nagle's algorithm
    pub nodelay: bool,
    pub nonblocking: bool,
    pub backlog: i32,
}

pub open spec fn bind_plans_spec(port: u16) -> Seq<BindPlan> {
    seq![
        BindPlan {
            family: Family::V4,
            port,
            only_v6: false,
            nodelay: true,
            nonblocking: true,
            backlog: TCP_BACKLOG,
        },
        BindPlan {
            family: Family::V6,
            port,
            only_v6: true,
            nodelay: true,
            nonblocking: true,
            backlog: TCP_BACKLOG,
        },
    ]
}

/// The two sockets that serve `port`: IPv4 first, then IPv6-only; binding
/// stops at the first one that fails
pub fn bind_plans(port: u16) -> (r: Vec<BindPlan>)
    ensures
        r@ == bind_plans_spec(port),
{
    let r = vec![
        BindPlan {
            family: Family::V4,
            port,
            only_v6: false,
            nodelay: true,
            nonblocking: true,
            backlog: TCP_BACKLOG,
        },
        BindPlan {
            family: Family::V6,
            port,
            only_v6: true,
            nodelay: true,
            nonblocking: true,
            backlog: TCP_BACKLOG,
        },
    ];
    assert(r@ =~= bind_plans_spec(port));
    r
}

/// What the accept loop does after one `accept`
#[derive(Debug, PartialEq, Eq)]
pub enum AcceptAction<S> {
    /// Hand the connection to the service
    Forward(S),
    /// The accept failed: log it and accept again
    Retry,
}

/// An accepted connection goes to the service; a failed accept never ends
/// the loop
pub fn after_accept<S, E>(r: Result<S, E>) -> (a: AcceptAction<S>)
    ensures
        match r {
            Ok(s) => a == AcceptAction::Forward(s),
            Err(_) => a == AcceptAction::<S>::Retry,
        },
{
    match r {
        Ok(s) => AcceptAction::Forward(s),
        Err(_) => AcceptAction::Retry,
    }
}

} // verus!
