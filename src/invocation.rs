//! What a run is asked to do, from its command-line arguments.
use vstd::prelude::*;

verus! {

/// The host a listener binds to when none is given: every local address.
pub open spec fn any_host() -> Seq<char> {
    "0.0.0.0"@
}

/// What a run does.
#[derive(Clone, Debug, PartialEq, Eq)]
pub enum Invocation {
    /// Listen on `host`:`port` for one peer.
    Listen { host: String, port: String },
    /// Connect to the peer at `host`:`port`.
    Connect { host: String, port: String },
    /// The arguments fit no mode: show how to call the program.
    Usage,
}

/// An invocation as a mathematical value.
pub ghost enum InvocationView {
    Listen(Seq<char>, Seq<char>),
    Connect(Seq<char>, Seq<char>),
    Usage,
}

impl View for Invocation {
    type V = InvocationView;

    open spec fn view(&self) -> InvocationView {
        match self {
            Invocation::Listen { host, port } => InvocationView::Listen(host@, port@),
            Invocation::Connect { host, port } => InvocationView::Connect(host@, port@),
            Invocation::Usage => InvocationView::Usage,
        }
    }
}

/// The invocation that the listen flag and the positional arguments ask for:
/// `-l PORT` and `-l HOST PORT` listen, `HOST PORT` connects, and anything
/// else is a usage error.
pub open spec fn invocation_of(listen: bool, args: Seq<Seq<char>>) -> InvocationView {
    if listen && args.len() == 1 {
        InvocationView::Listen(any_host(), args[0])
    } else if listen && args.len() == 2 {
        InvocationView::Listen(args[0], args[1])
    } else if !listen && args.len() == 2 {
        InvocationView::Connect(args[0], args[1])
    } else {
        InvocationView::Usage
    }
}

/// Decides what a run does from the listen flag and the positional arguments.
pub fn plan(listen: bool, args: &Vec<String>) -> (r: Invocation)
    ensures
        r@ == invocation_of(listen, args@.map_values(|s: String| s@)),
{
    let ghost views = args@.map_values(|s: String| s@);
    if listen && args.len() == 1 {
        let port = args[0].clone();
        assert(port@ == views[0]);
        Invocation::Listen { host: "0.0.0.0".to_owned(), port }
    } else if args.len() == 2 {
        let host = args[0].clone();
        let port = args[1].clone();
        assert(host@ == views[0] && port@ == views[1]);
        if listen {
            Invocation::Listen { host, port }
        } else {
            Invocation::Connect { host, port }
        }
    } else {
        Invocation::Usage
    }
}

} // verus!
