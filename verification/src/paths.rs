//! How locations are put together from a root and a name.

use vstd::prelude::*;
use vstd::string::StringExecFns;

verus! {

/// A root and a name with one slash between them.
pub open spec fn joined(root: Seq<char>, name: Seq<char>) -> Seq<char> {
    root + seq!['/'] + name
}

/// The location of `name` under `root`: the two with one slash between them.
pub fn join(root: &str, name: &str) -> (location: String)
    ensures
        location@ == joined(root@, name@),
{
    proof {
        reveal_strlit("/");
    }
    let slash = "/";
    assert(slash@ =~= seq!['/']);
    String::from_str(root).concat(slash).concat(name)
}

} // verus!
