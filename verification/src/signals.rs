//! The capability grant that lets other agents send this zome remote
//! signals.
use vstd::prelude::*;
use vstd::string::*;

verus! {

/// Who may use a grant. The signal grant is open to everyone.
#[derive(Debug, Clone, Copy, PartialEq, Eq, Structural)]
pub enum CapAccess {
    Unrestricted,
}

/// A capability grant: its tag, who may use it, and the functions it
/// opens, each as (zome name, function name), none twice.
#[derive(Debug)]
pub struct CapGrantEntry {
    pub tag: String,
    pub access: CapAccess,
    pub functions: Vec<(String, String)>,
}

/// No (zome, function) pair is listed twice: the list stands for a set.
pub open spec fn no_function_twice(functions: Seq<(String, String)>) -> bool {
    forall|i: int, j: int|
        0 <= i < functions.len() && 0 <= j < functions.len() && i != j ==> !(
        #[trigger] functions[i].0@ == #[trigger] functions[j].0@ && functions[i].1@ == functions[j].1@)
}

/// The name of the function that receives remote signals.
pub open spec fn recv_remote_signal_name() -> Seq<char> {
    "recv_remote_signal"@
}

/// The grant that opens `recv_remote_signal` of the given zome to every
/// agent, with an empty tag.
pub fn receive_signal_cap_grant(zome_name: String) -> (grant: CapGrantEntry)
    ensures
        grant.tag@ == Seq::<char>::empty(),
        grant.access == CapAccess::Unrestricted,
        grant.functions@.len() == 1,
        grant.functions@[0].0@ == zome_name@,
        grant.functions@[0].1@ == recv_remote_signal_name(),
        grant.functions@[0].1@ == "recv_remote_signal"@,
        no_function_twice(grant.functions@),
{
    let mut functions: Vec<(String, String)> = Vec::new();
    functions.push((zome_name, String::from_str("recv_remote_signal")));
    CapGrantEntry { tag: String::new(), access: CapAccess::Unrestricted, functions }
}

} // verus!
