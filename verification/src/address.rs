//! The address that the launches of one application contend for.

use crate::text::same_text;
use vstd::prelude::*;
use vstd::string::StringExecFns;

verus! {

/// What is put behind the identity of the application.
pub open spec fn address_suffix() -> Seq<char> {
    "-lock"@
}

/// The address of the application with the given identity.
pub open spec fn address_of(identity: Seq<char>) -> Seq<char> {
    identity + address_suffix()
}

/// The well-known name that every launch of one application claims.
///
/// It is made of the stable identity of the application and of nothing
/// else: neither a version nor a process id goes into it, so that all
/// versions and all launches meet at the same address.
#[derive(Debug)]
pub struct ChannelAddress {
    pub name: String,
}

impl View for ChannelAddress {
    type V = Seq<char>;

    open spec fn view(&self) -> Seq<char> {
        self.name@
    }
}

impl ChannelAddress {
    /// The address of the application with the given identity.
    pub fn for_application(identity: &str) -> (address: ChannelAddress)
        ensures
            address@ == address_of(identity@),
    {
        let mut name = String::from_str(identity);
        name.append("-lock");
        ChannelAddress { name }
    }

    /// The address as text.
    pub fn as_str(&self) -> (s: &str)
        ensures
            s@ == self@,
    {
        self.name.as_str()
    }

    /// Whether two addresses are the same.
    pub fn same_as(&self, other: &ChannelAddress) -> (b: bool)
        ensures
            b == (self@ == other@),
    {
        same_text(self.name.as_str(), other.name.as_str())
    }
}

/// Two applications share an address only if they share their identity.
pub proof fn lemma_address_tells_applications_apart(first: Seq<char>, second: Seq<char>)
    requires
        address_of(first) == address_of(second),
    ensures
        first == second,
{
    let a = address_of(first);
    let n = address_suffix().len();
    assert(a.len() == first.len() + n);
    assert(a.len() == second.len() + n);
    assert(first =~= a.take(first.len() as int));
    assert(second =~= a.take(second.len() as int));
}

} // verus!
