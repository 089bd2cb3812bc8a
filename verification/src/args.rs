//! The addresses given on the command line.
use crate::socket::{SocketTarget, spec_socket_target, socket_target};
use vstd::prelude::*;

verus! {

/// The addresses the server listens on.
#[derive(Debug)]
pub struct ListenAddresses {
    values: Vec<ListenAddress>,
}

impl ListenAddresses {
    /// The addresses, in the order given.
    pub closed spec fn spec_values(&self) -> Seq<ListenAddress> {
        self.values@
    }

    pub fn new(values: Vec<ListenAddress>) -> (addrs: Self)
        ensures
            addrs.spec_values() == values@,
    {
        ListenAddresses { values }
    }

    pub fn values(&self) -> (values: &[ListenAddress])
        ensures
            values@ == self.spec_values(),
    {
        self.values.as_slice()
    }
}

/// One address the server listens on, as the user wrote it.
#[derive(Debug, Clone)]
pub struct ListenAddress {
    value: String,
}

impl View for ListenAddress {
    type V = Seq<char>;

    closed spec fn view(&self) -> Seq<char> {
        self.value@
    }
}

impl From<String> for ListenAddress {
    fn from(value: String) -> (addr: Self) {
        Self { value }
    }
}

impl vstd::std_specs::convert::FromSpecImpl<String> for ListenAddress {
    open spec fn obeys_from_spec() -> bool {
        true
    }

    closed spec fn from_spec(value: String) -> ListenAddress {
        ListenAddress { value }
    }
}

/// A listen address made from a string shows that string.
pub proof fn lemma_from_spec_view(value: String)
    ensures
        <ListenAddress as vstd::std_specs::convert::FromSpec<String>>::from_spec(value)@ == value@,
{
}

impl ListenAddress {
    pub fn as_str(&self) -> (s: &str)
        ensures
            s@ == self@,
    {
        self.value.as_str()
    }

    /// The address as it is shown.
    pub fn to_string(&self) -> (s: String)
        ensures
            s@ == self@,
    {
        self.value.clone()
    }

    /// The kind of socket the address names, and the address proper.
    pub fn socket_target(&self) -> (target: SocketTarget)
        ensures
            target@ == spec_socket_target(self@),
    {
        socket_target(self.value.as_str())
    }
}

/// The address of the server the client connects to, as the user wrote it.
#[derive(Debug)]
pub struct ConnectAddress {
    value: String,
}

impl View for ConnectAddress {
    type V = Seq<char>;

    closed spec fn view(&self) -> Seq<char> {
        self.value@
    }
}

impl ConnectAddress {
    pub fn new(value: String) -> (addr: Self)
        ensures
            addr@ == value@,
    {
        ConnectAddress { value }
    }

    pub fn as_str(&self) -> (s: &str)
        ensures
            s@ == self@,
    {
        self.value.as_str()
    }

    /// The address as it is shown.
    pub fn to_string(&self) -> (s: String)
        ensures
            s@ == self@,
    {
        self.value.clone()
    }

    /// The kind of socket the address names, and the address proper.
    pub fn socket_target(&self) -> (target: SocketTarget)
        ensures
            target@ == spec_socket_target(self@),
    {
        socket_target(self.value.as_str())
    }
}

} // verus!
