//! Socket addresses as the user writes them, and the rule by which a list of
//! candidate addresses is tried.
use vstd::prelude::*;

verus! {

/// The kind of socket an address names, and the address proper.
#[derive(Debug, Clone)]
pub enum SocketTarget {
    /// An internet address, `<host>:<port>`, still to be resolved.
    Inet(String),
    /// The path of a UNIX domain socket.
    Unix(String),
}

/// The view of a `SocketTarget`.
pub enum SocketTargetView {
    Inet(Seq<char>),
    Unix(Seq<char>),
}

impl View for SocketTarget {
    type V = SocketTargetView;

    open spec fn view(&self) -> SocketTargetView {
        match self {
            SocketTarget::Inet(s) => SocketTargetView::Inet(s@),
            SocketTarget::Unix(s) => SocketTargetView::Unix(s@),
        }
    }
}

pub open spec fn inet_scheme() -> Seq<char> {
    seq!['i', 'n', 'e', 't', ':']
}

pub open spec fn unix_scheme() -> Seq<char> {
    seq!['u', 'n', 'i', 'x', ':']
}

pub open spec fn has_prefix(s: Seq<char>, prefix: Seq<char>) -> bool {
    prefix.len() <= s.len() && s.subrange(0, prefix.len() as int) == prefix
}

/// How an address is read: `inet:<address>` and `unix:<path>` name their
/// kind; otherwise an address with a `/` is a path, and any other is an
/// internet address.
pub open spec fn spec_socket_target(s: Seq<char>) -> SocketTargetView {
    if has_prefix(s, inet_scheme()) {
        SocketTargetView::Inet(s.skip(5))
    } else if has_prefix(s, unix_scheme()) {
        SocketTargetView::Unix(s.skip(5))
    } else if s.contains('/') {
        SocketTargetView::Unix(s)
    } else {
        SocketTargetView::Inet(s)
    }
}

fn starts_with_scheme(s: &str, scheme: [char; 5]) -> (b: bool)
    ensures
        b == has_prefix(s@, scheme@),
{
    let n = s.unicode_len();
    if n < 5 {
        return false;
    }
    let mut i: usize = 0;
    while i < 5
        invariant
            0 <= i <= 5,
            n == s@.len(),
            n >= 5,
            scheme@.len() == 5,
            forall|j: int| 0 <= j < i ==> s@[j] == scheme@[j],
        decreases 5 - i,
    {
        if s.get_char(i) != scheme[i] {
            assert(s@.subrange(0, 5)[i as int] != scheme@[i as int]);
            return false;
        }
        i = i + 1;
    }
    assert(s@.subrange(0, 5) =~= scheme@);
    true
}

fn contains_slash(s: &str) -> (b: bool)
    ensures
        b == s@.contains('/'),
{
    let n = s.unicode_len();
    let mut i: usize = 0;
    while i < n
        invariant
            0 <= i <= n,
            n == s@.len(),
            forall|j: int| 0 <= j < i ==> s@[j] != '/',
        decreases n - i,
    {
        if s.get_char(i) == '/' {
            assert(s@[i as int] == '/');
            return true;
        }
        i = i + 1;
    }
    false
}

/// Reads an address as the user wrote it (see `spec_socket_target`).
pub fn socket_target(s: &str) -> (target: SocketTarget)
    ensures
        target@ == spec_socket_target(s@),
{
    if starts_with_scheme(s, ['i', 'n', 'e', 't', ':']) {
        let n = s.unicode_len();
        let rest = s.substring_char(5, n);
        assert(rest@ =~= s@.skip(5));
        SocketTarget::Inet(String::from_str(rest))
    } else if starts_with_scheme(s, ['u', 'n', 'i', 'x', ':']) {
        let n = s.unicode_len();
        let rest = s.substring_char(5, n);
        assert(rest@ =~= s@.skip(5));
        SocketTarget::Unix(String::from_str(rest))
    } else if contains_slash(s) {
        SocketTarget::Unix(String::from_str(s))
    } else {
        SocketTarget::Inet(String::from_str(s))
    }
}

/// How a UNIX domain socket address is shown: `unix:` and its path, or
/// `unix:<unnamed>` for an unnamed socket. Abstract sockets are not shown.
pub fn unix_address_text(path: Option<&str>, unnamed: bool) -> (text: String)
    requires
        path is Some || unnamed,
    ensures
        match path {
            Some(p) => text@ == "unix:"@ + p@,
            None => text@ == "unix:<unnamed>"@,
        },
{
    match path {
        Some(p) => {
            let mut text = String::from_str("unix:");
            text.append(p);
            text
        },
        None => String::from_str("unix:<unnamed>"),
    }
}

/// Why no candidate address could be used.
#[derive(Debug, PartialEq, Eq)]
pub enum AttemptError<E> {
    /// The error of the last candidate that was tried.
    Last(E),
    /// There was no candidate at all.
    NoAddress,
}

/// Tries candidate addresses in turn: the first success wins, and when all
/// fail, the last failure is reported.
pub struct AttemptLoop<E> {
    last_err: Option<E>,
}

impl<E> AttemptLoop<E> {
    /// The failure of the last candidate tried so far, if any.
    pub closed spec fn spec_last_error(&self) -> Option<E> {
        self.last_err
    }

    pub fn new() -> (l: Self)
        ensures
            l.spec_last_error() is None,
    {
        AttemptLoop { last_err: None }
    }

    /// Takes the outcome of trying one candidate; gives the success back, if
    /// it is one.
    pub fn on_attempt<T>(&mut self, res: Result<T, E>) -> (out: Option<T>)
        ensures
            match res {
                Ok(t) => out == Some(t) && final(self).spec_last_error() == old(
                    self,
                ).spec_last_error(),
                Err(e) => out is None && final(self).spec_last_error() == Some(e),
            },
    {
        match res {
            Ok(t) => Some(t),
            Err(e) => {
                self.last_err = Some(e);
                None
            },
        }
    }

    /// The failure to report once every candidate failed.
    pub fn finish(self) -> (err: AttemptError<E>)
        ensures
            match self.spec_last_error() {
                Some(e) => err == AttemptError::Last(e),
                None => err == AttemptError::<E>::NoAddress,
            },
    {
        match self.last_err {
            Some(e) => AttemptError::Last(e),
            None => AttemptError::NoAddress,
        }
    }
}

} // verus!
