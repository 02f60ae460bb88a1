//! Transports and how a URL scheme selects one.
//!
//! A scheme is a transport name, optionally followed by `+` and the name of
//! an upgrade that is applied to the dialed stream: `tcp`, `tcp+tls`, `tor`.

use crate::error::Error;
use crate::text::same_text;
use vstd::prelude::*;
use vstd::string::StrSliceExecFns;

verus! {

/// A transport with the upgrade that the scheme asked for, as a
/// mathematical value.
pub enum TransportNameView {
    Tcp(Option<Seq<char>>),
    Tor(Option<Seq<char>>),
}

/// A transport with the upgrade that the scheme asked for.
#[derive(Debug)]
pub enum TransportName {
    /// Plain TCP.
    Tcp(Option<String>),
    /// The onion-routed overlay.
    Tor(Option<String>),
}

impl View for TransportName {
    type V = TransportNameView;

    open spec fn view(&self) -> TransportNameView {
        match self {
            TransportName::Tcp(u) => TransportNameView::Tcp(crate::address::opt_text(*u)),
            TransportName::Tor(u) => TransportNameView::Tor(crate::address::opt_text(*u)),
        }
    }
}

/// Whether `i` is the place of the first `+` in `s`.
pub open spec fn first_plus(s: Seq<char>, i: int) -> bool {
    &&& 0 <= i < s.len()
    &&& s[i] == '+'
    &&& forall|j: int| 0 <= j < i ==> s[j] != '+'
}

/// Whether `s` holds a `+`.
pub open spec fn has_plus(s: Seq<char>) -> bool {
    exists|i: int| first_plus(s, i)
}

/// The transport name of a scheme: what stands before the first `+`, or
/// the whole scheme.
pub open spec fn scheme_base(s: Seq<char>) -> Seq<char> {
    if has_plus(s) {
        s.subrange(0, choose|i: int| first_plus(s, i))
    } else {
        s
    }
}

/// The upgrade of a scheme: what stands behind the first `+`.
pub open spec fn scheme_upgrade(s: Seq<char>) -> Option<Seq<char>> {
    if has_plus(s) {
        Some(s.subrange((choose|i: int| first_plus(s, i)) + 1, s.len() as int))
    } else {
        None
    }
}

/// The transport that a scheme names.  Only `tcp` and `tor` are transports.
pub open spec fn transport_of(scheme: Seq<char>) -> Result<TransportNameView, Error> {
    if scheme_base(scheme) == "tcp"@ {
        Ok(TransportNameView::Tcp(scheme_upgrade(scheme)))
    } else if scheme_base(scheme) == "tor"@ {
        Ok(TransportNameView::Tor(scheme_upgrade(scheme)))
    } else {
        Err(Error::UnsupportedTransport)
    }
}

/// The first `+` of a text stands at one place only.
pub proof fn lemma_first_plus_unique(s: Seq<char>, i: int, j: int)
    requires
        first_plus(s, i),
        first_plus(s, j),
    ensures
        i == j,
{
}

/// The place of the first `+` in `scheme`, if it has one.
fn find_plus(scheme: &str) -> (r: Option<usize>)
    ensures
        r.is_some() == has_plus(scheme@),
        r matches Some(i) ==> first_plus(scheme@, i as int),
{
    let n = scheme.unicode_len();
    let mut i: usize = 0;
    while i < n
        invariant
            i <= n,
            n == scheme@.len(),
            forall|j: int| 0 <= j < i ==> scheme@[j] != '+',
        decreases n - i,
    {
        if scheme.get_char(i) == '+' {
            assert(first_plus(scheme@, i as int));
            return Some(i);
        }
        i = i + 1;
    }
    assert(!has_plus(scheme@)) by {
        if has_plus(scheme@) {
            let k = choose|k: int| first_plus(scheme@, k);
            assert(scheme@[k] != '+');
        }
    }
    None
}

impl TransportName {
    /// The transport that `scheme` names.  Fails with `UnsupportedTransport`
    /// exactly when the scheme's transport name is neither `tcp` nor `tor`.
    pub fn try_from_scheme(scheme: &str) -> (r: Result<TransportName, Error>)
        ensures
            match transport_of(scheme@) {
                Ok(t) => r.is_ok() && r.unwrap()@ == t,
                Err(e) => r == Err::<TransportName, Error>(e),
            },
    {
        let (base, upgrade): (&str, Option<String>) = match find_plus(scheme) {
            None => (scheme, None),
            Some(i) => {
                proof {
                    lemma_first_plus_unique(
                        scheme@,
                        i as int,
                        choose|k: int| first_plus(scheme@, k),
                    );
                }
                let n = scheme.unicode_len();
                (scheme.substring_char(0, i), Some(scheme.substring_char(i + 1, n).to_owned()))
            },
        };
        if same_text(base, "tcp") {
            Ok(TransportName::Tcp(upgrade))
        } else if same_text(base, "tor") {
            Ok(TransportName::Tor(upgrade))
        } else {
            Err(Error::UnsupportedTransport)
        }
    }
}

} // verus!
