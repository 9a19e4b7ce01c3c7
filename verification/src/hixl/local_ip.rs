//! The address under which peers reach this host.
use vstd::prelude::*;

use crate::text::{
    begins_with, first_word_of_bytes, is_first_word_of_bytes, optional_text, starts_with,
};

verus! {

/// An address that the name of the host resolves to.
#[derive(Debug, Clone, PartialEq, Eq)]
pub struct HostAddress {
    pub is_ipv4: bool,
    pub is_loopback: bool,
    /// The address in text.
    pub text: String,
}

impl HostAddress {
    /// Whether peers can use the address.
    pub open spec fn serves(self) -> bool {
        self.is_ipv4 && !self.is_loopback
    }
}

/// Whether the first address of the host that peers can use stands at `at`.
pub open spec fn first_serving(addresses: Seq<HostAddress>, at: int) -> bool {
    &&& 0 <= at < addresses.len()
    &&& addresses[at].serves()
    &&& forall|i: int| 0 <= i < at ==> !(#[trigger] addresses[i]).serves()
}

/// The address of this host, as far as its own name tells: the loopback address
/// where the environment asks for it, then the first IPv4 address that is not one.
/// Where this finds none, [`listed_ip`] decides.
pub fn local_ip_for_hixl(use_loopback: bool, addresses: &[HostAddress]) -> (ip: Option<String>)
    ensures
        use_loopback ==> (ip matches Some(text) && text@ == "127.0.0.1"@),
        !use_loopback ==> match ip {
            Some(text) => exists|at: int| #[trigger]
                first_serving(addresses@, at) && text@ == addresses@[at].text@,
            None => forall|i: int|
                0 <= i < addresses@.len() ==> !(#[trigger] addresses@[i]).serves(),
        },
{
    if use_loopback {
        return Some("127.0.0.1".to_owned());
    }
    let mut at: usize = 0;
    while at < addresses.len()
        invariant
            !use_loopback,
            at <= addresses@.len(),
            forall|i: int| 0 <= i < at ==> !(#[trigger] addresses@[i]).serves(),
        decreases addresses@.len() - at,
    {
        let address: &HostAddress = &addresses[at];
        if address.is_ipv4 && !address.is_loopback {
            assert(first_serving(addresses@, at as int));
            return Some(address.text.clone());
        }
        at = at + 1;
    }
    None
}

/// The address that the first word of a listing gives: that word, unless there is
/// none or it is a loopback address.
pub open spec fn ip_of_word(word: Option<Seq<char>>) -> Seq<char> {
    match word {
        Some(w) => if begins_with(w, "127."@) {
            "127.0.0.1"@
        } else {
            w
        },
        None => "127.0.0.1"@,
    }
}

/// The address of this host by what `hostname -I` printed: its first word, or the
/// loopback address.
pub fn listed_ip(listing: Option<&[u8]>) -> (ip: String)
    ensures
        match listing {
            Some(bytes) => exists|word: Option<Seq<char>>| #[trigger]
                is_first_word_of_bytes(bytes@, word) && ip@ == ip_of_word(word),
            None => ip@ == "127.0.0.1"@,
        },
{
    if let Some(bytes) = listing {
        let word = first_word_of_bytes(bytes);
        assert(is_first_word_of_bytes(bytes@, optional_text(word)));
        if let Some(word) = word {
            if !starts_with(word.as_str(), "127.") {
                return word;
            }
        }
    }
    "127.0.0.1".to_owned()
}

/// The address that is taken is one that peers can use: IPv4 and not a loopback
/// address. Those listed before it are not.
pub proof fn law_address_serves_peers(addresses: Seq<HostAddress>, at: int)
    requires
        first_serving(addresses, at),
    ensures
        0 <= at < addresses.len(),
        addresses[at].is_ipv4,
        !addresses[at].is_loopback,
        forall|i: int|
            0 <= i < at ==> !(#[trigger] addresses[i]).is_ipv4 || addresses[i].is_loopback,
{
}

/// A listed address is taken as it stands unless it is a loopback address. In place of
/// one, or of none, stands the usual loopback address.
pub proof fn law_listed_loopback_is_replaced(word: Option<Seq<char>>)
    ensures
        word is None ==> ip_of_word(word) == "127.0.0.1"@,
        word matches Some(w) ==> (begins_with(w, "127."@) ==> ip_of_word(word) == "127.0.0.1"@),
        word matches Some(w) ==> (!begins_with(w, "127."@) ==> ip_of_word(word) == w),
{
}

} // verus!
