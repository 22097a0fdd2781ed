//! Wireless interfaces and networks as the network service describes them.

use vstd::prelude::*;
use crate::text::{chars_of, same_chars, same_text, string_of};

verus! {

/// A text without the double quote at its beginning and the one at its end,
/// where it has them. The service writes network names that way.
pub open spec fn unquoted(raw: Seq<char>) -> Seq<char> {
    let opened = if raw.len() > 0 && raw[0] == '"' {
        raw.skip(1)
    } else {
        raw
    };
    if opened.len() > 0 && opened.last() == '"' {
        opened.drop_last()
    } else {
        opened
    }
}

/// Takes the surrounding double quotes off a text.
pub fn strip_quotes(raw: &str) -> (bare: String)
    ensures
        bare@ == unquoted(raw@),
{
    let chars = chars_of(raw);
    let n = chars.len();
    let from: usize = if n > 0 && chars[0] == '"' { 1 } else { 0 };
    let to: usize = if n > from && chars[n - 1] == '"' { n - 1 } else { n };
    let mut inner: Vec<char> = Vec::new();
    let mut i: usize = from;
    while i < to
        invariant
            from <= i <= to <= n,
            n == chars.len(),
            inner@ == chars@.subrange(from as int, i as int),
        decreases to - i,
    {
        inner.push(chars[i]);
        assert(chars@.subrange(from as int, i + 1) == chars@.subrange(from as int, i as int).push(
            chars@[i as int],
        ));
        i += 1;
    }
    proof {
        let opened = chars@.skip(from as int);
        if opened.len() > 0 {
            assert(opened.last() == chars@[n - 1]);
        }
        assert(chars@.subrange(from as int, to as int) == unquoted(raw@));
    }
    string_of(&inner)
}

/// The position of the first of the names that is the wanted one.
pub open spec fn first_match(names: Seq<Seq<char>>, wanted: Seq<char>) -> Option<int>
    decreases names.len(),
{
    if names.len() == 0 {
        None
    } else {
        match first_match(names.drop_last(), wanted) {
            Some(at) => Some(at),
            None => if names.last() == wanted {
                Some(names.len() - 1)
            } else {
                None
            },
        }
    }
}

/// What `first_match` finds is the wanted name, no earlier name is, and it
/// finds one whenever there is one.
pub proof fn lemma_first_match(names: Seq<Seq<char>>, wanted: Seq<char>)
    ensures
        match first_match(names, wanted) {
            Some(at) => 0 <= at < names.len() && names[at] == wanted && forall|j: int|
                0 <= j < at ==> names[j] != wanted,
            None => forall|j: int| 0 <= j < names.len() ==> names[j] != wanted,
        },
    decreases names.len(),
{
    if names.len() > 0 {
        let rest = names.drop_last();
        lemma_first_match(rest, wanted);
        assert forall|j: int| 0 <= j < rest.len() implies rest[j] == names[j] by {}
    }
}

/// A wireless interface as the network service knows it.
#[derive(Debug)]
pub struct WifiInterface {
    /// Where the service keeps the interface.
    pub path: String,
    /// The interface's name in the operating system.
    pub name: String,
}

/// A network that an interface knows.
#[derive(Debug)]
pub struct WifiNetwork {
    /// Where the service keeps the network.
    pub path: String,
    /// The network's name as the service writes it, quotes included.
    pub raw_ssid: String,
}

/// The names of a list of interfaces.
pub open spec fn interface_names(interfaces: Seq<WifiInterface>) -> Seq<Seq<char>> {
    interfaces.map_values(|i: WifiInterface| i.name@)
}

/// The names of a list of networks, without their quotes.
pub open spec fn network_names(networks: Seq<WifiNetwork>) -> Seq<Seq<char>> {
    networks.map_values(|n: WifiNetwork| unquoted(n.raw_ssid@))
}

/// The views of a list of strings.
pub open spec fn string_views(names: Seq<String>) -> Seq<Seq<char>> {
    names.map_values(|n: String| n@)
}

impl Clone for WifiInterface {
    fn clone(&self) -> (copy: WifiInterface)
        ensures
            copy.path@ == self.path@,
            copy.name@ == self.name@,
    {
        WifiInterface { path: self.path.clone(), name: self.name.clone() }
    }
}

impl Clone for WifiNetwork {
    fn clone(&self) -> (copy: WifiNetwork)
        ensures
            copy.path@ == self.path@,
            copy.raw_ssid@ == self.raw_ssid@,
    {
        WifiNetwork { path: self.path.clone(), raw_ssid: self.raw_ssid.clone() }
    }
}

impl WifiInterface {
    /// The first of the interfaces that has the given name.
    pub fn find(interfaces: &Vec<WifiInterface>, interface_name: &str) -> (found: Option<usize>)
        ensures
            found is Some <==> first_match(interface_names(interfaces@), interface_name@) is Some,
            found matches Some(at) ==> first_match(interface_names(interfaces@), interface_name@)
                == Some(at as int) && at < interfaces.len(),
    {
        let wanted = chars_of(interface_name);
        let ghost names = interface_names(interfaces@);
        let mut i: usize = 0;
        assert(names.take(0) == Seq::<Seq<char>>::empty());
        while i < interfaces.len()
            invariant
                i <= interfaces.len(),
                wanted@ == interface_name@,
                names == interface_names(interfaces@),
                first_match(names.take(i as int), interface_name@) is None,
            decreases interfaces.len() - i,
        {
            let name = chars_of(interfaces[i].name.as_str());
            proof {
                assert(names.take(i + 1).drop_last() == names.take(i as int));
                assert(names.take(i + 1).last() == interfaces@[i as int].name@);
            }
            if same_chars(&name, &wanted) {
                proof {
                    lemma_first_match_extends(names, i + 1, interface_name@);
                }
                return Some(i);
            }
            i += 1;
        }
        assert(names.take(interfaces.len() as int) == names);
        None
    }

    /// The first of the networks whose name, without its quotes, is the given one.
    pub fn find_network(networks: &Vec<WifiNetwork>, name: &str) -> (found: Option<usize>)
        ensures
            found is Some <==> first_match(network_names(networks@), name@) is Some,
            found matches Some(at) ==> first_match(network_names(networks@), name@) == Some(
                at as int,
            ) && at < networks.len(),
    {
        let ghost names = network_names(networks@);
        let mut i: usize = 0;
        assert(names.take(0) == Seq::<Seq<char>>::empty());
        while i < networks.len()
            invariant
                i <= networks.len(),
                names == network_names(networks@),
                first_match(names.take(i as int), name@) is None,
            decreases networks.len() - i,
        {
            let ssid = networks[i].ssid();
            proof {
                assert(names.take(i + 1).drop_last() == names.take(i as int));
                assert(names.take(i + 1).last() == unquoted(networks@[i as int].raw_ssid@));
            }
            if same_text(ssid.as_str(), name) {
                proof {
                    lemma_first_match_extends(names, i + 1, name@);
                }
                return Some(i);
            }
            i += 1;
        }
        assert(names.take(networks.len() as int) == names);
        None
    }

    /// Whether the operating system lists the interface among those that
    /// have an address.
    pub fn is_up(&self, addressed: &Vec<String>) -> (up: bool)
        ensures
            up == string_views(addressed@).contains(self.name@),
    {
        let wanted = chars_of(self.name.as_str());
        let ghost names = string_views(addressed@);
        let mut i: usize = 0;
        while i < addressed.len()
            invariant
                i <= addressed.len(),
                wanted@ == self.name@,
                names == string_views(addressed@),
                forall|j: int| 0 <= j < i ==> names[j] != self.name@,
            decreases addressed.len() - i,
        {
            let name = chars_of(addressed[i].as_str());
            if same_chars(&name, &wanted) {
                assert(names[i as int] == self.name@);
                return true;
            }
            i += 1;
        }
        false
    }
}

/// A match among the first names is the match among all of them.
pub proof fn lemma_first_match_extends(names: Seq<Seq<char>>, upto: int, wanted: Seq<char>)
    requires
        0 <= upto <= names.len(),
        first_match(names.take(upto), wanted) is Some,
    ensures
        first_match(names, wanted) == first_match(names.take(upto), wanted),
    decreases names.len() - upto,
{
    if upto == names.len() {
        assert(names.take(upto) == names);
    } else {
        assert(names.take(upto + 1).drop_last() == names.take(upto));
        lemma_first_match_extends(names, upto + 1, wanted);
    }
}

impl WifiNetwork {
    pub fn new(path: String, raw_ssid: String) -> (network: WifiNetwork)
        ensures
            network.path@ == path@,
            network.raw_ssid@ == raw_ssid@,
    {
        WifiNetwork { path, raw_ssid }
    }

    /// The network's name, without the quotes that the service puts around it.
    pub fn ssid(&self) -> (name: String)
        ensures
            name@ == unquoted(self.raw_ssid@),
    {
        strip_quotes(self.raw_ssid.as_str())
    }
}

} // verus!
