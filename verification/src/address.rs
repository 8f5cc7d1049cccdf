//! The addresses of this host, and the choice of the one that stands for it
//! in log lines.

use vstd::prelude::*;
use crate::text::starts_with;

verus! {

/// The two kinds of address a network interface can carry.
#[derive(Clone, Copy, Debug, PartialEq, Eq, Structural)]
pub enum Family {
    V4,
    V6,
}

/// An address assigned to this host: its family and the text it is written
/// as, address and prefix length together (`192.168.1.5/24`, `::1/128`).
#[derive(Clone, Debug, PartialEq, Eq)]
pub struct NetworkAddress {
    pub family: Family,
    pub text: String,
}

/// What a [`NetworkAddress`] stands for in contracts.
pub struct AddressModel {
    pub family: Family,
    pub text: Seq<char>,
}

impl View for NetworkAddress {
    type V = AddressModel;

    open spec fn view(&self) -> AddressModel {
        AddressModel { family: self.family, text: self.text@ }
    }
}

/// The models of a run of addresses, in the same order.
pub open spec fn models(items: Seq<NetworkAddress>) -> Seq<AddressModel> {
    items.map_values(|a: NetworkAddress| a@)
}

/// The models of the addresses of each interface, interface by interface.
pub open spec fn interface_models(interfaces: Seq<Vec<NetworkAddress>>) -> Seq<Seq<AddressModel>> {
    interfaces.map_values(|addresses: Vec<NetworkAddress>| models(addresses@))
}

/// The text that every loopback address of `family` begins with.
pub open spec fn loopback_prefix(family: Family) -> Seq<char> {
    match family {
        Family::V4 => "127"@,
        Family::V6 => "::1/128"@,
    }
}

/// An address of `family` that does not point back at this host.
pub open spec fn is_routable(a: AddressModel, family: Family) -> bool {
    a.family == family && !loopback_prefix(family).is_prefix_of(a.text)
}

/// The first address of `s` that is routable in `family`, if there is one.
pub open spec fn first_routable(s: Seq<AddressModel>, family: Family) -> Option<AddressModel>
    decreases s.len(),
{
    if s.len() == 0 {
        None
    } else if is_routable(s[0], family) {
        Some(s[0])
    } else {
        first_routable(s.drop_first(), family)
    }
}

/// The address that stands for the host: the first routable IPv4 address;
/// without one, the first routable IPv6 address; without one, the first
/// address of all; the empty text where there is no address.
pub open spec fn proper_address(s: Seq<AddressModel>) -> Seq<char> {
    match first_routable(s, Family::V4) {
        Some(a) => a.text,
        None => match first_routable(s, Family::V6) {
            Some(a) => a.text,
            None => if s.len() > 0 {
                s[0].text
            } else {
                Seq::empty()
            },
        },
    }
}

/// Whether `text` is written as the interfaces of a host give their
/// addresses: the address, a slash and the length of the prefix.
pub open spec fn has_prefix_length(text: Seq<char>) -> bool {
    text.contains('/')
}

/// Whether every address of `s` is written with its prefix length.
pub open spec fn each_has_prefix_length(s: Seq<AddressModel>) -> bool {
    forall|i: int| 0 <= i < s.len() ==> has_prefix_length(#[trigger] s[i].text)
}

/// What holds of the address chosen for a host whose addresses are written
/// with their prefix lengths, whatever these addresses are: it is the proper
/// address of a duplicate-free run of such addresses, empty only where there
/// is none; so it is empty or written with a prefix length itself.
pub open spec fn is_proper_ip(ip: Seq<char>) -> bool {
    &&& exists|held: Seq<AddressModel>|
        held.no_duplicates() && each_has_prefix_length(held) && (ip.len() == 0 <==> held.len()
            == 0) && ip == #[trigger] proper_address(held)
    &&& (ip.len() == 0 || has_prefix_length(ip))
}

/// `s` with `a` at its end, unless `a` is in it already.
pub open spec fn with_address(s: Seq<AddressModel>, a: AddressModel) -> Seq<AddressModel> {
    if s.contains(a) {
        s
    } else {
        s.push(a)
    }
}

/// `s` after each address of `more` was added in turn.
pub open spec fn with_all(s: Seq<AddressModel>, more: Seq<AddressModel>) -> Seq<AddressModel>
    decreases more.len(),
{
    if more.len() == 0 {
        s
    } else {
        with_all(with_address(s, more[0]), more.drop_first())
    }
}

/// The addresses of all interfaces, each once, in the order in which they
/// are first met.
pub open spec fn gathered(interfaces: Seq<Seq<AddressModel>>) -> Seq<AddressModel>
    decreases interfaces.len(),
{
    if interfaces.len() == 0 {
        Seq::empty()
    } else {
        with_all(gathered(interfaces.drop_last()), interfaces.last())
    }
}

impl NetworkAddress {
    /// An IPv4 address written as `text`.
    pub fn v4(text: &str) -> (r: NetworkAddress)
        ensures
            r@ == (AddressModel { family: Family::V4, text: text@ }),
    {
        NetworkAddress { family: Family::V4, text: text.to_owned() }
    }

    /// An IPv6 address written as `text`.
    pub fn v6(text: &str) -> (r: NetworkAddress)
        ensures
            r@ == (AddressModel { family: Family::V6, text: text@ }),
    {
        NetworkAddress { family: Family::V6, text: text.to_owned() }
    }

    pub fn is_ipv4(&self) -> (r: bool)
        ensures
            r == (self@.family == Family::V4),
    {
        self.family == Family::V4
    }

    pub fn is_ipv6(&self) -> (r: bool)
        ensures
            r == (self@.family == Family::V6),
    {
        self.family == Family::V6
    }

    /// A second address equal to this one.
    pub fn duplicate(&self) -> (r: NetworkAddress)
        ensures
            r@ == self@,
    {
        NetworkAddress { family: self.family, text: self.text.clone() }
    }

    /// Whether two addresses are the same address.
    pub fn same_as(&self, other: &NetworkAddress) -> (r: bool)
        ensures
            r == (self@ == other@),
    {
        let r = self.family == other.family && self.text == other.text;
        proof {
            if r {
                assert(self@.text =~= other@.text);
            }
        }
        r
    }

    /// Whether this address is of `family` and does not point back at this
    /// host.
    pub fn is_routable_in(&self, family: Family) -> (r: bool)
        ensures
            r == is_routable(self@, family),
    {
        match family {
            Family::V4 => self.family == Family::V4 && !starts_with(self.text.as_str(), "127"),
            Family::V6 => self.family == Family::V6 && !starts_with(self.text.as_str(), "::1/128"),
        }
    }
}

/// The addresses of a host, each held once, in the order in which they were
/// first added.
pub struct AddressSet {
    items: Vec<NetworkAddress>,
}

impl View for AddressSet {
    type V = Seq<AddressModel>;

    closed spec fn view(&self) -> Seq<AddressModel> {
        models(self.items@)
    }
}

impl AddressSet {
    #[verifier::type_invariant]
    spec fn distinct(self) -> bool {
        models(self.items@).no_duplicates()
    }

    /// A set without addresses.
    pub fn new() -> (r: AddressSet)
        ensures
            r@ == Seq::<AddressModel>::empty(),
    {
        let r = AddressSet { items: Vec::new() };
        assert(models(r.items@) =~= Seq::<AddressModel>::empty());
        r
    }

    /// The number of addresses held.
    pub fn len(&self) -> (r: usize)
        ensures
            r == self@.len(),
    {
        self.items.len()
    }

    /// The address at position `i`, counted in order of first addition.
    pub fn get(&self, i: usize) -> (r: &NetworkAddress)
        requires
            i < self@.len(),
        ensures
            r@ == self@[i as int],
    {
        &self.items[i]
    }

    /// States what the type keeps at all times: no address is held twice.
    pub fn holds_each_once(&self)
        ensures
            self@.no_duplicates(),
    {
        proof {
            use_type_invariant(self);
        }
    }

    /// Whether `addr` is held.
    pub fn contains(&self, addr: &NetworkAddress) -> (r: bool)
        ensures
            r == self@.contains(addr@),
    {
        let mut i: usize = 0;
        while i < self.items.len()
            invariant
                i <= self.items.len(),
                forall|j: int| 0 <= j < i ==> models(self.items@)[j] != addr@,
            decreases self.items.len() - i,
        {
            if self.items[i].same_as(addr) {
                assert(models(self.items@)[i as int] == addr@);
                return true;
            }
            i = i + 1;
        }
        false
    }

    /// Adds `addr` at the end unless it is held already; tells whether it
    /// was added.
    pub fn insert(&mut self, addr: NetworkAddress) -> (added: bool)
        ensures
            final(self)@ == with_address(old(self)@, addr@),
            added == !old(self)@.contains(addr@),
            final(self)@.no_duplicates(),
    {
        proof {
            use_type_invariant(&*self);
        }
        if self.contains(&addr) {
            false
        } else {
            let mut held = AddressSet::new();
            std::mem::swap(self, &mut held);
            let mut items = held.items;
            let ghost before = items@;
            items.push(addr);
            assert(models(items@) =~= models(before).push(addr@));
            *self = AddressSet { items };
            true
        }
    }

    /// Gathers the addresses of all interfaces in one pass, first by
    /// interface, then in the order in which each interface lists them.
    pub fn gather(interfaces: &Vec<Vec<NetworkAddress>>) -> (r: AddressSet)
        ensures
            r@ == gathered(interface_models(interfaces@)),
            r@.no_duplicates(),
    {
        let mut set = AddressSet::new();
        let ghost all = interface_models(interfaces@);
        let mut k: usize = 0;
        assert(all.take(0) =~= Seq::<Seq<AddressModel>>::empty());
        while k < interfaces.len()
            invariant
                k <= interfaces.len(),
                all == interface_models(interfaces@),
                set@ == gathered(all.take(k as int)),
            decreases interfaces.len() - k,
        {
            let addresses = &interfaces[k];
            let ghost start = set@;
            let ghost these = models(addresses@);
            let mut j: usize = 0;
            assert(these.skip(0) =~= these);
            while j < addresses.len()
                invariant
                    j <= addresses.len(),
                    these == models(addresses@),
                    with_all(set@, these.skip(j as int)) == with_all(start, these),
                decreases addresses.len() - j,
            {
                let ghost rest = these.skip(j as int);
                assert(rest[0] == addresses@[j as int]@);
                assert(rest.drop_first() =~= these.skip(j + 1));
                set.insert(addresses[j].duplicate());
                j = j + 1;
            }
            proof {
                assert(these.skip(j as int).len() == 0);
                let upto = all.take(k + 1);
                assert(upto.drop_last() =~= all.take(k as int));
                assert(upto.last() == these);
            }
            k = k + 1;
        }
        proof {
            assert(all.take(k as int) =~= all);
            use_type_invariant(&set);
        }
        set
    }

    /// The first held address that is routable in `family`.
    pub fn first_routable_in(&self, family: Family) -> (r: Option<&NetworkAddress>)
        ensures
            match r {
                Some(a) => first_routable(self@, family) == Some(a@),
                None => first_routable(self@, family).is_none(),
            },
    {
        let mut i: usize = 0;
        assert(self@.skip(0) =~= self@);
        while i < self.items.len()
            invariant
                i <= self.items.len(),
                first_routable(self@, family) == first_routable(self@.skip(i as int), family),
            decreases self.items.len() - i,
        {
            let ghost rest = self@.skip(i as int);
            assert(rest[0] == self.items@[i as int]@);
            if self.items[i].is_routable_in(family) {
                return Some(&self.items[i]);
            }
            assert(rest.drop_first() =~= self@.skip(i + 1));
            i = i + 1;
        }
        None
    }

    /// Picks the address that stands for the host in log lines: the first
    /// routable IPv4 address; without one, the first routable IPv6 address;
    /// without one, the first address held, so a host with nothing but
    /// loopback addresses still gets one; the empty string where no address
    /// is held.
    pub fn select_proper_address(&self) -> (r: String)
        ensures
            r@ == proper_address(self@),
            self@.len() == 0 ==> r@.len() == 0,
            self@.len() > 0 ==> exists|i: int| 0 <= i < self@.len() && r@ == self@[i].text,
    {
        proof {
            lemma_proper_address_is_held(self@);
        }
        match self.first_routable_in(Family::V4) {
            Some(a) => a.text.clone(),
            None => match self.first_routable_in(Family::V6) {
                Some(a) => a.text.clone(),
                None => if self.items.len() > 0 {
                    assert(self@[0] == self.items@[0]@);
                    self.items[0].text.clone()
                } else {
                    String::new()
                },
            },
        }
    }
}

/// The first routable address of a sequence is one of its members, is
/// routable, and nothing before it is.
pub proof fn lemma_first_routable(s: Seq<AddressModel>, family: Family)
    ensures
        match first_routable(s, family) {
            Some(a) => exists|i: int|
                0 <= i < s.len() && s[i] == a && is_routable(a, family) && forall|j: int|
                    0 <= j < i ==> !is_routable(#[trigger] s[j], family),
            None => forall|j: int| 0 <= j < s.len() ==> !is_routable(#[trigger] s[j], family),
        },
    decreases s.len(),
{
    if s.len() == 0 {
    } else if is_routable(s[0], family) {
        assert(s[0] == first_routable(s, family)->Some_0);
    } else {
        let rest = s.drop_first();
        lemma_first_routable(rest, family);
        assert(forall|j: int| 0 <= j < rest.len() ==> rest[j] == s[j + 1]);
        match first_routable(rest, family) {
            Some(a) => {
                let i = choose|i: int|
                    0 <= i < rest.len() && rest[i] == a && is_routable(a, family) && forall|j: int|
                        0 <= j < i ==> !is_routable(#[trigger] rest[j], family);
                assert forall|j: int| 0 <= j < i + 1 implies !is_routable(
                    #[trigger] s[j],
                    family,
                ) by {
                    if j > 0 {
                        assert(s[j] == rest[j - 1]);
                    }
                }
                assert(s[i + 1] == a);
            },
            None => {
                assert forall|j: int| 0 <= j < s.len() implies !is_routable(
                    #[trigger] s[j],
                    family,
                ) by {
                    if j > 0 {
                        assert(s[j] == rest[j - 1]);
                    }
                }
            },
        }
    }
}

/// The address chosen for a host that has addresses is the text of one of
/// them; a host without addresses gets the empty text.
pub proof fn lemma_proper_address_is_held(s: Seq<AddressModel>)
    ensures
        s.len() == 0 ==> proper_address(s).len() == 0,
        s.len() > 0 ==> exists|i: int| 0 <= i < s.len() && proper_address(s) == s[i].text,
{
    lemma_first_routable(s, Family::V4);
    lemma_first_routable(s, Family::V6);
    if s.len() > 0 {
        match first_routable(s, Family::V4) {
            Some(a) => {
                let i = choose|i: int| 0 <= i < s.len() && s[i] == a;
                assert(proper_address(s) == s[i].text);
            },
            None => match first_routable(s, Family::V6) {
                Some(a) => {
                    let i = choose|i: int| 0 <= i < s.len() && s[i] == a;
                    assert(proper_address(s) == s[i].text);
                },
                None => {
                    assert(proper_address(s) == s[0].text);
                },
            },
        }
    }
}

/// A routable IPv4 address is preferred to everything else: where one is
/// held, the first of them is chosen, whatever stands before it.
pub proof fn lemma_routable_v4_wins(s: Seq<AddressModel>, i: int)
    requires
        0 <= i < s.len(),
        is_routable(s[i], Family::V4),
        forall|j: int| 0 <= j < i ==> !is_routable(#[trigger] s[j], Family::V4),
    ensures
        proper_address(s) == s[i].text,
{
    lemma_first_is(s, Family::V4, i);
}

/// Where position `i` holds the first routable address of `family`,
/// `first_routable` finds it.
pub proof fn lemma_first_is(s: Seq<AddressModel>, family: Family, i: int)
    requires
        0 <= i < s.len(),
        is_routable(s[i], family),
        forall|j: int| 0 <= j < i ==> !is_routable(#[trigger] s[j], family),
    ensures
        first_routable(s, family) == Some(s[i]),
    decreases i,
{
    if i > 0 {
        let rest = s.drop_first();
        assert(forall|j: int| 0 <= j < rest.len() ==> rest[j] == s[j + 1]);
        assert(!is_routable(s[0], family));
        assert forall|j: int| 0 <= j < i - 1 implies !is_routable(#[trigger] rest[j], family) by {
            assert(rest[j] == s[j + 1]);
        }
        lemma_first_is(rest, family, i - 1);
    }
}

/// A host whose addresses are all loopback addresses is given the first of
/// them, not the empty text.
pub proof fn lemma_only_loopback_falls_back(s: Seq<AddressModel>)
    requires
        s.len() > 0,
        forall|j: int|
            0 <= j < s.len() ==> !is_routable(#[trigger] s[j], Family::V4) && !is_routable(
                s[j],
                Family::V6,
            ),
    ensures
        proper_address(s) == s[0].text,
{
    lemma_first_routable(s, Family::V4);
    lemma_first_routable(s, Family::V6);
}

/// Gathering keeps every address once: the result has no duplicates and
/// holds exactly the addresses that some interface carries.
pub proof fn lemma_gathered_is_set(interfaces: Seq<Seq<AddressModel>>)
    ensures
        gathered(interfaces).no_duplicates(),
        forall|a: AddressModel|
            gathered(interfaces).contains(a) <==> exists|k: int|
                0 <= k < interfaces.len() && (#[trigger] interfaces[k]).contains(a),
    decreases interfaces.len(),
{
    if interfaces.len() == 0 {
    } else {
        let before = interfaces.drop_last();
        lemma_gathered_is_set(before);
        lemma_with_all(gathered(before), interfaces.last());
        let last = interfaces.last();
        assert(gathered(interfaces) == with_all(gathered(before), last));
        assert forall|a: AddressModel|
            gathered(interfaces).contains(a) <==> exists|k: int|
                0 <= k < interfaces.len() && (#[trigger] interfaces[k]).contains(a) by {
            let held = gathered(before).contains(a) || last.contains(a);
            assert(gathered(interfaces).contains(a) <==> held);
            if gathered(before).contains(a) {
                let k = choose|k: int| 0 <= k < before.len() && (#[trigger] before[k]).contains(a);
                assert(interfaces[k] == before[k]);
                assert(interfaces[k].contains(a));
            }
            if last.contains(a) {
                assert(interfaces[interfaces.len() - 1].contains(a));
            }
            if exists|k: int| 0 <= k < interfaces.len() && (#[trigger] interfaces[k]).contains(a) {
                let k = choose|k: int|
                    0 <= k < interfaces.len() && (#[trigger] interfaces[k]).contains(a);
                if k < before.len() {
                    assert(before[k] == interfaces[k]);
                    assert(before[k].contains(a));
                    assert(gathered(before).contains(a));
                } else {
                    assert(last == interfaces[k]);
                }
                assert(held);
            }
        }
    }
}

/// Gathering addresses that are all written with their prefix lengths gives
/// addresses that are all written so.
pub proof fn lemma_gathered_has_prefix_lengths(interfaces: Seq<Seq<AddressModel>>)
    requires
        forall|k: int|
            0 <= k < interfaces.len() ==> each_has_prefix_length(#[trigger] interfaces[k]),
    ensures
        each_has_prefix_length(gathered(interfaces)),
{
    lemma_gathered_is_set(interfaces);
    let all = gathered(interfaces);
    assert forall|i: int| 0 <= i < all.len() implies has_prefix_length(#[trigger] all[i].text) by {
        let a = all[i];
        assert(all.contains(a));
        let k = choose|k: int| 0 <= k < interfaces.len() && (#[trigger] interfaces[k]).contains(a);
        let j = choose|j: int| 0 <= j < interfaces[k].len() && interfaces[k][j] == a;
        assert(has_prefix_length(interfaces[k][j].text));
    }
}

/// The address chosen among addresses that are all written with their prefix
/// lengths is empty exactly where there is no address, and is else written
/// with a prefix length.
pub proof fn lemma_proper_address_has_prefix_length(s: Seq<AddressModel>)
    requires
        each_has_prefix_length(s),
    ensures
        proper_address(s).len() == 0 <==> s.len() == 0,
        s.len() > 0 ==> has_prefix_length(proper_address(s)),
{
    lemma_proper_address_is_held(s);
    if s.len() > 0 {
        let i = choose|i: int| 0 <= i < s.len() && proper_address(s) == s[i].text;
        assert(has_prefix_length(s[i].text));
        let text = s[i].text;
        let at = choose|at: int| 0 <= at < text.len() && text[at] == '/';
    }
}

/// Adding a run of addresses keeps what was held, in place, adds exactly the
/// new ones and never an address twice.
pub proof fn lemma_with_all(s: Seq<AddressModel>, more: Seq<AddressModel>)
    requires
        s.no_duplicates(),
    ensures
        with_all(s, more).no_duplicates(),
        s.is_prefix_of(with_all(s, more)),
        forall|a: AddressModel| with_all(s, more).contains(a) <==> s.contains(a) || more.contains(a),
    decreases more.len(),
{
    if more.len() == 0 {
    } else {
        let next = with_address(s, more[0]);
        let rest = more.drop_first();
        assert(next.no_duplicates());
        lemma_with_all(next, rest);
        assert forall|a: AddressModel|
            with_all(s, more).contains(a) <==> s.contains(a) || more.contains(a) by {
            if next.contains(a) && !s.contains(a) {
                let i = choose|i: int| 0 <= i < next.len() && next[i] == a;
                assert(a == more[0]);
            }
            if s.contains(a) {
                let i = choose|i: int| 0 <= i < s.len() && s[i] == a;
                assert(next[i] == a);
            }
            if rest.contains(a) {
                let i = choose|i: int| 0 <= i < rest.len() && rest[i] == a;
                assert(more[i + 1] == a);
            }
            if more.contains(a) {
                let i = choose|i: int| 0 <= i < more.len() && more[i] == a;
                if i == 0 {
                    if s.contains(a) {
                    } else {
                        assert(next[s.len() as int] == a);
                    }
                } else {
                    assert(rest[i - 1] == a);
                }
            }
        }
    }
}

} // verus!
