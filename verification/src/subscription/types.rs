//! Services offered by providers, and the tokens the contract prices them in.
use vstd::prelude::*;

use crate::store::KeyEq;

verus! {

/// "USDC-c76f1f", the token in which service prices are quoted.
pub open spec fn usdc_token_id() -> Seq<u8> {
    seq![85u8, 83u8, 68u8, 67u8, 45u8, 99u8, 55u8, 54u8, 102u8, 49u8, 102u8]
}

/// "USDC", the ticker that starts every pair name.
pub open spec fn usdc_ticker() -> Seq<u8> {
    seq![85u8, 83u8, 68u8, 67u8]
}

/// "WEGLD-bd4d79", the token in which a price in EGLD comes back.
pub open spec fn wegld_token_id() -> Seq<u8> {
    seq![87u8, 69u8, 71u8, 76u8, 68u8, 45u8, 98u8, 100u8, 52u8, 100u8, 55u8, 57u8]
}

pub fn usdc_token_id_bytes() -> (t: Vec<u8>)
    ensures
        t@ == usdc_token_id(),
{
    let t = vec![85u8, 83u8, 68u8, 67u8, 45u8, 99u8, 55u8, 54u8, 102u8, 49u8, 102u8];
    assert(t@ =~= usdc_token_id());
    t
}

pub fn usdc_ticker_bytes() -> (t: Vec<u8>)
    ensures
        t@ == usdc_ticker(),
{
    let t = vec![85u8, 83u8, 68u8, 67u8];
    assert(t@ =~= usdc_ticker());
    t
}

pub fn wegld_token_id_bytes() -> (t: Vec<u8>)
    ensures
        t@ == wegld_token_id(),
{
    let t = vec![87u8, 69u8, 71u8, 76u8, 68u8, 45u8, 98u8, 100u8, 52u8, 100u8, 55u8, 57u8];
    assert(t@ =~= wegld_token_id());
    t
}

/// A service: the token it is paid in, how many epochs lie between
/// payments, its price in USD, and a description.
#[derive(Clone, Debug, PartialEq, Eq)]
pub struct Service {
    pub token_id: Vec<u8>,
    pub next_payment: u64,
    pub price_in_usd: u128,
    pub description: Vec<u8>,
}

/// A service by value.
pub struct ServiceView {
    pub token_id: Seq<u8>,
    pub next_payment: u64,
    pub price_in_usd: u128,
    pub description: Seq<u8>,
}

impl View for Service {
    type V = ServiceView;

    open spec fn view(&self) -> ServiceView {
        ServiceView {
            token_id: self.token_id@,
            next_payment: self.next_payment,
            price_in_usd: self.price_in_usd,
            description: self.description@,
        }
    }
}

impl Service {
    /// A copy of the service.
    pub fn copy(&self) -> (c: Self)
        ensures
            c@ == self@,
    {
        Service {
            token_id: self.token_id.key_clone(),
            next_payment: self.next_payment,
            price_in_usd: self.price_in_usd,
            description: self.description.key_clone(),
        }
    }
}

/// A provider's services as a vector mapper holds them: slot `i` holds
/// service number `i + 1`, and a removed service leaves its slot empty.
pub struct ServiceList {
    pub slots: Vec<Option<Service>>,
}

pub open spec fn slot_view(o: Option<Service>) -> Option<ServiceView> {
    match o {
        Some(s) => Some(s@),
        None => None,
    }
}

impl View for ServiceList {
    type V = Seq<Option<ServiceView>>;

    open spec fn view(&self) -> Seq<Option<ServiceView>> {
        self.slots@.map_values(|o: Option<Service>| slot_view(o))
    }
}

impl ServiceList {
    pub fn new() -> (l: Self)
        ensures
            l@ == Seq::<Option<ServiceView>>::empty(),
    {
        let l = ServiceList { slots: Vec::new() };
        assert(l@ =~= Seq::<Option<ServiceView>>::empty());
        l
    }

    pub fn len(&self) -> (n: usize)
        ensures
            n == self@.len(),
    {
        self.slots.len()
    }

    /// Adds a service at the end.
    pub fn push(&mut self, s: Service)
        ensures
            final(self)@ == old(self)@.push(Some(s@)),
    {
        let ghost sv = s@;
        self.slots.push(Some(s));
        assert(self@ =~= old(self)@.push(Some(sv)));
    }

    /// Puts `o` in slot `i`.
    pub fn set(&mut self, i: usize, o: Option<Service>)
        requires
            i < old(self)@.len(),
        ensures
            final(self)@ == old(self)@.update(i as int, slot_view(o)),
    {
        let ghost ov = slot_view(o);
        self.slots.set(i, o);
        assert(self@ =~= old(self)@.update(i as int, ov));
    }

    /// A copy of slot `i`.
    pub fn get(&self, i: usize) -> (o: Option<Service>)
        requires
            i < self@.len(),
        ensures
            slot_view(o) == self@[i as int],
    {
        match &self.slots[i] {
            Some(s) => Some(s.copy()),
            None => None,
        }
    }
}

} // verus!
