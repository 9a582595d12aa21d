//! Service providers: registering, changing services, and claiming fees.
use vstd::prelude::*;

use super::private::PrivateModule;
use super::types::{Service, ServiceList, ServiceView};
use super::{find_price_result, in_range, services_of, token_allowed, with_services,
    SubscriptionContract, SubscriptionEffect, SubscriptionError, SubscriptionModel};
use crate::store::{items_at, views_of, KeyEq};

verus! {

/// Services as filled slots.
pub open spec fn some_all(ss: Seq<ServiceView>) -> Seq<Option<ServiceView>> {
    ss.map_values(|s: ServiceView| Some(s))
}

/// Whether every service is paid in an allowed token.
pub open spec fn all_allowed(m: SubscriptionModel, ss: Seq<ServiceView>) -> bool {
    forall|i: int| 0 <= i < ss.len() ==> token_allowed(m, #[trigger] ss[i].token_id)
}

/// Slots after each (number, service) replaced its slot, in order.
pub open spec fn replace_all(slots: Seq<Option<ServiceView>>, list: Seq<(usize, ServiceView)>) -> Seq<
    Option<ServiceView>,
>
    decreases list.len(),
{
    if list.len() == 0 {
        slots
    } else {
        replace_all(slots, list.drop_last()).update(list.last().0 - 1, Some(list.last().1))
    }
}

/// Slots after each numbered slot was emptied, in order.
pub open spec fn clear_all(slots: Seq<Option<ServiceView>>, ns: Seq<usize>) -> Seq<Option<ServiceView>>
    decreases ns.len(),
{
    if ns.len() == 0 {
        slots
    } else {
        clear_all(slots, ns.drop_last()).update(ns.last() - 1, None)
    }
}

/// What claiming the fee of service `n` of `provider` from `user` does: the
/// caller must be the provider's admin and the user subscribed; the service's
/// price is then asked for, and that query ends the transaction. (Where the
/// service was removed, the user is unsubscribed and then reading the service
/// fails, which reverts the unsubscription.) The payment written after the
/// query is not reached.
pub open spec fn claim_result(
    m: SubscriptionModel,
    caller: Seq<u8>,
    provider: Seq<u8>,
    n: usize,
    user: Seq<u8>,
) -> Result<super::SubscriptionEffectView, SubscriptionError> {
    if !m.enabled {
        Err(SubscriptionError::Maintenance)
    } else if !m.admin_service_provider.contains_key(provider) {
        Err(SubscriptionError::StorageDecode)
    } else if caller != m.admin_service_provider[provider] {
        Err(SubscriptionError::CallerNotAllowed)
    } else if !items_at(m.subscribed_services, (user, provider)).contains(n) {
        Err(SubscriptionError::NotSubscribed)
    } else {
        find_price_result(m, provider, n)
    }
}

pub open spec fn register_result(
    m: SubscriptionModel,
    caller: Seq<u8>,
    name: Seq<u8>,
    ss: Seq<ServiceView>,
) -> Result<SubscriptionModel, SubscriptionError> {
    if !m.enabled {
        Err(SubscriptionError::Maintenance)
    } else if m.service_providers.contains(name) {
        Err(SubscriptionError::ProviderRegistered)
    } else if !all_allowed(m, ss) {
        Err(SubscriptionError::TokenNotWhitelisted)
    } else {
        Ok(
            SubscriptionModel {
                service_providers: m.service_providers.push(name),
                services: with_services(m.services, name, services_of(m, name) + some_all(ss)),
                admin_service_provider: m.admin_service_provider.insert(name, caller),
                ..m
            },
        )
    }
}

/// The checks that the provider's admin is calling.
pub open spec fn admin_check(m: SubscriptionModel, caller: Seq<u8>, provider: Seq<u8>) -> Option<
    SubscriptionError,
> {
    if !m.enabled {
        Some(SubscriptionError::Maintenance)
    } else if !m.admin_service_provider.contains_key(provider) {
        Some(SubscriptionError::StorageDecode)
    } else if caller != m.admin_service_provider[provider] {
        Some(SubscriptionError::CallerNotAllowed)
    } else {
        None
    }
}

pub open spec fn add_services_result(
    m: SubscriptionModel,
    caller: Seq<u8>,
    provider: Seq<u8>,
    ss: Seq<ServiceView>,
) -> Result<SubscriptionModel, SubscriptionError> {
    match admin_check(m, caller, provider) {
        Some(e) => Err(e),
        None => if !all_allowed(m, ss) {
            Err(SubscriptionError::TokenNotWhitelisted)
        } else {
            Ok(
                SubscriptionModel {
                    services: with_services(m.services, provider, services_of(m, provider) + some_all(ss)),
                    ..m
                },
            )
        },
    }
}

pub open spec fn replace_services_result(
    m: SubscriptionModel,
    caller: Seq<u8>,
    provider: Seq<u8>,
    list: Seq<(usize, ServiceView)>,
) -> Result<SubscriptionModel, SubscriptionError> {
    match admin_check(m, caller, provider) {
        Some(e) => Err(e),
        None => if exists|i: int|
            0 <= i < list.len() && !in_range(services_of(m, provider).len(), #[trigger] list[i].0) {
            Err(SubscriptionError::IndexOutOfRange)
        } else {
            Ok(
                SubscriptionModel {
                    services: with_services(
                        m.services,
                        provider,
                        replace_all(services_of(m, provider), list),
                    ),
                    ..m
                },
            )
        },
    }
}

pub open spec fn remove_services_result(
    m: SubscriptionModel,
    caller: Seq<u8>,
    provider: Seq<u8>,
    ns: Seq<usize>,
) -> Result<SubscriptionModel, SubscriptionError> {
    match admin_check(m, caller, provider) {
        Some(e) => Err(e),
        None => if exists|i: int|
            0 <= i < ns.len() && !in_range(services_of(m, provider).len(), #[trigger] ns[i]) {
            Err(SubscriptionError::IndexOutOfRange)
        } else {
            Ok(
                SubscriptionModel {
                    services: with_services(m.services, provider, clear_all(services_of(m, provider), ns)),
                    ..m
                },
            )
        },
    }
}

/// Services paired with their numbers, by value.
pub open spec fn numbered_views(list: Seq<(usize, Service)>) -> Seq<(usize, ServiceView)> {
    list.map_values(|p: (usize, Service)| (p.0, p.1@))
}

impl SubscriptionContract {
    /// Whether each service is paid in an allowed token; `false` at the first
    /// that is not.
    fn services_allowed(&self, services: &Vec<Service>) -> (b: bool)
        ensures
            b == all_allowed(self@, views_of(services@)),
    {
        let n = services.len();
        let mut i: usize = 0;
        while i < n
            invariant
                n == services@.len(),
                i <= n,
                forall|j: int| 0 <= j < i ==> token_allowed(self@, #[trigger] views_of(services@)[j].token_id),
            decreases n - i,
        {
            assert(views_of(services@)[i as int] == services@[i as int]@);
            if self.require_token_allowed(&services[i].token_id).is_err() {
                assert(!token_allowed(self@, views_of(services@)[i as int].token_id));
                return false;
            }
            i += 1;
        }
        true
    }

    /// Appends `services` to the provider's slots.
    fn push_services(&mut self, provider: &Vec<u8>, services: Vec<Service>)
        ensures
            final(self)@ == (SubscriptionModel {
                services: with_services(
                    old(self)@.services,
                    provider@,
                    services_of(old(self)@, provider@) + some_all(views_of(services@)),
                ),
                ..old(self)@
            }),
    {
        let ghost ss = views_of(services@);
        let ghost start = services_of(self@, provider@);
        let mut list = match self.services.take(provider) {
            Some(l) => l,
            None => ServiceList::new(),
        };
        assert(list@ == start);
        let ghost mid = self@;
        let n = services.len();
        let mut i: usize = 0;
        while i < n
            invariant
                n == services@.len(),
                i <= n,
                ss == views_of(services@),
                list@ == start + some_all(ss.take(i as int)),
            decreases n - i,
        {
            let s = services[i].copy();
            assert(ss[i as int] == s@);
            list.push(s);
            assert(some_all(ss.take(i + 1)) =~= some_all(ss.take(i as int)).push(Some(ss[i as int])));
            assert(list@ =~= start + some_all(ss.take(i + 1)));
            i += 1;
        }
        assert(ss.take(n as int) =~= ss);
        if list.len() > 0 {
            self.services.insert(provider.key_clone(), list);
        }
        proof {
            let expected = with_services(old(self)@.services, provider@, start + some_all(ss));
            assert(self@.services =~= expected);
        }
    }
}

/// Registering providers, changing their services, and claiming fees.
pub trait ServicesModule {
    fn claim_subscription_fee(
        &self,
        caller: &Vec<u8>,
        name_service_provider: &Vec<u8>,
        service_number: usize,
        user: &Vec<u8>,
    ) -> Result<SubscriptionEffect, SubscriptionError>;

    fn register_service_provider(&mut self, caller: &Vec<u8>, name: Vec<u8>, services: Vec<Service>) -> Result<
        (),
        SubscriptionError,
    >;

    fn add_services(
        &mut self,
        caller: &Vec<u8>,
        name_service_provider: &Vec<u8>,
        services: Vec<Service>,
    ) -> Result<(), SubscriptionError>;

    fn replace_services(
        &mut self,
        caller: &Vec<u8>,
        name_service_provider: &Vec<u8>,
        services: Vec<(usize, Service)>,
    ) -> Result<(), SubscriptionError>;

    fn remove_services(
        &mut self,
        caller: &Vec<u8>,
        name_service_provider: &Vec<u8>,
        services: Vec<usize>,
    ) -> Result<(), SubscriptionError>;
}

impl ServicesModule for SubscriptionContract {
    /// Claims the fee of service `service_number` from `user`; see
    /// `claim_result`. Storage does not change: the price query ends the
    /// transaction, and where the service was removed the automatic
    /// unsubscription is reverted by the failed read that follows it, so the
    /// read is made directly.
    fn claim_subscription_fee(
        &self,
        caller: &Vec<u8>,
        name_service_provider: &Vec<u8>,
        service_number: usize,
        user: &Vec<u8>,
    ) -> (r: Result<SubscriptionEffect, SubscriptionError>)
        ensures
            match claim_result(self@, caller@, name_service_provider@, service_number, user@) {
                Ok(e) => r matches Ok(x) && x@ == e,
                Err(e) => r == Err::<SubscriptionEffect, SubscriptionError>(e),
            },
    {
        self.require_enabled()?;
        let _admin_address = self.require_caller_is_service_admin(caller, name_service_provider)?;
        self.require_user_is_subscribed(name_service_provider, service_number, user)?;
        self.find_price(name_service_provider, service_number)
    }

    /// Registers a provider named `name` with `services`, the caller becoming
    /// its admin; each service must be paid in an allowed token.
    fn register_service_provider(&mut self, caller: &Vec<u8>, name: Vec<u8>, services: Vec<Service>) -> (r:
        Result<(), SubscriptionError>)
        ensures
            match register_result(old(self)@, caller@, name@, views_of(services@)) {
                Ok(m) => r is Ok && final(self)@ == m,
                Err(e) => r == Err::<(), SubscriptionError>(e) && final(self)@ == old(self)@,
            },
    {
        self.require_enabled()?;
        if self.service_providers.contains(&name) {
            return Err(SubscriptionError::ProviderRegistered);
        }
        if !self.services_allowed(&services) {
            return Err(SubscriptionError::TokenNotWhitelisted);
        }
        self.service_providers.insert(name.key_clone());
        self.push_services(&name, services);
        self.admin_service_provider.insert(name, caller.key_clone());
        Ok(())
    }

    /// Appends services to the provider's; only its admin may, and each
    /// service must be paid in an allowed token.
    fn add_services(
        &mut self,
        caller: &Vec<u8>,
        name_service_provider: &Vec<u8>,
        services: Vec<Service>,
    ) -> (r: Result<(), SubscriptionError>)
        ensures
            match add_services_result(old(self)@, caller@, name_service_provider@, views_of(services@)) {
                Ok(m) => r is Ok && final(self)@ == m,
                Err(e) => r == Err::<(), SubscriptionError>(e) && final(self)@ == old(self)@,
            },
    {
        self.require_enabled()?;
        self.require_caller_is_service_admin(caller, name_service_provider)?;
        if !self.services_allowed(&services) {
            return Err(SubscriptionError::TokenNotWhitelisted);
        }
        self.push_services(name_service_provider, services);
        Ok(())
    }

    /// Replaces numbered services of the provider, in order; only its admin
    /// may, and each number must name an existing slot.
    fn replace_services(
        &mut self,
        caller: &Vec<u8>,
        name_service_provider: &Vec<u8>,
        services: Vec<(usize, Service)>,
    ) -> (r: Result<(), SubscriptionError>)
        ensures
            match replace_services_result(
                old(self)@,
                caller@,
                name_service_provider@,
                numbered_views(services@),
            ) {
                Ok(m) => r is Ok && final(self)@ == m,
                Err(e) => r == Err::<(), SubscriptionError>(e) && final(self)@ == old(self)@,
            },
    {
        self.require_enabled()?;
        self.require_caller_is_service_admin(caller, name_service_provider)?;
        let ghost list = numbered_views(services@);
        let ghost start = services_of(self@, name_service_provider@);
        let len = match self.services.get(name_service_provider) {
            Some(l) => l.len(),
            None => 0,
        };
        let n = services.len();
        let mut i: usize = 0;
        while i < n
            invariant
                n == services@.len(),
                i <= n,
                len == start.len(),
                self@ == old(self)@,
                start == services_of(self@, name_service_provider@),
                admin_check(self@, caller@, name_service_provider@) is None,
                list == numbered_views(services@),
                forall|j: int| 0 <= j < i ==> in_range(len as nat, #[trigger] list[j].0),
            decreases n - i,
        {
            assert(list[i as int].0 == services@[i as int].0);
            if services[i].0 == 0 || services[i].0 > len {
                assert(!in_range(len as nat, list[i as int].0));
                return Err(SubscriptionError::IndexOutOfRange);
            }
            i += 1;
        }
        let mut slots = match self.services.take(name_service_provider) {
            Some(l) => l,
            None => ServiceList::new(),
        };
        let mut k: usize = 0;
        assert(list.take(0) =~= Seq::<(usize, ServiceView)>::empty());
        while k < n
            invariant
                n == services@.len(),
                k <= n,
                len == start.len(),
                list == numbered_views(services@),
                forall|j: int| 0 <= j < n ==> in_range(len as nat, #[trigger] list[j].0),
                slots@.len() == len,
                slots@ == replace_all(start, list.take(k as int)),
            decreases n - k,
        {
            assert(list.take(k + 1).drop_last() =~= list.take(k as int));
            assert(list[k as int] == (services@[k as int].0, services@[k as int].1@));
            let number = services[k].0;
            let s = services[k].1.copy();
            assert(in_range(len as nat, list[k as int].0));
            slots.set(number - 1, Some(s));
            k += 1;
        }
        assert(list.take(n as int) =~= list);
        if slots.len() > 0 {
            self.services.insert(name_service_provider.key_clone(), slots);
        }
        proof {
            assert(self@.services =~= with_services(
                old(self)@.services,
                name_service_provider@,
                replace_all(start, list),
            ));
        }
        Ok(())
    }

    /// Empties numbered slots of the provider, in order; only its admin may,
    /// and each number must name an existing slot.
    fn remove_services(
        &mut self,
        caller: &Vec<u8>,
        name_service_provider: &Vec<u8>,
        services: Vec<usize>,
    ) -> (r: Result<(), SubscriptionError>)
        ensures
            match remove_services_result(old(self)@, caller@, name_service_provider@, services@) {
                Ok(m) => r is Ok && final(self)@ == m,
                Err(e) => r == Err::<(), SubscriptionError>(e) && final(self)@ == old(self)@,
            },
    {
        self.require_enabled()?;
        self.require_caller_is_service_admin(caller, name_service_provider)?;
        let ghost ns = services@;
        let ghost start = services_of(self@, name_service_provider@);
        let len = match self.services.get(name_service_provider) {
            Some(l) => l.len(),
            None => 0,
        };
        let n = services.len();
        let mut i: usize = 0;
        while i < n
            invariant
                n == ns.len(),
                ns == services@,
                i <= n,
                len == start.len(),
                self@ == old(self)@,
                start == services_of(self@, name_service_provider@),
                admin_check(self@, caller@, name_service_provider@) is None,
                forall|j: int| 0 <= j < i ==> in_range(len as nat, #[trigger] ns[j]),
            decreases n - i,
        {
            if services[i] == 0 || services[i] > len {
                assert(!in_range(len as nat, ns[i as int]));
                return Err(SubscriptionError::IndexOutOfRange);
            }
            i += 1;
        }
        let mut slots = match self.services.take(name_service_provider) {
            Some(l) => l,
            None => ServiceList::new(),
        };
        let mut k: usize = 0;
        assert(ns.take(0) =~= Seq::<usize>::empty());
        while k < n
            invariant
                n == ns.len(),
                ns == services@,
                k <= n,
                len == start.len(),
                forall|j: int| 0 <= j < n ==> in_range(len as nat, #[trigger] ns[j]),
                slots@.len() == len,
                slots@ == clear_all(start, ns.take(k as int)),
            decreases n - k,
        {
            assert(ns.take(k + 1).drop_last() =~= ns.take(k as int));
            assert(in_range(len as nat, ns[k as int]));
            slots.set(services[k] - 1, None);
            k += 1;
        }
        assert(ns.take(n as int) =~= ns);
        if slots.len() > 0 {
            self.services.insert(name_service_provider.key_clone(), slots);
        }
        proof {
            assert(self@.services =~= with_services(
                old(self)@.services,
                name_service_provider@,
                clear_all(start, ns),
            ));
        }
        Ok(())
    }
}

} // verus!
