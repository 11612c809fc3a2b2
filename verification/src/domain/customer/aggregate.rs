use std::collections::HashMap;
use vstd::prelude::*;

use crate::event_sourcing::base::aggregate::{AggregateRoot, LoadError};
use crate::event_sourcing::base::event::EventEnvelope;
use crate::platform::new_uuid;

use super::commands::CustomerCommand;
use super::errors::CustomerError;
use super::events::{
    clone_opt_phone, clone_opt_string, CustomerAddressAdded, CustomerAddressRemoved,
    CustomerAddressUpdated, CustomerDeactivated, CustomerEmailChanged, CustomerEvent,
    CustomerPaymentMethodAdded, CustomerPaymentMethodRemoved, CustomerPhoneChanged,
    CustomerProfileUpdated, CustomerReactivated, CustomerRegistered, CustomerSuspended,
    CustomerTierUpgraded,
};
use super::value_objects::{
    Address, CustomerStatus, CustomerTier, Email, PaymentMethod, PhoneNumber,
};

verus! {

broadcast use vstd::std_specs::hash::group_hash_axioms;

/// A customer, as rebuilt from its events.
#[derive(Debug, Clone)]
pub struct CustomerAggregate {
    pub customer_id: u128,
    pub version: i64,
    pub email: Email,
    pub first_name: String,
    pub last_name: String,
    pub phone: Option<PhoneNumber>,
    pub status: CustomerStatus,
    pub tier: CustomerTier,
    pub addresses: HashMap<u128, Address>,
    pub default_address_id: Option<u128>,
    pub payment_methods: HashMap<u128, PaymentMethod>,
}

/// What the events say of a customer: everything but the identity, which
/// the envelopes name and no event holds.
#[verifier::ext_equal]
pub struct CustomerState {
    pub version: i64,
    pub email: Email,
    pub first_name: String,
    pub last_name: String,
    pub phone: Option<PhoneNumber>,
    pub status: CustomerStatus,
    pub tier: CustomerTier,
    pub addresses: Map<u128, Address>,
    pub default_address_id: Option<u128>,
    pub payment_methods: Map<u128, PaymentMethod>,
}

impl View for CustomerAggregate {
    type V = CustomerState;

    open spec fn view(&self) -> CustomerState {
        CustomerState {
            version: self.version,
            email: self.email,
            first_name: self.first_name,
            last_name: self.last_name,
            phone: self.phone,
            status: self.status,
            tier: self.tier,
            addresses: self.addresses@,
            default_address_id: self.default_address_id,
            payment_methods: self.payment_methods@,
        }
    }
}

/// Why `email` is not acceptable, if it is not: it is empty, or holds no `@`.
pub open spec fn email_fault(email: &Email) -> Option<CustomerError> {
    if email.0@.len() == 0 {
        Some(CustomerError::EmptyEmail)
    } else if !email.0@.contains('@') {
        Some(CustomerError::InvalidEmail(email.0))
    } else {
        None
    }
}

impl CustomerState {
    /// The state of a customer that `event` has just registered.
    pub open spec fn born(event: &CustomerEvent) -> Option<CustomerState> {
        match event {
            CustomerEvent::Registered(e) => Some(
                CustomerState {
                    version: 0,
                    email: e.email,
                    first_name: e.first_name,
                    last_name: e.last_name,
                    phone: e.phone,
                    status: CustomerStatus::Active,
                    tier: CustomerTier::Bronze,
                    addresses: Map::empty(),
                    default_address_id: None,
                    payment_methods: Map::empty(),
                },
            ),
            _ => None,
        }
    }

    /// The state after `event`, apart from the version.
    pub open spec fn changed_by(self, event: &CustomerEvent) -> CustomerState {
        match event {
            CustomerEvent::Registered(_) => self,
            CustomerEvent::ProfileUpdated(e) => CustomerState {
                first_name: if e.first_name is Some { e.first_name->0 } else { self.first_name },
                last_name: if e.last_name is Some { e.last_name->0 } else { self.last_name },
                phone: if e.phone is Some { e.phone } else { self.phone },
                ..self
            },
            CustomerEvent::EmailChanged(e) => CustomerState { email: e.new_email, ..self },
            CustomerEvent::PhoneChanged(e) => CustomerState { phone: Some(e.new_phone), ..self },
            CustomerEvent::AddressAdded(e) => CustomerState {
                addresses: self.addresses.insert(e.address_id, e.address),
                default_address_id: if e.is_default {
                    Some(e.address_id)
                } else {
                    self.default_address_id
                },
                ..self
            },
            CustomerEvent::AddressUpdated(e) => CustomerState {
                addresses: self.addresses.insert(e.address_id, e.address),
                ..self
            },
            CustomerEvent::AddressRemoved(e) => CustomerState {
                addresses: self.addresses.remove(e.address_id),
                default_address_id: if self.default_address_id == Some(e.address_id) {
                    None
                } else {
                    self.default_address_id
                },
                ..self
            },
            CustomerEvent::PaymentMethodAdded(e) => CustomerState {
                payment_methods: self.payment_methods.insert(e.payment_method.id, e.payment_method),
                ..self
            },
            CustomerEvent::PaymentMethodRemoved(e) => CustomerState {
                payment_methods: self.payment_methods.remove(e.payment_method_id),
                ..self
            },
            CustomerEvent::TierUpgraded(e) => CustomerState { tier: e.new_tier, ..self },
            CustomerEvent::Suspended(_) => CustomerState { status: CustomerStatus::Suspended, ..self },
            CustomerEvent::Reactivated(_) => CustomerState { status: CustomerStatus::Active, ..self },
            CustomerEvent::Deactivated(_) => CustomerState {
                status: CustomerStatus::Deactivated,
                ..self
            },
        }
    }

    /// The state after `event` is folded in: its changes, and the next version.
    pub open spec fn apply(self, event: &CustomerEvent) -> CustomerState {
        CustomerState { version: (self.version + 1) as i64, ..self.changed_by(event) }
    }

    /// The state that a history describes, or `None` where the history is
    /// empty or does not start with a registration. The version is the
    /// sequence number of the last envelope.
    pub open spec fn replay(events: Seq<EventEnvelope<CustomerEvent>>) -> Option<CustomerState>
        decreases events.len(),
    {
        if events.len() == 0 {
            None
        } else if events.len() == 1 {
            match Self::born(&events[0].event_data) {
                Some(s) => Some(CustomerState { version: events[0].sequence_number, ..s }),
                None => None,
            }
        } else {
            match Self::replay(events.drop_last()) {
                Some(s) => Some(
                    CustomerState {
                        version: events.last().sequence_number,
                        ..s.changed_by(&events.last().event_data)
                    },
                ),
                None => None,
            }
        }
    }

    /// Whether customers in this state may be modified.
    pub open spec fn is_active(self) -> bool {
        self.status == CustomerStatus::Active
    }

    /// The rule that `command` breaks in this state, if it breaks one.
    pub open spec fn rejection(self, command: &CustomerCommand) -> Option<CustomerError> {
        match command {
            CustomerCommand::RegisterCustomer { email, first_name, last_name, .. } => {
                if first_name@.len() == 0 {
                    Some(CustomerError::EmptyFirstName)
                } else if last_name@.len() == 0 {
                    Some(CustomerError::EmptyLastName)
                } else {
                    email_fault(email)
                }
            },
            CustomerCommand::UpdateProfile { .. }
            | CustomerCommand::ChangePhone { .. }
            | CustomerCommand::AddAddress { .. }
            | CustomerCommand::AddPaymentMethod { .. } => {
                if self.is_active() {
                    None
                } else {
                    Some(CustomerError::NotActive)
                }
            },
            CustomerCommand::ChangeEmail { new_email } => {
                if !self.is_active() {
                    Some(CustomerError::NotActive)
                } else {
                    email_fault(new_email)
                }
            },
            CustomerCommand::UpdateAddress { address_id, .. } => {
                if !self.is_active() {
                    Some(CustomerError::NotActive)
                } else if !self.addresses.contains_key(*address_id) {
                    Some(CustomerError::AddressNotFound(*address_id))
                } else {
                    None
                }
            },
            CustomerCommand::RemoveAddress { address_id } => {
                if !self.is_active() {
                    Some(CustomerError::NotActive)
                } else if !self.addresses.contains_key(*address_id) {
                    Some(CustomerError::AddressNotFound(*address_id))
                } else {
                    None
                }
            },
            CustomerCommand::RemovePaymentMethod { payment_method_id } => {
                if !self.is_active() {
                    Some(CustomerError::NotActive)
                } else if !self.payment_methods.contains_key(*payment_method_id) {
                    Some(CustomerError::PaymentMethodNotFound(*payment_method_id))
                } else {
                    None
                }
            },
            CustomerCommand::UpgradeTier { new_tier } => {
                if !self.is_active() {
                    Some(CustomerError::NotActive)
                } else if new_tier.spec_level() <= self.tier.spec_level() {
                    Some(CustomerError::TierDowngradeNotAllowed)
                } else {
                    None
                }
            },
            CustomerCommand::SuspendCustomer { .. } => {
                if self.status == CustomerStatus::Suspended {
                    Some(CustomerError::AlreadySuspended)
                } else if self.status == CustomerStatus::Deactivated {
                    Some(CustomerError::AlreadyDeactivated)
                } else {
                    None
                }
            },
            CustomerCommand::ReactivateCustomer { .. } => {
                if self.status != CustomerStatus::Suspended {
                    Some(CustomerError::NotSuspended)
                } else {
                    None
                }
            },
            CustomerCommand::DeactivateCustomer { .. } => {
                if self.status == CustomerStatus::Deactivated {
                    Some(CustomerError::AlreadyDeactivated)
                } else {
                    None
                }
            },
        }
    }

    /// The events that `command` gives rise to where no rule refuses it: one
    /// event that records what was asked, or none where an email is changed
    /// to the one on file.
    pub open spec fn decision(self, command: &CustomerCommand) -> Seq<CustomerEvent> {
        match command {
            CustomerCommand::RegisterCustomer { email, first_name, last_name, phone, .. } => seq![
                CustomerEvent::Registered(
                    CustomerRegistered {
                        email: *email,
                        first_name: *first_name,
                        last_name: *last_name,
                        phone: *phone,
                    },
                ),
            ],
            CustomerCommand::UpdateProfile { first_name, last_name, phone } => seq![
                CustomerEvent::ProfileUpdated(
                    CustomerProfileUpdated {
                        first_name: *first_name,
                        last_name: *last_name,
                        phone: *phone,
                    },
                ),
            ],
            CustomerCommand::ChangeEmail { new_email } => if self.email.0@ == new_email.0@ {
                Seq::empty()
            } else {
                seq![
                    CustomerEvent::EmailChanged(
                        CustomerEmailChanged { old_email: self.email, new_email: *new_email },
                    ),
                ]
            },
            CustomerCommand::ChangePhone { new_phone } => seq![
                CustomerEvent::PhoneChanged(
                    CustomerPhoneChanged { old_phone: self.phone, new_phone: *new_phone },
                ),
            ],
            CustomerCommand::AddAddress { address_id, address, set_as_default } => seq![
                CustomerEvent::AddressAdded(
                    CustomerAddressAdded {
                        address_id: *address_id,
                        address: *address,
                        is_default: *set_as_default,
                    },
                ),
            ],
            CustomerCommand::UpdateAddress { address_id, address } => seq![
                CustomerEvent::AddressUpdated(
                    CustomerAddressUpdated { address_id: *address_id, address: *address },
                ),
            ],
            CustomerCommand::RemoveAddress { address_id } => seq![
                CustomerEvent::AddressRemoved(CustomerAddressRemoved { address_id: *address_id }),
            ],
            CustomerCommand::AddPaymentMethod { payment_method } => seq![
                CustomerEvent::PaymentMethodAdded(
                    CustomerPaymentMethodAdded { payment_method: *payment_method },
                ),
            ],
            CustomerCommand::RemovePaymentMethod { payment_method_id } => seq![
                CustomerEvent::PaymentMethodRemoved(
                    CustomerPaymentMethodRemoved { payment_method_id: *payment_method_id },
                ),
            ],
            CustomerCommand::UpgradeTier { new_tier } => seq![
                CustomerEvent::TierUpgraded(
                    CustomerTierUpgraded { old_tier: self.tier, new_tier: *new_tier },
                ),
            ],
            CustomerCommand::SuspendCustomer { reason } => seq![
                CustomerEvent::Suspended(CustomerSuspended { reason: *reason }),
            ],
            CustomerCommand::ReactivateCustomer { notes } => seq![
                CustomerEvent::Reactivated(CustomerReactivated { notes: *notes }),
            ],
            CustomerCommand::DeactivateCustomer { reason } => seq![
                CustomerEvent::Deactivated(CustomerDeactivated { reason: *reason }),
            ],
        }
    }
}

impl CustomerAggregate {
    /// Checks that `email` is not empty and holds an `@`.
    fn validate_email(&self, email: &Email) -> (r: Result<(), CustomerError>)
        ensures
            match r {
                Ok(_) => email_fault(email) is None,
                Err(e) => email_fault(email) == Some(e),
            },
    {
        if email.as_str().is_empty() {
            return Err(CustomerError::EmptyEmail);
        }
        if !crate::platform::contains_char(email.as_str(), '@') {
            return Err(CustomerError::InvalidEmail(email.0.clone()));
        }
        Ok(())
    }

    /// Checks that the customer can be modified.
    fn validate_active(&self) -> (r: Result<(), CustomerError>)
        ensures
            match r {
                Ok(_) => self@.is_active(),
                Err(e) => !self@.is_active() && e == CustomerError::NotActive,
            },
    {
        match self.status {
            CustomerStatus::Active => Ok(()),
            _ => Err(CustomerError::NotActive),
        }
    }
}

impl AggregateRoot for CustomerAggregate {
    type Event = CustomerEvent;

    type Command = CustomerCommand;

    type Error = CustomerError;

    open spec fn spec_aggregate_id(&self) -> u128 {
        self.customer_id
    }

    open spec fn spec_version(&self) -> i64 {
        self.version
    }

    /// A registration gives a customer at version 0; any other event is
    /// refused with `NotInitialized`. The identity is drawn at random, and
    /// nothing is said of it: loading a history replaces it by the identity
    /// that the history names.
    fn apply_first_event(event: &CustomerEvent) -> (r: Result<Self, CustomerError>)
        ensures
            match r {
                Ok(a) => Some(a@) == CustomerState::born(event),
                Err(e) => CustomerState::born(event) is None && e == CustomerError::NotInitialized,
            },
    {
        match event {
            CustomerEvent::Registered(e) => {
                let aggregate = CustomerAggregate {
                    customer_id: new_uuid(),
                    version: 0,
                    email: e.email.clone(),
                    first_name: e.first_name.clone(),
                    last_name: e.last_name.clone(),
                    phone: clone_opt_phone(&e.phone),
                    status: CustomerStatus::Active,
                    tier: CustomerTier::Bronze,
                    addresses: HashMap::new(),
                    default_address_id: None,
                    payment_methods: HashMap::new(),
                };
                assert(aggregate@ =~= CustomerState::born(event)->0);
                Ok(aggregate)
            },
            _ => Err(CustomerError::NotInitialized),
        }
    }

    /// Never fails: the state becomes `old(self)@.apply(event)`.
    fn apply_event(&mut self, event: &CustomerEvent) -> (r: Result<(), CustomerError>)
        ensures
            r is Ok,
            final(self)@ == old(self)@.apply(event),
    {
        match event {
            CustomerEvent::Registered(_) => {},
            CustomerEvent::ProfileUpdated(e) => {
                if let Some(first_name) = &e.first_name {
                    self.first_name = first_name.clone();
                }
                if let Some(last_name) = &e.last_name {
                    self.last_name = last_name.clone();
                }
                if let Some(phone) = &e.phone {
                    self.phone = Some(phone.clone());
                }
            },
            CustomerEvent::EmailChanged(e) => {
                self.email = e.new_email.clone();
            },
            CustomerEvent::PhoneChanged(e) => {
                self.phone = Some(e.new_phone.clone());
            },
            CustomerEvent::AddressAdded(e) => {
                self.addresses.insert(e.address_id, e.address.clone());
                if e.is_default {
                    self.default_address_id = Some(e.address_id);
                }
            },
            CustomerEvent::AddressUpdated(e) => {
                self.addresses.insert(e.address_id, e.address.clone());
            },
            CustomerEvent::AddressRemoved(e) => {
                self.addresses.remove(&e.address_id);
                let was_default = match self.default_address_id {
                    Some(id) => id == e.address_id,
                    None => false,
                };
                if was_default {
                    self.default_address_id = None;
                }
            },
            CustomerEvent::PaymentMethodAdded(e) => {
                self.payment_methods.insert(e.payment_method.id, e.payment_method.clone());
            },
            CustomerEvent::PaymentMethodRemoved(e) => {
                self.payment_methods.remove(&e.payment_method_id);
            },
            CustomerEvent::TierUpgraded(e) => {
                self.tier = e.new_tier;
            },
            CustomerEvent::Suspended(_) => {
                self.status = CustomerStatus::Suspended;
            },
            CustomerEvent::Reactivated(_) => {
                self.status = CustomerStatus::Active;
            },
            CustomerEvent::Deactivated(_) => {
                self.status = CustomerStatus::Deactivated;
            },
        }
        self.version = self.version + 1;
        assert(self@ =~= old(self)@.apply(event));
        Ok(())
    }

    /// Refuses `command` with `self@.rejection(command)` where that names a
    /// rule, and otherwise returns the events of `self@.decision(command)`.
    fn handle_command(&self, command: &CustomerCommand) -> (r: Result<
        Vec<CustomerEvent>,
        CustomerError,
    >)
        ensures
            match r {
                Ok(events) => self@.rejection(command) is None && events@ == self@.decision(command),
                Err(e) => self@.rejection(command) == Some(e),
            },
    {
        match command {
            CustomerCommand::RegisterCustomer { email, first_name, last_name, phone, .. } => {
                if first_name.as_str().is_empty() {
                    return Err(CustomerError::EmptyFirstName);
                }
                if last_name.as_str().is_empty() {
                    return Err(CustomerError::EmptyLastName);
                }
                self.validate_email(email)?;
                Ok(
                    vec![
                        CustomerEvent::Registered(
                            CustomerRegistered {
                                email: email.clone(),
                                first_name: first_name.clone(),
                                last_name: last_name.clone(),
                                phone: clone_opt_phone(phone),
                            },
                        ),
                    ],
                )
            },
            CustomerCommand::UpdateProfile { first_name, last_name, phone } => {
                self.validate_active()?;
                Ok(
                    vec![
                        CustomerEvent::ProfileUpdated(
                            CustomerProfileUpdated {
                                first_name: clone_opt_string(first_name),
                                last_name: clone_opt_string(last_name),
                                phone: clone_opt_phone(phone),
                            },
                        ),
                    ],
                )
            },
            CustomerCommand::ChangeEmail { new_email } => {
                self.validate_active()?;
                self.validate_email(new_email)?;
                if self.email.0 == new_email.0 {
                    return Ok(Vec::new());
                }
                Ok(
                    vec![
                        CustomerEvent::EmailChanged(
                            CustomerEmailChanged {
                                old_email: self.email.clone(),
                                new_email: new_email.clone(),
                            },
                        ),
                    ],
                )
            },
            CustomerCommand::ChangePhone { new_phone } => {
                self.validate_active()?;
                Ok(
                    vec![
                        CustomerEvent::PhoneChanged(
                            CustomerPhoneChanged {
                                old_phone: clone_opt_phone(&self.phone),
                                new_phone: new_phone.clone(),
                            },
                        ),
                    ],
                )
            },
            CustomerCommand::AddAddress { address_id, address, set_as_default } => {
                self.validate_active()?;
                Ok(
                    vec![
                        CustomerEvent::AddressAdded(
                            CustomerAddressAdded {
                                address_id: *address_id,
                                address: address.clone(),
                                is_default: *set_as_default,
                            },
                        ),
                    ],
                )
            },
            CustomerCommand::UpdateAddress { address_id, address } => {
                self.validate_active()?;
                if !self.addresses.contains_key(address_id) {
                    return Err(CustomerError::AddressNotFound(*address_id));
                }
                Ok(
                    vec![
                        CustomerEvent::AddressUpdated(
                            CustomerAddressUpdated {
                                address_id: *address_id,
                                address: address.clone(),
                            },
                        ),
                    ],
                )
            },
            CustomerCommand::RemoveAddress { address_id } => {
                self.validate_active()?;
                if !self.addresses.contains_key(address_id) {
                    return Err(CustomerError::AddressNotFound(*address_id));
                }
                Ok(
                    vec![
                        CustomerEvent::AddressRemoved(
                            CustomerAddressRemoved { address_id: *address_id },
                        ),
                    ],
                )
            },
            CustomerCommand::AddPaymentMethod { payment_method } => {
                self.validate_active()?;
                Ok(
                    vec![
                        CustomerEvent::PaymentMethodAdded(
                            CustomerPaymentMethodAdded { payment_method: payment_method.clone() },
                        ),
                    ],
                )
            },
            CustomerCommand::RemovePaymentMethod { payment_method_id } => {
                self.validate_active()?;
                if !self.payment_methods.contains_key(payment_method_id) {
                    return Err(CustomerError::PaymentMethodNotFound(*payment_method_id));
                }
                Ok(
                    vec![
                        CustomerEvent::PaymentMethodRemoved(
                            CustomerPaymentMethodRemoved { payment_method_id: *payment_method_id },
                        ),
                    ],
                )
            },
            CustomerCommand::UpgradeTier { new_tier } => {
                self.validate_active()?;
                if new_tier.level() <= self.tier.level() {
                    return Err(CustomerError::TierDowngradeNotAllowed);
                }
                Ok(
                    vec![
                        CustomerEvent::TierUpgraded(
                            CustomerTierUpgraded { old_tier: self.tier, new_tier: *new_tier },
                        ),
                    ],
                )
            },
            CustomerCommand::SuspendCustomer { reason } => {
                if self.status == CustomerStatus::Suspended {
                    return Err(CustomerError::AlreadySuspended);
                }
                if self.status == CustomerStatus::Deactivated {
                    return Err(CustomerError::AlreadyDeactivated);
                }
                Ok(vec![CustomerEvent::Suspended(CustomerSuspended { reason: reason.clone() })])
            },
            CustomerCommand::ReactivateCustomer { notes } => {
                if self.status != CustomerStatus::Suspended {
                    return Err(CustomerError::NotSuspended);
                }
                Ok(
                    vec![
                        CustomerEvent::Reactivated(
                            CustomerReactivated { notes: clone_opt_string(notes) },
                        ),
                    ],
                )
            },
            CustomerCommand::DeactivateCustomer { reason } => {
                if self.status == CustomerStatus::Deactivated {
                    return Err(CustomerError::AlreadyDeactivated);
                }
                Ok(
                    vec![CustomerEvent::Deactivated(CustomerDeactivated { reason: reason.clone() })],
                )
            },
        }
    }

    fn aggregate_id(&self) -> (r: u128) {
        self.customer_id
    }

    fn version(&self) -> (r: i64) {
        self.version
    }

    /// The aggregate's state is `CustomerState::replay(events@)` and its
    /// identity the one that the first envelope names: both are functions of
    /// the history alone. Loading fails on an empty history and on one that
    /// does not start with a registration, and on nothing else.
    fn load_from_events(events: Vec<EventEnvelope<CustomerEvent>>) -> (r: Result<
        Self,
        LoadError<CustomerError>,
    >)
        ensures
            match r {
                Ok(a) => Some(a@) == CustomerState::replay(events@) && a.customer_id == events[0].aggregate_id,
                Err(LoadError::NoEvents) => events.len() == 0,
                Err(LoadError::FirstEvent(e)) => events.len() > 0 && CustomerState::born(
                    &events[0].event_data,
                ) is None && e == CustomerError::NotInitialized,
                Err(LoadError::Event(_)) => false,
            },
            r is Err ==> CustomerState::replay(events@) is None,
    {
        if events.len() == 0 {
            return Err(LoadError::NoEvents);
        }
        let mut aggregate = match Self::apply_first_event(&events[0].event_data) {
            Ok(a) => a,
            Err(e) => {
                proof {
                    lemma_replay_needs_birth(events@);
                }
                return Err(LoadError::FirstEvent(e));
            },
        };
        aggregate.customer_id = events[0].aggregate_id;
        aggregate.version = events[0].sequence_number;
        assert(Some(aggregate@) == CustomerState::replay(events@.take(1))) by {
            assert(events@.take(1)[0] == events@[0]);
            assert(aggregate@ =~= CustomerState::replay(events@.take(1))->0);
        }
        let mut i: usize = 1;
        while i < events.len()
            invariant
                1 <= i <= events.len(),
                Some(aggregate@) == CustomerState::replay(events@.take(i as int)),
                aggregate.version == events[i - 1].sequence_number,
                aggregate.customer_id == events[0].aggregate_id,
                forall|k: int|
                    0 <= k < events.len() - 1 ==> (#[trigger] events[k]).sequence_number < i64::MAX,
            decreases events.len() - i,
        {
            let ghost before = aggregate@;
            let _ = aggregate.apply_event(&events[i].event_data);
            aggregate.version = events[i].sequence_number;
            proof {
                let prefix = events@.take(i as int + 1);
                assert(prefix.drop_last() == events@.take(i as int));
                assert(prefix.last() == events@[i as int]);
                assert(aggregate@ =~= CustomerState::replay(prefix)->0);
            }
            i = i + 1;
        }
        assert(events@.take(events.len() as int) == events@);
        Ok(aggregate)
    }
}

/// A history whose first event gives no birth describes no customer.
pub proof fn lemma_replay_needs_birth(events: Seq<EventEnvelope<CustomerEvent>>)
    requires
        events.len() > 0,
        CustomerState::born(&events[0].event_data) is None,
    ensures
        CustomerState::replay(events) is None,
    decreases events.len(),
{
    if events.len() > 1 {
        assert(events.drop_last()[0] == events[0]);
        lemma_replay_needs_birth(events.drop_last());
    }
}

/// The state that loading yields is a function of the history alone: two
/// histories that carry the same events under the same sequence numbers
/// describe the same customer, whatever their identifiers and timestamps.
pub proof fn law_replay_depends_on_events_only(
    a: Seq<EventEnvelope<CustomerEvent>>,
    b: Seq<EventEnvelope<CustomerEvent>>,
)
    requires
        a.len() == b.len(),
        forall|i: int|
            0 <= i < a.len() ==> (#[trigger] a[i]).event_data == b[i].event_data
                && a[i].sequence_number == b[i].sequence_number,
    ensures
        CustomerState::replay(a) == CustomerState::replay(b),
    decreases a.len(),
{
    if a.len() > 1 {
        assert forall|i: int| 0 <= i < a.drop_last().len() implies (#[trigger] a.drop_last()[i]).event_data
            == b.drop_last()[i].event_data && a.drop_last()[i].sequence_number
            == b.drop_last()[i].sequence_number by {
            assert(a.drop_last()[i] == a[i]);
            assert(b.drop_last()[i] == b[i]);
        }
        law_replay_depends_on_events_only(a.drop_last(), b.drop_last());
        assert(a.last() == a[a.len() - 1]);
        assert(b.last() == b[b.len() - 1]);
    } else if a.len() == 1 {
        assert(a[0].event_data == b[0].event_data);
    }
}

} // verus!
