//! The invocation event and the identity fields that scope a query and tag a
//! metric.

use vstd::prelude::*;

verus! {

/// The payload of one invocation.
#[derive(Clone, Debug, PartialEq, Eq)]
pub struct Event {
    /// Restricts the query to one region, where present.
    pub region: Option<String>,
    /// Restricts the query to one service, where present.
    pub service: Option<String>,
    /// Restricts the query to one linked account, where present.
    pub linked_account: Option<String>,
    /// Time-bucketing resolution, handed to the query as it is.
    pub granularity: Option<String>,
    /// `"utilization"` or `"coverage"`; utilization where absent.
    pub metric_type: Option<String>,
    /// Namespace of the published metric.
    pub namespace: String,
    /// Name of the published metric.
    pub metric_name: String,
}

/// What an [`Event`] holds, with each text as a sequence of characters.
pub ghost struct EventView {
    pub region: Option<Seq<char>>,
    pub service: Option<Seq<char>>,
    pub linked_account: Option<Seq<char>>,
    pub granularity: Option<Seq<char>>,
    pub metric_type: Option<Seq<char>>,
    pub namespace: Seq<char>,
    pub metric_name: Seq<char>,
}

/// The characters of an optional text.
pub open spec fn text_of(value: Option<String>) -> Option<Seq<char>> {
    match value {
        Some(text) => Some(text@),
        None => None,
    }
}

impl View for Event {
    type V = EventView;

    open spec fn view(&self) -> EventView {
        EventView {
            region: text_of(self.region),
            service: text_of(self.service),
            linked_account: text_of(self.linked_account),
            granularity: text_of(self.granularity),
            metric_type: text_of(self.metric_type),
            namespace: self.namespace@,
            metric_name: self.metric_name@,
        }
    }
}

/// The optional event fields that serve both as query filters and as metric
/// dimensions, in their declared order.
#[derive(Clone, Copy, Debug, PartialEq, Eq, Structural)]
pub enum IdentityField {
    Region,
    Service,
    LinkedAccount,
}

impl IdentityField {
    /// The key under which the cost-reporting query filters by this field.
    pub open spec fn filter_key(self) -> Seq<char> {
        match self {
            IdentityField::Region => "REGION"@,
            IdentityField::Service => "SERVICE"@,
            IdentityField::LinkedAccount => "LINKED_ACCOUNT"@,
        }
    }

    /// The name of the metric dimension that carries this field.
    pub open spec fn dimension_name(self) -> Seq<char> {
        match self {
            IdentityField::Region => "Region"@,
            IdentityField::Service => "Service"@,
            IdentityField::LinkedAccount => "LinkedAccount"@,
        }
    }

    /// The value that `event` holds for this field.
    pub open spec fn value_in(self, event: EventView) -> Option<Seq<char>> {
        match self {
            IdentityField::Region => event.region,
            IdentityField::Service => event.service,
            IdentityField::LinkedAccount => event.linked_account,
        }
    }

    /// The filter key of this field as an owned text.
    pub fn filter_key_text(self) -> (key: String)
        ensures
            key@ == self.filter_key(),
    {
        match self {
            IdentityField::Region => String::from_str("REGION"),
            IdentityField::Service => String::from_str("SERVICE"),
            IdentityField::LinkedAccount => String::from_str("LINKED_ACCOUNT"),
        }
    }

    /// The dimension name of this field as an owned text.
    pub fn dimension_name_text(self) -> (name: String)
        ensures
            name@ == self.dimension_name(),
    {
        match self {
            IdentityField::Region => String::from_str("Region"),
            IdentityField::Service => String::from_str("Service"),
            IdentityField::LinkedAccount => String::from_str("LinkedAccount"),
        }
    }
}

/// One populated identity field with its value.
pub ghost struct IdentityEntry {
    pub field: IdentityField,
    pub value: Seq<char>,
}

/// The entry of `field` where `event` populates it, and nothing otherwise.
pub open spec fn entry_of(event: EventView, field: IdentityField) -> Seq<IdentityEntry> {
    match field.value_in(event) {
        Some(value) => seq![IdentityEntry { field, value }],
        None => Seq::empty(),
    }
}

/// The populated identity fields of `event`: region, then service, then
/// linked account.
pub open spec fn identity_entries(event: EventView) -> Seq<IdentityEntry> {
    entry_of(event, IdentityField::Region) + entry_of(event, IdentityField::Service) + entry_of(
        event,
        IdentityField::LinkedAccount,
    )
}

/// The number of fields that `event` populates among those declared before
/// `field`.
pub open spec fn populated_before(event: EventView, field: IdentityField) -> nat {
    match field {
        IdentityField::Region => 0,
        IdentityField::Service => entry_of(event, IdentityField::Region).len(),
        IdentityField::LinkedAccount => entry_of(event, IdentityField::Region).len() + entry_of(
            event,
            IdentityField::Service,
        ).len(),
    }
}

} // verus!
