//! The filter expression of a cost-reporting query.

use vstd::prelude::*;
use crate::event::{identity_entries, Event, EventView, IdentityEntry, IdentityField};

verus! {

/// One dimension-equality clause: the dimension named `key` must hold one of
/// `values`.
#[derive(Clone, Debug, PartialEq, Eq)]
pub struct FilterClause {
    pub key: String,
    pub values: Vec<String>,
}

/// What a [`FilterClause`] holds.
pub ghost struct FilterClauseView {
    pub key: Seq<char>,
    pub values: Seq<Seq<char>>,
}

/// The characters of each text of a list.
pub open spec fn texts_of(texts: Seq<String>) -> Seq<Seq<char>> {
    texts.map_values(|text: String| text@)
}

impl View for FilterClause {
    type V = FilterClauseView;

    open spec fn view(&self) -> FilterClauseView {
        FilterClauseView { key: self.key@, values: texts_of(self.values@) }
    }
}

/// What each clause of a list holds.
pub open spec fn clauses_of(clauses: Seq<FilterClause>) -> Seq<FilterClauseView> {
    clauses.map_values(|clause: FilterClause| clause@)
}

/// A conjunction of clauses. The empty conjunction matches everything.
#[derive(Clone, Debug, PartialEq, Eq)]
pub struct FilterExpression {
    pub and: Vec<FilterClause>,
}

impl View for FilterExpression {
    type V = Seq<FilterClauseView>;

    open spec fn view(&self) -> Seq<FilterClauseView> {
        clauses_of(self.and@)
    }
}

/// The clause that pins the dimension `key` to the single value `value`.
pub open spec fn equality_clause(key: Seq<char>, value: Seq<char>) -> FilterClauseView {
    FilterClauseView { key, values: seq![value] }
}

/// The clauses that `event` asks for: one per populated identity field, in the
/// fields' declared order.
pub open spec fn filter_clauses(event: EventView) -> Seq<FilterClauseView> {
    identity_entries(event).map_values(
        |entry: IdentityEntry| equality_clause(entry.field.filter_key(), entry.value),
    )
}

/// Appends the clause `key = element` to `exps` where `event_element` is
/// present, and leaves `exps` as it is otherwise.
pub fn push_filter(event_element: &Option<String>, exps: &mut Vec<FilterClause>, key: String)
    ensures
        clauses_of(final(exps)@) == match *event_element {
            Some(element) => clauses_of(old(exps)@).push(equality_clause(key@, element@)),
            None => clauses_of(old(exps)@),
        },
{
    match event_element {
        Some(element) => {
            let mut values: Vec<String> = Vec::new();
            values.push(element.clone());
            let clause = FilterClause { key, values };
            assert(clause@.values =~= seq![element@]);
            exps.push(clause);
            assert(clauses_of(exps@) =~= clauses_of(old(exps)@).push(clause@));
        },
        None => {},
    }
}

/// The filter expression of the query for `event`.
pub fn build_filter(event: &Event) -> (filter: FilterExpression)
    ensures
        filter@ == filter_clauses(event@),
{
    let mut and: Vec<FilterClause> = Vec::new();
    assert(clauses_of(and@) =~= Seq::empty());
    push_filter(&event.region, &mut and, IdentityField::Region.filter_key_text());
    push_filter(&event.service, &mut and, IdentityField::Service.filter_key_text());
    push_filter(&event.linked_account, &mut and, IdentityField::LinkedAccount.filter_key_text());
    assert(clauses_of(and@) =~= filter_clauses(event@));
    FilterExpression { and }
}

} // verus!
