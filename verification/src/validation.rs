//! Field rules and the aggregation of their failures.
//!
//! A form is checked rule by rule, in the order the rules are declared.  Each
//! failing rule yields a [`ValidationError`]; a [`ValidationFailureSet`] keeps,
//! for every field, the message of the first rule that failed on it.

use vstd::prelude::*;
use crate::json::{Json, json_of, object_of, member_models, object_value, text_value};

verus! {

/// The outcome of one failed rule.
#[derive(Clone, Debug)]
pub struct ValidationError {
    pub code: String,
    pub message: Option<String>,
}

/// The message shown for a failure that carries none.
pub open spec fn spec_default_message() -> Seq<char> {
    "invalid value"@
}

impl ValidationError {
    /// The message this failure surfaces as.
    pub open spec fn spec_message(self) -> Seq<char> {
        match self.message {
            Some(m) => m@,
            None => spec_default_message(),
        }
    }

    /// A failure whose code and message are the same words.
    pub fn new(words: &str) -> (e: ValidationError)
        ensures
            e.code@ == words@,
            e.message is Some,
            e.message->0@ == words@,
    {
        ValidationError { code: words.to_owned(), message: Some(words.to_owned()) }
    }

    /// A failure with a code and a message of its own.
    pub fn with_message(code: &str, message: &str) -> (e: ValidationError)
        ensures
            e.code@ == code@,
            e.message is Some,
            e.message->0@ == message@,
    {
        ValidationError { code: code.to_owned(), message: Some(message.to_owned()) }
    }

    /// The message this failure surfaces as: its own, or the default one.
    pub fn message_text(&self) -> (text: String)
        ensures
            text@ == self.spec_message(),
    {
        match &self.message {
            Some(m) => m.clone(),
            None => "invalid value".to_owned(),
        }
    }
}

/// One rule applied to one field: it passed, or it failed with an error.
#[derive(Clone, Debug)]
pub struct RuleOutcome {
    pub field: String,
    pub failure: Option<ValidationError>,
}

impl RuleOutcome {
    pub open spec fn failed(self) -> bool {
        self.failure is Some
    }

    /// The rule failed on `field`.
    pub open spec fn failed_on(self, field: Seq<char>) -> bool {
        self.failure is Some && self.field@ == field
    }

    /// The rule on `field` passed.
    pub fn pass(field: &str) -> (o: RuleOutcome)
        ensures
            o.field@ == field@,
            o.failure is None,
    {
        RuleOutcome { field: field.to_owned(), failure: None }
    }

    /// The rule on `field` failed with `error`.
    pub fn fail(field: &str, error: ValidationError) -> (o: RuleOutcome)
        ensures
            o.field@ == field@,
            o.failure == Some(error),
    {
        RuleOutcome { field: field.to_owned(), failure: Some(error) }
    }

    /// The outcome of a rule on `field` that ended in `result`.
    pub fn of(field: &str, result: Result<(), ValidationError>) -> (o: RuleOutcome)
        ensures
            o.field@ == field@,
            o.failure == match result {
                Ok(()) => None::<ValidationError>,
                Err(e) => Some(e),
            },
    {
        match result {
            Ok(()) => RuleOutcome::pass(field),
            Err(e) => RuleOutcome::fail(field, e),
        }
    }
}

/// Some outcome before position `i` already failed on the field of outcome `i`.
pub open spec fn failed_earlier(outcomes: Seq<RuleOutcome>, i: int) -> bool {
    exists|j: int| 0 <= j < i && (#[trigger] outcomes[j]).failed_on(outcomes[i].field@)
}

/// `failures` holds, for each field with a failing outcome, the message of the
/// first outcome that failed on it, and nothing else.
pub open spec fn aggregates(
    outcomes: Seq<RuleOutcome>,
    failures: Map<Seq<char>, Seq<char>>,
) -> bool {
    &&& forall|field: Seq<char>| #[trigger]
        failures.contains_key(field) <==> exists|i: int|
            0 <= i < outcomes.len() && (#[trigger] outcomes[i]).failed_on(field)
    &&& forall|i: int|
        0 <= i < outcomes.len() && (#[trigger] outcomes[i]).failed() && !failed_earlier(outcomes, i)
            ==> failures[outcomes[i].field@] == outcomes[i].failure->0.spec_message()
}

/// The failures so far with one more: a failure enters unless its field
/// already has one.
pub open spec fn spec_noted(
    before: Map<Seq<char>, Seq<char>>,
    field: Seq<char>,
    failure: Option<Seq<char>>,
) -> Map<Seq<char>, Seq<char>> {
    match failure {
        Some(message) if !before.contains_key(field) => before.insert(field, message),
        _ => before,
    }
}

/// The message an outcome surfaces as, if its rule failed.
pub open spec fn spec_outcome_message(outcome: RuleOutcome) -> Option<Seq<char>> {
    match outcome.failure {
        Some(error) => Some(error.spec_message()),
        None => None,
    }
}

/// Registers one outcome with the failures so far: a pass changes nothing,
/// a failure enters unless its field already has one.
pub open spec fn register_outcome(before: Map<Seq<char>, Seq<char>>, next: RuleOutcome) -> Map<
    Seq<char>,
    Seq<char>,
> {
    spec_noted(before, next.field@, spec_outcome_message(next))
}

/// The failures of a sequence of outcomes, registered one after the other.
pub open spec fn aggregate_of(outcomes: Seq<RuleOutcome>) -> Map<Seq<char>, Seq<char>>
    decreases outcomes.len(),
{
    if outcomes.len() == 0 {
        Map::empty()
    } else {
        register_outcome(aggregate_of(outcomes.drop_last()), outcomes.last())
    }
}

/// Registering outcomes one after the other aggregates them.
pub proof fn lemma_aggregate_of(outcomes: Seq<RuleOutcome>)
    ensures
        aggregates(outcomes, aggregate_of(outcomes)),
    decreases outcomes.len(),
{
    if outcomes.len() > 0 {
        lemma_aggregate_of(outcomes.drop_last());
        lemma_aggregates_push(
            outcomes.drop_last(),
            outcomes.last(),
            aggregate_of(outcomes.drop_last()),
            aggregate_of(outcomes),
        );
        assert(outcomes.drop_last().push(outcomes.last()) =~= outcomes);
    }
}

/// Appending one outcome to aggregated outcomes: a pass changes nothing, a
/// failure is registered unless its field already has one.
pub proof fn lemma_aggregates_push(
    outcomes: Seq<RuleOutcome>,
    next: RuleOutcome,
    before: Map<Seq<char>, Seq<char>>,
    after: Map<Seq<char>, Seq<char>>,
)
    requires
        aggregates(outcomes, before),
        after == register_outcome(before, next),
    ensures
        aggregates(outcomes.push(next), after),
{
    let all = outcomes.push(next);
    let n = outcomes.len() as int;
    assert forall|field: Seq<char>| #[trigger]
        after.contains_key(field) <==> exists|i: int|
            0 <= i < all.len() && (#[trigger] all[i]).failed_on(field) by {
        if after.contains_key(field) {
            if before.contains_key(field) {
                let i = choose|i: int|
                    0 <= i < outcomes.len() && (#[trigger] outcomes[i]).failed_on(field);
                assert(all[i].failed_on(field));
            } else {
                assert(all[n].failed_on(field));
            }
        }
        if exists|i: int| 0 <= i < all.len() && (#[trigger] all[i]).failed_on(field) {
            let i = choose|i: int| 0 <= i < all.len() && (#[trigger] all[i]).failed_on(field);
            if i < n {
                assert(outcomes[i].failed_on(field));
            }
        }
    }
    assert forall|i: int|
        0 <= i < all.len() && (#[trigger] all[i]).failed() && !failed_earlier(
            all,
            i,
        ) implies after[all[i].field@] == all[i].failure->0.spec_message() by {
        if i < n {
            assert(all[i] == outcomes[i]);
            if failed_earlier(outcomes, i) {
                let j = choose|j: int|
                    0 <= j < i && (#[trigger] outcomes[j]).failed_on(outcomes[i].field@);
                assert(all[j].failed_on(all[i].field@));
            }
            assert(outcomes[i].failed_on(outcomes[i].field@));
            assert(before.contains_key(outcomes[i].field@));
        } else {
            if before.contains_key(next.field@) {
                let j = choose|j: int|
                    0 <= j < outcomes.len() && (#[trigger] outcomes[j]).failed_on(next.field@);
                assert(all[j].failed_on(all[i].field@));
            }
        }
    }
}

/// A field that some outcome failed on has a first outcome that failed on it.
pub proof fn lemma_first_failure(outcomes: Seq<RuleOutcome>, field: Seq<char>, i: int) -> (k: int)
    requires
        0 <= i < outcomes.len(),
        outcomes[i].failed_on(field),
    ensures
        0 <= k <= i,
        outcomes[k].failed_on(field),
        !failed_earlier(outcomes, k),
    decreases i,
{
    if failed_earlier(outcomes, i) {
        let j = choose|j: int| 0 <= j < i && (#[trigger] outcomes[j]).failed_on(outcomes[i].field@);
        lemma_first_failure(outcomes, field, j)
    } else {
        i
    }
}

/// The outcomes determine their aggregate: two mappings that both aggregate
/// the same outcomes are one mapping.
pub proof fn lemma_aggregates_unique(
    outcomes: Seq<RuleOutcome>,
    a: Map<Seq<char>, Seq<char>>,
    b: Map<Seq<char>, Seq<char>>,
)
    requires
        aggregates(outcomes, a),
        aggregates(outcomes, b),
    ensures
        a == b,
{
    assert forall|field: Seq<char>| a.contains_key(field) <==> b.contains_key(field) by {
        assert(a.contains_key(field) <==> exists|i: int|
            0 <= i < outcomes.len() && (#[trigger] outcomes[i]).failed_on(field));
        assert(b.contains_key(field) <==> exists|i: int|
            0 <= i < outcomes.len() && (#[trigger] outcomes[i]).failed_on(field));
    }
    assert forall|field: Seq<char>| a.contains_key(field) implies a[field] == b[field] by {
        let i = choose|i: int| 0 <= i < outcomes.len() && (#[trigger] outcomes[i]).failed_on(field);
        let k = lemma_first_failure(outcomes, field, i);
        assert(outcomes[k].failed());
    }
    assert(a =~= b);
}

/// The mapping a sequence of entries stands for, the first entry of a field
/// taking precedence.
pub open spec fn entries_map(entries: Seq<(String, String)>) -> Map<Seq<char>, Seq<char>>
    decreases entries.len(),
{
    if entries.len() == 0 {
        Map::empty()
    } else {
        let before = entries_map(entries.drop_last());
        if before.contains_key(entries.last().0@) {
            before
        } else {
            before.insert(entries.last().0@, entries.last().1@)
        }
    }
}

/// No field occurs twice among the entries.
pub open spec fn distinct_fields(entries: Seq<(String, String)>) -> bool {
    forall|i: int, j: int|
        0 <= i < j < entries.len() ==> (#[trigger] entries[i]).0@ != (#[trigger] entries[j]).0@
}

/// A field is a key of the mapping exactly if some entry names it.
pub proof fn lemma_entries_map_keys(entries: Seq<(String, String)>, field: Seq<char>)
    ensures
        entries_map(entries).contains_key(field) <==> exists|i: int|
            0 <= i < entries.len() && (#[trigger] entries[i]).0@ == field,
    decreases entries.len(),
{
    if entries.len() > 0 {
        let front = entries.drop_last();
        lemma_entries_map_keys(front, field);
        lemma_entries_map_keys(front, entries.last().0@);
        if entries_map(entries).contains_key(field) {
            if entries_map(front).contains_key(field) {
                let i = choose|i: int| 0 <= i < front.len() && (#[trigger] front[i]).0@ == field;
                assert(entries[i].0@ == field);
            } else {
                assert(entries[entries.len() - 1].0@ == field);
            }
        }
        if exists|i: int| 0 <= i < entries.len() && (#[trigger] entries[i]).0@ == field {
            let i = choose|i: int| 0 <= i < entries.len() && (#[trigger] entries[i]).0@ == field;
            if i < entries.len() - 1 {
                assert(front[i].0@ == field);
            }
        }
    }
}

/// With distinct fields, each entry's message is the one the mapping gives
/// its field.
pub proof fn lemma_entries_map_value(entries: Seq<(String, String)>, i: int)
    requires
        distinct_fields(entries),
        0 <= i < entries.len(),
    ensures
        entries_map(entries).contains_key(entries[i].0@),
        entries_map(entries)[entries[i].0@] == entries[i].1@,
    decreases entries.len(),
{
    let front = entries.drop_last();
    lemma_entries_map_keys(front, entries.last().0@);
    if i < entries.len() - 1 {
        assert(front[i] == entries[i]);
        assert(distinct_fields(front)) by {
            assert forall|a: int, b: int| 0 <= a < b < front.len() implies (#[trigger] front[a]).0@
                != (#[trigger] front[b]).0@ by {
                assert(front[a] == entries[a] && front[b] == entries[b]);
            }
        }
        lemma_entries_map_value(front, i);
        assert(entries[i].0@ != entries[entries.len() - 1].0@);
    } else {
        if entries_map(front).contains_key(entries.last().0@) {
            let j = choose|j: int|
                0 <= j < front.len() && (#[trigger] front[j]).0@ == entries.last().0@;
            assert(front[j] == entries[j]);
            assert(entries[j].0@ != entries[entries.len() - 1].0@);
        }
    }
}

/// The failures of one form: for each field at most one message, that of the
/// first rule that failed on it.
///
/// A form has a handful of fields, so the entries are kept in a vector, in
/// the order they came, and a field is found by going through them.  The
/// view is the mapping alone and forgets the order.
#[derive(Debug)]
pub struct ValidationFailureSet {
    entries: Vec<(String, String)>,
}

impl View for ValidationFailureSet {
    type V = Map<Seq<char>, Seq<char>>;

    closed spec fn view(&self) -> Map<Seq<char>, Seq<char>> {
        entries_map(self.entries@)
    }
}

impl ValidationFailureSet {
    #[verifier::type_invariant]
    spec fn well_formed(self) -> bool {
        distinct_fields(self.entries@)
    }

    /// The set without any failure.
    pub fn new() -> (set: ValidationFailureSet)
        ensures
            set@ == Map::<Seq<char>, Seq<char>>::empty(),
    {
        ValidationFailureSet { entries: Vec::new() }
    }

    /// Aggregates rule outcomes, given in the order the rules were applied:
    /// a field appears exactly if some rule failed on it, with the message of
    /// the first rule that did.
    pub fn aggregate(outcomes: &Vec<RuleOutcome>) -> (set: ValidationFailureSet)
        ensures
            aggregates(outcomes@, set@),
            set@ == aggregate_of(outcomes@),
    {
        let mut set = ValidationFailureSet::new();
        let mut i: usize = 0;
        while i < outcomes.len()
            invariant
                0 <= i <= outcomes.len(),
                set@ == aggregate_of(outcomes@.take(i as int)),
            decreases outcomes.len() - i,
        {
            let ghost before = set@;
            match &outcomes[i].failure {
                Some(error) => {
                    let message = error.message_text();
                    set.record(outcomes[i].field.as_str(), message.as_str());
                },
                None => {},
            }
            proof {
                assert(outcomes@.take(i + 1).drop_last() =~= outcomes@.take(i as int));
            }
            i += 1;
        }
        proof {
            assert(outcomes@.take(outcomes@.len() as int) =~= outcomes@);
            lemma_aggregate_of(outcomes@);
        }
        set
    }

    /// Whether no rule failed.
    pub fn is_empty(&self) -> (empty: bool)
        ensures
            empty <==> self@ == Map::<Seq<char>, Seq<char>>::empty(),
    {
        let empty = self.entries.len() == 0;
        proof {
            if !empty {
                lemma_entries_map_keys(self.entries@, self.entries@[0].0@);
                assert(self@.contains_key(self.entries@[0].0@));
            }
        }
        empty
    }

    /// The number of fields with a failure.
    pub fn len(&self) -> (n: usize)
        ensures
            n == self@.len(),
    {
        proof {
            use_type_invariant(self);
            Self::lemma_entries_len(self.entries@);
        }
        self.entries.len()
    }

    proof fn lemma_entries_len(entries: Seq<(String, String)>)
        requires
            distinct_fields(entries),
        ensures
            entries_map(entries).dom().finite(),
            entries_map(entries).len() == entries.len(),
        decreases entries.len(),
    {
        if entries.len() > 0 {
            let front = entries.drop_last();
            assert(distinct_fields(front)) by {
                assert forall|a: int, b: int| 0 <= a < b < front.len() implies (
                #[trigger] front[a]).0@ != (#[trigger] front[b]).0@ by {
                    assert(front[a] == entries[a] && front[b] == entries[b]);
                }
            }
            Self::lemma_entries_len(front);
            lemma_entries_map_keys(front, entries.last().0@);
            if entries_map(front).contains_key(entries.last().0@) {
                let j = choose|j: int|
                    0 <= j < front.len() && (#[trigger] front[j]).0@ == entries.last().0@;
                assert(front[j] == entries[j]);
                assert(entries[j].0@ != entries[entries.len() - 1].0@);
            }
        }
    }

    /// The message recorded for `field`, if a rule failed on it.
    pub fn get(&self, field: &str) -> (message: Option<String>)
        ensures
            message is Some <==> self@.contains_key(field@),
            message is Some ==> message->0@ == self@[field@],
    {
        proof {
            use_type_invariant(self);
        }
        let wanted = field.to_owned();
        let mut i: usize = 0;
        while i < self.entries.len()
            invariant
                0 <= i <= self.entries.len(),
                wanted@ == field@,
                distinct_fields(self.entries@),
                forall|k: int| 0 <= k < i ==> (#[trigger] self.entries@[k]).0@ != field@,
            decreases self.entries.len() - i,
        {
            if self.entries[i].0 == wanted {
                proof {
                    lemma_entries_map_value(self.entries@, i as int);
                }
                return Some(self.entries[i].1.clone());
            }
            i += 1;
        }
        proof {
            lemma_entries_map_keys(self.entries@, field@);
        }
        None
    }

    /// Whether a rule failed on `field`.
    pub fn contains(&self, field: &str) -> (found: bool)
        ensures
            found == self@.contains_key(field@),
    {
        self.get(field).is_some()
    }

    /// Registers a failure of `field`.  The first failure registered for a
    /// field stays; a later one for the same field changes nothing.
    pub fn record(&mut self, field: &str, message: &str)
        ensures
            final(self)@ == if old(self)@.contains_key(field@) {
                old(self)@
            } else {
                old(self)@.insert(field@, message@)
            },
    {
        proof {
            use_type_invariant(&*self);
        }
        if !self.contains(field) {
            let ghost before = self.entries@;
            let mut entries: Vec<(String, String)> = Vec::new();
            std::mem::swap(&mut self.entries, &mut entries);
            entries.push((field.to_owned(), message.to_owned()));
            proof {
                assert(entries@.drop_last() =~= before);
                assert forall|a: int, b: int| 0 <= a < b < entries@.len() implies (
                #[trigger] entries@[a]).0@ != (#[trigger] entries@[b]).0@ by {
                    if b == entries@.len() - 1 {
                        lemma_entries_map_keys(before, field@);
                        assert(before[a] == entries@[a]);
                    } else {
                        assert(before[a] == entries@[a] && before[b] == entries@[b]);
                    }
                }
            }
            std::mem::swap(&mut self.entries, &mut entries);
        }
    }

    /// Takes over the failures of `other` for the fields that have none here.
    /// The key sets unite; on a field both know, the message held here stays.
    pub fn merge(&mut self, other: &ValidationFailureSet)
        ensures
            final(self)@ == other@.union_prefer_right(old(self)@),
    {
        let mut i: usize = 0;
        assert(other.entries@.take(0) =~= Seq::<(String, String)>::empty());
        assert(entries_map(other.entries@.take(0)).union_prefer_right(old(self)@) =~= old(self)@);
        while i < other.entries.len()
            invariant
                0 <= i <= other.entries.len(),
                self@ == entries_map(other.entries@.take(i as int)).union_prefer_right(old(self)@),
            decreases other.entries.len() - i,
        {
            let ghost before = self@;
            let ghost seen = other.entries@.take(i as int);
            let ghost next = other.entries@.take(i + 1);
            self.record(other.entries[i].0.as_str(), other.entries[i].1.as_str());
            proof {
                assert(next.drop_last() =~= seen);
                assert(next.last() == other.entries@[i as int]);
                assert(self@ =~= entries_map(next).union_prefer_right(old(self)@));
            }
            i += 1;
        }
        assert(other.entries@.take(other.entries@.len() as int) =~= other.entries@);
    }

    /// The JSON object with one member per field, its message as text.
    pub fn to_value(&self) -> (v: serde_json::Value)
        ensures
            json_of(v) == Json::Object(self.spec_object()),
    {
        proof {
            use_type_invariant(self);
        }
        let mut members: Vec<(String, serde_json::Value)> = Vec::new();
        let mut i: usize = 0;
        while i < self.entries.len()
            invariant
                0 <= i <= self.entries.len(),
                members@.len() == i,
                forall|k: int|
                    0 <= k < i ==> (#[trigger] members@[k]).0@ == self.entries@[k].0@ && json_of(
                        members@[k].1,
                    ) == Json::Text(self.entries@[k].1@),
            decreases self.entries.len() - i,
        {
            let key = self.entries[i].0.clone();
            let value = text_value(self.entries[i].1.as_str());
            members.push((key, value));
            i += 1;
        }
        proof {
            let mm = member_models(members@);
            assert forall|a: int, b: int| 0 <= a < b < mm.len() implies (#[trigger] mm[a]).0 != (
            #[trigger] mm[b]).0 by {
                assert(members@[a].0@ == self.entries@[a].0@);
                assert(members@[b].0@ == self.entries@[b].0@);
            }
            Self::lemma_object_of_entries(self.entries@, mm);
        }
        object_value(members)
    }

    /// The model of the object [`Self::to_value`] builds.
    pub open spec fn spec_object(&self) -> Map<Seq<char>, Json> {
        self@.map_values(|m: Seq<char>| Json::Text(m))
    }

    proof fn lemma_object_of_entries(
        entries: Seq<(String, String)>,
        members: Seq<(Seq<char>, Json)>,
    )
        requires
            distinct_fields(entries),
            members.len() == entries.len(),
            forall|k: int|
                0 <= k < entries.len() ==> {
                    &&& (#[trigger] members[k]).0 == entries[k].0@
                    &&& members[k].1 == Json::Text(entries[k].1@)
                },
        ensures
            object_of(members) == entries_map(entries).map_values(|m: Seq<char>| Json::Text(m)),
        decreases entries.len(),
    {
        if entries.len() == 0 {
            assert(object_of(members) =~= entries_map(entries).map_values(
                |m: Seq<char>| Json::Text(m),
            ));
        } else {
            let front = entries.drop_last();
            let mfront = members.drop_last();
            assert(distinct_fields(front)) by {
                assert forall|a: int, b: int| 0 <= a < b < front.len() implies (
                #[trigger] front[a]).0@ != (#[trigger] front[b]).0@ by {
                    assert(front[a] == entries[a] && front[b] == entries[b]);
                }
            }
            assert forall|k: int| 0 <= k < front.len() implies {
                &&& (#[trigger] mfront[k]).0 == front[k].0@
                &&& mfront[k].1 == Json::Text(front[k].1@)
            } by {
                assert(mfront[k] == members[k] && front[k] == entries[k]);
            }
            Self::lemma_object_of_entries(front, mfront);
            lemma_entries_map_keys(front, entries.last().0@);
            if entries_map(front).contains_key(entries.last().0@) {
                let j = choose|j: int|
                    0 <= j < front.len() && (#[trigger] front[j]).0@ == entries.last().0@;
                assert(front[j] == entries[j]);
                assert(entries[j].0@ != entries[entries.len() - 1].0@);
            }
            assert(members.last() == members[entries.len() - 1]);
            assert(object_of(members) =~= entries_map(entries).map_values(
                |m: Seq<char>| Json::Text(m),
            ));
        }
    }
}

/// Failures of different fields merge to the same set in either order: the
/// key sets unite, and every field keeps its message.
pub proof fn lemma_merge_of_disjoint_commutes(
    a: Map<Seq<char>, Seq<char>>,
    b: Map<Seq<char>, Seq<char>>,
)
    requires
        a.dom().disjoint(b.dom()),
    ensures
        a.union_prefer_right(b) == b.union_prefer_right(a),
        a.union_prefer_right(b).dom() == a.dom().union(b.dom()),
        forall|field: Seq<char>| #[trigger]
            a.contains_key(field) ==> a.union_prefer_right(b)[field] == a[field],
        forall|field: Seq<char>| #[trigger]
            b.contains_key(field) ==> a.union_prefer_right(b)[field] == b[field],
{
    assert(a.union_prefer_right(b) =~= b.union_prefer_right(a));
    assert(a.union_prefer_right(b).dom() =~= a.dom().union(b.dom()));
}

/// Aggregating outcomes in two parts and merging the parts gives what
/// aggregating them in one go gives.
pub proof fn lemma_aggregate_of_concat(first: Seq<RuleOutcome>, second: Seq<RuleOutcome>)
    ensures
        aggregate_of(first + second) == aggregate_of(second).union_prefer_right(
            aggregate_of(first),
        ),
    decreases second.len(),
{
    if second.len() == 0 {
        assert(first + second =~= first);
        assert(aggregate_of(second).union_prefer_right(aggregate_of(first)) =~= aggregate_of(
            first,
        ));
    } else {
        let all = first + second;
        assert(all.drop_last() =~= first + second.drop_last());
        assert(all.last() == second.last());
        lemma_aggregate_of_concat(first, second.drop_last());
        assert(aggregate_of(all) =~= aggregate_of(second).union_prefer_right(aggregate_of(first)));
    }
}

/// Whether `validator` takes the text for an e-mail address.
pub uninterp spec fn email_accepted(text: Seq<char>) -> bool;

/// Whether a length lies within the bounds that are given.
pub open spec fn spec_length_within(length: nat, min: Option<u64>, max: Option<u64>) -> bool {
    &&& min matches Some(least) ==> length >= least
    &&& max matches Some(most) ==> length <= most
}

/// `validator::ValidateRequired::validate_required` on an `Option`: whether
/// a value is there.
#[verifier::external_body]
pub(crate) fn is_present<T>(value: &Option<T>) -> (present: bool)
    ensures
        present == value.is_some(),
{
    validator::ValidateRequired::validate_required(value)
}

/// `validator::ValidateLength::validate_length` on a `str`, no exact length
/// asked for: whether the number of characters lies within the bounds given.
#[verifier::external_body]
pub(crate) fn length_within(value: &str, min: Option<u64>, max: Option<u64>) -> (within: bool)
    ensures
        within == spec_length_within(value@.len(), min, max),
{
    validator::ValidateLength::validate_length(value, min, max, None)
}

/// `validator::ValidateEmail::validate_email` on a `str`: the verdict is a
/// function of the text alone, and is known by name only.
#[verifier::external_body]
pub(crate) fn is_email(value: &str) -> (accepted: bool)
    ensures
        accepted == email_accepted(value@),
{
    validator::ValidateEmail::validate_email(&value)
}

} // verus!
