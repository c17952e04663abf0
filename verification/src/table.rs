//! The variable table: which declared fields become variables of the
//! interface, and which value reference each of them gets.
//!
//! Fields whose causality is `Ignore` are dropped.  Among the rest, a field
//! that declares a value reference keeps it; the others are numbered in
//! declaration order, starting one above the largest declared reference (or
//! at zero when no field declares one).
use vstd::prelude::*;
use vstd::string::*;
use crate::model::{Causality, Field, FieldDeclaration, TypeKind, Variable, VariableDescriptor};

verus! {

/// A field is part of the interface unless it is marked `Ignore`.
pub open spec fn survives(field: Field) -> bool {
    field.causality != Causality::Ignore
}

/// The fields that are part of the interface, in declaration order.
pub open spec fn survivors(fields: Seq<Field>) -> Seq<Field> {
    fields.filter(|f: Field| survives(f))
}

/// Whether some field declares its value reference.
pub open spec fn declares_reference(fields: Seq<Field>) -> bool {
    exists|i: int| 0 <= i < fields.len() && (#[trigger] fields[i]).id is Some
}

/// The largest declared value reference, counting a field without one as 0.
pub open spec fn largest_explicit(fields: Seq<Field>) -> nat
    decreases fields.len(),
{
    if fields.len() == 0 {
        0
    } else {
        let rest = largest_explicit(fields.drop_last());
        match fields.last().id {
            Some(v) => if v > rest { v as nat } else { rest },
            None => rest,
        }
    }
}

/// How many fields leave their value reference to be allocated.
pub open spec fn unset_count(fields: Seq<Field>) -> nat
    decreases fields.len(),
{
    if fields.len() == 0 {
        0
    } else {
        unset_count(fields.drop_last()) + if fields.last().id is None { 1nat } else { 0nat }
    }
}

/// The first value reference that is handed out to a field without one.
pub open spec fn allocation_base(fields: Seq<Field>) -> nat {
    if declares_reference(fields) {
        largest_explicit(fields) + 1
    } else {
        0
    }
}

/// The value reference of the `i`-th surviving field: its own if it
/// declares one, else the base plus the number of undeclared fields before it.
pub open spec fn assigned_reference(fields: Seq<Field>, i: int) -> nat {
    match fields[i].id {
        Some(v) => v as nat,
        None => allocation_base(fields) + unset_count(fields.take(i)),
    }
}

/// Whether every value reference that has to be allocated fits in 64 bits.
/// A model that leaves no reference to be allocated always fits.
pub open spec fn references_fit(fields: Seq<Field>) -> bool {
    let kept = survivors(fields);
    unset_count(kept) == 0 || allocation_base(kept) + unset_count(kept) - 1 <= u64::MAX
}

/// Whether every field has one of the supported types.
pub open spec fn all_supported(fields: Seq<Field>) -> bool {
    forall|i: int|
        0 <= i < fields.len() ==> TypeKind::of_declared_type(
            (#[trigger] fields[i]).declared_type,
        ) is Some
}

/// The variable that the `i`-th surviving field becomes.
pub open spec fn variable_of(fields: Seq<Field>, i: int) -> Variable {
    Variable {
        name: fields[i].name,
        type_kind: TypeKind::of_declared_type(fields[i].declared_type)->0,
        causality: fields[i].causality,
        value_reference: assigned_reference(fields, i) as u64,
        unit: fields[i].unit,
        description: fields[i].description,
        starting_value: fields[i].starting_value,
    }
}

/// The variable table of a model: one variable per surviving field, in
/// declaration order.
pub open spec fn table_of(fields: Seq<Field>) -> Seq<Variable> {
    Seq::new(survivors(fields).len(), |i: int| variable_of(survivors(fields), i))
}

/// No two declared value references are the same.
pub open spec fn explicit_distinct(fields: Seq<Field>) -> bool {
    forall|i: int, j: int|
        0 <= i < j < fields.len() && (#[trigger] fields[i]).id is Some && (
        #[trigger] fields[j]).id is Some ==> fields[i].id != fields[j].id
}

/// No two variables share a value reference.
pub open spec fn references_unique(table: Seq<Variable>) -> bool {
    forall|i: int, j: int|
        0 <= i < j < table.len() ==> (#[trigger] table[i]).value_reference != (
        #[trigger] table[j]).value_reference
}

/// The position of the first variable with the given value reference.
pub open spec fn position_of(table: Seq<Variable>, value_reference: u64) -> Option<int>
    decreases table.len(),
{
    if table.len() == 0 {
        None
    } else if table.first().value_reference == value_reference {
        Some(0int)
    } else {
        match position_of(table.drop_first(), value_reference) {
            Some(p) => Some(p + 1),
            None => None,
        }
    }
}

proof fn lemma_survivors_step(fields: Seq<Field>, i: int)
    requires
        0 <= i < fields.len(),
    ensures
        survivors(fields.take(i + 1)) == if survives(fields[i]) {
            survivors(fields.take(i)).push(fields[i])
        } else {
            survivors(fields.take(i))
        },
{
    reveal(Seq::filter);
    assert(fields.take(i + 1).drop_last() =~= fields.take(i));
}

proof fn lemma_survivors_prefix(fields: Seq<Field>, i: int)
    requires
        0 <= i <= fields.len(),
    ensures
        survivors(fields.take(i)).len() <= survivors(fields).len(),
        survivors(fields.take(i)) == survivors(fields).take(survivors(fields.take(i)).len() as int),
{
    let pred = |f: Field| survives(f);
    Seq::filter_distributes_over_add(fields.take(i), fields.skip(i), pred);
    assert(fields.take(i) + fields.skip(i) =~= fields);
    let head = survivors(fields.take(i));
    let tail = fields.skip(i).filter(pred);
    assert((head + tail).take(head.len() as int) =~= head);
}

proof fn lemma_survivors_survive(fields: Seq<Field>, k: int)
    requires
        0 <= k < survivors(fields).len(),
    ensures
        survives(survivors(fields)[k]),
{
    let pred = |f: Field| survives(f);
    fields.lemma_filter_pred(pred, k);
}

proof fn lemma_unset_count_monotone(fields: Seq<Field>, i: int, j: int)
    requires
        0 <= i <= j <= fields.len(),
    ensures
        unset_count(fields.take(i)) <= unset_count(fields.take(j)),
    decreases j - i,
{
    if i < j {
        lemma_unset_count_monotone(fields, i, j - 1);
        assert(fields.take(j).drop_last() =~= fields.take(j - 1));
    }
}

proof fn lemma_largest_bounds(fields: Seq<Field>, i: int)
    requires
        0 <= i < fields.len(),
        fields[i].id is Some,
    ensures
        fields[i].id->0 <= largest_explicit(fields),
    decreases fields.len(),
{
    if i < fields.len() - 1 {
        lemma_largest_bounds(fields.drop_last(), i);
    }
}

proof fn lemma_declares_push(fields: Seq<Field>, field: Field)
    ensures
        declares_reference(fields.push(field)) == (declares_reference(fields) || field.id is Some),
{
    let longer = fields.push(field);
    if declares_reference(fields) {
        let i = choose|i: int| 0 <= i < fields.len() && (#[trigger] fields[i]).id is Some;
        assert(longer[i].id is Some);
    }
    if field.id is Some {
        assert(longer[fields.len() as int].id is Some);
    }
    if declares_reference(longer) {
        let i = choose|i: int| 0 <= i < longer.len() && (#[trigger] longer[i]).id is Some;
        if i < fields.len() {
            assert(fields[i].id is Some);
        }
    }
}

proof fn lemma_push_last(fields: Seq<Field>, field: Field)
    ensures
        fields.push(field).drop_last() == fields,
        fields.push(field).last() == field,
{
    assert(fields.push(field).drop_last() =~= fields);
}

/// Value references are pairwise distinct whenever the declared ones are.
///
/// A declared reference never exceeds the largest declared one, every
/// allocated reference lies above it, and allocated references grow with the
/// position of their field.
pub proof fn lemma_references_unique(fields: Seq<Field>)
    requires
        explicit_distinct(survivors(fields)),
        references_fit(fields),
    ensures
        references_unique(table_of(fields)),
{
    let s = survivors(fields);
    let table = table_of(fields);
    assert forall|i: int, j: int| 0 <= i < j < table.len() implies (#[trigger] table[i]).value_reference
        != (#[trigger] table[j]).value_reference by {
        lemma_unset_count_monotone(s, i, j);
        lemma_unset_count_monotone(s, i + 1, j);
        lemma_unset_count_monotone(s, j + 1, s.len() as int);
        assert(s.take(s.len() as int) =~= s);
        assert(s.take(i + 1).drop_last() =~= s.take(i));
        assert(s.take(i + 1).last() == s[i]);
        assert(s.take(j + 1).drop_last() =~= s.take(j));
        assert(s.take(j + 1).last() == s[j]);
        if s[i].id is Some {
            lemma_largest_bounds(s, i);
        }
        if s[j].id is Some {
            lemma_largest_bounds(s, j);
        }
    }
}

/// A field marked `Ignore` leaves no trace: the table is the same as if the
/// field had never been declared.
pub proof fn lemma_ignored_field_leaves_no_trace(fields: Seq<Field>, i: int)
    requires
        0 <= i < fields.len(),
        fields[i].causality == Causality::Ignore,
    ensures
        table_of(fields) == table_of(fields.remove(i)),
{
    let pred = |f: Field| survives(f);
    let head = fields.take(i);
    let tail = fields.skip(i + 1);
    let one = seq![fields[i]];
    assert(fields =~= head + one + tail);
    assert(fields.remove(i) =~= head + tail);
    Seq::filter_distributes_over_add(head + one, tail, pred);
    Seq::filter_distributes_over_add(head, one, pred);
    Seq::filter_distributes_over_add(head, tail, pred);
    assert(one.filter(pred) =~= Seq::<Field>::empty()) by {
        reveal_with_fuel(Seq::filter, 2);
        assert(one.drop_last() =~= Seq::<Field>::empty());
    }
    assert(survivors(fields) =~= survivors(fields.remove(i)));
}

/// No variable of a table was declared with causality `Ignore`.
pub proof fn lemma_table_holds_no_ignored(fields: Seq<Field>)
    ensures
        forall|k: int|
            0 <= k < table_of(fields).len() ==> (#[trigger] table_of(fields)[k]).causality
                != Causality::Ignore,
{
    let table = table_of(fields);
    assert forall|k: int| 0 <= k < table.len() implies (#[trigger] table[k]).causality
        != Causality::Ignore by {
        lemma_survivors_survive(fields, k);
    }
}

/// In a table without shared value references, a variable is found under
/// its own value reference: positions and references map both ways.
pub proof fn lemma_reference_addresses_its_variable(table: Seq<Variable>, i: int)
    requires
        references_unique(table),
        0 <= i < table.len(),
    ensures
        position_of(table, table[i].value_reference) == Some(i),
    decreases table.len(),
{
    if i > 0 {
        let rest = table.drop_first();
        assert(table[0].value_reference != table[i].value_reference);
        assert forall|a: int, b: int| 0 <= a < b < rest.len() implies (#[trigger] rest[a]).value_reference
            != (#[trigger] rest[b]).value_reference by {
            assert(rest[a] == table[a + 1]);
            assert(rest[b] == table[b + 1]);
        }
        lemma_reference_addresses_its_variable(rest, i - 1);
        assert(rest[i - 1] == table[i]);
    }
}

/// The ordered variables of a model's interface.
#[derive(Clone, Debug)]
pub struct VariableTable {
    variables: Vec<VariableDescriptor>,
}

impl View for VariableTable {
    type V = Seq<Variable>;

    closed spec fn view(&self) -> Seq<Variable> {
        self.variables.deep_view()
    }
}

impl VariableTable {
    pub fn len(&self) -> (n: usize)
        ensures
            n == self@.len(),
    {
        self.variables.len()
    }

    /// The variable at a position of the table, if the table reaches that far.
    pub fn get(&self, index: usize) -> (variable: Option<&VariableDescriptor>)
        ensures
            variable is Some <==> index < self@.len(),
            variable matches Some(v) ==> v@ == self@[index as int],
    {
        if index < self.variables.len() {
            Some(&self.variables[index])
        } else {
            None
        }
    }

    /// The variable at a position that the table has.
    pub fn at(&self, index: usize) -> (variable: &VariableDescriptor)
        requires
            index < self@.len(),
        ensures
            variable@ == self@[index as int],
    {
        &self.variables[index]
    }

    /// The value reference of the variable at a position of the table.
    pub fn to_underlying(&self, index: usize) -> (value_reference: Option<u64>)
        ensures
            value_reference == if index < self@.len() {
                Some(self@[index as int].value_reference)
            } else {
                None
            },
    {
        if index < self.variables.len() {
            Some(self.variables[index].value_reference)
        } else {
            None
        }
    }

    /// The position of the first variable that has the given value reference.
    pub fn from_underlying(&self, value_reference: u64) -> (index: Option<usize>)
        ensures
            index is Some <==> position_of(self@, value_reference) is Some,
            index matches Some(i) ==> position_of(self@, value_reference) == Some(i as int),
    {
        let mut i: usize = 0;
        proof {
            assert(self@.skip(0) =~= self@);
        }
        while i < self.variables.len()
            invariant
                i <= self.variables.len(),
                self@ == self.variables.deep_view(),
                position_of(self@, value_reference) == match position_of(
                    self@.skip(i as int),
                    value_reference,
                ) {
                    Some(p) => Some(p + i),
                    None => None,
                },
            decreases self.variables.len() - i,
        {
            proof {
                assert(self@.skip(i as int).drop_first() =~= self@.skip(i + 1));
            }
            if self.variables[i].value_reference == value_reference {
                return Some(i);
            }
            i += 1;
        }
        None
    }
}

/// Decides whether the value references of a model can be allocated in 64 bits.
pub fn check_references_fit(fields: &Vec<FieldDeclaration>) -> (fit: bool)
    ensures
        fit == references_fit(fields.deep_view()),
{
    let ghost all = fields.deep_view();
    let mut largest: u64 = 0;
    let mut declared: bool = false;
    let mut unset: usize = 0;
    let mut i: usize = 0;
    while i < fields.len()
        invariant
            i <= fields.len(),
            all == fields.deep_view(),
            unset <= i,
            largest == largest_explicit(survivors(all.take(i as int))),
            declared == declares_reference(survivors(all.take(i as int))),
            unset == unset_count(survivors(all.take(i as int))),
        decreases fields.len() - i,
    {
        let field = &fields[i];
        proof {
            lemma_survivors_step(all, i as int);
            lemma_declares_push(survivors(all.take(i as int)), all[i as int]);
            lemma_push_last(survivors(all.take(i as int)), all[i as int]);
        }
        match field.causality {
            Causality::Ignore => {},
            _ => {
                match field.id {
                    Some(v) => {
                        declared = true;
                        if v > largest {
                            largest = v;
                        }
                    },
                    None => {
                        unset = unset + 1;
                    },
                }
            },
        }
        i += 1;
    }
    proof {
        assert(all.take(fields.len() as int) =~= all);
    }
    let base: u128 = if declared {
        largest as u128 + 1
    } else {
        0
    };
    unset == 0 || base + unset as u128 - 1 <= u64::MAX as u128
}

/// Decides whether every field that is not ignored has a supported type.
pub fn check_supported(fields: &Vec<FieldDeclaration>) -> (supported: bool)
    ensures
        supported == all_supported(survivors(fields.deep_view())),
{
    let ghost all = fields.deep_view();
    let ghost kept = survivors(all);
    let mut i: usize = 0;
    while i < fields.len()
        invariant
            i <= fields.len(),
            all == fields.deep_view(),
            kept == survivors(all),
            all_supported(survivors(all.take(i as int))),
        decreases fields.len() - i,
    {
        let field = &fields[i];
        proof {
            lemma_survivors_step(all, i as int);
            lemma_survivors_prefix(all, i + 1);
        }
        match field.causality {
            Causality::Ignore => {},
            _ => {
                if TypeKind::from_declared_type(field.declared_type.as_str()).is_none() {
                    proof {
                        let n = survivors(all.take(i as int)).len() as int;
                        assert(kept.take(n + 1)[n] == all[i as int]);
                        assert(TypeKind::of_declared_type(kept[n].declared_type) is None);
                    }
                    return false;
                }
            },
        }
        i += 1;
    }
    proof {
        assert(all.take(fields.len() as int) =~= all);
    }
    true
}

/// Builds the variable table of a model from its declared fields.
///
/// Ignored fields are dropped before anything else is looked at.  A field
/// that is not ignored has to have a supported type; `check_supported`
/// decides that, `check_references_fit` the other condition.
pub fn build_variable_table(fields: &Vec<FieldDeclaration>) -> (table: VariableTable)
    requires
        all_supported(survivors(fields.deep_view())),
        references_fit(fields.deep_view()),
    ensures
        table@ == table_of(fields.deep_view()),
        explicit_distinct(survivors(fields.deep_view())) ==> references_unique(table@),
{
    let ghost all = fields.deep_view();
    let ghost kept = survivors(all);
    let mut largest: u64 = 0;
    let mut declared: bool = false;
    let mut i: usize = 0;
    while i < fields.len()
        invariant
            i <= fields.len(),
            all == fields.deep_view(),
            largest == largest_explicit(survivors(all.take(i as int))),
            declared == declares_reference(survivors(all.take(i as int))),
        decreases fields.len() - i,
    {
        let field = &fields[i];
        proof {
            lemma_survivors_step(all, i as int);
            lemma_declares_push(survivors(all.take(i as int)), all[i as int]);
            lemma_push_last(survivors(all.take(i as int)), all[i as int]);
        }
        match field.causality {
            Causality::Ignore => {},
            _ => {
                match field.id {
                    Some(v) => {
                        declared = true;
                        if v > largest {
                            largest = v;
                        }
                    },
                    None => {},
                }
            },
        }
        i += 1;
    }
    proof {
        assert(all.take(fields.len() as int) =~= all);
    }
    let base: u128 = if declared {
        largest as u128 + 1
    } else {
        0
    };
    let mut variables: Vec<VariableDescriptor> = Vec::new();
    let mut unset: usize = 0;
    let mut j: usize = 0;
    while j < fields.len()
        invariant
            j <= fields.len(),
            all == fields.deep_view(),
            kept == survivors(all),
            all_supported(kept),
            references_fit(all),
            base == allocation_base(kept),
            unset <= j,
            variables.len() == survivors(all.take(j as int)).len(),
            unset == unset_count(survivors(all.take(j as int))),
            forall|k: int|
                0 <= k < variables.len() ==> (#[trigger] variables[k])@ == variable_of(kept, k),
        decreases fields.len() - j,
    {
        let field = &fields[j];
        proof {
            lemma_survivors_step(all, j as int);
            lemma_survivors_prefix(all, j as int);
            lemma_survivors_prefix(all, j + 1);
            lemma_push_last(survivors(all.take(j as int)), all[j as int]);
        }
        match field.causality {
            Causality::Ignore => {},
            _ => {
                let ghost n = variables.len() as int;
                proof {
                    assert(kept.take(n + 1)[n] == all[j as int]);
                    lemma_unset_count_monotone(kept, n + 1, kept.len() as int);
                    assert(kept.take(kept.len() as int) =~= kept);
                    assert(TypeKind::of_declared_type(kept[n].declared_type) is Some);
                }
                let type_kind = TypeKind::from_declared_type(field.declared_type.as_str()).unwrap();
                let value_reference: u64 = match field.id {
                    Some(v) => v,
                    None => {
                        let next: u128 = base + unset as u128;
                        unset = unset + 1;
                        next as u64
                    },
                };
                variables.push(
                    VariableDescriptor {
                        name: field.name.clone(),
                        type_kind,
                        causality: field.causality,
                        value_reference,
                        unit: field.unit.clone(),
                        description: field.description.clone(),
                        starting_value: field.starting_value,
                    },
                );
            },
        }
        j += 1;
    }
    proof {
        assert(all.take(fields.len() as int) =~= all);
        assert(variables.deep_view() =~= table_of(all));
        if explicit_distinct(kept) {
            lemma_references_unique(all);
        }
    }
    VariableTable { variables }
}

} // verus!
