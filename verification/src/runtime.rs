//! Instances of a model at run time: their lifecycle state and the values
//! of their variables, addressed by value reference.
use vstd::prelude::*;
use vstd::string::*;
use crate::model::{TypeKind, Variable};
use crate::table::{position_of, VariableTable};
use crate::types::{fmi2Status, fmi2Status_fmi2Error, fmi2Status_fmi2OK, fmi2Type};

verus! {

/// What can go wrong when a model is driven through its interface.
#[derive(Clone, Copy, Debug, PartialEq, Eq, Structural)]
pub enum FMIErrors {
    /// No variable of the asked kind has the given value reference, or the
    /// instance that was named does not exist.
    InvalidValueReference,
    /// The operation failed.
    Error,
}

/// Where an instance stands in its lifecycle.
#[derive(Clone, Copy, Debug, PartialEq, Eq, Structural)]
pub enum ModelState {
    Instantiated,
    Initialized,
    Terminated,
    /// The instance has failed; it stays failed.
    Error,
}

/// Settings of a solver.  Stepping is left to the model, so there are none.
#[derive(Clone, Copy, Debug, PartialEq, Eq, Structural)]
pub struct SolverStruct {}

/// The value of a variable.  A real is kept as the bit pattern of its
/// IEEE 754 double.
#[derive(Clone, Copy, Debug, PartialEq, Eq, Structural)]
pub enum Scalar {
    Real(u64),
    Integer(i64),
    Boolean(bool),
}

impl Scalar {
    pub open spec fn spec_kind(self) -> TypeKind {
        match self {
            Scalar::Real(_) => TypeKind::Real,
            Scalar::Integer(_) => TypeKind::Integer,
            Scalar::Boolean(_) => TypeKind::Boolean,
        }
    }

    /// The kind of variable that can hold this value.
    #[verifier::when_used_as_spec(spec_kind)]
    pub fn kind(self) -> (kind: TypeKind)
        ensures
            kind == self.spec_kind(),
    {
        match self {
            Scalar::Real(_) => TypeKind::Real,
            Scalar::Integer(_) => TypeKind::Integer,
            Scalar::Boolean(_) => TypeKind::Boolean,
        }
    }
}

/// Decides whether two kinds are the same.
pub fn same_kind(a: TypeKind, b: TypeKind) -> (same: bool)
    ensures
        same == (a == b),
{
    match (a, b) {
        (TypeKind::Real, TypeKind::Real) => true,
        (TypeKind::Integer, TypeKind::Integer) => true,
        (TypeKind::Boolean, TypeKind::Boolean) => true,
        _ => false,
    }
}

/// A variable of an instance: its value reference and its current value.
#[derive(Clone, Copy, Debug, PartialEq, Eq, Structural)]
pub struct Slot {
    pub value_reference: u64,
    pub value: Scalar,
}

/// The position of the first slot with the given value reference.
pub open spec fn slot_of(slots: Seq<Slot>, value_reference: u64) -> Option<int>
    decreases slots.len(),
{
    if slots.len() == 0 {
        None
    } else if slots.first().value_reference == value_reference {
        Some(0int)
    } else {
        match slot_of(slots.drop_first(), value_reference) {
            Some(p) => Some(p + 1),
            None => None,
        }
    }
}

/// The value of the given kind that is found under a value reference.
pub open spec fn looked_up(slots: Seq<Slot>, value_reference: u64, kind: TypeKind) -> Option<
    Scalar,
> {
    match slot_of(slots, value_reference) {
        Some(i) => if slots[i].value.spec_kind() == kind {
            Some(slots[i].value)
        } else {
            None
        },
        None => None,
    }
}

/// The slots after a value is stored under a value reference, if a variable
/// of the value's kind is found there.
pub open spec fn stored(slots: Seq<Slot>, value_reference: u64, value: Scalar) -> Option<
    Seq<Slot>,
> {
    match slot_of(slots, value_reference) {
        Some(i) => if slots[i].value.spec_kind() == value.spec_kind() {
            Some(slots.update(i, Slot { value_reference, value }))
        } else {
            None
        },
        None => None,
    }
}

/// Whether a list of values has one value of the right kind per variable.
pub open spec fn fits(table: Seq<Variable>, values: Seq<Scalar>) -> bool {
    &&& values.len() == table.len()
    &&& forall|i: int|
        0 <= i < table.len() ==> (#[trigger] values[i]).spec_kind() == table[i].type_kind
}

/// The slots of an instance whose variables hold the given values.
pub open spec fn bound(table: Seq<Variable>, values: Seq<Scalar>) -> Seq<Slot> {
    Seq::new(
        table.len(),
        |i: int| Slot { value_reference: table[i].value_reference, value: values[i] },
    )
}

/// The values that the slots hold, in order.
pub open spec fn values_of(slots: Seq<Slot>) -> Seq<Scalar> {
    Seq::new(slots.len(), |i: int| slots[i].value)
}

/// Whether new values can replace the values of the slots one for one.
pub open spec fn replaces(slots: Seq<Slot>, values: Seq<Scalar>) -> bool {
    &&& values.len() == slots.len()
    &&& forall|i: int|
        0 <= i < slots.len() ==> (#[trigger] values[i]).spec_kind() == slots[i].value.spec_kind()
}

/// The slots with their values replaced one for one.
pub open spec fn refilled(slots: Seq<Slot>, values: Seq<Scalar>) -> Seq<Slot> {
    Seq::new(
        slots.len(),
        |i: int| Slot { value_reference: slots[i].value_reference, value: values[i] },
    )
}

/// Whether slots are those of a table's variables: one per variable, in
/// table order, under the variable's value reference and of its kind.
pub open spec fn shaped(slots: Seq<Slot>, table: Seq<Variable>) -> bool {
    &&& slots.len() == table.len()
    &&& forall|i: int|
        0 <= i < slots.len() ==> (#[trigger] slots[i]).value_reference
            == table[i].value_reference && slots[i].value.spec_kind() == table[i].type_kind
}

/// Values that fit a table, bound to it, have the table's shape.
pub proof fn lemma_bound_is_shaped(table: Seq<Variable>, values: Seq<Scalar>)
    requires
        fits(table, values),
    ensures
        shaped(bound(table, values), table),
{
}

proof fn lemma_slot_of_bounds(slots: Seq<Slot>, value_reference: u64)
    ensures
        slot_of(slots, value_reference) matches Some(i) ==> 0 <= i < slots.len(),
    decreases slots.len(),
{
    if slots.len() > 0 && slots.first().value_reference != value_reference {
        lemma_slot_of_bounds(slots.drop_first(), value_reference);
    }
}

/// Storing a value changes no value reference and no kind.
pub proof fn lemma_stored_keeps_shape(
    slots: Seq<Slot>,
    value_reference: u64,
    value: Scalar,
    table: Seq<Variable>,
)
    requires
        shaped(slots, table),
    ensures
        stored(slots, value_reference, value) matches Some(next) ==> shaped(next, table),
{
    lemma_slot_of_bounds(slots, value_reference);
    lemma_slot_of_names(slots, value_reference);
}

proof fn lemma_slot_of_names(slots: Seq<Slot>, value_reference: u64)
    ensures
        slot_of(slots, value_reference) matches Some(i) ==> 0 <= i < slots.len()
            && slots[i].value_reference == value_reference,
    decreases slots.len(),
{
    if slots.len() > 0 && slots.first().value_reference != value_reference {
        lemma_slot_of_names(slots.drop_first(), value_reference);
    }
}

/// Replacing the values one for one, kind by kind, changes no value
/// reference and no kind.
pub proof fn lemma_refilled_keeps_shape(slots: Seq<Slot>, values: Seq<Scalar>, table: Seq<Variable>)
    requires
        shaped(slots, table),
        replaces(slots, values),
    ensures
        shaped(refilled(slots, values), table),
{
}

/// The variables of an instance are those of the table, under the same
/// value references: what is found under a reference in the instance is
/// what the table has at that position.
pub proof fn lemma_instance_is_addressed_like_table(
    table: Seq<Variable>,
    values: Seq<Scalar>,
    value_reference: u64,
)
    requires
        values.len() == table.len(),
    ensures
        slot_of(bound(table, values), value_reference) == position_of(table, value_reference),
    decreases table.len(),
{
    if table.len() > 0 {
        assert(bound(table, values).drop_first() =~= bound(table.drop_first(), values.drop_first()));
        lemma_instance_is_addressed_like_table(
            table.drop_first(),
            values.drop_first(),
            value_reference,
        );
    }
}

/// The step function of a model.
///
/// It is handed the current values of the variables, in table order, the
/// current communication time and the step size (both as bit patterns of
/// doubles), and answers with the values after the step or with a failure.
pub trait Steppable {
    fn do_step(&mut self, values: Vec<Scalar>, time: u64, step_size: u64) -> Result<
        Vec<Scalar>,
        FMIErrors,
    >;
}

/// One instance of a model.
#[derive(Debug)]
pub struct ModelInstance {
    pub instance_name: String,
    pub guid: String,
    pub fmu_type: fmi2Type,
    pub logging_on: bool,
    pub state: ModelState,
    pub tolerance: u64,
    pub start_time: u64,
    pub stop_time: u64,
    pub stop_time_defined: bool,
    pub slots: Vec<Slot>,
}

impl ModelInstance {
    /// Whether two instances agree in what the host set them up with: name,
    /// identity token, kind, logging and experiment.
    pub open spec fn same_settings(&self, other: &ModelInstance) -> bool {
        &&& self.instance_name == other.instance_name
        &&& self.guid == other.guid
        &&& self.fmu_type == other.fmu_type
        &&& self.logging_on == other.logging_on
        &&& self.tolerance == other.tolerance
        &&& self.start_time == other.start_time
        &&& self.stop_time == other.stop_time
        &&& self.stop_time_defined == other.stop_time_defined
    }

    /// Whether two instances differ in nothing but the values of their
    /// variables.
    pub open spec fn differs_in_slots_only(&self, other: &ModelInstance) -> bool {
        self.same_settings(other) && self.state == other.state
    }

    /// Creates an instance whose variables hold the given values.
    ///
    /// The instance is unnamed, silent and in state `Instantiated`.  The
    /// values have to fit the table: one per variable, each of the
    /// variable's kind.
    pub fn instantiate(table: &VariableTable, defaults: &Vec<Scalar>) -> (result: Result<
        ModelInstance,
        FMIErrors,
    >)
        ensures
            result is Ok <==> fits(table@, defaults@),
            result matches Ok(instance) ==> {
                &&& instance.slots@ == bound(table@, defaults@)
                &&& instance.state == ModelState::Instantiated
                &&& !instance.logging_on
                &&& instance.instance_name@.len() == 0
                &&& instance.guid@.len() == 0
                &&& instance.fmu_type == 0
                &&& instance.tolerance == 0
                &&& instance.start_time == 0
                &&& instance.stop_time == 0
                &&& !instance.stop_time_defined
            },
            result matches Err(e) ==> e == FMIErrors::Error,
    {
        if defaults.len() != table.len() {
            return Err(FMIErrors::Error);
        }
        let mut slots: Vec<Slot> = Vec::new();
        let mut i: usize = 0;
        while i < table.len()
            invariant
                i <= table@.len(),
                defaults@.len() == table@.len(),
                slots@.len() == i,
                forall|k: int|
                    0 <= k < i ==> (#[trigger] defaults@[k]).spec_kind() == table@[k].type_kind,
                forall|k: int|
                    0 <= k < i ==> slots@[k] == (Slot {
                        value_reference: table@[k].value_reference,
                        value: defaults@[k],
                    }),
            decreases table@.len() - i,
        {
            let variable = table.at(i);
            if !same_kind(defaults[i].kind(), variable.type_kind) {
                return Err(FMIErrors::Error);
            }
            slots.push(Slot { value_reference: variable.value_reference, value: defaults[i] });
            i += 1;
        }
        assert(slots@ =~= bound(table@, defaults@));
        Ok(
            ModelInstance {
                instance_name: String::new(),
                guid: String::new(),
                fmu_type: 0,
                logging_on: false,
                state: ModelState::Instantiated,
                tolerance: 0,
                start_time: 0,
                stop_time: 0,
                stop_time_defined: false,
                slots,
            },
        )
    }

    fn find(&self, value_reference: u64) -> (index: Option<usize>)
        ensures
            index is Some <==> slot_of(self.slots@, value_reference) is Some,
            index matches Some(i) ==> slot_of(self.slots@, value_reference) == Some(i as int) && i
                < self.slots@.len(),
    {
        let mut i: usize = 0;
        proof {
            assert(self.slots@.skip(0) =~= self.slots@);
        }
        while i < self.slots.len()
            invariant
                i <= self.slots.len(),
                slot_of(self.slots@, value_reference) == match slot_of(
                    self.slots@.skip(i as int),
                    value_reference,
                ) {
                    Some(p) => Some(p + i),
                    None => None,
                },
            decreases self.slots.len() - i,
        {
            proof {
                assert(self.slots@.skip(i as int).drop_first() =~= self.slots@.skip(i + 1));
            }
            if self.slots[i].value_reference == value_reference {
                return Some(i);
            }
            i += 1;
        }
        None
    }

    /// Reads the variable of the given kind under a value reference.
    pub fn get_by_value_reference(&self, value_reference: u64, kind: TypeKind) -> (value: Option<
        Scalar,
    >)
        ensures
            value == looked_up(self.slots@, value_reference, kind),
    {
        match self.find(value_reference) {
            Some(i) => {
                let value = self.slots[i].value;
                if same_kind(value.kind(), kind) {
                    Some(value)
                } else {
                    None
                }
            },
            None => None,
        }
    }

    /// Writes the variable under a value reference, if it has the value's kind.
    pub fn set_by_value_reference(&mut self, value_reference: u64, value: Scalar) -> (result: Result<
        (),
        FMIErrors,
    >)
        ensures
            final(self).differs_in_slots_only(old(self)),
            match stored(old(self).slots@, value_reference, value) {
                Some(slots) => result is Ok && final(self).slots@ == slots,
                None => result == Err::<(), FMIErrors>(FMIErrors::InvalidValueReference) && final(self).slots@ == old(self).slots@,
            },
    {
        match self.find(value_reference) {
            Some(i) => {
                if same_kind(self.slots[i].value.kind(), value.kind()) {
                    self.slots.set(i, Slot { value_reference, value });
                    Ok(())
                } else {
                    Err(FMIErrors::InvalidValueReference)
                }
            },
            None => Err(FMIErrors::InvalidValueReference),
        }
    }

    /// Reads a real variable, as the bit pattern of its double.
    pub fn get_real_by_value_reference(&self, value_reference: u64) -> (value: Option<u64>)
        ensures
            value == match looked_up(self.slots@, value_reference, TypeKind::Real) {
                Some(Scalar::Real(bits)) => Some(bits),
                _ => None,
            },
    {
        match self.get_by_value_reference(value_reference, TypeKind::Real) {
            Some(Scalar::Real(bits)) => Some(bits),
            _ => None,
        }
    }

    pub fn get_integer_by_value_reference(&self, value_reference: u64) -> (value: Option<i64>)
        ensures
            value == match looked_up(self.slots@, value_reference, TypeKind::Integer) {
                Some(Scalar::Integer(number)) => Some(number),
                _ => None,
            },
    {
        match self.get_by_value_reference(value_reference, TypeKind::Integer) {
            Some(Scalar::Integer(number)) => Some(number),
            _ => None,
        }
    }

    pub fn get_bool_by_value_reference(&self, value_reference: u64) -> (value: Option<bool>)
        ensures
            value == match looked_up(self.slots@, value_reference, TypeKind::Boolean) {
                Some(Scalar::Boolean(truth)) => Some(truth),
                _ => None,
            },
    {
        match self.get_by_value_reference(value_reference, TypeKind::Boolean) {
            Some(Scalar::Boolean(truth)) => Some(truth),
            _ => None,
        }
    }

    /// Writes a real variable, given as the bit pattern of a double.
    pub fn set_real_by_value_reference(&mut self, value_reference: u64, value: u64) -> (result:
        Result<(), FMIErrors>)
        ensures
            final(self).differs_in_slots_only(old(self)),
            match stored(old(self).slots@, value_reference, Scalar::Real(value)) {
                Some(slots) => result is Ok && final(self).slots@ == slots,
                None => result == Err::<(), FMIErrors>(FMIErrors::InvalidValueReference) && final(self).slots@ == old(self).slots@,
            },
    {
        self.set_by_value_reference(value_reference, Scalar::Real(value))
    }

    pub fn set_integer_by_value_reference(&mut self, value_reference: u64, value: i64) -> (result:
        Result<(), FMIErrors>)
        ensures
            final(self).differs_in_slots_only(old(self)),
            match stored(old(self).slots@, value_reference, Scalar::Integer(value)) {
                Some(slots) => result is Ok && final(self).slots@ == slots,
                None => result == Err::<(), FMIErrors>(FMIErrors::InvalidValueReference) && final(self).slots@ == old(self).slots@,
            },
    {
        self.set_by_value_reference(value_reference, Scalar::Integer(value))
    }

    pub fn set_bool_by_value_reference(&mut self, value_reference: u64, value: bool) -> (result:
        Result<(), FMIErrors>)
        ensures
            final(self).differs_in_slots_only(old(self)),
            match stored(old(self).slots@, value_reference, Scalar::Boolean(value)) {
                Some(slots) => result is Ok && final(self).slots@ == slots,
                None => result == Err::<(), FMIErrors>(FMIErrors::InvalidValueReference) && final(self).slots@ == old(self).slots@,
            },
    {
        self.set_by_value_reference(value_reference, Scalar::Boolean(value))
    }

    /// The current values of the variables, in table order.
    pub fn values(&self) -> (values: Vec<Scalar>)
        ensures
            values@ == values_of(self.slots@),
    {
        let mut values: Vec<Scalar> = Vec::new();
        let mut i: usize = 0;
        while i < self.slots.len()
            invariant
                i <= self.slots.len(),
                values@.len() == i,
                forall|k: int| 0 <= k < i ==> values@[k] == self.slots@[k].value,
            decreases self.slots.len() - i,
        {
            values.push(self.slots[i].value);
            i += 1;
        }
        assert(values@ =~= values_of(self.slots@));
        values
    }

    /// Whether a step function's answer is taken over: it holds values, one
    /// of the right kind for each variable.
    pub open spec fn step_accepted(slots: Seq<Slot>, outcome: Result<Vec<Scalar>, FMIErrors>) -> bool {
        outcome is Ok && replaces(slots, outcome->Ok_0@)
    }

    /// Takes in what a step function answered.
    ///
    /// New values that replace the old ones one for one, kind by kind, are
    /// stored and the step is reported as done.  A failure, or values that do
    /// not fit, leave the instance as it was and are reported as an error.
    pub fn complete_step(&mut self, outcome: Result<Vec<Scalar>, FMIErrors>) -> (status: fmi2Status)
        ensures
            final(self).differs_in_slots_only(old(self)),
            Self::step_accepted(old(self).slots@, outcome) ==> status == fmi2Status_fmi2OK && final(self).slots@ == refilled(old(self).slots@, outcome->Ok_0@),
            !Self::step_accepted(old(self).slots@, outcome) ==> status == fmi2Status_fmi2Error
                && final(self).slots@ == old(self).slots@,
    {
        match outcome {
            Ok(values) => {
                if values.len() != self.slots.len() {
                    return fmi2Status_fmi2Error;
                }
                let mut i: usize = 0;
                while i < values.len()
                    invariant
                        i <= values.len(),
                        values.len() == self.slots.len(),
                        *self == *old(self),
                        outcome == Ok::<Vec<Scalar>, FMIErrors>(values),
                        forall|k: int|
                            0 <= k < i ==> (#[trigger] values@[k]).spec_kind()
                                == self.slots@[k].value.spec_kind(),
                    decreases values.len() - i,
                {
                    if !same_kind(values[i].kind(), self.slots[i].value.kind()) {
                        assert(values@[i as int].spec_kind() != self.slots@[i as int].value.spec_kind());
                        return fmi2Status_fmi2Error;
                    }
                    i += 1;
                }
                let mut k: usize = 0;
                while k < values.len()
                    invariant
                        k <= values.len(),
                        values.len() == self.slots.len(),
                        self.slots@.len() == old(self).slots@.len(),
                        self.differs_in_slots_only(old(self)),
                        forall|m: int|
                            0 <= m < k ==> self.slots@[m] == (Slot {
                                value_reference: old(self).slots@[m].value_reference,
                                value: values@[m],
                            }),
                        forall|m: int| k <= m < values.len() ==> self.slots@[m] == old(self).slots@[m],
                    decreases values.len() - k,
                {
                    let value_reference = self.slots[k].value_reference;
                    self.slots.set(k, Slot { value_reference, value: values[k] });
                    k += 1;
                }
                assert(self.slots@ =~= refilled(old(self).slots@, values@));
                fmi2Status_fmi2OK
            },
            Err(_) => fmi2Status_fmi2Error,
        }
    }
}

} // verus!
