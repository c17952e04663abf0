//! Batched access to the variables of an instance.
//!
//! A batch names its variables by a list of value references.  The entries
//! are processed in list order and processing stops at the first reference
//! that names no variable of the asked kind.  What was read or written before
//! that entry stands: a write is not rolled back.
use vstd::prelude::*;
use crate::model::{TypeKind, Variable};
use crate::runtime::{
    lemma_stored_keeps_shape, looked_up, shaped, stored, ModelInstance, Scalar, Slot,
};
use crate::types::{
    fmi2Boolean, fmi2False, fmi2Integer, fmi2Real, fmi2Status, fmi2Status_fmi2Error,
    fmi2Status_fmi2OK, fmi2True, fmi2ValueReference,
};

verus! {

/// The values that a batch reads: those under the leading references that
/// name a variable of the kind.
pub open spec fn batch_read(slots: Seq<Slot>, references: Seq<fmi2ValueReference>, kind: TypeKind) -> Seq<
    Scalar,
>
    decreases references.len(),
{
    if references.len() == 0 {
        Seq::empty()
    } else {
        match looked_up(slots, references.first() as u64, kind) {
            Some(value) => seq![value] + batch_read(slots, references.drop_first(), kind),
            None => Seq::empty(),
        }
    }
}

/// The slots after a batch of writes, and the number of entries that took
/// effect: the entries up to the first that names no variable of its value's
/// kind.
pub open spec fn batch_written(
    slots: Seq<Slot>,
    references: Seq<fmi2ValueReference>,
    values: Seq<Scalar>,
) -> (Seq<Slot>, nat)
    decreases references.len(),
{
    if references.len() == 0 || values.len() == 0 {
        (slots, 0)
    } else {
        match stored(slots, references.first() as u64, values.first()) {
            Some(next) => {
                let rest = batch_written(next, references.drop_first(), values.drop_first());
                (rest.0, rest.1 + 1nat)
            },
            None => (slots, 0),
        }
    }
}

/// A batch that meets a reference it cannot serve keeps what it wrote
/// before: if the first entry is stored and the second cannot be, the batch
/// ends with the first entry written and nothing else, whatever follows.
pub proof fn lemma_first_entry_stays_written(
    slots: Seq<Slot>,
    references: Seq<fmi2ValueReference>,
    values: Seq<Scalar>,
)
    requires
        references.len() >= 2,
        values.len() >= 2,
        stored(slots, references[0] as u64, values[0]) is Some,
        stored(
            stored(slots, references[0] as u64, values[0])->0,
            references[1] as u64,
            values[1],
        ) is None,
    ensures
        batch_written(slots, references, values) == (
            stored(slots, references[0] as u64, values[0])->0,
            1nat,
        ),
{
    let next = stored(slots, references[0] as u64, values[0])->0;
    assert(references.drop_first().first() == references[1]);
    assert(values.drop_first().first() == values[1]);
    assert(batch_written(next, references.drop_first(), values.drop_first()) == (next, 0nat));
}

/// A batch of writes changes no value reference and no kind.
pub proof fn lemma_batch_written_keeps_shape(
    slots: Seq<Slot>,
    references: Seq<fmi2ValueReference>,
    values: Seq<Scalar>,
    table: Seq<Variable>,
)
    requires
        shaped(slots, table),
    ensures
        shaped(batch_written(slots, references, values).0, table),
    decreases references.len(),
{
    if references.len() > 0 && values.len() > 0 {
        lemma_stored_keeps_shape(slots, references.first() as u64, values.first(), table);
        match stored(slots, references.first() as u64, values.first()) {
            Some(next) => {
                lemma_batch_written_keeps_shape(
                    next,
                    references.drop_first(),
                    values.drop_first(),
                    table,
                );
            },
            None => {},
        }
    }
}

/// A real at the interface as a value.
pub open spec fn real_value(bits: fmi2Real) -> Scalar {
    Scalar::Real(bits)
}

/// An integer at the interface as a value.
pub open spec fn integer_value(number: fmi2Integer) -> Scalar {
    Scalar::Integer(number as i64)
}

/// A truth value at the interface as a value: true if it is `fmi2True`.
pub open spec fn boolean_value(truth: fmi2Boolean) -> Scalar {
    Scalar::Boolean(truth == fmi2True)
}

/// A value as a real at the interface.
pub open spec fn real_code(value: Scalar) -> fmi2Real {
    match value {
        Scalar::Real(bits) => bits,
        _ => 0,
    }
}

/// A value as an integer at the interface: its low 32 bits.
pub open spec fn integer_code(value: Scalar) -> fmi2Integer {
    match value {
        Scalar::Integer(number) => number as i32,
        _ => 0,
    }
}

/// A value as a truth value at the interface.
pub open spec fn boolean_code(value: Scalar) -> fmi2Boolean {
    match value {
        Scalar::Boolean(truth) => if truth {
            fmi2True
        } else {
            fmi2False
        },
        _ => fmi2False,
    }
}

/// An output buffer after a batch has filled its leading entries.
pub open spec fn filled<T>(buffer: Seq<T>, leading: Seq<T>) -> Seq<T> {
    leading + buffer.skip(leading.len() as int)
}

/// The status of a batch: done if it has entries and all of them were
/// processed.
pub open spec fn batch_status(asked: nat, processed: nat) -> fmi2Status {
    if asked > 0 && processed == asked {
        fmi2Status_fmi2OK
    } else {
        fmi2Status_fmi2Error
    }
}

/// Reads the variables of a kind that a list of references names, up to the
/// first reference that names none.
pub fn read_values(
    instance: &ModelInstance,
    references: &Vec<fmi2ValueReference>,
    kind: TypeKind,
) -> (values: Vec<Scalar>)
    ensures
        values@ == batch_read(instance.slots@, references@, kind),
        values@.len() <= references@.len(),
{
    let mut values: Vec<Scalar> = Vec::new();
    let mut i: usize = 0;
    proof {
        assert(references@.skip(0) =~= references@);
        assert(values@ + batch_read(instance.slots@, references@, kind) =~= batch_read(
            instance.slots@,
            references@,
            kind,
        ));
    }
    while i < references.len()
        invariant
            i <= references.len(),
            values@.len() == i,
            batch_read(instance.slots@, references@, kind) == values@ + batch_read(
                instance.slots@,
                references@.skip(i as int),
                kind,
            ),
        decreases references.len() - i,
    {
        let ghost rest = references@.skip(i as int);
        proof {
            assert(rest.drop_first() =~= references@.skip(i + 1));
            assert(rest.first() == references@[i as int]);
        }
        match instance.get_by_value_reference(references[i] as u64, kind) {
            Some(value) => {
                let ghost before = values@;
                values.push(value);
                proof {
                    assert(before + (seq![value] + batch_read(
                        instance.slots@,
                        rest.drop_first(),
                        kind,
                    )) =~= values@ + batch_read(instance.slots@, references@.skip(i + 1), kind));
                }
            },
            None => {
                proof {
                    assert(values@ + Seq::<Scalar>::empty() =~= values@);
                }
                return values;
            },
        }
        i += 1;
    }
    proof {
        assert(references@.skip(references@.len() as int) =~= Seq::<fmi2ValueReference>::empty());
        assert(values@ + Seq::<Scalar>::empty() =~= values@);
    }
    values
}

/// Writes values to the variables that a list of references names, up to
/// the first reference that names no variable of its value's kind.  Returns
/// the number of entries that took effect.
pub fn write_values(
    instance: &mut ModelInstance,
    references: &Vec<fmi2ValueReference>,
    values: &Vec<Scalar>,
) -> (count: usize)
    ensures
        final(instance).differs_in_slots_only(old(instance)),
        (final(instance).slots@, count as nat) == batch_written(
            old(instance).slots@,
            references@,
            values@,
        ),
        count <= references@.len(),
        count <= values@.len(),
{
    let mut i: usize = 0;
    proof {
        assert(references@.skip(0) =~= references@);
        assert(values@.skip(0) =~= values@);
    }
    while i < references.len() && i < values.len()
        invariant
            i <= references.len(),
            i <= values.len(),
            instance.differs_in_slots_only(old(instance)),
            batch_written(old(instance).slots@, references@, values@) == ({
                let rest = batch_written(
                    instance.slots@,
                    references@.skip(i as int),
                    values@.skip(i as int),
                );
                (rest.0, (rest.1 + i) as nat)
            }),
        decreases references.len() - i,
    {
        proof {
            assert(references@.skip(i as int).drop_first() =~= references@.skip(i + 1));
            assert(values@.skip(i as int).drop_first() =~= values@.skip(i + 1));
            assert(references@.skip(i as int).first() == references@[i as int]);
            assert(values@.skip(i as int).first() == values@[i as int]);
        }
        match instance.set_by_value_reference(references[i] as u64, values[i]) {
            Ok(()) => {},
            Err(_) => {
                return i;
            },
        }
        i += 1;
    }
    proof {
        assert(references@.skip(i as int).len() == 0 || values@.skip(i as int).len() == 0);
    }
    i
}

fn reals_as_values(reals: &Vec<fmi2Real>) -> (values: Vec<Scalar>)
    ensures
        values@ == reals@.map_values(|bits: fmi2Real| real_value(bits)),
{
    let mut values: Vec<Scalar> = Vec::new();
    let mut i: usize = 0;
    while i < reals.len()
        invariant
            i <= reals.len(),
            values@.len() == i,
            forall|k: int| 0 <= k < i ==> values@[k] == real_value(reals@[k]),
        decreases reals.len() - i,
    {
        values.push(Scalar::Real(reals[i]));
        i += 1;
    }
    assert(values@ =~= reals@.map_values(|bits: fmi2Real| real_value(bits)));
    values
}

fn integers_as_values(integers: &Vec<fmi2Integer>) -> (values: Vec<Scalar>)
    ensures
        values@ == integers@.map_values(|number: fmi2Integer| integer_value(number)),
{
    let mut values: Vec<Scalar> = Vec::new();
    let mut i: usize = 0;
    while i < integers.len()
        invariant
            i <= integers.len(),
            values@.len() == i,
            forall|k: int| 0 <= k < i ==> values@[k] == integer_value(integers@[k]),
        decreases integers.len() - i,
    {
        values.push(Scalar::Integer(integers[i] as i64));
        i += 1;
    }
    assert(values@ =~= integers@.map_values(|number: fmi2Integer| integer_value(number)));
    values
}

fn booleans_as_values(booleans: &Vec<fmi2Boolean>) -> (values: Vec<Scalar>)
    ensures
        values@ == booleans@.map_values(|truth: fmi2Boolean| boolean_value(truth)),
{
    let mut values: Vec<Scalar> = Vec::new();
    let mut i: usize = 0;
    while i < booleans.len()
        invariant
            i <= booleans.len(),
            values@.len() == i,
            forall|k: int| 0 <= k < i ==> values@[k] == boolean_value(booleans@[k]),
        decreases booleans.len() - i,
    {
        values.push(Scalar::Boolean(booleans[i] == fmi2True));
        i += 1;
    }
    assert(values@ =~= booleans@.map_values(|truth: fmi2Boolean| boolean_value(truth)));
    values
}

fn real_of(value: Scalar) -> (bits: fmi2Real)
    ensures
        bits == real_code(value),
{
    match value {
        Scalar::Real(bits) => bits,
        _ => 0,
    }
}

fn integer_of(value: Scalar) -> (number: fmi2Integer)
    ensures
        number == integer_code(value),
{
    match value {
        Scalar::Integer(number) => #[verifier::truncate]
        (number as i32),
        _ => 0,
    }
}

fn boolean_of(value: Scalar) -> (truth: fmi2Boolean)
    ensures
        truth == boolean_code(value),
{
    match value {
        Scalar::Boolean(true) => fmi2True,
        _ => fmi2False,
    }
}

/// Whether a batch of writes is taken up at all: it has entries, and as
/// many values as references.
pub open spec fn batch_admitted(references: nat, values: nat) -> bool {
    references > 0 && references == values
}

/// The buffer and the status after a batch of real reads.
pub open spec fn reals_read(
    slots: Seq<Slot>,
    references: Seq<fmi2ValueReference>,
    buffer: Seq<fmi2Real>,
) -> (Seq<fmi2Real>, fmi2Status) {
    if buffer.len() != references.len() {
        (buffer, fmi2Status_fmi2Error)
    } else {
        let got = batch_read(slots, references, TypeKind::Real);
        (
            filled(buffer, got.map_values(|v: Scalar| real_code(v))),
            batch_status(references.len(), got.len()),
        )
    }
}

/// The slots and the status after a batch of real writes.
pub open spec fn reals_written(
    slots: Seq<Slot>,
    references: Seq<fmi2ValueReference>,
    values: Seq<fmi2Real>,
) -> (Seq<Slot>, fmi2Status) {
    if !batch_admitted(references.len(), values.len()) {
        (slots, fmi2Status_fmi2Error)
    } else {
        let outcome = batch_written(slots, references, values.map_values(|bits: fmi2Real| real_value(bits)));
        (outcome.0, batch_status(references.len(), outcome.1))
    }
}

/// Reads real variables into the leading entries of a buffer.
///
/// The call fails when the batch is empty, when the buffer is not as long
/// as the list of references, or at the first reference that names no real
/// variable.  Entries read before a failure stay in the buffer.
pub fn get_reals(
    instance: &ModelInstance,
    references: &Vec<fmi2ValueReference>,
    buffer: &mut Vec<fmi2Real>,
) -> (status: fmi2Status)
    ensures
        (final(buffer)@, status) == reals_read(instance.slots@, references@, old(buffer)@),
{
    if buffer.len() != references.len() {
        return fmi2Status_fmi2Error;
    }
    let values = read_values(instance, references, TypeKind::Real);
    let ghost codes = values@.map_values(|v: Scalar| real_code(v));
    let mut i: usize = 0;
    proof {
        assert(buffer@ =~= filled(old(buffer)@, codes.take(0)));
    }
    while i < values.len()
        invariant
            i <= values.len(),
            values@.len() <= old(buffer)@.len(),
            codes == values@.map_values(|v: Scalar| real_code(v)),
            buffer@ == filled(old(buffer)@, codes.take(i as int)),
        decreases values.len() - i,
    {
        buffer.set(i, real_of(values[i]));
        proof {
            assert(buffer@ =~= filled(old(buffer)@, codes.take(i + 1)));
        }
        i += 1;
    }
    proof {
        assert(codes.take(values@.len() as int) =~= codes);
    }
    if references.len() > 0 && values.len() == references.len() {
        fmi2Status_fmi2OK
    } else {
        fmi2Status_fmi2Error
    }
}

/// Writes real variables.
///
/// The call fails without effect when the batch is empty or the two lists
/// differ in length.  Otherwise the entries are written in order up to the
/// first reference that names no real variable; the call fails if there is
/// one, and the entries before it stay written.
pub fn set_reals(
    instance: &mut ModelInstance,
    references: &Vec<fmi2ValueReference>,
    values: &Vec<fmi2Real>,
) -> (status: fmi2Status)
    ensures
        final(instance).differs_in_slots_only(old(instance)),
        (final(instance).slots@, status) == reals_written(
            old(instance).slots@,
            references@,
            values@,
        ),
{
    if references.len() == 0 || references.len() != values.len() {
        return fmi2Status_fmi2Error;
    }
    let converted = reals_as_values(values);
    let count = write_values(instance, references, &converted);
    if count == references.len() {
        fmi2Status_fmi2OK
    } else {
        fmi2Status_fmi2Error
    }
}

/// The buffer and the status after a batch of integer reads.
pub open spec fn integers_read(
    slots: Seq<Slot>,
    references: Seq<fmi2ValueReference>,
    buffer: Seq<fmi2Integer>,
) -> (Seq<fmi2Integer>, fmi2Status) {
    if buffer.len() != references.len() {
        (buffer, fmi2Status_fmi2Error)
    } else {
        let got = batch_read(slots, references, TypeKind::Integer);
        (
            filled(buffer, got.map_values(|v: Scalar| integer_code(v))),
            batch_status(references.len(), got.len()),
        )
    }
}

/// The slots and the status after a batch of integer writes.
pub open spec fn integers_written(
    slots: Seq<Slot>,
    references: Seq<fmi2ValueReference>,
    values: Seq<fmi2Integer>,
) -> (Seq<Slot>, fmi2Status) {
    if !batch_admitted(references.len(), values.len()) {
        (slots, fmi2Status_fmi2Error)
    } else {
        let outcome = batch_written(slots, references, values.map_values(|number: fmi2Integer| integer_value(number)));
        (outcome.0, batch_status(references.len(), outcome.1))
    }
}

/// Reads integer variables into the leading entries of a buffer; see
/// `get_reals`.
pub fn get_integers(
    instance: &ModelInstance,
    references: &Vec<fmi2ValueReference>,
    buffer: &mut Vec<fmi2Integer>,
) -> (status: fmi2Status)
    ensures
        (final(buffer)@, status) == integers_read(instance.slots@, references@, old(buffer)@),
{
    if buffer.len() != references.len() {
        return fmi2Status_fmi2Error;
    }
    let values = read_values(instance, references, TypeKind::Integer);
    let ghost codes = values@.map_values(|v: Scalar| integer_code(v));
    let mut i: usize = 0;
    proof {
        assert(buffer@ =~= filled(old(buffer)@, codes.take(0)));
    }
    while i < values.len()
        invariant
            i <= values.len(),
            values@.len() <= old(buffer)@.len(),
            codes == values@.map_values(|v: Scalar| integer_code(v)),
            buffer@ == filled(old(buffer)@, codes.take(i as int)),
        decreases values.len() - i,
    {
        buffer.set(i, integer_of(values[i]));
        proof {
            assert(buffer@ =~= filled(old(buffer)@, codes.take(i + 1)));
        }
        i += 1;
    }
    proof {
        assert(codes.take(values@.len() as int) =~= codes);
    }
    if references.len() > 0 && values.len() == references.len() {
        fmi2Status_fmi2OK
    } else {
        fmi2Status_fmi2Error
    }
}

/// Writes integer variables; see `set_reals`.
pub fn set_integers(
    instance: &mut ModelInstance,
    references: &Vec<fmi2ValueReference>,
    values: &Vec<fmi2Integer>,
) -> (status: fmi2Status)
    ensures
        final(instance).differs_in_slots_only(old(instance)),
        (final(instance).slots@, status) == integers_written(
            old(instance).slots@,
            references@,
            values@,
        ),
{
    if references.len() == 0 || references.len() != values.len() {
        return fmi2Status_fmi2Error;
    }
    let converted = integers_as_values(values);
    let count = write_values(instance, references, &converted);
    if count == references.len() {
        fmi2Status_fmi2OK
    } else {
        fmi2Status_fmi2Error
    }
}

/// The buffer and the status after a batch of boolean reads.
pub open spec fn booleans_read(
    slots: Seq<Slot>,
    references: Seq<fmi2ValueReference>,
    buffer: Seq<fmi2Boolean>,
) -> (Seq<fmi2Boolean>, fmi2Status) {
    if buffer.len() != references.len() {
        (buffer, fmi2Status_fmi2Error)
    } else {
        let got = batch_read(slots, references, TypeKind::Boolean);
        (
            filled(buffer, got.map_values(|v: Scalar| boolean_code(v))),
            batch_status(references.len(), got.len()),
        )
    }
}

/// The slots and the status after a batch of boolean writes.
pub open spec fn booleans_written(
    slots: Seq<Slot>,
    references: Seq<fmi2ValueReference>,
    values: Seq<fmi2Boolean>,
) -> (Seq<Slot>, fmi2Status) {
    if !batch_admitted(references.len(), values.len()) {
        (slots, fmi2Status_fmi2Error)
    } else {
        let outcome = batch_written(slots, references, values.map_values(|truth: fmi2Boolean| boolean_value(truth)));
        (outcome.0, batch_status(references.len(), outcome.1))
    }
}

/// Reads boolean variables into the leading entries of a buffer; see
/// `get_reals`.
pub fn get_booleans(
    instance: &ModelInstance,
    references: &Vec<fmi2ValueReference>,
    buffer: &mut Vec<fmi2Boolean>,
) -> (status: fmi2Status)
    ensures
        (final(buffer)@, status) == booleans_read(instance.slots@, references@, old(buffer)@),
{
    if buffer.len() != references.len() {
        return fmi2Status_fmi2Error;
    }
    let values = read_values(instance, references, TypeKind::Boolean);
    let ghost codes = values@.map_values(|v: Scalar| boolean_code(v));
    let mut i: usize = 0;
    proof {
        assert(buffer@ =~= filled(old(buffer)@, codes.take(0)));
    }
    while i < values.len()
        invariant
            i <= values.len(),
            values@.len() <= old(buffer)@.len(),
            codes == values@.map_values(|v: Scalar| boolean_code(v)),
            buffer@ == filled(old(buffer)@, codes.take(i as int)),
        decreases values.len() - i,
    {
        buffer.set(i, boolean_of(values[i]));
        proof {
            assert(buffer@ =~= filled(old(buffer)@, codes.take(i + 1)));
        }
        i += 1;
    }
    proof {
        assert(codes.take(values@.len() as int) =~= codes);
    }
    if references.len() > 0 && values.len() == references.len() {
        fmi2Status_fmi2OK
    } else {
        fmi2Status_fmi2Error
    }
}

/// Writes boolean variables; a value is true if it is `fmi2True`.  See
/// `set_reals`.
pub fn set_booleans(
    instance: &mut ModelInstance,
    references: &Vec<fmi2ValueReference>,
    values: &Vec<fmi2Boolean>,
) -> (status: fmi2Status)
    ensures
        final(instance).differs_in_slots_only(old(instance)),
        (final(instance).slots@, status) == booleans_written(
            old(instance).slots@,
            references@,
            values@,
        ),
{
    if references.len() == 0 || references.len() != values.len() {
        return fmi2Status_fmi2Error;
    }
    let converted = booleans_as_values(values);
    let count = write_values(instance, references, &converted);
    if count == references.len() {
        fmi2Status_fmi2OK
    } else {
        fmi2Status_fmi2Error
    }
}

} // verus!
