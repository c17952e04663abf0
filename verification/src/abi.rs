//! The entry points that a simulation host calls.
//!
//! A `Runtime` holds the definition of one model and the instances of it
//! that are alive.  A host names an instance by a handle.  An entry point
//! that is handed a handle that names no live instance, or an instance that
//! has failed, reports an error and changes nothing.
use vstd::prelude::*;
use vstd::string::*;
use crate::dispatch::{
    boolean_value, booleans_read, booleans_written, get_booleans, get_integers, get_reals,
    integer_value, integers_read, integers_written, lemma_batch_written_keeps_shape, real_value,
    reals_read, reals_written, set_booleans, set_integers, set_reals,
};
use crate::generate::ModelDefinition;
use crate::handles::{fmi2Component, Handle, HandleTable};
use crate::runtime::{
    bound, fits, lemma_bound_is_shaped, lemma_refilled_keeps_shape, refilled, replaces, shaped,
    FMIErrors, ModelInstance, ModelState, Scalar, Slot, Steppable,
};
use crate::template::{entries_of, plain_text, resolved, to_model_description_xml, StartValue};
use crate::text::same_text;
use crate::types::{
    fmi2Boolean, fmi2Byte, fmi2Integer, fmi2Real, fmi2Status, fmi2StatusKind, fmi2Status_fmi2Error,
    fmi2Status_fmi2OK, fmi2True, fmi2Type, fmi2ValueReference,
};

verus! {

/// One model and its live instances.
pub struct Runtime {
    pub definition: ModelDefinition,
    /// The slots of a fresh instance: every variable at its default.
    pub initial: Vec<Slot>,
    pub instances: HandleTable,
}

impl Runtime {
    /// Whether a handle names a live instance that has not failed.
    pub open spec fn usable(&self, c: Handle) -> bool {
        self.instances.registered(c) && self.instances.instance(c).state != ModelState::Error
    }

    /// The instance that a handle names.
    pub open spec fn instance(&self, c: Handle) -> ModelInstance {
        self.instances.instance(c)
    }

    /// Whether the runtime is in order: a fresh instance has one slot per
    /// variable of the model's table, under the variable's value reference
    /// and of its kind, and so has every live instance.
    pub open spec fn wf(&self) -> bool {
        &&& shaped(self.initial@, self.definition.table@)
        &&& forall|h: Handle| #[trigger]
            self.instances.registered(h) ==> shaped(
                self.instances.instance(h).slots@,
                self.definition.table@,
            )
    }

    /// Whether nothing but the instance under one handle may differ
    /// between two runtimes.
    pub open spec fn touches(&self, before: &Runtime, c: Handle) -> bool {
        &&& self.definition == before.definition
        &&& self.initial == before.initial
        &&& self.instances.same_except(&before.instances, c)
        &&& self.instances.registered(c) == before.instances.registered(c)
        &&& self.instances.retired(c) == before.instances.retired(c)
    }

    /// Sets up the runtime of a model whose variables start at the given
    /// defaults.  The defaults have to fit the model's table.
    pub fn new(definition: ModelDefinition, defaults: &Vec<Scalar>) -> (result: Result<
        Runtime,
        FMIErrors,
    >)
        ensures
            result is Ok <==> fits(definition.table@, defaults@),
            result matches Err(e) ==> e == FMIErrors::Error,
            result matches Ok(rt) ==> {
                &&& rt.definition == definition
                &&& rt.initial@ == bound(definition.table@, defaults@)
                &&& forall|h: Handle| !rt.instances.registered(h) && !rt.instances.retired(h)
                &&& rt.wf()
            },
    {
        proof {
            if fits(definition.table@, defaults@) {
                lemma_bound_is_shaped(definition.table@, defaults@);
            }
        }
        match ModelInstance::instantiate(&definition.table, defaults) {
            Ok(prototype) => Ok(
                Runtime { definition, initial: prototype.slots, instances: HandleTable::new() },
            ),
            Err(e) => Err(e),
        }
    }

    /// Decides whether a handle names a live instance that has not failed.
    pub fn is_usable(&self, c: fmi2Component) -> (usable: bool)
        ensures
            usable == self.usable(c),
    {
        match self.instances.get(c) {
            Some(instance) => match instance.state {
                ModelState::Error => false,
                _ => true,
            },
            None => false,
        }
    }

    /// The instance that a handle names; an unknown handle is answered with
    /// `InvalidValueReference`.
    pub fn from_c_ptr(&self, c: fmi2Component) -> (result: Result<&ModelInstance, FMIErrors>)
        ensures
            result is Ok <==> self.instances.registered(c),
            result matches Ok(instance) ==> *instance == self.instance(c),
            result matches Err(e) ==> e == FMIErrors::InvalidValueReference,
    {
        match self.instances.get(c) {
            Some(instance) => Ok(instance),
            None => Err(FMIErrors::InvalidValueReference),
        }
    }

    /// Puts the instance under a handle into the given state, whatever state
    /// it was in.  This is how a model reports that an instance has failed.
    pub fn set_state(&mut self, c: fmi2Component, state: ModelState) -> (done: bool)
        ensures
            old(self).wf() ==> final(self).wf(),
            done == old(self).instances.registered(c),
            !done ==> *final(self) == *old(self),
            done ==> final(self).touches(old(self), c) && final(self).instance(c) == (ModelInstance {
                state,
                ..old(self).instance(c)
            }),
    {
        proof {
            self.instances.lemma_retired_is_not_registered(c);
        }
        if !self.instances.is_registered(c) {
            return false;
        }
        let done = match self.instances.get_mut(c) {
            Some(instance) => {
                instance.state = state;
                true
            },
            None => false,
        };
        proof {
            if old(self).wf() {
                lemma_wf_kept(*old(self), *self, c);
            }
        }
        done
    }
}

proof fn lemma_wf_kept(before: Runtime, after: Runtime, c: Handle)
    requires
        before.wf(),
        after.definition == before.definition,
        after.initial == before.initial,
        after.instances.same_except(&before.instances, c),
        after.instances.registered(c) ==> shaped(
            after.instances.instance(c).slots@,
            after.definition.table@,
        ),
    ensures
        after.wf(),
{
    assert forall|h: Handle| #[trigger] after.instances.registered(h) implies shaped(
        after.instances.instance(h).slots@,
        after.definition.table@,
    ) by {
        if h != c {
            assert(before.instances.registered(h));
        }
    }
}

fn copy_slots(slots: &Vec<Slot>) -> (copy: Vec<Slot>)
    ensures
        copy@ == slots@,
{
    let mut copy: Vec<Slot> = Vec::new();
    let mut i: usize = 0;
    while i < slots.len()
        invariant
            i <= slots.len(),
            copy@ == slots@.take(i as int),
        decreases slots.len() - i,
    {
        copy.push(slots[i]);
        assert(copy@ =~= slots@.take(i + 1));
        i += 1;
    }
    assert(slots@.take(slots.len() as int) =~= slots@);
    copy
}

/// The version of the interface that the entry points implement.
pub fn fmi2GetVersion() -> (version: String)
    ensures
        version@ == "2.0"@,
{
    String::from_str("2.0")
}

/// The platform of the interface's scalar types.
pub fn fmi2GetTypesPlatform() -> (platform: String)
    ensures
        platform@ == "default"@,
{
    String::from_str("default")
}

/// Whether an instantiation is admitted: the instance name and the
/// identity token are given, and the token is the model's own.
pub open spec fn admitted(declared: Seq<char>, name: Option<&str>, guid: Option<&str>) -> bool {
    &&& name is Some
    &&& guid is Some
    &&& guid->0@ == declared
}

/// Decides whether an instantiation is admitted.
pub fn is_admitted(rt: &Runtime, instance_name: Option<&str>, fmu_guid: Option<&str>) -> (yes: bool)
    ensures
        yes == admitted(rt.definition.metadata.guid@, instance_name, fmu_guid),
{
    match (instance_name, fmu_guid) {
        (Some(_), Some(guid)) => same_text(guid, rt.definition.metadata.guid.as_str()),
        _ => false,
    }
}

/// Creates an instance of the model and issues its handle.
///
/// An instantiation has to be admitted: the instance name and the identity
/// token are given, and the token is the model's own.  There is no instance
/// and no handle for any other; `is_admitted` tells.
pub fn fmi2Instantiate(
    rt: &mut Runtime,
    instance_name: Option<&str>,
    fmu_type: fmi2Type,
    fmu_guid: Option<&str>,
    fmu_resource_location: Option<&str>,
    visible: fmi2Boolean,
    logging_on: fmi2Boolean,
) -> (c: fmi2Component)
    requires
        admitted(old(rt).definition.metadata.guid@, instance_name, fmu_guid),
    ensures
        old(rt).wf() ==> final(rt).wf(),
        !old(rt).instances.registered(c),
        !old(rt).instances.retired(c),
        final(rt).instances.registered(c),
        !final(rt).instances.retired(c),
        final(rt).instances.same_except(&old(rt).instances, c),
        final(rt).definition == old(rt).definition,
        final(rt).initial == old(rt).initial,
        ({
            let created = final(rt).instance(c);
            &&& created.instance_name@ == instance_name->0@
            &&& created.guid@ == fmu_guid->0@
            &&& created.fmu_type == fmu_type
            &&& created.logging_on == (logging_on == fmi2True)
            &&& created.state == ModelState::Instantiated
            &&& created.slots@ == old(rt).initial@
            &&& created.tolerance == 0
            &&& created.start_time == 0
            &&& created.stop_time == 0
            &&& !created.stop_time_defined
        }),
{
    let instance = ModelInstance {
        instance_name: String::from_str(instance_name.unwrap()),
        guid: String::from_str(fmu_guid.unwrap()),
        fmu_type,
        logging_on: logging_on == fmi2True,
        state: ModelState::Instantiated,
        tolerance: 0,
        start_time: 0,
        stop_time: 0,
        stop_time_defined: false,
        slots: copy_slots(&rt.initial),
    };
    let c = rt.instances.acquire(instance);
    proof {
        if old(rt).wf() {
            lemma_wf_kept(*old(rt), *rt, c);
        }
    }
    c
}

/// Gives an instance up.  The handle is retired: it names nothing from now
/// on.  A handle that names no live instance is ignored, so freeing twice
/// does no more than freeing once.
pub fn fmi2FreeInstance(rt: &mut Runtime, c: fmi2Component)
    ensures
        old(rt).wf() ==> final(rt).wf(),
        !final(rt).instances.registered(c),
        old(rt).instances.registered(c) ==> final(rt).instances.retired(c),
        !old(rt).instances.registered(c) ==> *final(rt) == *old(rt),
        final(rt).instances.same_except(&old(rt).instances, c),
        final(rt).definition == old(rt).definition,
        final(rt).initial == old(rt).initial,
{
    let _ = rt.instances.release(c);
    proof {
        if old(rt).wf() {
            lemma_wf_kept(*old(rt), *rt, c);
        }
    }
}

/// Turns debug logging on or off; it is on if the flag is `fmi2True`.
pub fn fmi2SetDebugLogging(
    rt: &mut Runtime,
    c: fmi2Component,
    logging_on: fmi2Boolean,
    categories: &Vec<String>,
) -> (status: fmi2Status)
    ensures
        old(rt).wf() ==> final(rt).wf(),
        !old(rt).usable(c) ==> status == fmi2Status_fmi2Error && *final(rt) == *old(rt),
        old(rt).usable(c) ==> status == fmi2Status_fmi2OK && final(rt).touches(old(rt), c)
            && final(rt).instance(c) == (ModelInstance {
            logging_on: logging_on == fmi2True,
            ..old(rt).instance(c)
        }),
{
    proof {
        rt.instances.lemma_retired_is_not_registered(c);
    }
    if !rt.is_usable(c) {
        return fmi2Status_fmi2Error;
    }
    let status = match rt.instances.get_mut(c) {
        Some(instance) => {
            instance.logging_on = logging_on == fmi2True;
            fmi2Status_fmi2OK
        },
        None => fmi2Status_fmi2Error,
    };
    proof {
        if old(rt).wf() {
            lemma_wf_kept(*old(rt), *rt, c);
        }
    }
    status
}

/// The instance after an experiment is set up: the start time is taken
/// over, the stop time only if it is defined.
pub open spec fn experiment_set(
    instance: ModelInstance,
    start_time: fmi2Real,
    stop_time_defined: fmi2Boolean,
    stop_time: fmi2Real,
) -> ModelInstance {
    ModelInstance {
        start_time,
        stop_time: if stop_time_defined == fmi2True {
            stop_time
        } else {
            0
        },
        stop_time_defined: stop_time_defined == fmi2True,
        ..instance
    }
}

/// Takes over the time frame of a simulation run.  The tolerance is left to
/// the model.
pub fn fmi2SetupExperiment(
    rt: &mut Runtime,
    c: fmi2Component,
    tolerance_defined: fmi2Boolean,
    tolerance: fmi2Real,
    start_time: fmi2Real,
    stop_time_defined: fmi2Boolean,
    stop_time: fmi2Real,
) -> (status: fmi2Status)
    ensures
        old(rt).wf() ==> final(rt).wf(),
        !old(rt).usable(c) ==> status == fmi2Status_fmi2Error && *final(rt) == *old(rt),
        old(rt).usable(c) ==> status == fmi2Status_fmi2OK && final(rt).touches(old(rt), c)
            && final(rt).instance(c) == experiment_set(
            old(rt).instance(c),
            start_time,
            stop_time_defined,
            stop_time,
        ),
{
    proof {
        rt.instances.lemma_retired_is_not_registered(c);
    }
    if !rt.is_usable(c) {
        return fmi2Status_fmi2Error;
    }
    let status = match rt.instances.get_mut(c) {
        Some(instance) => {
            instance.start_time = start_time;
            instance.stop_time = if stop_time_defined == fmi2True {
                stop_time
            } else {
                0
            };
            instance.stop_time_defined = stop_time_defined == fmi2True;
            fmi2Status_fmi2OK
        },
        None => fmi2Status_fmi2Error,
    };
    proof {
        if old(rt).wf() {
            lemma_wf_kept(*old(rt), *rt, c);
        }
    }
    status
}

fn enter_state(rt: &mut Runtime, c: fmi2Component, state: ModelState) -> (status: fmi2Status)
    ensures
        old(rt).wf() ==> final(rt).wf(),
        !old(rt).usable(c) ==> status == fmi2Status_fmi2Error && *final(rt) == *old(rt),
        old(rt).usable(c) ==> status == fmi2Status_fmi2OK && final(rt).touches(old(rt), c)
            && final(rt).instance(c) == (ModelInstance { state, ..old(rt).instance(c) }),
{
    if !rt.is_usable(c) {
        return fmi2Status_fmi2Error;
    }
    if rt.set_state(c, state) {
        fmi2Status_fmi2OK
    } else {
        fmi2Status_fmi2Error
    }
}

/// Moves an instance into initialization: its state becomes `Initialized`.
pub fn fmi2EnterInitializationMode(rt: &mut Runtime, c: fmi2Component) -> (status: fmi2Status)
    ensures
        old(rt).wf() ==> final(rt).wf(),
        !old(rt).usable(c) ==> status == fmi2Status_fmi2Error && *final(rt) == *old(rt),
        old(rt).usable(c) ==> status == fmi2Status_fmi2OK && final(rt).touches(old(rt), c)
            && final(rt).instance(c) == (ModelInstance {
            state: ModelState::Initialized,
            ..old(rt).instance(c)
        }),
{
    enter_state(rt, c, ModelState::Initialized)
}

/// Ends the initialization of an instance: its state is `Instantiated`
/// again, and it is ready to be stepped.
pub fn fmi2ExitInitializationMode(rt: &mut Runtime, c: fmi2Component) -> (status: fmi2Status)
    ensures
        old(rt).wf() ==> final(rt).wf(),
        !old(rt).usable(c) ==> status == fmi2Status_fmi2Error && *final(rt) == *old(rt),
        old(rt).usable(c) ==> status == fmi2Status_fmi2OK && final(rt).touches(old(rt), c)
            && final(rt).instance(c) == (ModelInstance {
            state: ModelState::Instantiated,
            ..old(rt).instance(c)
        }),
{
    enter_state(rt, c, ModelState::Instantiated)
}

/// Ends the simulation of an instance: its state becomes `Terminated`.
pub fn fmi2Terminate(rt: &mut Runtime, c: fmi2Component) -> (status: fmi2Status)
    ensures
        old(rt).wf() ==> final(rt).wf(),
        !old(rt).usable(c) ==> status == fmi2Status_fmi2Error && *final(rt) == *old(rt),
        old(rt).usable(c) ==> status == fmi2Status_fmi2OK && final(rt).touches(old(rt), c)
            && final(rt).instance(c) == (ModelInstance {
            state: ModelState::Terminated,
            ..old(rt).instance(c)
        }),
{
    enter_state(rt, c, ModelState::Terminated)
}

/// Takes an instance back to where it was after instantiation: its state is
/// `Instantiated` and its variables are at their defaults.
pub fn fmi2Reset(rt: &mut Runtime, c: fmi2Component) -> (status: fmi2Status)
    ensures
        old(rt).wf() ==> final(rt).wf(),
        !old(rt).usable(c) ==> status == fmi2Status_fmi2Error && *final(rt) == *old(rt),
        old(rt).usable(c) ==> {
            &&& status == fmi2Status_fmi2OK
            &&& final(rt).touches(old(rt), c)
            &&& final(rt).instance(c).state == ModelState::Instantiated
            &&& final(rt).instance(c).slots@ == old(rt).initial@
            &&& final(rt).instance(c).same_settings(&old(rt).instance(c))
        },
{
    proof {
        rt.instances.lemma_retired_is_not_registered(c);
    }
    if !rt.is_usable(c) {
        return fmi2Status_fmi2Error;
    }
    let slots = copy_slots(&rt.initial);
    let status = match rt.instances.get_mut(c) {
        Some(instance) => {
            instance.state = ModelState::Instantiated;
            instance.slots = slots;
            fmi2Status_fmi2OK
        },
        None => fmi2Status_fmi2Error,
    };
    proof {
        if old(rt).wf() {
            lemma_wf_kept(*old(rt), *rt, c);
        }
    }
    status
}

/// Reads real variables of an instance into a buffer, in the order of the
/// references, up to the first reference that names no real variable.
pub fn fmi2GetReal(
    rt: &Runtime,
    c: fmi2Component,
    vr: &Vec<fmi2ValueReference>,
    value: &mut Vec<fmi2Real>,
) -> (status: fmi2Status)
    ensures
        !rt.usable(c) ==> status == fmi2Status_fmi2Error && final(value)@ == old(value)@,
        rt.usable(c) ==> (final(value)@, status) == reals_read(
            rt.instance(c).slots@,
            vr@,
            old(value)@,
        ),
{
    if !rt.is_usable(c) {
        return fmi2Status_fmi2Error;
    }
    match rt.instances.get(c) {
        Some(instance) => get_reals(instance, vr, value),
        None => fmi2Status_fmi2Error,
    }
}

/// Writes real variables of an instance, in the order of the references, up
/// to the first reference that names no real variable.  What was written
/// before such a reference stays written.
pub fn fmi2SetReal(
    rt: &mut Runtime,
    c: fmi2Component,
    vr: &Vec<fmi2ValueReference>,
    value: &Vec<fmi2Real>,
) -> (status: fmi2Status)
    ensures
        old(rt).wf() ==> final(rt).wf(),
        !old(rt).usable(c) ==> status == fmi2Status_fmi2Error && *final(rt) == *old(rt),
        old(rt).usable(c) ==> {
            &&& final(rt).touches(old(rt), c)
            &&& final(rt).instance(c).differs_in_slots_only(&old(rt).instance(c))
            &&& (final(rt).instance(c).slots@, status) == reals_written(
                old(rt).instance(c).slots@,
                vr@,
                value@,
            )
        },
{
    proof {
        rt.instances.lemma_retired_is_not_registered(c);
    }
    if !rt.is_usable(c) {
        return fmi2Status_fmi2Error;
    }
    let status = match rt.instances.get_mut(c) {
        Some(instance) => set_reals(instance, vr, value),
        None => fmi2Status_fmi2Error,
    };
    proof {
        if old(rt).wf() {
            lemma_batch_written_keeps_shape(
                old(rt).instance(c).slots@,
                vr@,
                value@.map_values(|bits: fmi2Real| real_value(bits)),
                rt.definition.table@,
            );
            lemma_wf_kept(*old(rt), *rt, c);
        }
    }
    status
}

/// Reads integer variables of an instance into a buffer, in the order of the
/// references, up to the first reference that names no integer variable.
pub fn fmi2GetInteger(
    rt: &Runtime,
    c: fmi2Component,
    vr: &Vec<fmi2ValueReference>,
    value: &mut Vec<fmi2Integer>,
) -> (status: fmi2Status)
    ensures
        !rt.usable(c) ==> status == fmi2Status_fmi2Error && final(value)@ == old(value)@,
        rt.usable(c) ==> (final(value)@, status) == integers_read(
            rt.instance(c).slots@,
            vr@,
            old(value)@,
        ),
{
    if !rt.is_usable(c) {
        return fmi2Status_fmi2Error;
    }
    match rt.instances.get(c) {
        Some(instance) => get_integers(instance, vr, value),
        None => fmi2Status_fmi2Error,
    }
}

/// Writes integer variables of an instance, in the order of the references, up
/// to the first reference that names no integer variable.  What was written
/// before such a reference stays written.
pub fn fmi2SetInteger(
    rt: &mut Runtime,
    c: fmi2Component,
    vr: &Vec<fmi2ValueReference>,
    value: &Vec<fmi2Integer>,
) -> (status: fmi2Status)
    ensures
        old(rt).wf() ==> final(rt).wf(),
        !old(rt).usable(c) ==> status == fmi2Status_fmi2Error && *final(rt) == *old(rt),
        old(rt).usable(c) ==> {
            &&& final(rt).touches(old(rt), c)
            &&& final(rt).instance(c).differs_in_slots_only(&old(rt).instance(c))
            &&& (final(rt).instance(c).slots@, status) == integers_written(
                old(rt).instance(c).slots@,
                vr@,
                value@,
            )
        },
{
    proof {
        rt.instances.lemma_retired_is_not_registered(c);
    }
    if !rt.is_usable(c) {
        return fmi2Status_fmi2Error;
    }
    let status = match rt.instances.get_mut(c) {
        Some(instance) => set_integers(instance, vr, value),
        None => fmi2Status_fmi2Error,
    };
    proof {
        if old(rt).wf() {
            lemma_batch_written_keeps_shape(
                old(rt).instance(c).slots@,
                vr@,
                value@.map_values(|number: fmi2Integer| integer_value(number)),
                rt.definition.table@,
            );
            lemma_wf_kept(*old(rt), *rt, c);
        }
    }
    status
}

/// Reads boolean variables of an instance into a buffer, in the order of the
/// references, up to the first reference that names no boolean variable.
pub fn fmi2GetBoolean(
    rt: &Runtime,
    c: fmi2Component,
    vr: &Vec<fmi2ValueReference>,
    value: &mut Vec<fmi2Boolean>,
) -> (status: fmi2Status)
    ensures
        !rt.usable(c) ==> status == fmi2Status_fmi2Error && final(value)@ == old(value)@,
        rt.usable(c) ==> (final(value)@, status) == booleans_read(
            rt.instance(c).slots@,
            vr@,
            old(value)@,
        ),
{
    if !rt.is_usable(c) {
        return fmi2Status_fmi2Error;
    }
    match rt.instances.get(c) {
        Some(instance) => get_booleans(instance, vr, value),
        None => fmi2Status_fmi2Error,
    }
}

/// Writes boolean variables of an instance, in the order of the references, up
/// to the first reference that names no boolean variable.  What was written
/// before such a reference stays written.
pub fn fmi2SetBoolean(
    rt: &mut Runtime,
    c: fmi2Component,
    vr: &Vec<fmi2ValueReference>,
    value: &Vec<fmi2Boolean>,
) -> (status: fmi2Status)
    ensures
        old(rt).wf() ==> final(rt).wf(),
        !old(rt).usable(c) ==> status == fmi2Status_fmi2Error && *final(rt) == *old(rt),
        old(rt).usable(c) ==> {
            &&& final(rt).touches(old(rt), c)
            &&& final(rt).instance(c).differs_in_slots_only(&old(rt).instance(c))
            &&& (final(rt).instance(c).slots@, status) == booleans_written(
                old(rt).instance(c).slots@,
                vr@,
                value@,
            )
        },
{
    proof {
        rt.instances.lemma_retired_is_not_registered(c);
    }
    if !rt.is_usable(c) {
        return fmi2Status_fmi2Error;
    }
    let status = match rt.instances.get_mut(c) {
        Some(instance) => set_booleans(instance, vr, value),
        None => fmi2Status_fmi2Error,
    };
    proof {
        if old(rt).wf() {
            lemma_batch_written_keeps_shape(
                old(rt).instance(c).slots@,
                vr@,
                value@.map_values(|truth: fmi2Boolean| boolean_value(truth)),
                rt.definition.table@,
            );
            lemma_wf_kept(*old(rt), *rt, c);
        }
    }
    status
}

/// String variables are not supported.
pub fn fmi2GetString(
    _rt: &Runtime,
    _c: fmi2Component,
    _vr: &Vec<fmi2ValueReference>,
    _value: &mut Vec<String>,
) -> (status: fmi2Status)
    ensures
        status == fmi2Status_fmi2Error,
        final(_value)@ == old(_value)@,
{
    fmi2Status_fmi2Error
}

/// String variables are not supported.
pub fn fmi2SetString(
    _rt: &mut Runtime,
    _c: fmi2Component,
    _vr: &Vec<fmi2ValueReference>,
    _value: &Vec<String>,
) -> (status: fmi2Status)
    ensures
        status == fmi2Status_fmi2Error,
        *final(_rt) == *old(_rt),
{
    fmi2Status_fmi2Error
}

/// Whether a step changed an instance in the way a step may: each variable
/// keeps its value reference and its kind.
pub open spec fn stepped(before: Seq<Slot>, after: Seq<Slot>) -> bool {
    exists|values: Seq<Scalar>| replaces(before, values) && after == refilled(before, values)
}

/// Advances an instance by one communication step.
///
/// The step itself is the model's: it is handed the current values, the
/// current communication point and the step size.  If it answers with new
/// values that fit, they are taken over; if it fails, or its values do not
/// fit, the call reports an error and the instance stays as it was.
pub fn fmi2DoStep<M: Steppable>(
    rt: &mut Runtime,
    c: fmi2Component,
    model: &mut M,
    current_communication_point: fmi2Real,
    communication_step_size: fmi2Real,
    no_set_fmu_state_prior_to_current_point: fmi2Boolean,
) -> (status: fmi2Status)
    ensures
        old(rt).wf() ==> final(rt).wf(),
        !old(rt).usable(c) ==> status == fmi2Status_fmi2Error && *final(rt) == *old(rt),
        old(rt).usable(c) ==> {
            &&& final(rt).touches(old(rt), c)
            &&& final(rt).instance(c).differs_in_slots_only(&old(rt).instance(c))
            &&& status == fmi2Status_fmi2OK || status == fmi2Status_fmi2Error
            &&& status == fmi2Status_fmi2OK ==> stepped(
                old(rt).instance(c).slots@,
                final(rt).instance(c).slots@,
            )
            &&& status == fmi2Status_fmi2Error ==> final(rt).instance(c).slots@ == old(rt).instance(
                c,
            ).slots@
        },
{
    proof {
        rt.instances.lemma_retired_is_not_registered(c);
    }
    let values = match rt.instances.get(c) {
        Some(instance) => match instance.state {
            ModelState::Error => {
                return fmi2Status_fmi2Error;
            },
            _ => instance.values(),
        },
        None => {
            return fmi2Status_fmi2Error;
        },
    };
    let outcome = model.do_step(values, current_communication_point, communication_step_size);
    let status = match rt.instances.get_mut(c) {
        Some(instance) => instance.complete_step(outcome),
        None => fmi2Status_fmi2Error,
    };
    proof {
        if old(rt).wf() {
            if status == fmi2Status_fmi2OK {
                let values = choose|values: Seq<Scalar>|
                    replaces(old(rt).instance(c).slots@, values) && rt.instance(c).slots@
                        == refilled(old(rt).instance(c).slots@, values);
                lemma_refilled_keeps_shape(
                    old(rt).instance(c).slots@,
                    values,
                    rt.definition.table@,
                );
            }
            lemma_wf_kept(*old(rt), *rt, c);
        }
    }
    status
}

/// The model description of the runtime's model, with the given start
/// values filled in.
pub fn get_model_description(rt: &Runtime, values: &Vec<StartValue>) -> (result: Result<
    String,
    FMIErrors,
>)
    ensures
        !plain_text(rt.definition.template@) ==> result == Err::<String, FMIErrors>(
            FMIErrors::Error,
        ),
        plain_text(rt.definition.template@) ==> match resolved(
            rt.definition.template@,
            entries_of(values.deep_view()),
        ) {
            Some(text) => result matches Ok(description) && description@ == text,
            None => result == Err::<String, FMIErrors>(FMIErrors::Error),
        },
{
    to_model_description_xml(rt.definition.template.as_str(), values)
}

/// The canonical name of the runtime's model.
pub fn get_model_name(rt: &Runtime) -> (name: String)
    ensures
        name@ == rt.definition.metadata.model_name@,
{
    rt.definition.metadata.model_name.clone()
}

/// Saving the state of an instance is not supported.
pub fn fmi2GetFMUstate(_rt: &Runtime, _c: fmi2Component) -> (status: fmi2Status)
    ensures
        status == fmi2Status_fmi2Error,
{
    fmi2Status_fmi2Error
}

/// Restoring the state of an instance is not supported.
pub fn fmi2SetFMUstate(_rt: &Runtime, _c: fmi2Component) -> (status: fmi2Status)
    ensures
        status == fmi2Status_fmi2Error,
{
    fmi2Status_fmi2Error
}

/// Saved states are not supported, so there is none to free.
pub fn fmi2FreeFMUstate(_rt: &Runtime, _c: fmi2Component) -> (status: fmi2Status)
    ensures
        status == fmi2Status_fmi2Error,
{
    fmi2Status_fmi2Error
}

/// Serializing the state of an instance is not supported.
pub fn fmi2SerializedFMUstateSize(_rt: &Runtime, _c: fmi2Component) -> (status: fmi2Status)
    ensures
        status == fmi2Status_fmi2Error,
{
    fmi2Status_fmi2Error
}

/// Serializing the state of an instance is not supported.
pub fn fmi2SerializeFMUstate(_rt: &Runtime, _c: fmi2Component, _size: usize) -> (status: fmi2Status)
    ensures
        status == fmi2Status_fmi2Error,
{
    fmi2Status_fmi2Error
}

/// Serializing the state of an instance is not supported.
pub fn fmi2DeSerializeFMUstate(_rt: &Runtime, _c: fmi2Component, _serialized_state: &Vec<fmi2Byte>) -> (status: fmi2Status)
    ensures
        status == fmi2Status_fmi2Error,
{
    fmi2Status_fmi2Error
}

/// Directional derivatives are not supported.
pub fn fmi2GetDirectionalDerivative(_rt: &Runtime, _c: fmi2Component, _v_unknown_ref: &Vec<fmi2ValueReference>, _v_known_ref: &Vec<fmi2ValueReference>, _dv_known: &Vec<fmi2Real>) -> (status: fmi2Status)
    ensures
        status == fmi2Status_fmi2Error,
{
    fmi2Status_fmi2Error
}

/// Event handling is not supported.
pub fn fmi2EnterEventMode(_rt: &Runtime, _c: fmi2Component) -> (status: fmi2Status)
    ensures
        status == fmi2Status_fmi2Error,
{
    fmi2Status_fmi2Error
}

/// Event handling is not supported.
pub fn fmi2NewDiscreteStates(_rt: &Runtime, _c: fmi2Component) -> (status: fmi2Status)
    ensures
        status == fmi2Status_fmi2Error,
{
    fmi2Status_fmi2Error
}

/// Continuous-time mode is not supported.
pub fn fmi2EnterContinuousTimeMode(_rt: &Runtime, _c: fmi2Component) -> (status: fmi2Status)
    ensures
        status == fmi2Status_fmi2Error,
{
    fmi2Status_fmi2Error
}

/// Continuous-time mode is not supported.
pub fn fmi2CompletedIntegratorStep(_rt: &Runtime, _c: fmi2Component, _no_set_fmu_state_prior_to_current_point: fmi2Boolean) -> (status: fmi2Status)
    ensures
        status == fmi2Status_fmi2Error,
{
    fmi2Status_fmi2Error
}

/// Continuous-time mode is not supported.
pub fn fmi2SetTime(_rt: &Runtime, _c: fmi2Component, _time: fmi2Real) -> (status: fmi2Status)
    ensures
        status == fmi2Status_fmi2Error,
{
    fmi2Status_fmi2Error
}

/// Continuous-time mode is not supported.
pub fn fmi2SetContinuousStates(_rt: &Runtime, _c: fmi2Component, _x: &Vec<fmi2Real>) -> (status: fmi2Status)
    ensures
        status == fmi2Status_fmi2Error,
{
    fmi2Status_fmi2Error
}

/// Continuous-time mode is not supported.
pub fn fmi2GetDerivatives(_rt: &Runtime, _c: fmi2Component, _nx: usize) -> (status: fmi2Status)
    ensures
        status == fmi2Status_fmi2Error,
{
    fmi2Status_fmi2Error
}

/// Event handling is not supported.
pub fn fmi2GetEventIndicators(_rt: &Runtime, _c: fmi2Component, _ni: usize) -> (status: fmi2Status)
    ensures
        status == fmi2Status_fmi2Error,
{
    fmi2Status_fmi2Error
}

/// Continuous-time mode is not supported.
pub fn fmi2GetContinuousStates(_rt: &Runtime, _c: fmi2Component, _nx: usize) -> (status: fmi2Status)
    ensures
        status == fmi2Status_fmi2Error,
{
    fmi2Status_fmi2Error
}

/// Continuous-time mode is not supported.
pub fn fmi2GetNominalsOfContinuousStates(_rt: &Runtime, _c: fmi2Component, _nx: usize) -> (status: fmi2Status)
    ensures
        status == fmi2Status_fmi2Error,
{
    fmi2Status_fmi2Error
}

/// Input interpolation is not supported.
pub fn fmi2SetRealInputDerivatives(_rt: &Runtime, _c: fmi2Component, _vr: &Vec<fmi2ValueReference>, _order: &Vec<fmi2Integer>, _value: &Vec<fmi2Real>) -> (status: fmi2Status)
    ensures
        status == fmi2Status_fmi2Error,
{
    fmi2Status_fmi2Error
}

/// Output derivatives are not supported.
pub fn fmi2GetRealOutputDerivatives(_rt: &Runtime, _c: fmi2Component, _vr: &Vec<fmi2ValueReference>, _order: &Vec<fmi2Integer>) -> (status: fmi2Status)
    ensures
        status == fmi2Status_fmi2Error,
{
    fmi2Status_fmi2Error
}

/// Steps are not run in the background, so there is none to cancel.
pub fn fmi2CancelStep(_rt: &Runtime, _c: fmi2Component) -> (status: fmi2Status)
    ensures
        status == fmi2Status_fmi2Error,
{
    fmi2Status_fmi2Error
}

/// Status queries are not supported.
pub fn fmi2GetStatus(_rt: &Runtime, _c: fmi2Component, _s: fmi2StatusKind) -> (status: fmi2Status)
    ensures
        status == fmi2Status_fmi2Error,
{
    fmi2Status_fmi2Error
}

/// Status queries are not supported.
pub fn fmi2GetRealStatus(_rt: &Runtime, _c: fmi2Component, _s: fmi2StatusKind) -> (status: fmi2Status)
    ensures
        status == fmi2Status_fmi2Error,
{
    fmi2Status_fmi2Error
}

/// Status queries are not supported.
pub fn fmi2GetIntegerStatus(_rt: &Runtime, _c: fmi2Component, _s: fmi2StatusKind) -> (status: fmi2Status)
    ensures
        status == fmi2Status_fmi2Error,
{
    fmi2Status_fmi2Error
}

/// Status queries are not supported.
pub fn fmi2GetBooleanStatus(_rt: &Runtime, _c: fmi2Component, _s: fmi2StatusKind) -> (status: fmi2Status)
    ensures
        status == fmi2Status_fmi2Error,
{
    fmi2Status_fmi2Error
}

/// Status queries are not supported.
pub fn fmi2GetStringStatus(_rt: &Runtime, _c: fmi2Component, _s: fmi2StatusKind) -> (status: fmi2Status)
    ensures
        status == fmi2Status_fmi2Error,
{
    fmi2Status_fmi2Error
}

} // verus!
