use vstd::prelude::*;
use crate::plan::{BuilderPlan, FieldPlan, FinalizeKind, SetterKind};

verus! {

/// A value held by a builder slot or by a field of a finished record.
#[derive(Debug)]
pub enum Value<V> {
    /// The value of a required field.
    Single(V),
    /// The value of an optional field, or the content of a non-appending slot.
    Maybe(Option<V>),
    /// The elements of an appending field, in the order they were appended.
    Many(Vec<V>),
}

/// The mathematical form of a [`Value`].
pub enum ValueModel<V> {
    Single(V),
    Maybe(Option<V>),
    Many(Seq<V>),
}

impl<V> View for Value<V> {
    type V = ValueModel<V>;

    open spec fn view(&self) -> ValueModel<V> {
        match self {
            Value::Single(v) => ValueModel::Single(*v),
            Value::Maybe(o) => ValueModel::Maybe(*o),
            Value::Many(vs) => ValueModel::Many(vs@),
        }
    }
}

/// What a builder keeps of one field's plan.
#[derive(Debug)]
pub struct Role {
    /// The field's name, which a missing-field error carries.
    pub name: String,
    /// Whether the field's setter appends to a sequence.
    pub appends: bool,
    /// Whether finalization fails when the field's slot is empty.
    pub required: bool,
}

pub open spec fn role_of(p: FieldPlan) -> Role {
    Role {
        name: p.name,
        appends: p.setter_kind is Append,
        required: p.finalize_kind is RequireOrFail,
    }
}

/// The state of a builder: one role and one slot per field, in declaration order.
pub struct BuilderModel<V> {
    pub roles: Seq<Role>,
    pub slots: Seq<ValueModel<V>>,
}

/// Slots match roles: an appending field holds a sequence, any other an optional value.
pub open spec fn well_formed<V>(b: BuilderModel<V>) -> bool {
    &&& b.roles.len() == b.slots.len()
    &&& forall|i: int|
        0 <= i < b.slots.len() ==> if b.roles[i].appends {
            b.slots[i] is Many
        } else {
            b.slots[i] is Maybe
        }
}

pub open spec fn initial_slot<V>(r: Role) -> ValueModel<V> {
    if r.appends {
        ValueModel::Many(Seq::empty())
    } else {
        ValueModel::Maybe(None)
    }
}

/// A fresh builder: every slot at its default.
pub open spec fn initial<V>(roles: Seq<Role>) -> BuilderModel<V> {
    BuilderModel { roles, slots: roles.map_values(|r: Role| initial_slot::<V>(r)) }
}

/// The builder after its setter for field `i` is called with `v`.
pub open spec fn assigned<V>(b: BuilderModel<V>, i: int, v: V) -> BuilderModel<V> {
    BuilderModel { roles: b.roles, slots: b.slots.update(i, ValueModel::Maybe(Some(v))) }
}

/// The builder after its appending setter for field `i` is called with `v`.
pub open spec fn appended<V>(b: BuilderModel<V>, i: int, v: V) -> BuilderModel<V> {
    BuilderModel { roles: b.roles, slots: b.slots.update(i, ValueModel::Many(b.slots[i]->Many_0.push(v))) }
}

/// Field `i` is required and its slot is empty.
pub open spec fn missing<V>(b: BuilderModel<V>, i: int) -> bool {
    b.roles[i].required && b.slots[i] == ValueModel::<V>::Maybe(None)
}

/// The record field that slot `s` of a field with role `r` becomes.
pub open spec fn resolved<V>(r: Role, s: ValueModel<V>) -> ValueModel<V> {
    match s {
        ValueModel::Maybe(Some(v)) => if r.required {
            ValueModel::Single(v)
        } else {
            s
        },
        _ => s,
    }
}

/// Finalization of the first `n` fields, in declaration order: the first missing field's
/// name, or the resolved values.
pub open spec fn built_prefix<V>(b: BuilderModel<V>, n: nat) -> Result<Seq<ValueModel<V>>, String>
    decreases n,
{
    if n == 0 {
        Ok(Seq::empty())
    } else {
        match built_prefix(b, (n - 1) as nat) {
            Err(name) => Err(name),
            Ok(done) => if missing(b, n - 1) {
                Err(b.roles[n - 1].name)
            } else {
                Ok(done.push(resolved(b.roles[n - 1], b.slots[n - 1])))
            },
        }
    }
}

/// Finalization of the whole builder.
pub open spec fn built<V>(b: BuilderModel<V>) -> Result<Seq<ValueModel<V>>, String> {
    built_prefix(b, b.slots.len())
}

proof fn lemma_error_persists<V>(b: BuilderModel<V>, m: nat, n: nat)
    requires
        m <= n,
        built_prefix(b, m) is Err,
    ensures
        built_prefix(b, n) == built_prefix(b, m),
    decreases n,
{
    if n > m {
        lemma_error_persists(b, m, (n - 1) as nat);
    }
}

proof fn lemma_built_prefix<V>(b: BuilderModel<V>, n: nat)
    requires
        n <= b.slots.len(),
        b.roles.len() == b.slots.len(),
    ensures
        built_prefix(b, n) is Ok <==> forall|i: int| 0 <= i < n ==> !#[trigger] missing(b, i),
        built_prefix(b, n) is Ok ==> built_prefix(b, n)->Ok_0 =~= Seq::new(
            n,
            |i: int| resolved(b.roles[i], b.slots[i]),
        ),
        built_prefix(b, n) is Err ==> exists|k: int|
            0 <= k < n && #[trigger] missing(b, k) && (forall|j: int|
                0 <= j < k ==> !#[trigger] missing(b, j)) && built_prefix(b, n)->Err_0
                == b.roles[k].name,
    decreases n,
{
    if n > 0 {
        lemma_built_prefix(b, (n - 1) as nat);
    }
}

/// The builder after the setters of fields `0 .. n` are called in order, field `i` with
/// `vals[i]`.
pub open spec fn assigned_all<V>(b: BuilderModel<V>, vals: Seq<V>, n: nat) -> BuilderModel<V>
    decreases n,
{
    if n == 0 {
        b
    } else {
        assigned(assigned_all(b, vals, (n - 1) as nat), n - 1, vals[n - 1])
    }
}

/// The builder after the appending setter of field `k` is called with each of `vals` in turn.
pub open spec fn appended_all<V>(b: BuilderModel<V>, k: int, vals: Seq<V>) -> BuilderModel<V>
    decreases vals.len(),
{
    if vals.len() == 0 {
        b
    } else {
        appended(appended_all(b, k, vals.drop_last()), k, vals.last())
    }
}

/// The record that finalization gives when field `i` was set to `vals[i]` for every `i`.
pub open spec fn assigned_record<V>(roles: Seq<Role>, vals: Seq<V>) -> Seq<ValueModel<V>> {
    Seq::new(
        roles.len(),
        |i: int|
            if roles[i].required {
                ValueModel::Single(vals[i])
            } else {
                ValueModel::Maybe(Some(vals[i]))
            },
    )
}

proof fn lemma_assigned_all_slots<V>(roles: Seq<Role>, vals: Seq<V>, n: nat)
    requires
        n <= roles.len(),
        vals.len() == roles.len(),
    ensures
        assigned_all(initial::<V>(roles), vals, n).roles == roles,
        assigned_all(initial::<V>(roles), vals, n).slots =~= Seq::new(
            roles.len(),
            |i: int|
                if i < n {
                    ValueModel::Maybe(Some(vals[i]))
                } else {
                    initial_slot::<V>(roles[i])
                },
        ),
    decreases n,
{
    if n > 0 {
        lemma_assigned_all_slots(roles, vals, (n - 1) as nat);
    }
}

/// Setting every field once, in declaration order, on a fresh builder whose fields all take
/// single values, finalizes into a record whose fields hold exactly the values set.
pub proof fn lemma_assign_every_field<V>(roles: Seq<Role>, vals: Seq<V>)
    requires
        forall|i: int| 0 <= i < roles.len() ==> !#[trigger] roles[i].appends,
        vals.len() == roles.len(),
    ensures
        built(assigned_all(initial::<V>(roles), vals, roles.len())) == Ok::<
            Seq<ValueModel<V>>,
            String,
        >(assigned_record(roles, vals)),
{
    let b = assigned_all(initial::<V>(roles), vals, roles.len());
    lemma_assigned_all_slots(roles, vals, roles.len());
    assert forall|i: int| 0 <= i < roles.len() implies !#[trigger] missing(b, i) by {
        assert(b.slots[i] == ValueModel::Maybe(Some(vals[i])));
    }
    lemma_built_prefix(b, roles.len());
    assert(built(b)->Ok_0 =~= assigned_record(roles, vals));
}

/// An optional field that was never set does not stop finalization, and comes out absent,
/// once every required field holds a value.
pub proof fn lemma_unset_optional_is_absent<V>(b: BuilderModel<V>, k: int)
    requires
        well_formed(b),
        0 <= k < b.slots.len(),
        !b.roles[k].appends,
        !b.roles[k].required,
        b.slots[k] == ValueModel::<V>::Maybe(None),
        forall|i: int|
            0 <= i < b.slots.len() && b.roles[i].required ==> #[trigger] b.slots[i] is Maybe
                && b.slots[i]->Maybe_0 is Some,
    ensures
        built(b) is Ok,
        built(b)->Ok_0[k] == ValueModel::<V>::Maybe(None),
{
    assert forall|i: int| 0 <= i < b.slots.len() implies !#[trigger] missing(b, i) by {
        if b.roles[i].required {
            assert(b.slots[i]->Maybe_0 is Some);
        }
    }
    lemma_built_prefix(b, b.slots.len());
}

proof fn lemma_appended_all_slots<V>(b: BuilderModel<V>, k: int, vals: Seq<V>)
    requires
        0 <= k < b.slots.len(),
        b.slots[k] == ValueModel::<V>::Many(Seq::empty()),
    ensures
        appended_all(b, k, vals).roles == b.roles,
        appended_all(b, k, vals).slots == b.slots.update(k, ValueModel::Many(vals)),
    decreases vals.len(),
{
    if vals.len() > 0 {
        lemma_appended_all_slots(b, k, vals.drop_last());
        assert(vals.drop_last().push(vals.last()) =~= vals);
        assert(appended_all(b, k, vals).slots =~= b.slots.update(k, ValueModel::Many(vals)));
    } else {
        assert(vals =~= Seq::<V>::empty());
        assert(b.slots.update(k, ValueModel::Many(vals)) =~= b.slots);
    }
}

/// Appending `vals` one by one to an appending field whose sequence is empty leaves exactly
/// `vals`, in call order, in its slot; finalization succeeds or fails as it would have
/// before, and on success the field holds `vals` (the empty sequence when nothing was
/// appended).
pub proof fn lemma_appends_kept_in_order<V>(b: BuilderModel<V>, k: int, vals: Seq<V>)
    requires
        well_formed(b),
        0 <= k < b.slots.len(),
        b.roles[k].appends,
        b.slots[k] == ValueModel::<V>::Many(Seq::empty()),
    ensures
        appended_all(b, k, vals).slots[k] == ValueModel::<V>::Many(vals),
        built(appended_all(b, k, vals)) is Ok <==> built(b) is Ok,
        built(appended_all(b, k, vals)) is Ok ==> built(appended_all(b, k, vals))->Ok_0[k]
            == ValueModel::<V>::Many(vals),
{
    let a = appended_all(b, k, vals);
    lemma_appended_all_slots(b, k, vals);
    assert forall|i: int| 0 <= i < b.slots.len() implies #[trigger] missing(a, i) == missing(
        b,
        i,
    ) by {
        if i == k {
            assert(!missing(a, i));
            assert(!missing(b, i));
        }
    }
    lemma_built_prefix(a, a.slots.len());
    lemma_built_prefix(b, b.slots.len());
    if built(b) is Ok {
        assert forall|i: int| 0 <= i < a.slots.len() implies !#[trigger] missing(a, i) by {
            assert(!missing(b, i));
        }
    }
    if built(a) is Ok {
        assert forall|i: int| 0 <= i < b.slots.len() implies !#[trigger] missing(b, i) by {
            assert(!missing(a, i));
        }
    }
}

/// Finalizing with a required field unset fails naming that field, when every required
/// field before it holds a value: no other field is reported.
pub proof fn lemma_missing_field_reported<V>(b: BuilderModel<V>, k: int)
    requires
        well_formed(b),
        0 <= k < b.slots.len(),
        b.roles[k].required,
        b.slots[k] == ValueModel::<V>::Maybe(None),
        forall|j: int| 0 <= j < k ==> !#[trigger] missing(b, j),
    ensures
        built(b) == Err::<Seq<ValueModel<V>>, String>(b.roles[k].name),
{
    lemma_built_prefix(b, k as nat);
    assert(missing(b, k));
    assert(built_prefix(b, (k + 1) as nat) == Err::<Seq<ValueModel<V>>, String>(b.roles[k].name));
    lemma_error_persists(b, (k + 1) as nat, b.slots.len());
}

/// The error of a finalization that found a required field unset.
#[derive(Debug)]
pub struct MissingField {
    /// The name of the first such field in declaration order.
    pub field: String,
}

/// A builder following a [`BuilderPlan`], holding values of type `V`: the behaviour of the
/// builder type generated from that plan. `set` and `push` are its setter methods, addressed
/// by field position; `build` is its finalization, which here takes the builder by value.
pub struct Builder<V> {
    roles: Vec<Role>,
    slots: Vec<Value<V>>,
}

impl<V> View for Builder<V> {
    type V = BuilderModel<V>;

    closed spec fn view(&self) -> BuilderModel<V> {
        BuilderModel { roles: self.roles@, slots: self.slots@.map_values(|s: Value<V>| s@) }
    }
}

impl<V> Builder<V> {
    pub open spec fn wf(&self) -> bool {
        well_formed(self@)
    }

    /// A builder for `plan` with every slot at its default.
    pub fn new(plan: &BuilderPlan) -> (r: Self)
        ensures
            r@ == initial::<V>(plan.fields@.map_values(|p: FieldPlan| role_of(p))),
            r.wf(),
    {
        let ghost goal = plan.fields@.map_values(|p: FieldPlan| role_of(p));
        let mut roles: Vec<Role> = Vec::new();
        let mut slots: Vec<Value<V>> = Vec::new();
        let n = plan.fields.len();
        let mut i: usize = 0;
        while i < n
            invariant
                n == plan.fields@.len(),
                goal == plan.fields@.map_values(|p: FieldPlan| role_of(p)),
                i <= n,
                roles@ == goal.subrange(0, i as int),
                slots@.map_values(|s: Value<V>| s@) == goal.subrange(0, i as int).map_values(
                    |r: Role| initial_slot::<V>(r),
                ),
            decreases n - i,
        {
            let p = &plan.fields[i];
            let appends = match p.setter_kind {
                SetterKind::Append { .. } => true,
                SetterKind::Assign => false,
            };
            let required = match p.finalize_kind {
                FinalizeKind::RequireOrFail { .. } => true,
                FinalizeKind::PassThrough => false,
            };
            let role = Role { name: p.name.clone(), appends, required };
            assert(role == goal[i as int]);
            roles.push(role);
            let slot = if appends {
                Value::Many(Vec::new())
            } else {
                Value::Maybe(None)
            };
            assert(slot@ == initial_slot::<V>(goal[i as int]));
            let ghost prev = slots@;
            slots.push(slot);
            assert(slots@.map_values(|s: Value<V>| s@) =~= prev.map_values(|s: Value<V>| s@).push(
                slot@,
            ));
            i = i + 1;
            assert(goal.subrange(0, i as int) =~= goal.subrange(0, i - 1).push(goal[i - 1]));
            assert(slots@.map_values(|s: Value<V>| s@) =~= goal.subrange(0, i as int).map_values(
                |r: Role| initial_slot::<V>(r),
            ));
        }
        assert(goal.subrange(0, n as int) =~= goal);
        let r = Builder { roles, slots };
        assert(r@.slots =~= initial::<V>(goal).slots);
        r
    }

    /// The number of fields.
    pub fn len(&self) -> (r: usize)
        ensures
            r == self@.slots.len(),
    {
        self.slots.len()
    }

    /// The role of field `i`.
    pub fn role(&self, i: usize) -> (r: &Role)
        requires
            self.wf(),
            i < self@.slots.len(),
        ensures
            *r == self@.roles[i as int],
    {
        &self.roles[i]
    }

    /// Stores `v` in the slot of field `i`, which does not append. Returns this same builder,
    /// so that calls chain.
    pub fn set(&mut self, i: usize, v: V) -> (r: &mut Self)
        requires
            old(self).wf(),
            i < old(self)@.slots.len(),
            !old(self)@.roles[i as int].appends,
        ensures
            r@ == assigned(old(self)@, i as int, v),
            r.wf(),
            *final(self) == *final(r),
    {
        let ghost before = self@;
        self.slots.set(i, Value::Maybe(Some(v)));
        assert(self@.slots =~= assigned(before, i as int, v).slots);
        self
    }

    /// Appends `v` to the sequence in the slot of field `i`, which appends. Returns this same
    /// builder, so that calls chain.
    pub fn push(&mut self, i: usize, v: V) -> (r: &mut Self)
        requires
            old(self).wf(),
            i < old(self)@.slots.len(),
            old(self)@.roles[i as int].appends,
        ensures
            r@ == appended(old(self)@, i as int, v),
            r.wf(),
            *final(self) == *final(r),
    {
        let ghost before = self@;
        match &mut self.slots[i] {
            Value::Many(items) => items.push(v),
            _ => {},
        }
        assert(self@.slots =~= appended(before, i as int, v).slots);
        self
    }

    /// Finalizes the builder: each field in declaration order is resolved, and the first
    /// required field whose slot is empty stops finalization with its name.
    pub fn build(self) -> (r: Result<Vec<Value<V>>, MissingField>)
        requires
            self.wf(),
        ensures
            r is Ok <==> built(self@) is Ok,
            r matches Ok(values) ==> built(self@) == Ok::<Seq<ValueModel<V>>, String>(
                values@.map_values(|s: Value<V>| s@),
            ),
            r matches Err(e) ==> built(self@) == Err::<Seq<ValueModel<V>>, String>(e.field),
    {
        let ghost model = self@;
        let Builder { roles, mut slots } = self;
        let n = slots.len();
        let mut out: Vec<Value<V>> = Vec::new();
        let mut k: usize = 0;
        assert(out@.map_values(|s: Value<V>| s@) =~= Seq::<ValueModel<V>>::empty());
        assert(slots@.map_values(|s: Value<V>| s@) =~= model.slots.subrange(0, n as int));
        while k < n
            invariant
                slots@.len() == n - k,
                model == self@,
                model.slots.len() == n,
                model.roles.len() == n,
                roles@ == model.roles,
                k <= n,
                slots@.map_values(|s: Value<V>| s@) == model.slots.subrange(k as int, n as int),
                built_prefix(model, k as nat) == Ok::<Seq<ValueModel<V>>, String>(
                    out@.map_values(|s: Value<V>| s@),
                ),
            decreases n - k,
        {
            let ghost prev = out@;
            let ghost before = slots@;
            assert(before.map_values(|s: Value<V>| s@)[0] == before[0]@);
            let slot = slots.remove(0);
            assert(slot@ == model.slots[k as int]);
            let role = &roles[k];
            let value = match slot {
                Value::Maybe(Some(v)) => if role.required {
                    Value::Single(v)
                } else {
                    Value::Maybe(Some(v))
                },
                Value::Maybe(None) => if role.required {
                    let field = role.name.clone();
                    proof {
                        lemma_error_persists(model, (k + 1) as nat, n as nat);
                    }
                    return Err(MissingField { field });
                } else {
                    Value::Maybe(None)
                },
                other => other,
            };
            assert(value@ == resolved(model.roles[k as int], model.slots[k as int]));
            out.push(value);
            assert(out@.map_values(|s: Value<V>| s@) =~= prev.map_values(|s: Value<V>| s@).push(
                value@,
            ));
            k = k + 1;
            assert forall|j: int| 0 <= j < slots@.len() implies slots@[j]@ == model.slots[k + j] by {
                assert(slots@[j] == before[j + 1]);
                assert(before.map_values(|s: Value<V>| s@)[j + 1] == before[j + 1]@);
            }
            assert(slots@.map_values(|s: Value<V>| s@) =~= model.slots.subrange(k as int, n as int));
        }
        Ok(out)
    }
}

} // verus!
