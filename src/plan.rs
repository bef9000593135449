use vstd::prelude::*;
use vstd::string::*;
use crate::annotation::{each_value, interpret, malformed_message, AnnotationOutcome};
use crate::schema::{FieldSchema, RecordSchema, TypeExpr};
use crate::shape::{take_inner, type_in_container, wrapped_in};

verus! {

/// How a builder method changes a field's slot.
pub enum SetterKind {
    /// A method named `setter_name` appends one element to the field's sequence.
    Append { setter_name: String },
    /// A method named after the field stores one value in the field's slot.
    Assign,
}

/// How finalization resolves a field's slot.
pub enum FinalizeKind {
    /// The slot's value is used as it is (an optional field, or an appending one).
    PassThrough,
    /// The slot must hold a value; otherwise finalization fails naming `field_name`.
    RequireOrFail { field_name: String },
}

/// The type of a field's slot in the builder, over the plan's type `ty`.
#[derive(Debug, Clone, Copy, PartialEq, Eq, Structural)]
pub enum StorageType {
    /// `ty` itself: the field's declared sequence type.
    Declared,
    /// `Option<ty>`.
    OptionOf,
}

/// The value a field's slot starts with.
#[derive(Debug, Clone, Copy, PartialEq, Eq, Structural)]
pub enum DefaultValue {
    EmptySequence,
    Absent,
}

/// The recipe for one field of the builder.
pub struct FieldPlan {
    pub name: String,
    /// For an appending field, the declared type; for a field declared `Option<T>`, `T`;
    /// otherwise the declared type.
    pub ty: TypeExpr,
    pub setter_kind: SetterKind,
    pub finalize_kind: FinalizeKind,
}

/// The recipe for a whole builder.
pub struct BuilderPlan {
    pub record_name: String,
    /// The record's name followed by `Builder`.
    pub builder_name: String,
    /// One plan per field, in declaration order.
    pub fields: Vec<FieldPlan>,
}

/// A malformed annotation, anchored at the first annotation of field number `field`.
pub struct Diagnostic {
    pub field: usize,
    pub message: String,
}

/// Whether the first annotation of `f`, if any, fails to name an appending setter.
pub open spec fn is_malformed(f: FieldSchema) -> bool {
    f.annotations@.len() > 0 && each_value(f.annotations@[0]) is None
}

/// The plan for a field whose annotation, if any, is well formed.
pub open spec fn field_plan(f: FieldSchema) -> FieldPlan {
    if f.annotations@.len() > 0 && each_value(f.annotations@[0]) is Some && wrapped_in(
        f.ty,
        "Vec"@,
    ) is Some {
        FieldPlan {
            name: f.name,
            ty: f.ty,
            setter_kind: SetterKind::Append {
                setter_name: each_value(f.annotations@[0])->Some_0,
            },
            finalize_kind: FinalizeKind::PassThrough,
        }
    } else if wrapped_in(f.ty, "Option"@) is Some {
        FieldPlan {
            name: f.name,
            ty: wrapped_in(f.ty, "Option"@)->Some_0,
            setter_kind: SetterKind::Assign,
            finalize_kind: FinalizeKind::PassThrough,
        }
    } else {
        FieldPlan {
            name: f.name,
            ty: f.ty,
            setter_kind: SetterKind::Assign,
            finalize_kind: FinalizeKind::RequireOrFail { field_name: f.name },
        }
    }
}

fn plan_field(f: FieldSchema) -> (r: Result<FieldPlan, String>)
    ensures
        is_malformed(f) ==> r is Err && r->Err_0@ == malformed_message(),
        !is_malformed(f) ==> r == Ok::<FieldPlan, String>(field_plan(f)),
{
    let FieldSchema { name, ty, annotations } = f;
    match interpret(&annotations) {
        AnnotationOutcome::Malformed(message) => {
            return Err(message);
        },
        AnnotationOutcome::EachSetter(setter_name) => {
            if type_in_container("Vec", &ty).is_some() {
                return Ok(
                    FieldPlan {
                        name,
                        ty,
                        setter_kind: SetterKind::Append { setter_name },
                        finalize_kind: FinalizeKind::PassThrough,
                    },
                );
            }
        },
        AnnotationOutcome::Absent => {},
    }
    match take_inner("Option", ty) {
        Ok(inner) => Ok(
            FieldPlan {
                name,
                ty: inner,
                setter_kind: SetterKind::Assign,
                finalize_kind: FinalizeKind::PassThrough,
            },
        ),
        Err(ty) => {
            let field_name = name.clone();
            Ok(
                FieldPlan {
                    name,
                    ty,
                    setter_kind: SetterKind::Assign,
                    finalize_kind: FinalizeKind::RequireOrFail { field_name },
                },
            )
        },
    }
}

/// Plans the builder for `schema`, field by field in declaration order. Fails on the first
/// field, in that order, whose first annotation is malformed.
pub fn analyze(schema: RecordSchema) -> (r: Result<BuilderPlan, Diagnostic>)
    ensures
        r is Ok <==> forall|i: int|
            0 <= i < schema.fields@.len() ==> !is_malformed(#[trigger] schema.fields@[i]),
        r matches Ok(plan) ==> {
            &&& plan.record_name == schema.name
            &&& plan.builder_name@ == schema.name@ + "Builder"@
            &&& plan.fields@ == schema.fields@.map_values(|f: FieldSchema| field_plan(f))
        },
        r matches Err(d) ==> {
            &&& d.field < schema.fields@.len()
            &&& is_malformed(schema.fields@[d.field as int])
            &&& forall|j: int| 0 <= j < d.field ==> !is_malformed(#[trigger] schema.fields@[j])
            &&& d.message@ == malformed_message()
        },
{
    let ghost all = schema.fields@;
    let RecordSchema { name, mut fields } = schema;
    let builder_name = name.clone().concat("Builder");
    let mut plans: Vec<FieldPlan> = Vec::new();
    let n = fields.len();
    let mut k: usize = 0;
    while k < n
        invariant
            n == all.len(),
            all == schema.fields@,
            k <= n,
            fields@ == all.subrange(k as int, n as int),
            plans@ == all.subrange(0, k as int).map_values(|f: FieldSchema| field_plan(f)),
            forall|j: int| 0 <= j < k ==> !is_malformed(#[trigger] all[j]),
        decreases n - k,
    {
        let f = fields.remove(0);
        assert(f == all[k as int]);
        match plan_field(f) {
            Ok(p) => {
                plans.push(p);
            },
            Err(message) => {
                assert(is_malformed(all[k as int]));
                return Err(Diagnostic { field: k, message });
            },
        }
        k = k + 1;
        assert(all.subrange(0, k as int) =~= all.subrange(0, k - 1 as int).push(all[k - 1]));
        assert(fields@ =~= all.subrange(k as int, n as int));
    }
    assert(all.subrange(0, n as int) =~= all);
    Ok(BuilderPlan { record_name: name, builder_name, fields: plans })
}

/// The slot type of plan `p`: `StorageType::Declared` stands for `p.ty`, `StorageType::OptionOf`
/// for `Option<p.ty>`.
pub open spec fn storage_type_of(p: FieldPlan) -> StorageType {
    match p.setter_kind {
        SetterKind::Append { .. } => StorageType::Declared,
        SetterKind::Assign => StorageType::OptionOf,
    }
}

/// The slot's type in full: its form and the type it is built on.
pub open spec fn slot_type(p: FieldPlan) -> (StorageType, TypeExpr) {
    (storage_type_of(p), p.ty)
}

/// The value a slot of plan `p` starts with.
pub open spec fn default_value_of(p: FieldPlan) -> DefaultValue {
    match p.setter_kind {
        SetterKind::Append { .. } => DefaultValue::EmptySequence,
        SetterKind::Assign => DefaultValue::Absent,
    }
}

/// The type that the setter of plan `p` takes: the element type of an appending field,
/// otherwise `p.ty`.
pub open spec fn setter_type_of(p: FieldPlan) -> TypeExpr {
    match p.setter_kind {
        SetterKind::Append { .. } => match wrapped_in(p.ty, "Vec"@) {
            Some(e) => e,
            None => p.ty,
        },
        SetterKind::Assign => p.ty,
    }
}

/// The name of the builder method that sets or extends the field of plan `p`.
pub open spec fn method_name_of(p: FieldPlan) -> String {
    match p.setter_kind {
        SetterKind::Append { setter_name } => setter_name,
        SetterKind::Assign => p.name,
    }
}

impl FieldPlan {
    pub fn storage_type(&self) -> (r: StorageType)
        ensures
            r == storage_type_of(*self),
    {
        match self.setter_kind {
            SetterKind::Append { .. } => StorageType::Declared,
            SetterKind::Assign => StorageType::OptionOf,
        }
    }

    pub fn default_value(&self) -> (r: DefaultValue)
        ensures
            r == default_value_of(*self),
    {
        match self.setter_kind {
            SetterKind::Append { .. } => DefaultValue::EmptySequence,
            SetterKind::Assign => DefaultValue::Absent,
        }
    }

    pub fn setter_type(&self) -> (r: &TypeExpr)
        ensures
            *r == setter_type_of(*self),
    {
        match self.setter_kind {
            SetterKind::Append { .. } => match type_in_container("Vec", &self.ty) {
                Some(e) => e,
                None => &self.ty,
            },
            SetterKind::Assign => &self.ty,
        }
    }

    pub fn method_name(&self) -> (r: &String)
        ensures
            *r == method_name_of(*self),
    {
        match &self.setter_kind {
            SetterKind::Append { setter_name } => setter_name,
            SetterKind::Assign => &self.name,
        }
    }
}

/// Optional-ness is idempotent in storage: a field declared `Option<T>` gets the same slot
/// type, `Option<T>`, as a field declared `T` that is neither optional itself nor appending.
pub proof fn lemma_optional_storage_idempotent(outer: FieldSchema, inner: FieldSchema)
    requires
        !is_malformed(outer),
        !is_malformed(inner),
        wrapped_in(outer.ty, "Option"@) == Some(inner.ty),
        wrapped_in(inner.ty, "Option"@) is None,
        field_plan(inner).setter_kind is Assign,
    ensures
        slot_type(field_plan(outer)) == slot_type(field_plan(inner)),
        storage_type_of(field_plan(outer)) == StorageType::OptionOf,
{
    reveal_strlit("Vec");
    reveal_strlit("Option");
    assert("Option"@.len() != "Vec"@.len());
    assert(wrapped_in(outer.ty, "Vec"@) is None);
}

} // verus!
