use vstd::prelude::*;
use vstd::string::*;
use crate::schema::{Annotation, AttrValue, NestedMeta};

verus! {

/// The message carried by every malformed annotation.
pub open spec fn malformed_message() -> Seq<char> {
    "expected `builder(each = \"...\")`"@
}

/// The setter name that `a` declares: `Some(v)` exactly when `a` is a list holding one
/// entry `each = "v"`.
pub open spec fn each_value(a: Annotation) -> Option<String> {
    match a {
        Annotation::List(entries) => {
            if entries@.len() == 1 {
                match entries@[0] {
                    NestedMeta::NameValue { key, value: AttrValue::Str(v) } => {
                        if key@ == "each"@ {
                            Some(v)
                        } else {
                            None
                        }
                    },
                    _ => None,
                }
            } else {
                None
            }
        },
        Annotation::Other => None,
    }
}

/// What a field's annotations say about its setter.
pub enum AnnotationOutcome {
    /// The field has no annotation.
    Absent,
    /// The first annotation names an appending setter.
    EachSetter(String),
    /// The first annotation is not of the form `builder(each = "...")`; carries the message.
    Malformed(String),
}

fn malformed() -> (r: String)
    ensures
        r@ == malformed_message(),
{
    String::from_str("expected `builder(each = \"...\")`")
}

/// The appending setter's name declared by `attr`, or the malformed-annotation message.
pub fn setter_name(attr: &Annotation) -> (r: Result<String, String>)
    ensures
        match r {
            Ok(name) => each_value(*attr) == Some(name),
            Err(message) => each_value(*attr) is None && message@ == malformed_message(),
        },
{
    match attr {
        Annotation::List(entries) => {
            if entries.len() == 1 {
                match &entries[0] {
                    NestedMeta::NameValue { key, value: AttrValue::Str(v) } => {
                        let each = String::from_str("each");
                        if key.eq(&each) {
                            return Ok(v.clone());
                        }
                    },
                    _ => {},
                }
            }
            Err(malformed())
        },
        Annotation::Other => Err(malformed()),
    }
}

/// Interprets the annotations of one field.
pub fn interpret(annotations: &Vec<Annotation>) -> (r: AnnotationOutcome)
    ensures
        match r {
            AnnotationOutcome::Absent => annotations@.len() == 0,
            AnnotationOutcome::EachSetter(name) => annotations@.len() > 0 && each_value(
                annotations@[0],
            ) == Some(name),
            AnnotationOutcome::Malformed(message) => annotations@.len() > 0 && each_value(
                annotations@[0],
            ) is None && message@ == malformed_message(),
        },
{
    if annotations.len() == 0 {
        return AnnotationOutcome::Absent;
    }
    match setter_name(&annotations[0]) {
        Ok(name) => AnnotationOutcome::EachSetter(name),
        Err(message) => AnnotationOutcome::Malformed(message),
    }
}

} // verus!
