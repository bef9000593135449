use vstd::prelude::*;
use vstd::string::*;
use crate::schema::{GenericArg, PathArgs, TypeExpr};

verus! {

/// The single type argument of `ty` when its first path segment is named `container` and
/// carries exactly one angle-bracketed argument, which is a type.
pub open spec fn wrapped_in(ty: TypeExpr, container: Seq<char>) -> Option<TypeExpr> {
    match ty {
        TypeExpr::Path { head, args: PathArgs::Angle(a), .. } => {
            if head@ == container && a@.len() == 1 && a@[0] is Type {
                Some(a@[0]->Type_0)
            } else {
                None
            }
        },
        _ => None,
    }
}

/// The type argument of `ty` when `ty` is `container<T>`, for a single type argument `T`.
/// Only the outermost segment is inspected.
pub fn type_in_container<'a>(container: &str, ty: &'a TypeExpr) -> (r: Option<&'a TypeExpr>)
    ensures
        r is Some <==> wrapped_in(*ty, container@) is Some,
        r is Some ==> *r->Some_0 == wrapped_in(*ty, container@)->Some_0,
{
    match ty {
        TypeExpr::Path { head, args: PathArgs::Angle(a), .. } => {
            let wanted = String::from_str(container);
            if head.eq(&wanted) && a.len() == 1 {
                match &a[0] {
                    GenericArg::Type(t) => Some(t),
                    GenericArg::Other => None,
                }
            } else {
                None
            }
        },
        _ => None,
    }
}

/// Moves the type argument out of `ty` when `ty` is `container<T>`; otherwise hands `ty` back.
pub fn take_inner(container: &str, ty: TypeExpr) -> (r: Result<TypeExpr, TypeExpr>)
    ensures
        wrapped_in(ty, container@) is Some ==> r == Ok::<TypeExpr, TypeExpr>(
            wrapped_in(ty, container@)->Some_0,
        ),
        wrapped_in(ty, container@) is None ==> r == Err::<TypeExpr, TypeExpr>(ty),
{
    if type_in_container(container, &ty).is_none() {
        return Err(ty);
    }
    // `ty` is `container<T>` from here on: the other arms cannot be reached.
    match ty {
        TypeExpr::Path { args: PathArgs::Angle(mut a), .. } => {
            match a.remove(0) {
                GenericArg::Type(t) => Ok(t),
                GenericArg::Other => {
                    proof {
                        assert(false);
                    }
                    Err(TypeExpr::Other { text: String::new() })
                },
            }
        },
        _ => {
            proof {
                assert(false);
            }
            Err(TypeExpr::Other { text: String::new() })
        },
    }
}

} // verus!
