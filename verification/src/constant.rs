//! The constant that goes with a type declaration.

use crate::error::{Error, ErrorView};
use crate::naming::{constant_name_of, derive_constant_name};
use crate::overrides::{
    argument_views, overrides_of, parse_overrides, ConfigOverride, ConfigOverrideView,
    RawArgument, RawArgumentView,
};
use crate::visibility::{Visibility, VisibilityView};
use vstd::prelude::*;
use vstd::string::StringExecFns;

verus! {

/// What is read of a type declaration. Its fields are not looked at.
#[derive(Clone, Debug, PartialEq, Eq)]
pub struct TypeDeclaration {
    /// The name of the type.
    pub name: String,
    /// The visibility of the type.
    pub visibility: Visibility,
    /// How many generic parameters the declaration has, of any kind.
    pub generic_parameters: usize,
}

/// The constant to declare: its name and its visibility.
#[derive(Clone, Debug, PartialEq, Eq)]
pub struct ConstantSpec {
    /// The name of the constant.
    pub name: String,
    /// The visibility of the constant.
    pub visibility: Visibility,
}

/// A [`TypeDeclaration`] as a mathematical value.
pub struct TypeDeclarationView {
    pub name: Seq<char>,
    pub visibility: VisibilityView,
    pub generic_parameters: nat,
}

/// A [`ConstantSpec`] as a mathematical value.
pub struct ConstantSpecView {
    pub name: Seq<char>,
    pub visibility: VisibilityView,
}

impl View for TypeDeclaration {
    type V = TypeDeclarationView;

    open spec fn view(&self) -> TypeDeclarationView {
        TypeDeclarationView {
            name: self.name@,
            visibility: self.visibility@,
            generic_parameters: self.generic_parameters as nat,
        }
    }
}

impl View for ConstantSpec {
    type V = ConstantSpecView;

    open spec fn view(&self) -> ConstantSpecView {
        ConstantSpecView { name: self.name@, visibility: self.visibility@ }
    }
}

/// The visibility of the constant: the explicit one where there is one,
/// else private where that is asked for, else the type's own.
pub open spec fn constant_visibility(
    type_visibility: VisibilityView,
    overrides: ConfigOverrideView,
) -> VisibilityView {
    match overrides.explicit_visibility {
        Some(visibility) => visibility,
        None => if overrides.force_private {
            VisibilityView::Private
        } else {
            type_visibility
        },
    }
}

/// The name of the constant: the explicit one where there is one, else the
/// one derived from the type's name.
pub open spec fn constant_name(identifier: Seq<char>, overrides: ConfigOverrideView) -> Seq<char> {
    match overrides.explicit_name {
        Some(name) => name,
        None => constant_name_of(identifier),
    }
}

/// The error for a declaration with generic parameters.
pub open spec fn generics_are_unsupported() -> ErrorView {
    ErrorView::UnsupportedFeatureError("SizeOf derive macro does not yet support generics"@)
}

/// The constant for a declaration and the arguments that came with it. A
/// declaration with generic parameters has none, whatever the arguments are;
/// else the arguments are read, and their failure is the request's.
pub open spec fn constant_spec_of(
    declaration: TypeDeclarationView,
    arguments: Seq<RawArgumentView>,
) -> Result<ConstantSpecView, ErrorView> {
    if declaration.generic_parameters > 0 {
        Err(generics_are_unsupported())
    } else {
        match overrides_of(arguments) {
            Ok(overrides) => Ok(
                ConstantSpecView {
                    name: constant_name(declaration.name, overrides),
                    visibility: constant_visibility(declaration.visibility, overrides),
                },
            ),
            Err(error) => Err(error),
        }
    }
}

/// The outcome of a request as a mathematical value.
pub open spec fn spec_outcome_view(outcome: Result<ConstantSpec, Error>) -> Result<
    ConstantSpecView,
    ErrorView,
> {
    match outcome {
        Ok(constant) => Ok(constant@),
        Err(error) => Err(error@),
    }
}

/// Decides the visibility of the constant. An explicit visibility always
/// wins; without one, `force_private` gives a private constant; without
/// either, the constant is as visible as its type.
pub fn derive_constant_visibility(type_visibility: &Visibility, overrides: &ConfigOverride) -> (
    visibility: Visibility
)
    ensures
        visibility@ == constant_visibility(type_visibility@, overrides@),
        overrides.explicit_visibility matches Some(explicit) ==> visibility@ == explicit@,
        overrides.explicit_visibility is None && overrides.force_private ==> visibility@
            == VisibilityView::Private,
        overrides.explicit_visibility is None && !overrides.force_private ==> visibility@
            == type_visibility@,
{
    match &overrides.explicit_visibility {
        Some(visibility) => visibility.clone(),
        None => {
            if overrides.force_private {
                Visibility::Private
            } else {
                type_visibility.clone()
            }
        },
    }
}

/// Describes the size constant of a declared type.
///
/// The size of a type with generic parameters is not fixed where the type is
/// declared: such a declaration is refused before the arguments are looked
/// at. Else the arguments are read, the name is the explicit one or the one
/// derived from the type's name, and the visibility is decided by
/// [`derive_constant_visibility`].
pub fn generate_constant_spec(declaration: &TypeDeclaration, arguments: &Vec<RawArgument>) -> (
    outcome: Result<ConstantSpec, Error>
)
    ensures
        spec_outcome_view(outcome) == constant_spec_of(declaration@, argument_views(arguments@)),
        declaration.generic_parameters > 0 ==> outcome matches Err(
            Error::UnsupportedFeatureError(_),
        ),
{
    if declaration.generic_parameters > 0 {
        return Err(
            Error::UnsupportedFeatureError(
                String::from_str("SizeOf derive macro does not yet support generics"),
            ),
        );
    }
    let overrides = match parse_overrides(arguments) {
        Ok(overrides) => overrides,
        Err(error) => {
            return Err(error);
        },
    };
    let name = match &overrides.explicit_name {
        Some(name) => name.clone(),
        None => derive_constant_name(declaration.name.as_str()),
    };
    let visibility = derive_constant_visibility(&declaration.visibility, &overrides);
    Ok(ConstantSpec { name, visibility })
}

/// The same request always has the same outcome: where two declarations and
/// two sequences of arguments hold the same values, what
/// [`generate_constant_spec`] answers to the one and to the other are the
/// same constant, or the same error.
pub proof fn lemma_outcome_is_determined(
    declaration: TypeDeclaration,
    arguments: Seq<RawArgument>,
    outcome: Result<ConstantSpec, Error>,
    same_declaration: TypeDeclaration,
    same_arguments: Seq<RawArgument>,
    other_outcome: Result<ConstantSpec, Error>,
)
    requires
        declaration@ == same_declaration@,
        argument_views(arguments) == argument_views(same_arguments),
        spec_outcome_view(outcome) == constant_spec_of(declaration@, argument_views(arguments)),
        spec_outcome_view(other_outcome) == constant_spec_of(
            same_declaration@,
            argument_views(same_arguments),
        ),
    ensures
        spec_outcome_view(outcome) == spec_outcome_view(other_outcome),
{
}

} // verus!
