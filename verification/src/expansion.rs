//! What is handed back for a request: the constant, with or without the
//! declaration in front of it, or a diagnostic.

use crate::constant::{
    constant_spec_of, generate_constant_spec, generics_are_unsupported, spec_outcome_view,
    ConstantSpec, ConstantSpecView, TypeDeclaration,
};
use crate::error::{Error, ErrorView};
use crate::naming::constant_name_of;
use crate::overrides::{argument_views, RawArgument, RawArgumentView};
use vstd::prelude::*;

verus! {

/// The answer to a request. Whatever the request was, there is one: a failure
/// is answered with a diagnostic and never ends the process.
#[derive(Clone, Debug, PartialEq, Eq)]
pub enum Expansion {
    /// The declaration as it was written, and behind it the constant.
    DeclarationAndConstant(ConstantSpec),
    /// The constant alone: the declaration stays where it is.
    Constant(ConstantSpec),
    /// An error directive with this text in place of any declaration.
    Diagnostic(String),
}

/// An [`Expansion`] as a mathematical value.
pub enum ExpansionView {
    DeclarationAndConstant(ConstantSpecView),
    Constant(ConstantSpecView),
    Diagnostic(Seq<char>),
}

impl View for Expansion {
    type V = ExpansionView;

    open spec fn view(&self) -> ExpansionView {
        match self {
            Expansion::DeclarationAndConstant(constant) => ExpansionView::DeclarationAndConstant(
                constant@,
            ),
            Expansion::Constant(constant) => ExpansionView::Constant(constant@),
            Expansion::Diagnostic(text) => ExpansionView::Diagnostic(text@),
        }
    }
}

/// The answer of the attribute form to an outcome.
pub open spec fn attribute_expansion(outcome: Result<ConstantSpecView, ErrorView>) -> ExpansionView {
    match outcome {
        Ok(constant) => ExpansionView::DeclarationAndConstant(constant),
        Err(error) => ExpansionView::Diagnostic(error.diagnostic()),
    }
}

/// The answer of the derive form to an outcome.
pub open spec fn derive_expansion(outcome: Result<ConstantSpecView, ErrorView>) -> ExpansionView {
    match outcome {
        Ok(constant) => ExpansionView::Constant(constant),
        Err(error) => ExpansionView::Diagnostic(error.diagnostic()),
    }
}

impl Expansion {
    /// The answer of the attribute form: the declaration and the constant, or
    /// the diagnostic of the error.
    pub fn of_attribute(outcome: Result<ConstantSpec, Error>) -> (expansion: Self)
        ensures
            expansion@ == attribute_expansion(spec_outcome_view(outcome)),
    {
        match outcome {
            Ok(constant) => Expansion::DeclarationAndConstant(constant),
            Err(error) => Expansion::Diagnostic(error.diagnostic()),
        }
    }

    /// The answer of the derive form: the constant, or the diagnostic of the
    /// error.
    pub fn of_derive(outcome: Result<ConstantSpec, Error>) -> (expansion: Self)
        ensures
            expansion@ == derive_expansion(spec_outcome_view(outcome)),
    {
        match outcome {
            Ok(constant) => Expansion::Constant(constant),
            Err(error) => Expansion::Diagnostic(error.diagnostic()),
        }
    }
}

/// The attribute form: answers with the declaration and, behind it, the
/// constant that the declaration and the arguments describe.
pub fn size_of_const(arguments: &Vec<RawArgument>, declaration: &TypeDeclaration) -> (expansion:
    Expansion)
    ensures
        expansion@ == attribute_expansion(
            constant_spec_of(declaration@, argument_views(arguments@)),
        ),
{
    Expansion::of_attribute(generate_constant_spec(declaration, arguments))
}

/// The derive form: it takes no arguments and answers with the constant
/// alone, under the derived name and with the visibility of the type.
pub fn size_of_const_derive(declaration: &TypeDeclaration) -> (expansion: Expansion)
    ensures
        expansion@ == derive_expansion(constant_spec_of(declaration@, Seq::empty())),
        declaration.generic_parameters == 0 ==> expansion@ == ExpansionView::Constant(
            ConstantSpecView {
                name: constant_name_of(declaration.name@),
                visibility: declaration.visibility@,
            },
        ),
        declaration.generic_parameters > 0 ==> expansion@ == ExpansionView::Diagnostic(
            generics_are_unsupported().diagnostic(),
        ),
{
    let arguments: Vec<RawArgument> = Vec::new();
    assert(argument_views(arguments@) == Seq::<RawArgumentView>::empty());
    Expansion::of_derive(generate_constant_spec(declaration, &arguments))
}

} // verus!
