//! The visibility of a declaration, and how the constant's visibility
//! follows from the type's and from the options.

use vstd::prelude::*;

verus! {

/// The scope between the parentheses of a restricted visibility such as
/// `pub(crate)` or `pub(in crate::shapes)`.
#[derive(Debug, PartialEq, Eq)]
pub struct Scope {
    /// Whether the scope is introduced by the keyword `in`.
    pub in_keyword: bool,
    /// Whether the path starts with `::`.
    pub leading_colon: bool,
    /// The names along the path, from the outermost module inwards.
    pub segments: Vec<String>,
}

/// How far a declaration can be seen.
#[derive(Debug, PartialEq, Eq)]
pub enum Visibility {
    /// `pub`.
    Public,
    /// No visibility written: visible in the enclosing module only.
    Private,
    /// `pub(..)` with a scope.
    Restricted(Scope),
}

/// A [`Scope`] as a mathematical value.
pub struct ScopeView {
    pub in_keyword: bool,
    pub leading_colon: bool,
    pub segments: Seq<Seq<char>>,
}

/// A [`Visibility`] as a mathematical value.
pub enum VisibilityView {
    Public,
    Private,
    Restricted(ScopeView),
}

impl View for Scope {
    type V = ScopeView;

    open spec fn view(&self) -> ScopeView {
        ScopeView {
            in_keyword: self.in_keyword,
            leading_colon: self.leading_colon,
            segments: self.segments.deep_view(),
        }
    }
}

impl View for Visibility {
    type V = VisibilityView;

    open spec fn view(&self) -> VisibilityView {
        match self {
            Visibility::Public => VisibilityView::Public,
            Visibility::Private => VisibilityView::Private,
            Visibility::Restricted(scope) => VisibilityView::Restricted(scope@),
        }
    }
}

impl Clone for Scope {
    fn clone(&self) -> (copy: Self)
        ensures
            copy@ == self@,
    {
        let mut segments: Vec<String> = Vec::new();
        let mut i: usize = 0;
        while i < self.segments.len()
            invariant
                i <= self.segments.len(),
                segments.len() == i,
                forall|j: int| 0 <= j < i ==> segments[j]@ == self.segments[j]@,
            decreases self.segments.len() - i,
        {
            segments.push(self.segments[i].clone());
            i += 1;
        }
        assert(segments.deep_view() =~= self.segments.deep_view());
        Scope { in_keyword: self.in_keyword, leading_colon: self.leading_colon, segments }
    }
}

impl Clone for Visibility {
    fn clone(&self) -> (copy: Self)
        ensures
            copy@ == self@,
    {
        match self {
            Visibility::Public => Visibility::Public,
            Visibility::Private => Visibility::Private,
            Visibility::Restricted(scope) => Visibility::Restricted(scope.clone()),
        }
    }
}

/// What was read of a visibility specifier, as a mathematical value.
pub open spec fn read_view(parsed: Option<Visibility>) -> Option<VisibilityView> {
    match parsed {
        Some(visibility) => Some(visibility@),
        None => None,
    }
}

/// What `syn::parse_str::<syn::Visibility>` makes of a text: nothing where it
/// reports an error, else the visibility it read.
pub uninterp spec fn parsed_visibility(text: Seq<char>) -> Option<VisibilityView>;

/// Reads a visibility specifier with `syn::parse_str::<syn::Visibility>`.
/// The parser tokenizes the text and reads one visibility from it; it reports
/// an error where tokens are left over. Its answer depends on the text alone.
/// An error becomes `None`; of a visibility, the kind, the presence of `in`
/// and of a leading `::`, and the name of each path segment are kept.
#[verifier::external_body]
pub(crate) fn parse_visibility(text: &str) -> (parsed: Option<Visibility>)
    ensures
        read_view(parsed) == parsed_visibility(text@),
{
    match syn::parse_str::<syn::Visibility>(text) {
        Ok(syn::Visibility::Public(_)) => Some(Visibility::Public),
        Ok(syn::Visibility::Inherited) => Some(Visibility::Private),
        Ok(syn::Visibility::Restricted(restricted)) => Some(Visibility::Restricted(Scope {
            in_keyword: restricted.in_token.is_some(),
            leading_colon: restricted.path.leading_colon.is_some(),
            segments: restricted.path.segments.iter().map(|s| s.ident.to_string()).collect(),
        })),
        Err(_) => None,
    }
}

} // verus!
