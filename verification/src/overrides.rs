//! The options that may come with a request, and how they are read.

use crate::error::{Error, ErrorView};
use crate::visibility::{
    parse_visibility, parsed_visibility, read_view, Visibility, VisibilityView,
};
use vstd::prelude::*;
use vstd::string::StringExecFns;

verus! {

/// The value on the right of `key = value`.
#[derive(Clone, Debug, PartialEq, Eq)]
pub enum ArgumentValue {
    /// A string literal, with the text that it stands for.
    Text(String),
    /// Any other expression.
    Other,
}

/// One argument of a request, as it was written.
#[derive(Clone, Debug, PartialEq, Eq)]
pub enum RawArgument {
    /// A bare word, such as `private`.
    Flag(String),
    /// `key = value`.
    KeyValue(String, ArgumentValue),
    /// `key(..)`: a group of further arguments.
    List,
}

/// What the arguments of a request ask for.
#[derive(Clone, Debug, PartialEq, Eq)]
pub struct ConfigOverride {
    /// The name to give the constant, in place of the derived one.
    pub explicit_name: Option<String>,
    /// The visibility to give the constant.
    pub explicit_visibility: Option<Visibility>,
    /// Whether the constant is to be private where no visibility is given.
    pub force_private: bool,
}

/// An [`ArgumentValue`] as a mathematical value.
pub enum ArgumentValueView {
    Text(Seq<char>),
    Other,
}

/// A [`RawArgument`] as a mathematical value.
pub enum RawArgumentView {
    Flag(Seq<char>),
    KeyValue(Seq<char>, ArgumentValueView),
    List,
}

/// A [`ConfigOverride`] as a mathematical value.
pub struct ConfigOverrideView {
    pub explicit_name: Option<Seq<char>>,
    pub explicit_visibility: Option<VisibilityView>,
    pub force_private: bool,
}

impl View for ArgumentValue {
    type V = ArgumentValueView;

    open spec fn view(&self) -> ArgumentValueView {
        match self {
            ArgumentValue::Text(text) => ArgumentValueView::Text(text@),
            ArgumentValue::Other => ArgumentValueView::Other,
        }
    }
}

impl View for RawArgument {
    type V = RawArgumentView;

    open spec fn view(&self) -> RawArgumentView {
        match self {
            RawArgument::Flag(word) => RawArgumentView::Flag(word@),
            RawArgument::KeyValue(key, value) => RawArgumentView::KeyValue(key@, value@),
            RawArgument::List => RawArgumentView::List,
        }
    }
}

impl View for ConfigOverride {
    type V = ConfigOverrideView;

    open spec fn view(&self) -> ConfigOverrideView {
        ConfigOverrideView {
            explicit_name: match self.explicit_name {
                Some(name) => Some(name@),
                None => None,
            },
            explicit_visibility: match self.explicit_visibility {
                Some(visibility) => Some(visibility@),
                None => None,
            },
            force_private: self.force_private,
        }
    }
}

/// The arguments of a request as mathematical values, in their order.
pub open spec fn argument_views(arguments: Seq<RawArgument>) -> Seq<RawArgumentView> {
    arguments.map_values(|argument: RawArgument| argument@)
}

/// The overrides of a request without arguments.
pub open spec fn no_overrides() -> ConfigOverrideView {
    ConfigOverrideView { explicit_name: None, explicit_visibility: None, force_private: false }
}

/// The error for a known key whose value is no string literal.
pub open spec fn value_is_no_text() -> ErrorView {
    ErrorView::ConfigurationError("size_of_const values must be a str literal"@)
}

/// The error for a visibility that cannot be read.
pub open spec fn visibility_is_unreadable() -> ErrorView {
    ErrorView::ConfigurationError("size_of_const failed to parse visibility"@)
}

/// The error for an argument in list form.
pub open spec fn list_is_unsupported() -> ErrorView {
    ErrorView::ConfigurationError("size_of_const malformed attribute arguments"@)
}

/// The overrides once a visibility specifier has been read: the visibility
/// read is the explicit one; where none could be read, the request fails.
pub open spec fn with_visibility(
    overrides: ConfigOverrideView,
    parsed: Option<VisibilityView>,
) -> Result<ConfigOverrideView, ErrorView> {
    match parsed {
        Some(visibility) => Ok(
            ConfigOverrideView { explicit_visibility: Some(visibility), ..overrides },
        ),
        None => Err(visibility_is_unreadable()),
    }
}

/// The overrides after one more argument. The flag `private` and the keys
/// `name` and `visibility` are known; any other flag or key changes nothing.
pub open spec fn with_argument(
    overrides: ConfigOverrideView,
    argument: RawArgumentView,
) -> Result<ConfigOverrideView, ErrorView> {
    match argument {
        RawArgumentView::Flag(word) => if word == "private"@ {
            Ok(ConfigOverrideView { force_private: true, ..overrides })
        } else {
            Ok(overrides)
        },
        RawArgumentView::KeyValue(key, value) => if key == "name"@ {
            match value {
                ArgumentValueView::Text(name) => Ok(
                    ConfigOverrideView { explicit_name: Some(name), ..overrides },
                ),
                ArgumentValueView::Other => Err(value_is_no_text()),
            }
        } else if key == "visibility"@ {
            match value {
                ArgumentValueView::Text(specifier) => with_visibility(
                    overrides,
                    parsed_visibility(specifier),
                ),
                ArgumentValueView::Other => Err(value_is_no_text()),
            }
        } else {
            Ok(overrides)
        },
        RawArgumentView::List => Err(list_is_unsupported()),
    }
}

/// The overrides that a sequence of arguments asks for: each argument is
/// applied in turn to what the ones before it gave, and the first one that
/// fails decides the error.
pub open spec fn overrides_of(arguments: Seq<RawArgumentView>) -> Result<
    ConfigOverrideView,
    ErrorView,
>
    decreases arguments.len(),
{
    if arguments.len() == 0 {
        Ok(no_overrides())
    } else {
        match overrides_of(arguments.drop_last()) {
            Ok(overrides) => with_argument(overrides, arguments.last()),
            Err(error) => Err(error),
        }
    }
}

/// The outcome of reading arguments as a mathematical value.
pub open spec fn outcome_view(outcome: Result<ConfigOverride, Error>) -> Result<
    ConfigOverrideView,
    ErrorView,
> {
    match outcome {
        Ok(overrides) => Ok(overrides@),
        Err(error) => Err(error@),
    }
}

/// Whether a text spells the given word.
fn spells(text: &String, word: &str) -> (same: bool)
    ensures
        same == (text@ == word@),
{
    let word = String::from_str(word);
    *text == word
}

impl Default for ConfigOverride {
    /// The overrides of a request without arguments.
    fn default() -> (overrides: Self)
        ensures
            overrides@ == no_overrides(),
    {
        ConfigOverride::new()
    }
}

impl ConfigOverride {
    /// The overrides of a request without arguments: no name, no visibility,
    /// not private.
    pub fn new() -> (overrides: Self)
        ensures
            overrides@ == no_overrides(),
    {
        ConfigOverride { explicit_name: None, explicit_visibility: None, force_private: false }
    }

    /// Takes over the outcome of reading a visibility specifier: the
    /// visibility becomes the explicit one, and a specifier that could not be
    /// read is a configuration error.
    pub fn set_visibility(self, parsed: Option<Visibility>) -> (outcome: Result<Self, Error>)
        ensures
            outcome_view(outcome) == with_visibility(self@, read_view(parsed)),
    {
        match parsed {
            Some(visibility) => Ok(
                ConfigOverride {
                    explicit_name: self.explicit_name,
                    explicit_visibility: Some(visibility),
                    force_private: self.force_private,
                },
            ),
            None => Err(
                Error::ConfigurationError(
                    String::from_str("size_of_const failed to parse visibility"),
                ),
            ),
        }
    }

    /// Applies one argument to the overrides read so far.
    pub fn apply(self, argument: &RawArgument) -> (outcome: Result<Self, Error>)
        ensures
            outcome_view(outcome) == with_argument(self@, argument@),
    {
        match argument {
            RawArgument::Flag(word) => {
                if spells(word, "private") {
                    Ok(
                        ConfigOverride {
                            explicit_name: self.explicit_name,
                            explicit_visibility: self.explicit_visibility,
                            force_private: true,
                        },
                    )
                } else {
                    Ok(self)
                }
            },
            RawArgument::KeyValue(key, value) => {
                if spells(key, "name") {
                    match value {
                        ArgumentValue::Text(name) => Ok(
                            ConfigOverride {
                                explicit_name: Some(name.clone()),
                                explicit_visibility: self.explicit_visibility,
                                force_private: self.force_private,
                            },
                        ),
                        ArgumentValue::Other => Err(
                            Error::ConfigurationError(
                                String::from_str("size_of_const values must be a str literal"),
                            ),
                        ),
                    }
                } else if spells(key, "visibility") {
                    match value {
                        ArgumentValue::Text(specifier) => {
                            let parsed = parse_visibility(specifier.as_str());
                            self.set_visibility(parsed)
                        },
                        ArgumentValue::Other => Err(
                            Error::ConfigurationError(
                                String::from_str("size_of_const values must be a str literal"),
                            ),
                        ),
                    }
                } else {
                    Ok(self)
                }
            },
            RawArgument::List => Err(
                Error::ConfigurationError(
                    String::from_str("size_of_const malformed attribute arguments"),
                ),
            ),
        }
    }
}

/// Reads the arguments of a request, once and in their order.
///
/// The flag `private` asks for a private constant, `name = "..."` names the
/// constant and `visibility = "..."` gives its visibility; a later argument
/// replaces what an earlier one of the same key gave. Flags and keys that are
/// not known are passed over. A known key whose value is no string literal, a
/// visibility that cannot be read and an argument in list form each end the
/// reading with a configuration error.
pub fn parse_overrides(arguments: &Vec<RawArgument>) -> (outcome: Result<ConfigOverride, Error>)
    ensures
        outcome_view(outcome) == overrides_of(argument_views(arguments@)),
        arguments@.len() == 0 ==> outcome_view(outcome) == Ok::<ConfigOverrideView, ErrorView>(
            no_overrides(),
        ),
{
    let mut overrides = ConfigOverride::new();
    let mut i: usize = 0;
    while i < arguments.len()
        invariant
            i <= arguments.len(),
            overrides_of(argument_views(arguments@).take(i as int)) == Ok::<
                ConfigOverrideView,
                ErrorView,
            >(overrides@),
        decreases arguments.len() - i,
    {
        proof {
            let read = argument_views(arguments@).take(i + 1);
            assert(read.drop_last() == argument_views(arguments@).take(i as int));
            assert(read.last() == arguments[i as int]@);
        }
        match overrides.apply(&arguments[i]) {
            Ok(next) => {
                overrides = next;
            },
            Err(error) => {
                proof {
                    lemma_error_stays(argument_views(arguments@), i + 1);
                }
                return Err(error);
            },
        }
        i += 1;
    }
    assert(argument_views(arguments@).take(i as int) == argument_views(arguments@));
    Ok(overrides)
}

/// Once the first `n` arguments have failed, so has the whole request, and
/// with the same error.
pub proof fn lemma_error_stays(arguments: Seq<RawArgumentView>, n: int)
    requires
        0 <= n <= arguments.len(),
        overrides_of(arguments.take(n)) is Err,
    ensures
        overrides_of(arguments) == overrides_of(arguments.take(n)),
    decreases arguments.len(),
{
    if n == arguments.len() {
        assert(arguments.take(n) == arguments);
    } else {
        assert(arguments.drop_last().take(n) == arguments.take(n));
        lemma_error_stays(arguments.drop_last(), n);
    }
}

} // verus!
