//! Errors: what went wrong, and where in the source.

use vstd::prelude::*;
use vstd::string::*;
use crate::syntax::{views, Span};

verus! {

/// The decimal digits of `n`.
pub uninterp spec fn decimal_text(n: usize) -> Seq<char>;

/// `usize::to_string`: the number in decimal digits, which have a name here
/// and no definition.
#[verifier::external_body]
fn decimal(n: usize) -> (s: String)
    ensures
        s@ == decimal_text(n),
{
    n.to_string()
}

/// What went wrong.
#[derive(Debug, PartialEq, Eq)]
pub enum ErrorKind {
    /// An error that has only its text.
    Message(String),
    /// The unit declares no aggregate.
    MissingAggregate,
    /// The unit declares more than one aggregate.
    AmbiguousAggregate { count: usize },
    /// A role has no contract of the matching name.
    MissingContract { role: String },
    /// The aggregate is declared `pub`.
    AggregateNotPrivate,
    /// The aggregate has no property.
    MissingProperties,
    /// The aggregate has no impl block.
    MissingImplBlocks,
    /// A property is neither of a primitive type nor a role slot.
    InvalidPropertyType { property: String },
    /// A call goes through a slot whose role is not declared.
    RoleNotFound { field: String },
    /// A call goes through a slot whose role is declared more than once.
    AmbiguousRole { field: String },
    /// A call names a method that neither the contract nor the role has.
    MethodNotFound { role: String, method: String },
    /// Two generic parameters of the composite would share a name.
    ConflictingGenericParameter { name: String },
    /// A value reached the emitter in a shape that synthesis never produces.
    UnexpectedShape,
}

/// The view of `ErrorKind`.
pub ghost enum ErrorKindView {
    Message(Seq<char>),
    MissingAggregate,
    AmbiguousAggregate { count: usize },
    MissingContract { role: Seq<char> },
    AggregateNotPrivate,
    MissingProperties,
    MissingImplBlocks,
    InvalidPropertyType { property: Seq<char> },
    RoleNotFound { field: Seq<char> },
    AmbiguousRole { field: Seq<char> },
    MethodNotFound { role: Seq<char>, method: Seq<char> },
    ConflictingGenericParameter { name: Seq<char> },
    UnexpectedShape,
}

impl View for ErrorKind {
    type V = ErrorKindView;

    open spec fn view(&self) -> ErrorKindView {
        match self {
            ErrorKind::Message(text) => ErrorKindView::Message(text@),
            ErrorKind::MissingAggregate => ErrorKindView::MissingAggregate,
            ErrorKind::AmbiguousAggregate { count } => ErrorKindView::AmbiguousAggregate {
                count: *count,
            },
            ErrorKind::MissingContract { role } => ErrorKindView::MissingContract { role: role@ },
            ErrorKind::AggregateNotPrivate => ErrorKindView::AggregateNotPrivate,
            ErrorKind::MissingProperties => ErrorKindView::MissingProperties,
            ErrorKind::MissingImplBlocks => ErrorKindView::MissingImplBlocks,
            ErrorKind::InvalidPropertyType { property } => ErrorKindView::InvalidPropertyType {
                property: property@,
            },
            ErrorKind::RoleNotFound { field } => ErrorKindView::RoleNotFound { field: field@ },
            ErrorKind::AmbiguousRole { field } => ErrorKindView::AmbiguousRole { field: field@ },
            ErrorKind::MethodNotFound { role, method } => ErrorKindView::MethodNotFound {
                role: role@,
                method: method@,
            },
            ErrorKind::ConflictingGenericParameter { name } => {
                ErrorKindView::ConflictingGenericParameter { name: name@ }
            },
            ErrorKind::UnexpectedShape => ErrorKindView::UnexpectedShape,
        }
    }
}

impl Clone for ErrorKind {
    fn clone(&self) -> (res: Self)
        ensures
            res@ == self@,
    {
        match self {
            ErrorKind::Message(text) => ErrorKind::Message(text.clone()),
            ErrorKind::MissingAggregate => ErrorKind::MissingAggregate,
            ErrorKind::AmbiguousAggregate { count } => ErrorKind::AmbiguousAggregate {
                count: *count,
            },
            ErrorKind::MissingContract { role } => ErrorKind::MissingContract {
                role: role.clone(),
            },
            ErrorKind::AggregateNotPrivate => ErrorKind::AggregateNotPrivate,
            ErrorKind::MissingProperties => ErrorKind::MissingProperties,
            ErrorKind::MissingImplBlocks => ErrorKind::MissingImplBlocks,
            ErrorKind::InvalidPropertyType { property } => ErrorKind::InvalidPropertyType {
                property: property.clone(),
            },
            ErrorKind::RoleNotFound { field } => ErrorKind::RoleNotFound { field: field.clone() },
            ErrorKind::AmbiguousRole { field } => ErrorKind::AmbiguousRole {
                field: field.clone(),
            },
            ErrorKind::MethodNotFound { role, method } => ErrorKind::MethodNotFound {
                role: role.clone(),
                method: method.clone(),
            },
            ErrorKind::ConflictingGenericParameter { name } => {
                ErrorKind::ConflictingGenericParameter { name: name.clone() }
            },
            ErrorKind::UnexpectedShape => ErrorKind::UnexpectedShape,
        }
    }
}

/// The text that tells the number of aggregates, given in digits.
pub open spec fn count_message(digits: Seq<char>) -> Seq<char> {
    "Found "@ + digits
        + " Context structs - each module must define exactly one Context struct"@
}

/// The text that tells the number of aggregates, given in digits.
pub fn count_message_for(digits: &str) -> (res: String)
    ensures
        res@ == count_message(digits@),
{
    let mut s = "Found ".to_owned();
    s.append(digits);
    s.append(" Context structs - each module must define exactly one Context struct");
    s
}

/// The text of an error.
pub open spec fn message_of(kind: ErrorKindView) -> Seq<char> {
    match kind {
        ErrorKindView::Message(text) => text,
        ErrorKindView::MissingAggregate => {
            "Missing Context struct - each module must define exactly one Context struct"@
        },
        ErrorKindView::AmbiguousAggregate { count } => count_message(decimal_text(count)),
        ErrorKindView::MissingContract { role } => "No matching contract found for role: "@
            + role,
        ErrorKindView::AggregateNotPrivate => "`Context` must be private."@,
        ErrorKindView::MissingProperties => "Context struct must have at least one property"@,
        ErrorKindView::MissingImplBlocks => "Context struct must have at least one impl block"@,
        ErrorKindView::InvalidPropertyType { property } => "Field `"@ + property
            + "` in `Context` must be a primitive type or a struct ending in `Role`."@,
        ErrorKindView::RoleNotFound { field } => "No role found for field `"@ + field + "`"@,
        ErrorKindView::AmbiguousRole { field } => "More than one role found for field `"@ + field
            + "`"@,
        ErrorKindView::MethodNotFound { role, method } => "Method `"@ + method
            + "` not found in role `"@ + role + "`"@,
        ErrorKindView::ConflictingGenericParameter { name } => {
            "Conflicting generic parameter `"@ + name + "`"@
        },
        ErrorKindView::UnexpectedShape => "Context struct is not in the expected shape"@,
    }
}

impl ErrorKind {
    /// The text of the error.
    pub fn message(&self) -> (res: String)
        ensures
            res@ == message_of(self@),
    {
        match self {
            ErrorKind::Message(text) => text.clone(),
            ErrorKind::MissingAggregate => {
                let text =
                    "Missing Context struct - each module must define exactly one Context struct";
                text.to_owned()
            },
            ErrorKind::AmbiguousAggregate { count } => count_message_for(
                decimal(*count).as_str(),
            ),
            ErrorKind::MissingContract { role } => {
                let mut s = "No matching contract found for role: ".to_owned();
                s.append(role.as_str());
                s
            },
            ErrorKind::AggregateNotPrivate => "`Context` must be private.".to_owned(),
            ErrorKind::MissingProperties => {
                "Context struct must have at least one property".to_owned()
            },
            ErrorKind::MissingImplBlocks => {
                "Context struct must have at least one impl block".to_owned()
            },
            ErrorKind::InvalidPropertyType { property } => {
                let mut s = "Field `".to_owned();
                s.append(property.as_str());
                s.append("` in `Context` must be a primitive type or a struct ending in `Role`.");
                s
            },
            ErrorKind::RoleNotFound { field } => {
                let mut s = "No role found for field `".to_owned();
                s.append(field.as_str());
                s.append("`");
                s
            },
            ErrorKind::AmbiguousRole { field } => {
                let mut s = "More than one role found for field `".to_owned();
                s.append(field.as_str());
                s.append("`");
                s
            },
            ErrorKind::MethodNotFound { role, method } => {
                let mut s = "Method `".to_owned();
                s.append(method.as_str());
                s.append("` not found in role `");
                s.append(role.as_str());
                s.append("`");
                s
            },
            ErrorKind::ConflictingGenericParameter { name } => {
                let mut s = "Conflicting generic parameter `".to_owned();
                s.append(name.as_str());
                s.append("`");
                s
            },
            ErrorKind::UnexpectedShape => "Context struct is not in the expected shape".to_owned(),
        }
    }
}

/// An error with the place in the source that it is about, if one is known.
#[derive(Debug, PartialEq, Eq)]
pub struct MacroError {
    kind: ErrorKind,
    span: Option<Span>,
}

/// The view of `MacroError`.
pub ghost struct MacroErrorView {
    pub kind: ErrorKindView,
    pub span: Option<Span>,
}

impl View for MacroError {
    type V = MacroErrorView;

    closed spec fn view(&self) -> MacroErrorView {
        MacroErrorView { kind: self.kind@, span: self.span }
    }
}

impl Clone for MacroError {
    fn clone(&self) -> (res: Self)
        ensures
            res@ == self@,
    {
        MacroError { kind: self.kind.clone(), span: self.span }
    }
}

/// The start of the compilation unit.
pub open spec fn start_of_unit() -> Span {
    Span { line: 1, column: 0 }
}

impl MacroErrorView {
    /// The text of the error.
    pub open spec fn message(self) -> Seq<char> {
        message_of(self.kind)
    }

    /// The place that a diagnostic points to: the start of the unit where
    /// the error has no place of its own.
    pub open spec fn location(self) -> Span {
        match self.span {
            Some(span) => span,
            None => start_of_unit(),
        }
    }
}

impl MacroError {
    /// An error with a text and a place.
    pub fn new(message: &str, span: Span) -> (res: Self)
        ensures
            res@ == (MacroErrorView { kind: ErrorKindView::Message(message@), span: Some(span) }),
    {
        MacroError { kind: ErrorKind::Message(message.to_owned()), span: Some(span) }
    }

    /// An error with a text only.
    pub fn without_span(message: &str) -> (res: Self)
        ensures
            res@ == (MacroErrorView { kind: ErrorKindView::Message(message@), span: None }),
    {
        MacroError { kind: ErrorKind::Message(message.to_owned()), span: None }
    }

    /// An error of a kind, at a place.
    pub fn of_kind(kind: ErrorKind, span: Span) -> (res: Self)
        ensures
            res@ == (MacroErrorView { kind: kind@, span: Some(span) }),
    {
        MacroError { kind, span: Some(span) }
    }

    /// An error of a kind, with no place of its own.
    pub fn unplaced(kind: ErrorKind) -> (res: Self)
        ensures
            res@ == (MacroErrorView { kind: kind@, span: None }),
    {
        MacroError { kind, span: None }
    }

    /// The same error at another place.
    pub fn with_span(self, span: Span) -> (res: Self)
        ensures
            res@ == (MacroErrorView { kind: self@.kind, span: Some(span) }),
    {
        MacroError { kind: self.kind, span: Some(span) }
    }

    /// The place of the error.
    pub fn span(&self) -> (res: Option<&Span>)
        ensures
            match res {
                Some(span) => self@.span == Some(*span),
                None => self@.span is None,
            },
    {
        self.span.as_ref()
    }

    /// What went wrong.
    pub fn kind(&self) -> (res: &ErrorKind)
        ensures
            res@ == self@.kind,
    {
        &self.kind
    }

    /// The text of the error.
    pub fn message(&self) -> (res: String)
        ensures
            res@ == self@.message(),
    {
        self.kind.message()
    }

    /// The place that a diagnostic points to.
    pub fn location(&self) -> (res: Span)
        ensures
            res == self@.location(),
    {
        match self.span {
            Some(span) => span,
            None => Span { line: 1, column: 0 },
        }
    }
}

/// One line of a list: four spaces, the number in digits, a dot, the text.
pub open spec fn listed_line(digits: Seq<char>, message: Seq<char>) -> Seq<char> {
    "    "@ + digits + ". "@ + message + "\n"@
}

/// Adds one line to a list: four spaces, the number in digits, a dot, the
/// text.
pub fn push_listed_line(list: &mut String, digits: &str, message: &str)
    ensures
        final(list)@ == old(list)@ + listed_line(digits@, message@),
{
    list.append("    ");
    list.append(digits);
    list.append(". ");
    list.append(message);
    list.append("\n");
    assert(final(list)@ =~= old(list)@ + listed_line(digits@, message@));
}

/// One line of a list of errors, with its number.
pub open spec fn listed(number: usize, error: MacroErrorView) -> Seq<char> {
    listed_line(decimal_text(number), error.message())
}

/// The lines for the first `n` errors.
pub open spec fn listed_prefix(errors: Seq<MacroErrorView>, n: nat) -> Seq<char>
    recommends
        n <= errors.len() <= usize::MAX,
    decreases n,
{
    if n == 0 {
        Seq::empty()
    } else {
        listed_prefix(errors, (n - 1) as nat) + listed(n as usize, errors[n - 1])
    }
}

/// The text of an error that stands for several: the heading, a colon, and
/// the errors on numbered lines.
pub open spec fn combined_message(message: Seq<char>, errors: Seq<MacroErrorView>) -> Seq<char> {
    message + ":\n"@ + listed_prefix(errors, errors.len())
}

/// One error that stands for several, with the errors listed by number in
/// its text.
pub fn create_multiple_errors(message: &str, errors: Vec<MacroError>, span: Span) -> (res:
    MacroError)
    ensures
        res@ == (MacroErrorView {
            kind: ErrorKindView::Message(combined_message(message@, views(errors))),
            span: Some(span),
        }),
{
    let mut combined_message = message.to_owned();
    combined_message.append(":\n");
    let ghost head = combined_message@;
    let mut i: usize = 0;
    assert(head + listed_prefix(views(errors), 0) =~= head);
    while i < errors.len()
        invariant
            i <= errors.len(),
            combined_message@ == head + listed_prefix(views(errors), i as nat),
        decreases errors.len() - i,
    {
        let ghost before = combined_message@;
        push_listed_line(
            &mut combined_message,
            decimal(i + 1).as_str(),
            errors[i].message().as_str(),
        );
        assert(combined_message@ =~= before + listed((i + 1) as usize, views(errors)[i as int]));
        assert(combined_message@ =~= head + listed_prefix(views(errors), (i + 1) as nat));
        i += 1;
    }
    MacroError { kind: ErrorKind::Message(combined_message), span: Some(span) }
}

} // verus!
