//! The error value: one kind and one description.

use crate::kind::ErrorType;
use vstd::prelude::*;
use vstd::std_specs::cmp::PartialEqSpec;

verus! {

/// An I/O failure of the standard library, `std::io::Error`. It is only carried:
/// nothing is read from it and nothing is claimed of it.
#[verifier::external_type_specification]
#[verifier::external_body]
pub struct ExIoError(std::io::Error);

/// A failure of the codec: its kind, and a description for the reader.
///
/// The description is always present: an error built without one carries a
/// fixed default. It is set when the error is built and never changed; it is
/// read back through [`QoIError::description`] and [`QoIError::format`].
#[derive(Debug)]
pub struct QoIError {
    pub err_type: ErrorType,
    desc: String,
}

/// What an error is, as plain values: its kind and the characters of its
/// description.
pub ghost struct ErrorModel {
    pub err_type: ErrorType,
    pub desc: Seq<char>,
}

impl View for QoIError {
    type V = ErrorModel;

    closed spec fn view(&self) -> ErrorModel {
        ErrorModel { err_type: self.err_type, desc: self.desc@ }
    }
}

/// The description of an error that was built without one.
pub open spec fn default_description() -> Seq<char> {
    "no description provided"@
}

/// What every I/O failure turns into: kind `IOError`, default description.
pub open spec fn io_failure() -> ErrorModel {
    ErrorModel { err_type: ErrorType::IOError, desc: default_description() }
}

impl ErrorModel {
    /// The line of text that shows an error: a fixed opening, the kind's label
    /// between quotation marks, a fixed separator, and the description.
    pub open spec fn rendered(self) -> Seq<char> {
        "CodecError of type \""@ + self.err_type.label() + "\", additional info: "@ + self.desc
    }
}

impl QoIError {
    /// An error of the given kind with the default description.
    pub fn new(err_type: ErrorType) -> (e: Self)
        ensures
            e@ == (ErrorModel { err_type, desc: default_description() }),
    {
        Self::new_with_description(err_type, String::from_str("no description provided"))
    }

    /// An error of the given kind with the given description, which may be
    /// empty and is kept character for character.
    pub fn new_with_description(err_type: ErrorType, desc: String) -> (e: Self)
        ensures
            e@ == (ErrorModel { err_type, desc: desc@ }),
    {
        Self { err_type, desc }
    }

    /// The kind of this error: the field `err_type`, for callers that know the
    /// error by its view.
    pub fn kind(&self) -> (kind: ErrorType)
        ensures
            kind == self@.err_type,
    {
        self.err_type
    }

    /// The description of this error.
    pub fn description(&self) -> (text: &str)
        ensures
            text@ == self@.desc,
    {
        self.desc.as_str()
    }

    /// The error as one line of text. Neither the label nor the description is
    /// escaped or trimmed.
    pub fn format(&self) -> (text: String)
        ensures
            text@ == self@.rendered(),
    {
        let mut text = String::from_str("CodecError of type \"");
        text.append(self.err_type.describe());
        text.append("\", additional info: ");
        text.append(self.desc.as_str());
        text
    }
}

impl Clone for QoIError {
    fn clone(&self) -> (copy: Self)
        ensures
            copy@ == self@,
    {
        Self { err_type: self.err_type, desc: self.desc.clone() }
    }
}

impl PartialEq for QoIError {
    fn eq(&self, other: &Self) -> (equal: bool) {
        self.err_type == other.err_type && self.desc == other.desc
    }
}

impl Eq for QoIError {

}

/// Two errors are equal exactly when they are of one kind and their
/// descriptions hold the same characters.
impl vstd::std_specs::cmp::PartialEqSpecImpl for QoIError {
    open spec fn obeys_eq_spec() -> bool {
        true
    }

    open spec fn eq_spec(&self, other: &Self) -> bool {
        self@ == other@
    }
}

impl From<std::io::Error> for QoIError {
    /// Any I/O failure becomes an error of kind `IOError` with the default
    /// description. The failure's own message is dropped.
    fn from(value: std::io::Error) -> (e: Self)
        ensures
            e@ == io_failure(),
    {
        Self::new(ErrorType::IOError)
    }
}

/// The conversion is stated on the view, by the `ensures` of `from`. Two strings
/// of the same characters need not be one value, so no single `QoIError` is
/// named as the result: `from_spec` picks some error that looks right, and
/// `obeys_from_spec` does not claim that `from` returns that very one.
impl vstd::std_specs::convert::FromSpecImpl<std::io::Error> for QoIError {
    open spec fn obeys_from_spec() -> bool {
        false
    }

    open spec fn from_spec(value: std::io::Error) -> Self {
        choose|e: Self| e@ == io_failure()
    }
}

/// What a fallible operation of the codec returns.
pub type Result<T> = std::result::Result<T, QoIError>;

/// The text of an error ends with its description, character for character,
/// after an opening of fixed length and the kind's label.
pub proof fn lemma_rendered_layout(err_type: ErrorType, desc: Seq<char>)
    ensures
        ({
            let text = (ErrorModel { err_type, desc }).rendered();
            let head = "CodecError of type \""@ + err_type.label() + "\", additional info: "@;
            &&& text == head + desc
            &&& head.len() == 40 + err_type.label().len()
            &&& text.len() == head.len() + desc.len()
            &&& text.subrange(head.len() as int, text.len() as int) == desc
            &&& forall|i: int| 0 <= i < desc.len() ==> text[head.len() + i] == desc[i]
        }),
{
    reveal_strlit("CodecError of type \"");
    reveal_strlit("\", additional info: ");
    let text = (ErrorModel { err_type, desc }).rendered();
    let head = "CodecError of type \""@ + err_type.label() + "\", additional info: "@;
    assert(text =~= head + desc);
    assert(text.subrange(head.len() as int, text.len() as int) =~= desc);
}

/// Errors of one kind whose texts agree have the same description.
pub proof fn lemma_rendered_tells_description(
    err_type: ErrorType,
    first: Seq<char>,
    second: Seq<char>,
)
    requires
        (ErrorModel { err_type, desc: first }).rendered() == (ErrorModel {
            err_type,
            desc: second,
        }).rendered(),
    ensures
        first == second,
{
    lemma_rendered_layout(err_type, first);
    lemma_rendered_layout(err_type, second);
}

/// Equality of errors is reflexive, symmetric and transitive.
pub proof fn lemma_eq_is_equivalence(a: QoIError, b: QoIError, c: QoIError)
    ensures
        a.eq_spec(&a),
        a.eq_spec(&b) <==> b.eq_spec(&a),
        a.eq_spec(&b) && b.eq_spec(&c) ==> a.eq_spec(&c),
{
}

/// Equality of errors is equality of both parts: a different kind or a
/// different description makes two errors unequal.
pub proof fn lemma_eq_is_structural(a: QoIError, b: QoIError)
    ensures
        a.eq_spec(&b) <==> a@.err_type == b@.err_type && a@.desc == b@.desc,
{
}

} // verus!
