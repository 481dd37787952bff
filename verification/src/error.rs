//! The errors that request handling answers with.

use vstd::prelude::*;

verus! {

/// A text that is either a literal of the program or owned.
#[derive(Debug)]
pub enum ImmutStr {
    Static(&'static str),
    Boxed(Box<str>),
}

impl View for ImmutStr {
    type V = Seq<char>;

    open spec fn view(&self) -> Seq<char> {
        match self {
            ImmutStr::Static(s) => s@,
            ImmutStr::Boxed(s) => s@,
        }
    }
}

/// Turns an owned string into a boxed slice with `String::into_boxed_str`,
/// which keeps the characters.
#[verifier::external_body]
fn boxed_text(s: String) -> (out: Box<str>)
    ensures
        out@ == s@,
{
    s.into_boxed_str()
}

impl From<&'static str> for ImmutStr {
    fn from(s: &'static str) -> (out: ImmutStr)
        ensures
            out == ImmutStr::Static(s),
    {
        ImmutStr::Static(s)
    }
}

impl vstd::std_specs::convert::FromSpecImpl<&'static str> for ImmutStr {
    open spec fn obeys_from_spec() -> bool {
        true
    }

    open spec fn from_spec(s: &'static str) -> ImmutStr {
        ImmutStr::Static(s)
    }
}

impl From<String> for ImmutStr {
    fn from(s: String) -> (out: ImmutStr)
        ensures
            out is Boxed,
            out@ == s@,
    {
        ImmutStr::Boxed(boxed_text(s))
    }
}

/// Converting an owned string boxes it: the result is stated by its variant
/// and its view, in the `ensures` of `from`, and not as a value.
impl vstd::std_specs::convert::FromSpecImpl<String> for ImmutStr {
    open spec fn obeys_from_spec() -> bool {
        false
    }

    open spec fn from_spec(s: String) -> ImmutStr {
        arbitrary()
    }
}

impl ImmutStr {
    /// The text as an owned string.
    pub fn text(&self) -> (out: String)
        ensures
            out@ == self@,
    {
        match self {
            ImmutStr::Static(s) => String::from_str(s),
            ImmutStr::Boxed(s) => String::from_str(s),
        }
    }
}

/// An error of request handling. Each kind but the last is the caller's
/// fault and carries what to tell the caller; `Internal` is the server's.
#[derive(Debug)]
pub enum AppError {
    NotFound(ImmutStr),
    InvalidInput(ImmutStr),
    AlreadyExist(ImmutStr),
    Forbidden(ImmutStr),
    Internal(ImmutStr),
}

/// What converting `msg` into a text may give.
pub open spec fn converts<T: Into<ImmutStr>>(msg: T, text: ImmutStr) -> bool {
    call_ensures(<T as Into<ImmutStr>>::into, (msg,), text)
}

impl AppError {
    /// The text that the error carries.
    pub open spec fn detail(self) -> ImmutStr {
        match self {
            AppError::NotFound(text) => text,
            AppError::InvalidInput(text) => text,
            AppError::AlreadyExist(text) => text,
            AppError::Forbidden(text) => text,
            AppError::Internal(text) => text,
        }
    }

    /// The HTTP status that answers the error.
    pub open spec fn status_code(self) -> u16 {
        match self {
            AppError::NotFound(_) => 404,
            AppError::InvalidInput(_) => 422,
            AppError::AlreadyExist(_) => 409,
            AppError::Forbidden(_) => 403,
            AppError::Internal(_) => 500,
        }
    }

    /// Something asked for is not there.
    pub fn not_found<T: Into<ImmutStr>>(msg: T) -> (e: AppError)
        ensures
            e is NotFound,
            converts(msg, e.detail()),
    {
        AppError::NotFound(msg.into())
    }

    /// The request cannot be carried out as it is.
    pub fn invalid_input<T: Into<ImmutStr>>(msg: T) -> (e: AppError)
        ensures
            e is InvalidInput,
            converts(msg, e.detail()),
    {
        AppError::InvalidInput(msg.into())
    }

    /// What was to be made is there already.
    pub fn already_exist<T: Into<ImmutStr>>(msg: T) -> (e: AppError)
        ensures
            e is AlreadyExist,
            converts(msg, e.detail()),
    {
        AppError::AlreadyExist(msg.into())
    }

    /// The caller may not do this.
    pub fn forbidden<T: Into<ImmutStr>>(msg: T) -> (e: AppError)
        ensures
            e is Forbidden,
            converts(msg, e.detail()),
    {
        AppError::Forbidden(msg.into())
    }

    /// Anything that went wrong on the server's side.
    pub fn any<T: Into<ImmutStr>>(msg: T) -> (e: AppError)
        ensures
            e is Internal,
            converts(msg, e.detail()),
    {
        AppError::Internal(msg.into())
    }

    /// The HTTP status that answers the error.
    pub fn status(&self) -> (code: u16)
        ensures
            code == self.status_code(),
    {
        match self {
            AppError::NotFound(_) => 404,
            AppError::InvalidInput(_) => 422,
            AppError::AlreadyExist(_) => 409,
            AppError::Forbidden(_) => 403,
            AppError::Internal(_) => 500,
        }
    }

    /// The text that the error carries, as an owned string.
    pub fn message(&self) -> (out: String)
        ensures
            out@ == self.detail()@,
    {
        match self {
            AppError::NotFound(text) => text.text(),
            AppError::InvalidInput(text) => text.text(),
            AppError::AlreadyExist(text) => text.text(),
            AppError::Forbidden(text) => text.text(),
            AppError::Internal(text) => text.text(),
        }
    }
}

/// An error made from a literal carries that literal.
pub proof fn lemma_literal_detail(msg: &'static str, text: ImmutStr)
    requires
        converts(msg, text),
    ensures
        text == ImmutStr::Static(msg),
        text@ == msg@,
{
}

/// An error made from an owned string carries its characters, boxed.
pub proof fn law_owned_text_is_kept(msg: String, text: ImmutStr)
    requires
        converts(msg, text),
    ensures
        text is Boxed,
        text@ == msg@,
{
}

} // verus!
