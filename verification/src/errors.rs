//! The error that every part of the tracer reports: an error number for the
//! traced process, and words for whoever reads the log.

use vstd::prelude::*;
use vstd::string::StringExecFns;
use vstd::string::to_string_from_display_ensures;
use crate::errno::{errno_of_raw, errno_text, Errno, UNKNOWN_ERRNO};

verus! {

#[verifier::external_type_specification]
#[verifier::external_body]
pub struct ExIoError(std::io::Error);

#[verifier::external_type_specification]
#[verifier::external_body]
pub struct ExUtf8Error(std::str::Utf8Error);

#[verifier::external_type_specification]
#[verifier::external_body]
pub struct ExStripPrefixError(std::path::StripPrefixError);

/// `std::io::Error::raw_os_error`: the error number that the operating
/// system gave, if the error came from there. Nothing is claimed of it.
pub assume_specification[ std::io::Error::raw_os_error ](e: &std::io::Error) -> (raw: Option<i32>)
;

/// An error: its number, a message if one was attached, and the words of the
/// error that caused it if there was one.
#[derive(Clone, Debug)]
pub struct Error {
    pub errno: Errno,
    pub msg: Option<String>,
    pub source: Option<String>,
}

/// The characters of a text, if there is one.
pub open spec fn text_view(text: Option<String>) -> Option<Seq<char>> {
    match text {
        Some(s) => Some(s@),
        None => None,
    }
}

/// The character of the digit `d`.
pub open spec fn digit_char(d: int) -> char {
    if d == 0 {
        '0'
    } else if d == 1 {
        '1'
    } else if d == 2 {
        '2'
    } else if d == 3 {
        '3'
    } else if d == 4 {
        '4'
    } else if d == 5 {
        '5'
    } else if d == 6 {
        '6'
    } else if d == 7 {
        '7'
    } else if d == 8 {
        '8'
    } else {
        '9'
    }
}

/// The digits of `n`, with no leading zero.
pub open spec fn decimal_digits(n: nat) -> Seq<char>
    decreases n,
{
    if n < 10 {
        seq![digit_char(n as int)]
    } else {
        decimal_digits(n / 10).push(digit_char((n % 10) as int))
    }
}

/// How the number `n` is written: its digits, behind a `-` if it is
/// negative.
pub open spec fn decimal(n: int) -> Seq<char> {
    if n < 0 {
        seq!['-'] + decimal_digits((-n) as nat)
    } else {
        decimal_digits(n as nat)
    }
}

fn digit_str(d: u32) -> (r: &'static str)
    requires
        d < 10,
    ensures
        r@ == seq![digit_char(d as int)],
{
    proof {
        reveal_strlit("0");
        reveal_strlit("1");
        reveal_strlit("2");
        reveal_strlit("3");
        reveal_strlit("4");
        reveal_strlit("5");
        reveal_strlit("6");
        reveal_strlit("7");
        reveal_strlit("8");
        reveal_strlit("9");
    }
    let r = if d == 0 {
        "0"
    } else if d == 1 {
        "1"
    } else if d == 2 {
        "2"
    } else if d == 3 {
        "3"
    } else if d == 4 {
        "4"
    } else if d == 5 {
        "5"
    } else if d == 6 {
        "6"
    } else if d == 7 {
        "7"
    } else if d == 8 {
        "8"
    } else {
        "9"
    };
    assert(r@ =~= seq![digit_char(d as int)]);
    r
}

fn write_digits(n: u32) -> (text: String)
    ensures
        text@ == decimal_digits(n as nat),
    decreases n,
{
    if n < 10 {
        String::from_str(digit_str(n))
    } else {
        let mut text = write_digits(n / 10);
        text.append(digit_str(n % 10));
        assert(text@ =~= decimal_digits(n as nat));
        text
    }
}

/// Writes the number `n` in decimal.
pub fn write_decimal(n: i32) -> (text: String)
    ensures
        text@ == decimal(n as int),
{
    if n < 0 {
        proof {
            reveal_strlit("-");
        }
        let mut text = String::from_str("-");
        let digits = write_digits((-(n as i64)) as u32);
        text.append(digits.as_str());
        assert(text@ =~= decimal(n as int));
        text
    } else {
        write_digits(n as u32)
    }
}

/// How an error reads: its number with the platform's words for it, then the
/// message and the cause where there are any.
pub open spec fn description(
    errno_text: Seq<char>,
    errno_digits: Seq<char>,
    msg: Option<Seq<char>>,
    source: Option<Seq<char>>,
) -> Seq<char> {
    "Error with "@ + errno_text + "("@ + errno_digits + ")"@ + (match msg {
        Some(m) => ", msg: "@ + m,
        None => Seq::empty(),
    }) + (match source {
        Some(s) => ", source: "@ + s,
        None => Seq::empty(),
    })
}

/// Puts the description of an error together from its parts.
pub fn describe_parts(
    errno_text: &str,
    errno_digits: &str,
    msg: &Option<String>,
    source: &Option<String>,
) -> (text: String)
    ensures
        text@ == description(errno_text@, errno_digits@, text_view(*msg), text_view(*source)),
{
    let mut text = String::from_str("Error with ");
    text.append(errno_text);
    text.append("(");
    text.append(errno_digits);
    text.append(")");
    match msg {
        Some(m) => {
            text.append(", msg: ");
            text.append(m.as_str());
        },
        None => {},
    }
    match source {
        Some(s) => {
            text.append(", source: ");
            text.append(s.as_str());
        },
        None => {},
    }
    assert(text@ =~= description(errno_text@, errno_digits@, text_view(*msg), text_view(*source)));
    text
}

impl Error {
    /// An error of unknown kind, with no message.
    pub fn unknown() -> (e: Error)
        ensures
            e == (Error { errno: Errno { raw: UNKNOWN_ERRNO }, msg: None, source: None }),
    {
        Error::errno(Errno::unknown())
    }

    /// An error with the number `errno` and no message.
    pub fn errno(errno: Errno) -> (e: Error)
        ensures
            e == (Error { errno, msg: None, source: None }),
    {
        Error { errno, msg: None, source: None }
    }

    /// An error of unknown kind with the message `msg`.
    pub fn msg(msg: String) -> (e: Error)
        ensures
            e == (Error { errno: Errno { raw: UNKNOWN_ERRNO }, msg: Some(msg), source: None }),
    {
        Error::errno_with_msg(Errno::unknown(), msg)
    }

    /// An error with the number `errno` and the message `msg`.
    pub fn errno_with_msg(errno: Errno, msg: String) -> (e: Error)
        ensures
            e == (Error { errno, msg: Some(msg), source: None }),
    {
        Error { errno, msg: Some(msg), source: None }
    }

    /// This error with the number `errno` in place of its own.
    pub fn with_errno(self, errno: Errno) -> (e: Error)
        ensures
            e == (Error { errno, ..self }),
    {
        let mut e = self;
        e.errno = errno;
        e
    }

    /// This error with the message `msg` in place of its own.
    pub fn with_msg(self, msg: String) -> (e: Error)
        ensures
            e == (Error { msg: Some(msg), ..self }),
    {
        let mut e = self;
        e.msg = Some(msg);
        e
    }

    /// The number of this error; [`UNKNOWN_ERRNO`] if none was set.
    pub fn get_errno(&self) -> (errno: Errno)
        ensures
            errno == self.errno,
    {
        self.errno
    }

    /// The error for a failure of the operating system: the number that the
    /// system gave, where the platform has an error of that number, the
    /// unknown error where it has none or the system gave none; no message;
    /// `source` as the cause.
    pub fn from_os_error(raw: Option<i32>, source: String) -> (e: Error)
        ensures
            e.msg is None,
            e.source == Some(source),
            e.errno.raw == (match raw {
                Some(code) => errno_of_raw(code),
                None => UNKNOWN_ERRNO,
            }),
            raw matches Some(code) ==> e.errno.raw == code || e.errno.raw == UNKNOWN_ERRNO,
    {
        let errno = match raw {
            Some(raw) => Errno::from_raw(raw),
            None => Errno::unknown(),
        };
        Error { errno, msg: None, source: Some(source) }
    }

    /// How this error reads: `Error with`, the platform's words for the
    /// number, the number in brackets, then the message and the cause where
    /// there are any.
    pub fn describe(&self) -> (text: String)
        ensures
            text@ == description(
                errno_text(self.errno.raw),
                decimal(self.errno.raw as int),
                text_view(self.msg),
                text_view(self.source),
            ),
    {
        let errno_text = self.errno.desc();
        let digits = write_decimal(self.errno.raw);
        describe_parts(errno_text.as_str(), digits.as_str(), &self.msg, &self.source)
    }
}

impl PartialEq for Error {
    /// Two errors are equal when their numbers are.
    fn eq(&self, other: &Error) -> (r: bool) {
        self.errno.raw == other.errno.raw
    }
}

impl vstd::std_specs::cmp::PartialEqSpecImpl for Error {
    open spec fn obeys_eq_spec() -> bool {
        true
    }

    open spec fn eq_spec(&self, other: &Error) -> bool {
        self.errno.raw == other.errno.raw
    }
}

impl From<Errno> for Error {
    fn from(errno: Errno) -> (e: Error) {
        Error::errno(errno)
    }
}

impl vstd::std_specs::convert::FromSpecImpl<Errno> for Error {
    open spec fn obeys_from_spec() -> bool {
        true
    }

    open spec fn from_spec(errno: Errno) -> Error {
        Error { errno, msg: None, source: None }
    }
}

impl From<std::io::Error> for Error {
    /// The error keeps the number that the operating system gave, and the
    /// words of `error` as its cause.
    fn from(error: std::io::Error) -> (e: Error)
        ensures
            e.msg is None,
            e.source is Some,
            to_string_from_display_ensures::<std::io::Error>(&error, e.source->0),
            e.errno.raw == UNKNOWN_ERRNO || exists|code: i32|
                e.errno.raw == #[trigger] errno_of_raw(code),
    {
        let raw = error.raw_os_error();
        Error::from_os_error(raw, error.to_string())
    }
}

impl vstd::std_specs::convert::FromSpecImpl<std::io::Error> for Error {
    open spec fn obeys_from_spec() -> bool {
        false
    }

    open spec fn from_spec(error: std::io::Error) -> Error {
        arbitrary()
    }
}

impl From<std::str::Utf8Error> for Error {
    /// The error is of unknown kind; its message says what was wrong with
    /// the bytes.
    fn from(error: std::str::Utf8Error) -> (e: Error)
        ensures
            e.errno.raw == UNKNOWN_ERRNO,
            e.source is None,
            e.msg is Some,
            exists|text: String|
                #[trigger] to_string_from_display_ensures::<std::str::Utf8Error>(&error, text)
                    && e.msg->0@ == "utf8 error: "@ + text@,
    {
        let text = String::from_str("utf8 error: ").concat(error.to_string().as_str());
        Error::msg(text)
    }
}

impl vstd::std_specs::convert::FromSpecImpl<std::str::Utf8Error> for Error {
    open spec fn obeys_from_spec() -> bool {
        false
    }

    open spec fn from_spec(error: std::str::Utf8Error) -> Error {
        arbitrary()
    }
}

impl From<std::path::StripPrefixError> for Error {
    /// The error is of unknown kind; its message is the words of `error`.
    fn from(error: std::path::StripPrefixError) -> (e: Error)
        ensures
            e.errno.raw == UNKNOWN_ERRNO,
            e.source is None,
            e.msg is Some,
            to_string_from_display_ensures::<std::path::StripPrefixError>(&error, e.msg->0),
    {
        Error::msg(error.to_string())
    }
}

impl vstd::std_specs::convert::FromSpecImpl<std::path::StripPrefixError> for Error {
    open spec fn obeys_from_spec() -> bool {
        false
    }

    open spec fn from_spec(error: std::path::StripPrefixError) -> Error {
        arbitrary()
    }
}

/// Ways to say more about the error of a result.
pub trait WithContext<T>: Sized {
    /// What the error of this result is once it is an [`Error`], if the
    /// conversion says so.
    spec fn failure(self) -> Option<Error>;

    /// The value of this result, if it has one.
    spec fn success(self) -> Option<T>;

    /// The result with `errno` as the number of its error.
    fn errno(self, errno: Errno) -> (r: Result<T, Error>)
        ensures
            self.success() matches Some(t) ==> r == Ok::<T, Error>(t),
            self.success() is None ==> r is Err,
            self.failure() matches Some(e) ==> r == Err::<T, Error>(Error { errno, ..e }),
    ;

    /// The result with `context` as the message of its error.
    fn context(self, context: String) -> (r: Result<T, Error>)
        ensures
            self.success() matches Some(t) ==> r == Ok::<T, Error>(t),
            self.success() is None ==> r is Err,
            self.failure() matches Some(e) ==> r == Err::<T, Error>(
                Error { msg: Some(context), ..e },
            ),
    ;

    /// The result with what `f` gives as the message of its error; `f` is
    /// called only if there is an error.
    fn with_context<F: FnOnce() -> String>(self, f: F) -> (r: Result<T, Error>)
        requires
            f.requires(()),
        ensures
            self.success() matches Some(t) ==> r == Ok::<T, Error>(t),
            self.success() is None ==> r is Err,
            self.failure() matches Some(e) ==> r is Err && r->Err_0.errno == e.errno
                && r->Err_0.source == e.source && r->Err_0.msg is Some && f.ensures(
                (),
                r->Err_0.msg->0,
            ),
    ;
}

impl<T, E> WithContext<T> for Result<T, E> where Error: From<E> {
    open spec fn failure(self) -> Option<Error> {
        match self {
            Err(e) => if <Error as vstd::std_specs::convert::FromSpec<E>>::obeys_from_spec() {
                Some(<Error as vstd::std_specs::convert::FromSpec<E>>::from_spec(e))
            } else {
                None
            },
            Ok(_) => None,
        }
    }

    open spec fn success(self) -> Option<T> {
        match self {
            Ok(t) => Some(t),
            Err(_) => None,
        }
    }

    fn errno(self, errno: Errno) -> (r: Result<T, Error>) {
        match self {
            Ok(t) => Ok(t),
            Err(e) => Err(Error::from(e).with_errno(errno)),
        }
    }

    fn context(self, context: String) -> (r: Result<T, Error>) {
        match self {
            Ok(t) => Ok(t),
            Err(e) => Err(Error::from(e).with_msg(context)),
        }
    }

    fn with_context<F: FnOnce() -> String>(self, f: F) -> (r: Result<T, Error>) {
        match self {
            Ok(t) => Ok(t),
            Err(e) => {
                let context = f();
                Err(Error::from(e).with_msg(context))
            },
        }
    }
}

} // verus!
