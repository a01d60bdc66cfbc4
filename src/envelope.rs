use vstd::prelude::*;

use crate::fields::ResultFields;
use vstd::string::to_string_from_display_ensures;

verus! {

/// The outcome of an operation.
///
/// `C` is the type of the optional numeric code; `FD` and `ED` are the
/// payload types of the `Fail` and `Error` outcomes.
#[derive(Debug, Clone, PartialEq)]
pub enum RjShip<D, C, FD = (), ED = ()> {
    /// The operation produced a value.
    Success { data: D },
    /// An anticipated, recoverable failure.
    Fail { message: String, code: Option<C>, data: Option<FD> },
    /// An unanticipated failure.
    Error { message: String, code: Option<C>, data: Option<ED> },
}

impl<D, C, FD, ED> RjShip<D, C, FD, ED> {
    /// A success carrying `data`.
    pub fn new(data: D) -> (r: Self)
        ensures
            r == (RjShip::<D, C, FD, ED>::Success { data }),
    {
        RjShip::Success { data }
    }

    /// An error with `message`, no code and no payload.
    pub fn new_error(message: String) -> (r: Self)
        ensures
            r == (RjShip::<D, C, FD, ED>::Error { message, code: None, data: None }),
    {
        RjShip::Error { message, code: None, data: None }
    }

    /// A failure with `message`, no code and no payload.
    pub fn new_fail(message: String) -> (r: Self)
        ensures
            r == (RjShip::<D, C, FD, ED>::Fail { message, code: None, data: None }),
    {
        RjShip::Fail { message, code: None, data: None }
    }

    /// A failure whose message is the text form of `message`.
    pub fn from_fail<F: core::fmt::Display>(message: F, code: Option<C>, data: Option<FD>) -> (r:
        Self)
        ensures
            r matches RjShip::Fail { message: m, code: c, data: d } && c == code && d == data
                && to_string_from_display_ensures::<F>(&message, m),
    {
        RjShip::Fail { message: message.to_string(), code, data }
    }

    /// An error whose message is the text form of `message`.
    pub fn from_error<E: core::fmt::Display>(message: E, code: Option<C>, data: Option<ED>) -> (r:
        Self)
        ensures
            r matches RjShip::Error { message: m, code: c, data: d } && c == code && d == data
                && to_string_from_display_ensures::<E>(&message, m),
    {
        RjShip::Error { message: message.to_string(), code, data }
    }

    /// The failure that holds exactly the given fields.
    pub fn from_fail_fields(fields: ResultFields<String, C, FD>) -> (r: Self)
        ensures
            r == Self::fail_of(fields),
    {
        let ResultFields { message, code, data } = fields;
        RjShip::Fail { message, code, data }
    }

    /// The error that holds exactly the given fields.
    pub fn from_error_fields(fields: ResultFields<String, C, ED>) -> (r: Self)
        ensures
            r == Self::error_of(fields),
    {
        let ResultFields { message, code, data } = fields;
        RjShip::Error { message, code, data }
    }
}

// Models and extraction.
impl<D, C, FD, ED> RjShip<D, C, FD, ED> {
    /// The `Fail` outcome made of `f`.
    pub open spec fn fail_of(f: ResultFields<String, C, FD>) -> Self {
        RjShip::Fail { message: f.message, code: f.code, data: f.data }
    }

    /// The `Error` outcome made of `f`.
    pub open spec fn error_of(f: ResultFields<String, C, ED>) -> Self {
        RjShip::Error { message: f.message, code: f.code, data: f.data }
    }

    /// The success data, if this is a success.
    pub open spec fn success_spec(self) -> Option<D> {
        match self {
            RjShip::Success { data } => Some(data),
            _ => None,
        }
    }

    /// The fields of the failure, if this is a failure.
    pub open spec fn fail_spec(self) -> Option<ResultFields<String, C, FD>> {
        match self {
            RjShip::Fail { message, code, data } => Some(ResultFields { message, code, data }),
            _ => None,
        }
    }

    /// The fields of the error, if this is an error.
    pub open spec fn error_spec(self) -> Option<ResultFields<String, C, ED>> {
        match self {
            RjShip::Error { message, code, data } => Some(ResultFields { message, code, data }),
            _ => None,
        }
    }

    /// The success data, or `None` for any other outcome.
    pub fn success(self) -> (r: Option<D>)
        ensures
            r == self.success_spec(),
    {
        match self {
            RjShip::Success { data } => Some(data),
            _ => None,
        }
    }

    /// The fields of a failure, or `None` for any other outcome.
    pub fn fail(self) -> (r: Option<ResultFields<String, C, FD>>)
        ensures
            r == self.fail_spec(),
    {
        match self {
            RjShip::Fail { message, code, data } => Some(ResultFields { message, code, data }),
            _ => None,
        }
    }

    /// The fields of an error, or `None` for any other outcome.
    pub fn error(self) -> (r: Option<ResultFields<String, C, ED>>)
        ensures
            r == self.error_spec(),
    {
        match self {
            RjShip::Error { message, code, data } => Some(ResultFields { message, code, data }),
            _ => None,
        }
    }
}

impl<D, C, FD, ED> RjShip<D, C, FD, ED> {
    /// The same outcome with its payloads borrowed and its message copied.
    pub fn as_ref(&self) -> (r: RjShip<&D, &C, &FD, &ED>)
        ensures
            match (*self, r) {
                (RjShip::Success { data: a }, RjShip::Success { data: b }) => *b == a,
                (
                    RjShip::Fail { message: m, code: c, data: d },
                    RjShip::Fail { message: m2, code: c2, data: d2 },
                ) => m2 == m && opt_deref(c2) == c && opt_deref(d2) == d,
                (
                    RjShip::Error { message: m, code: c, data: d },
                    RjShip::Error { message: m2, code: c2, data: d2 },
                ) => m2 == m && opt_deref(c2) == c && opt_deref(d2) == d,
                _ => false,
            },
    {
        match self {
            RjShip::Success { data } => RjShip::Success { data },
            RjShip::Fail { message, code, data } => RjShip::Fail {
                message: message.clone(),
                code: code.as_ref(),
                data: data.as_ref(),
            },
            RjShip::Error { message, code, data } => RjShip::Error {
                message: message.clone(),
                code: code.as_ref(),
                data: data.as_ref(),
            },
        }
    }
}

/// The value that an optional reference points to.
pub open spec fn opt_deref<T>(o: Option<&T>) -> Option<T> {
    match o {
        Some(x) => Some(*x),
        None => None,
    }
}

// Variant tests.
impl<D, C, FD, ED> RjShip<D, C, FD, ED> {
    /// Whether this is a success.
    pub fn is_success(&self) -> (r: bool)
        ensures
            r == self is Success,
    {
        match self {
            RjShip::Success { .. } => true,
            _ => false,
        }
    }

    /// Whether this is a success whose data satisfies `f`; `f` is called only
    /// on a success.
    pub fn is_success_and<F: FnOnce(D) -> bool>(self, f: F) -> (r: bool)
        requires
            self matches RjShip::Success { data } ==> f.requires((data,)),
        ensures
            match self {
                RjShip::Success { data } => f.ensures((data,), r),
                _ => !r,
            },
    {
        match self {
            RjShip::Success { data } => f(data),
            _ => false,
        }
    }

    /// Whether this is a failure.
    pub fn is_fail(&self) -> (r: bool)
        ensures
            r == self is Fail,
    {
        match self {
            RjShip::Fail { .. } => true,
            _ => false,
        }
    }

    /// Whether this is a failure whose fields satisfy `f`; `f` is called only
    /// on a failure.
    pub fn is_fail_and<F: FnOnce(ResultFields<String, C, FD>) -> bool>(self, f: F) -> (r: bool)
        requires
            self.fail_spec() matches Some(fields) ==> f.requires((fields,)),
        ensures
            match self.fail_spec() {
                Some(fields) => f.ensures((fields,), r),
                None => !r,
            },
    {
        match self {
            RjShip::Fail { message, code, data } => f(ResultFields { message, code, data }),
            _ => false,
        }
    }

    /// Whether this is an error.
    pub fn is_error(&self) -> (r: bool)
        ensures
            r == self is Error,
    {
        match self {
            RjShip::Error { .. } => true,
            _ => false,
        }
    }

    /// Whether this is an error whose fields satisfy `f`; `f` is called only
    /// on an error.
    pub fn is_error_and<F: FnOnce(ResultFields<String, C, ED>) -> bool>(self, f: F) -> (r: bool)
        requires
            self.error_spec() matches Some(fields) ==> f.requires((fields,)),
        ensures
            match self.error_spec() {
                Some(fields) => f.ensures((fields,), r),
                None => !r,
            },
    {
        match self {
            RjShip::Error { message, code, data } => f(ResultFields { message, code, data }),
            _ => false,
        }
    }
}

// Unwrapping.
impl<D, C, FD, ED> RjShip<D, C, FD, ED> {
    /// The success data. Only a success may be unwrapped.
    pub fn unwrap(self) -> (r: D)
        requires
            self is Success,
        ensures
            self.success_spec() == Some(r),
    {
        match self {
            RjShip::Success { data } => data,
            RjShip::Fail { .. } => vstd::pervasive::unreached(),
            RjShip::Error { .. } => vstd::pervasive::unreached(),
        }
    }

    /// The fields of a failure. Only a failure may be unwrapped this way.
    pub fn unwrap_fail(self) -> (r: ResultFields<String, C, FD>)
        requires
            self is Fail,
        ensures
            self.fail_spec() == Some(r),
    {
        match self {
            RjShip::Fail { message, code, data } => ResultFields { message, code, data },
            RjShip::Success { .. } => vstd::pervasive::unreached(),
            RjShip::Error { .. } => vstd::pervasive::unreached(),
        }
    }

    /// The fields of an error. Only an error may be unwrapped this way.
    pub fn unwrap_error(self) -> (r: ResultFields<String, C, ED>)
        requires
            self is Error,
        ensures
            self.error_spec() == Some(r),
    {
        match self {
            RjShip::Error { message, code, data } => ResultFields { message, code, data },
            RjShip::Success { .. } => vstd::pervasive::unreached(),
            RjShip::Fail { .. } => vstd::pervasive::unreached(),
        }
    }

    /// The success data, or `default` for any other outcome.
    pub fn unwrap_or(self, default: D) -> (r: D)
        ensures
            r == match self.success_spec() {
                Some(data) => data,
                None => default,
            },
    {
        match self {
            RjShip::Success { data } => data,
            _ => default,
        }
    }

    /// The success data, or what `f` returns for any other outcome; `f` is
    /// not called on a success.
    pub fn unwrap_or_else<F: FnOnce() -> D>(self, f: F) -> (r: D)
        requires
            !(self is Success) ==> f.requires(()),
        ensures
            match self.success_spec() {
                Some(data) => r == data,
                None => f.ensures((), r),
            },
    {
        match self {
            RjShip::Success { data } => data,
            _ => f(),
        }
    }

    /// The success data, or the default value of `D` for any other outcome.
    pub fn unwrap_or_default(self) -> (r: D) where D: Default
        ensures
            match self.success_spec() {
                Some(data) => r == data,
                None => call_ensures(D::default, (), r),
            },
    {
        self.unwrap_or_else(D::default)
    }
}

/// The fields of a failure or an error convert to the outcome and back
/// without loss.
pub proof fn lemma_fields_round_trip<D, C, FD, ED>(
    fail: ResultFields<String, C, FD>,
    error: ResultFields<String, C, ED>,
)
    ensures
        RjShip::<D, C, FD, ED>::fail_of(fail).fail_spec() == Some(fail),
        RjShip::<D, C, FD, ED>::error_of(error).error_spec() == Some(error),
{
}

/// Converting fields that hold only a message gives the same outcome as
/// `new_error` on that message.
pub proof fn lemma_message_only_fields_into_error<D, C, FD, ED>(message: String)
    ensures
        <RjShip<D, C, FD, ED> as vstd::std_specs::convert::FromSpec<
            ResultFields<String, C, ED>,
        >>::from_spec(ResultFields { message, code: None, data: None }) == (RjShip::<
            D,
            C,
            FD,
            ED,
        >::Error { message, code: None, data: None }),
{
}

impl<D, C, FD, ED> From<ResultFields<String, C, ED>> for RjShip<D, C, FD, ED> {
    fn from(fields: ResultFields<String, C, ED>) -> (r: Self) {
        Self::from_error_fields(fields)
    }
}

impl<D, C, FD, ED> vstd::std_specs::convert::FromSpecImpl<ResultFields<String, C, ED>> for RjShip<D, C, FD, ED> {
    open spec fn obeys_from_spec() -> bool {
        true
    }

    open spec fn from_spec(fields: ResultFields<String, C, ED>) -> Self {
        Self::error_of(fields)
    }
}

} // verus!
