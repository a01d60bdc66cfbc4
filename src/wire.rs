use vstd::prelude::*;

use crate::envelope::RjShip;

verus! {

/// The outcome that the `"status"` field names.
#[derive(Debug, Clone, Copy, PartialEq, Eq, Structural)]
pub enum Status {
    Success,
    Fail,
    Error,
}

/// The keys that the encoded object may hold.
#[derive(Debug, Clone, Copy, PartialEq, Eq, Structural)]
pub enum Field {
    Status,
    Message,
    Code,
    Data,
}

/// A value in the encoded object. The payload of `"data"` is carried as it
/// is: writing it out is the business of whatever structural writer consumes
/// the encoded fields.
#[derive(Debug, Clone, PartialEq)]
pub enum WireValue<D, C, FD, ED> {
    Text(String),
    Code(C),
    SuccessData(D),
    FailData(FD),
    ErrorData(ED),
}

/// Why a list of received fields does not form an envelope.
#[derive(Debug, Clone, Copy, PartialEq, Eq, Structural)]
pub enum DecodeError {
    /// A field that the status requires is not there.
    MissingField(Field),
    /// A field is there, but its value is not of the shape that it needs.
    WrongType(Field),
    /// The status is none of `"success"`, `"fail"` and `"error"`.
    UnknownStatus,
    /// A key outside the four known ones, when unknown keys are refused.
    UnknownField,
}

impl Status {
    /// The text of the status on the wire.
    pub open spec fn tag(self) -> Seq<char> {
        match self {
            Status::Success => "success"@,
            Status::Fail => "fail"@,
            Status::Error => "error"@,
        }
    }

    /// The status whose text is `t`, if any.
    pub open spec fn from_tag(t: Seq<char>) -> Option<Status> {
        if t == "success"@ {
            Some(Status::Success)
        } else if t == "fail"@ {
            Some(Status::Fail)
        } else if t == "error"@ {
            Some(Status::Error)
        } else {
            None
        }
    }

    /// The text of the status on the wire.
    pub fn as_str(&self) -> (r: &'static str)
        ensures
            r@ == self.tag(),
    {
        match self {
            Status::Success => "success",
            Status::Fail => "fail",
            Status::Error => "error",
        }
    }

    /// The status whose text is `t`, or `None` for any other text.
    pub fn parse(t: &str) -> (r: Option<Status>)
        ensures
            r == Status::from_tag(t@),
    {
        if text_eq(t, "success") {
            Some(Status::Success)
        } else if text_eq(t, "fail") {
            Some(Status::Fail)
        } else if text_eq(t, "error") {
            Some(Status::Error)
        } else {
            None
        }
    }
}

impl Field {
    /// The key of the field on the wire.
    pub open spec fn key(self) -> Seq<char> {
        match self {
            Field::Status => "status"@,
            Field::Message => "message"@,
            Field::Code => "code"@,
            Field::Data => "data"@,
        }
    }

    /// The field whose key is `k`, if any.
    pub open spec fn from_key(k: Seq<char>) -> Option<Field> {
        if k == "status"@ {
            Some(Field::Status)
        } else if k == "message"@ {
            Some(Field::Message)
        } else if k == "code"@ {
            Some(Field::Code)
        } else if k == "data"@ {
            Some(Field::Data)
        } else {
            None
        }
    }

    /// The key of the field on the wire.
    pub fn name(&self) -> (r: &'static str)
        ensures
            r@ == self.key(),
    {
        match self {
            Field::Status => "status",
            Field::Message => "message",
            Field::Code => "code",
            Field::Data => "data",
        }
    }

    /// The field whose key is `k`, or `None` for an unknown key.
    pub fn parse(k: &str) -> (r: Option<Field>)
        ensures
            r == Field::from_key(k@),
    {
        if text_eq(k, "status") {
            Some(Field::Status)
        } else if text_eq(k, "message") {
            Some(Field::Message)
        } else if text_eq(k, "code") {
            Some(Field::Code)
        } else if text_eq(k, "data") {
            Some(Field::Data)
        } else {
            None
        }
    }
}

/// `base`, then `Field::Code` where a code is present, then `Field::Data`
/// where a payload is present.
pub open spec fn with_optional_keys(base: Seq<Field>, has_code: bool, has_data: bool) -> Seq<Field> {
    base + (if has_code {
        seq![Field::Code]
    } else {
        Seq::empty()
    }) + (if has_data {
        seq![Field::Data]
    } else {
        Seq::empty()
    })
}

/// The encoded code, present only where there is one.
pub open spec fn code_part<D, C, FD, ED>(code: Option<C>) -> Seq<WireValue<D, C, FD, ED>> {
    match code {
        Some(c) => seq![WireValue::Code(c)],
        None => Seq::empty(),
    }
}

/// The encoded failure payload, present only where there is one.
pub open spec fn fail_data_part<D, C, FD, ED>(data: Option<FD>) -> Seq<WireValue<D, C, FD, ED>> {
    match data {
        Some(d) => seq![WireValue::FailData(d)],
        None => Seq::empty(),
    }
}

/// The encoded error payload, present only where there is one.
pub open spec fn error_data_part<D, C, FD, ED>(data: Option<ED>) -> Seq<WireValue<D, C, FD, ED>> {
    match data {
        Some(d) => seq![WireValue::ErrorData(d)],
        None => Seq::empty(),
    }
}

impl<D, C, FD, ED> RjShip<D, C, FD, ED> {
    /// The status that names this outcome.
    pub open spec fn status_spec(self) -> Status {
        match self {
            RjShip::Success { .. } => Status::Success,
            RjShip::Fail { .. } => Status::Fail,
            RjShip::Error { .. } => Status::Error,
        }
    }

    /// The keys of the encoded object, in the order written: `"status"`
    /// first, then `"data"` for a success, or `"message"` and the optional
    /// fields that are present for a failure or an error.
    pub open spec fn wire_keys(self) -> Seq<Field> {
        match self {
            RjShip::Success { .. } => seq![Field::Status, Field::Data],
            RjShip::Fail { code, data, .. } => with_optional_keys(
                seq![Field::Status, Field::Message],
                code is Some,
                data is Some,
            ),
            RjShip::Error { code, data, .. } => with_optional_keys(
                seq![Field::Status, Field::Message],
                code is Some,
                data is Some,
            ),
        }
    }

    /// The values written after the status, in order.
    pub open spec fn wire_body(self) -> Seq<WireValue<D, C, FD, ED>> {
        match self {
            RjShip::Success { data } => seq![WireValue::SuccessData(data)],
            RjShip::Fail { message, code, data } => seq![WireValue::Text(message)] + code_part(
                code,
            ) + fail_data_part(data),
            RjShip::Error { message, code, data } => seq![WireValue::Text(message)] + code_part(
                code,
            ) + error_data_part(data),
        }
    }

    /// Whether `fs` is the encoded form of this outcome: the keys of
    /// `wire_keys`, the status text first, then the values of `wire_body`.
    pub open spec fn encodes(self, fs: Seq<(Field, WireValue<D, C, FD, ED>)>) -> bool {
        &&& fs.map_values(|p: (Field, WireValue<D, C, FD, ED>)| p.0) == self.wire_keys()
        &&& fs[0].1 matches WireValue::Text(t) && t@ == self.status_spec().tag()
        &&& fs.drop_first().map_values(|p: (Field, WireValue<D, C, FD, ED>)| p.1) == self.wire_body()
    }

    /// The status that names this outcome.
    pub fn status(&self) -> (r: Status)
        ensures
            r == self.status_spec(),
    {
        match self {
            RjShip::Success { .. } => Status::Success,
            RjShip::Fail { .. } => Status::Fail,
            RjShip::Error { .. } => Status::Error,
        }
    }

    /// The number of fields that the encoded object holds, known before any
    /// field is written: two, plus one for each optional field present.
    pub fn field_count(&self) -> (r: usize)
        ensures
            r == self.wire_keys().len(),
    {
        let (has_code, has_data) = match self {
            RjShip::Success { .. } => {
                return 2;
            },
            RjShip::Fail { code, data, .. } => (code.is_some(), data.is_some()),
            RjShip::Error { code, data, .. } => (code.is_some(), data.is_some()),
        };
        let mut n: usize = 2;
        if has_code {
            n = n + 1;
        }
        if has_data {
            n = n + 1;
        }
        n
    }

    /// The fields of the encoded object, in order. An absent code or payload
    /// gives no field at all.
    pub fn encode(self) -> (r: Vec<(Field, WireValue<D, C, FD, ED>)>)
        ensures
            self.encodes(r@),
            r@.len() == self.wire_keys().len(),
    {
        let status = self.status();
        let mut out: Vec<(Field, WireValue<D, C, FD, ED>)> = Vec::new();
        out.push((Field::Status, WireValue::Text(status.as_str().to_string())));
        match self {
            RjShip::Success { data } => {
                out.push((Field::Data, WireValue::SuccessData(data)));
            },
            RjShip::Fail { message, code, data } => {
                out.push((Field::Message, WireValue::Text(message)));
                if let Some(c) = code {
                    out.push((Field::Code, WireValue::Code(c)));
                }
                if let Some(d) = data {
                    out.push((Field::Data, WireValue::FailData(d)));
                }
            },
            RjShip::Error { message, code, data } => {
                out.push((Field::Message, WireValue::Text(message)));
                if let Some(c) = code {
                    out.push((Field::Code, WireValue::Code(c)));
                }
                if let Some(d) = data {
                    out.push((Field::Data, WireValue::ErrorData(d)));
                }
            },
        }
        assert(out@.map_values(|p: (Field, WireValue<D, C, FD, ED>)| p.0) =~= self.wire_keys());
        assert(out@.drop_first().map_values(|p: (Field, WireValue<D, C, FD, ED>)| p.1)
            =~= self.wire_body());
        out
    }
}

/// The value of the first received field whose key is `k`.
pub open spec fn lookup<D, C, FD, ED>(fs: Seq<(String, WireValue<D, C, FD, ED>)>, k: Seq<char>) -> Option<
    WireValue<D, C, FD, ED>,
>
    decreases fs.len(),
{
    if fs.len() == 0 {
        None
    } else if fs[0].0@ == k {
        Some(fs[0].1)
    } else {
        lookup(fs.drop_first(), k)
    }
}

/// Whether some received key is none of the four known ones.
pub open spec fn has_unknown_key<D, C, FD, ED>(fs: Seq<(String, WireValue<D, C, FD, ED>)>) -> bool {
    exists|i: int| 0 <= i < fs.len() && Field::from_key(#[trigger] fs[i].0@) is None
}

/// The required message: it must be present, and text.
pub open spec fn required_message<D, C, FD, ED>(v: Option<WireValue<D, C, FD, ED>>) -> Result<
    String,
    DecodeError,
> {
    match v {
        None => Err(DecodeError::MissingField(Field::Message)),
        Some(WireValue::Text(m)) => Ok(m),
        Some(_) => Err(DecodeError::WrongType(Field::Message)),
    }
}

/// The optional code: absent gives `None`, a present one must be a code.
pub open spec fn optional_code<D, C, FD, ED>(v: Option<WireValue<D, C, FD, ED>>) -> Result<
    Option<C>,
    DecodeError,
> {
    match v {
        None => Ok(None),
        Some(WireValue::Code(c)) => Ok(Some(c)),
        Some(_) => Err(DecodeError::WrongType(Field::Code)),
    }
}

/// The optional failure payload: absent gives `None`.
pub open spec fn optional_fail_data<D, C, FD, ED>(v: Option<WireValue<D, C, FD, ED>>) -> Result<
    Option<FD>,
    DecodeError,
> {
    match v {
        None => Ok(None),
        Some(WireValue::FailData(d)) => Ok(Some(d)),
        Some(_) => Err(DecodeError::WrongType(Field::Data)),
    }
}

/// The optional error payload: absent gives `None`.
pub open spec fn optional_error_data<D, C, FD, ED>(v: Option<WireValue<D, C, FD, ED>>) -> Result<
    Option<ED>,
    DecodeError,
> {
    match v {
        None => Ok(None),
        Some(WireValue::ErrorData(d)) => Ok(Some(d)),
        Some(_) => Err(DecodeError::WrongType(Field::Data)),
    }
}

/// The outcome that the received fields `fs` describe.
///
/// Keys are looked up by name, whatever their order; where a key repeats,
/// its first field counts. Unknown keys are ignored unless `deny_unknown`
/// holds. The status decides which fields are read: `"data"` for a success,
/// `"message"` and the optional `"code"` and `"data"` for a failure or an
/// error, checked in that order.
pub open spec fn decoded<D, C, FD, ED>(
    fs: Seq<(String, WireValue<D, C, FD, ED>)>,
    deny_unknown: bool,
) -> Result<RjShip<D, C, FD, ED>, DecodeError> {
    if deny_unknown && has_unknown_key(fs) {
        Err(DecodeError::UnknownField)
    } else {
        match lookup(fs, "status"@) {
            None => Err(DecodeError::MissingField(Field::Status)),
            Some(WireValue::Text(t)) => match Status::from_tag(t@) {
                None => Err(DecodeError::UnknownStatus),
                Some(Status::Success) => match lookup(fs, "data"@) {
                    None => Err(DecodeError::MissingField(Field::Data)),
                    Some(WireValue::SuccessData(d)) => Ok(RjShip::Success { data: d }),
                    Some(_) => Err(DecodeError::WrongType(Field::Data)),
                },
                Some(Status::Fail) => match required_message(lookup(fs, "message"@)) {
                    Err(e) => Err(e),
                    Ok(message) => match optional_code(lookup(fs, "code"@)) {
                        Err(e) => Err(e),
                        Ok(code) => match optional_fail_data(lookup(fs, "data"@)) {
                            Err(e) => Err(e),
                            Ok(data) => Ok(RjShip::Fail { message, code, data }),
                        },
                    },
                },
                Some(Status::Error) => match required_message(lookup(fs, "message"@)) {
                    Err(e) => Err(e),
                    Ok(message) => match optional_code(lookup(fs, "code"@)) {
                        Err(e) => Err(e),
                        Ok(code) => match optional_error_data(lookup(fs, "data"@)) {
                            Err(e) => Err(e),
                            Ok(data) => Ok(RjShip::Error { message, code, data }),
                        },
                    },
                },
            },
            Some(_) => Err(DecodeError::WrongType(Field::Status)),
        }
    }
}

/// The four keys differ from one another, and so do the three status texts.
proof fn lemma_keys_distinct()
    ensures
        "status"@ != "message"@,
        "status"@ != "code"@,
        "status"@ != "data"@,
        "message"@ != "code"@,
        "message"@ != "data"@,
        "code"@ != "data"@,
        "success"@ != "fail"@,
        "success"@ != "error"@,
        "fail"@ != "error"@,
{
    reveal_strlit("status");
    reveal_strlit("message");
    reveal_strlit("code");
    reveal_strlit("data");
    reveal_strlit("success");
    reveal_strlit("fail");
    reveal_strlit("error");
    assert("status"@.len() == 6);
    assert("message"@.len() == 7);
    assert("code"@.len() == 4);
    assert("data"@.len() == 4);
    assert("code"@[0] != "data"@[0]);
    assert("success"@.len() == 7);
    assert("fail"@.len() == 4);
    assert("error"@.len() == 5);
}

/// Looking up in a suffix that starts one field earlier.
proof fn lemma_lookup_step<D, C, FD, ED>(
    s: Seq<(String, WireValue<D, C, FD, ED>)>,
    i: int,
    k: Seq<char>,
)
    requires
        0 < i <= s.len(),
    ensures
        lookup(s.subrange(i - 1, s.len() as int), k) == if s[i - 1].0@ == k {
            Some(s[i - 1].1)
        } else {
            lookup(s.subrange(i, s.len() as int), k)
        },
{
    let t = s.subrange(i - 1, s.len() as int);
    assert(t.drop_first() =~= s.subrange(i, s.len() as int));
}

fn take_message<D, C, FD, ED>(v: Option<WireValue<D, C, FD, ED>>) -> (r: Result<String, DecodeError>)
    ensures
        r == required_message(v),
{
    match v {
        None => Err(DecodeError::MissingField(Field::Message)),
        Some(WireValue::Text(m)) => Ok(m),
        Some(_) => Err(DecodeError::WrongType(Field::Message)),
    }
}

fn take_code<D, C, FD, ED>(v: Option<WireValue<D, C, FD, ED>>) -> (r: Result<Option<C>, DecodeError>)
    ensures
        r == optional_code(v),
{
    match v {
        None => Ok(None),
        Some(WireValue::Code(c)) => Ok(Some(c)),
        Some(_) => Err(DecodeError::WrongType(Field::Code)),
    }
}

fn take_fail_data<D, C, FD, ED>(v: Option<WireValue<D, C, FD, ED>>) -> (r: Result<
    Option<FD>,
    DecodeError,
>)
    ensures
        r == optional_fail_data(v),
{
    match v {
        None => Ok(None),
        Some(WireValue::FailData(d)) => Ok(Some(d)),
        Some(_) => Err(DecodeError::WrongType(Field::Data)),
    }
}

fn take_error_data<D, C, FD, ED>(v: Option<WireValue<D, C, FD, ED>>) -> (r: Result<
    Option<ED>,
    DecodeError,
>)
    ensures
        r == optional_error_data(v),
{
    match v {
        None => Ok(None),
        Some(WireValue::ErrorData(d)) => Ok(Some(d)),
        Some(_) => Err(DecodeError::WrongType(Field::Data)),
    }
}

impl<D, C, FD, ED> RjShip<D, C, FD, ED> {
    /// The outcome that the received fields describe, or why they describe
    /// none. Unknown keys are refused only where `deny_unknown_fields` holds.
    pub fn decode(received: Vec<(String, WireValue<D, C, FD, ED>)>, deny_unknown_fields: bool) -> (r:
        Result<Self, DecodeError>)
        ensures
            r == decoded(received@, deny_unknown_fields),
    {
        let ghost orig = received@;
        let mut fields = received;
        let mut status: Option<WireValue<D, C, FD, ED>> = None;
        let mut message: Option<WireValue<D, C, FD, ED>> = None;
        let mut code: Option<WireValue<D, C, FD, ED>> = None;
        let mut data: Option<WireValue<D, C, FD, ED>> = None;
        while fields.len() > 0
            invariant
                orig == received@,
                fields@ == orig.subrange(0, fields.len() as int),
                fields.len() <= orig.len(),
                status == lookup(orig.subrange(fields.len() as int, orig.len() as int), "status"@),
                message == lookup(orig.subrange(fields.len() as int, orig.len() as int), "message"@),
                code == lookup(orig.subrange(fields.len() as int, orig.len() as int), "code"@),
                data == lookup(orig.subrange(fields.len() as int, orig.len() as int), "data"@),
                deny_unknown_fields ==> forall|j: int|
                    fields.len() <= j < orig.len() ==> Field::from_key(#[trigger] orig[j].0@) is Some,
            decreases fields.len(),
        {
            let ghost i = fields.len() as int;
            proof {
                lemma_keys_distinct();
                lemma_lookup_step(orig, i, "status"@);
                lemma_lookup_step(orig, i, "message"@);
                lemma_lookup_step(orig, i, "code"@);
                lemma_lookup_step(orig, i, "data"@);
            }
            let (key, value) = match fields.pop() {
                Some(p) => p,
                None => {
                    return vstd::pervasive::unreached();
                },
            };
            assert(key == orig[i - 1].0 && value == orig[i - 1].1);
            match Field::parse(key.as_str()) {
                Some(Field::Status) => {
                    status = Some(value);
                },
                Some(Field::Message) => {
                    message = Some(value);
                },
                Some(Field::Code) => {
                    code = Some(value);
                },
                Some(Field::Data) => {
                    data = Some(value);
                },
                None => {
                    if deny_unknown_fields {
                        assert(Field::from_key(orig[i - 1].0@) is None);
                        assert(has_unknown_key(orig));
                        return Err(DecodeError::UnknownField);
                    }
                },
            }
        }
        assert(orig.subrange(0, orig.len() as int) =~= orig);
        let tag = match status {
            None => {
                return Err(DecodeError::MissingField(Field::Status));
            },
            Some(WireValue::Text(t)) => t,
            Some(_) => {
                return Err(DecodeError::WrongType(Field::Status));
            },
        };
        match Status::parse(tag.as_str()) {
            None => Err(DecodeError::UnknownStatus),
            Some(Status::Success) => match data {
                None => Err(DecodeError::MissingField(Field::Data)),
                Some(WireValue::SuccessData(d)) => Ok(RjShip::Success { data: d }),
                Some(_) => Err(DecodeError::WrongType(Field::Data)),
            },
            Some(Status::Fail) => {
                let message = match take_message(message) {
                    Ok(m) => m,
                    Err(e) => {
                        return Err(e);
                    },
                };
                let code = match take_code(code) {
                    Ok(c) => c,
                    Err(e) => {
                        return Err(e);
                    },
                };
                let data = match take_fail_data(data) {
                    Ok(d) => d,
                    Err(e) => {
                        return Err(e);
                    },
                };
                Ok(RjShip::Fail { message, code, data })
            },
            Some(Status::Error) => {
                let message = match take_message(message) {
                    Ok(m) => m,
                    Err(e) => {
                        return Err(e);
                    },
                };
                let code = match take_code(code) {
                    Ok(c) => c,
                    Err(e) => {
                        return Err(e);
                    },
                };
                let data = match take_error_data(data) {
                    Ok(d) => d,
                    Err(e) => {
                        return Err(e);
                    },
                };
                Ok(RjShip::Error { message, code, data })
            },
        }
    }
}

/// The first field with key `k` is the one at `i`.
proof fn lemma_lookup_at<D, C, FD, ED>(fs: Seq<(String, WireValue<D, C, FD, ED>)>, i: int, k: Seq<char>)
    requires
        0 <= i < fs.len(),
        fs[i].0@ == k,
        forall|j: int| 0 <= j < i ==> (#[trigger] fs[j]).0@ != k,
    ensures
        lookup(fs, k) == Some(fs[i].1),
    decreases i,
{
    if i > 0 {
        let t = fs.drop_first();
        assert forall|j: int| 0 <= j < i - 1 implies (#[trigger] t[j]).0@ != k by {
            assert(t[j] == fs[j + 1]);
        }
        lemma_lookup_at(t, i - 1, k);
    }
}

/// No field has key `k`.
proof fn lemma_lookup_absent<D, C, FD, ED>(fs: Seq<(String, WireValue<D, C, FD, ED>)>, k: Seq<char>)
    requires
        forall|j: int| 0 <= j < fs.len() ==> (#[trigger] fs[j]).0@ != k,
    ensures
        lookup(fs, k) is None,
    decreases fs.len(),
{
    if fs.len() > 0 {
        let t = fs.drop_first();
        assert forall|j: int| 0 <= j < t.len() implies (#[trigger] t[j]).0@ != k by {
            assert(t[j] == fs[j + 1]);
        }
        lemma_lookup_absent(t, k);
    }
}

/// Whether `received` is what arrives of `sent`: the same values in the same
/// order, each under the name of its key.
pub open spec fn carries<D, C, FD, ED>(
    sent: Seq<(Field, WireValue<D, C, FD, ED>)>,
    received: Seq<(String, WireValue<D, C, FD, ED>)>,
) -> bool {
    &&& received.len() == sent.len()
    &&& forall|i: int|
        0 <= i < sent.len() ==> (#[trigger] received[i]).0@ == sent[i].0.key() && received[i].1
            == sent[i].1
}

/// Round trip: the encoded form of an outcome, received under the names of
/// its keys, decodes to that same outcome, whether unknown keys are refused
/// or not.
pub proof fn lemma_round_trip<D, C, FD, ED>(
    v: RjShip<D, C, FD, ED>,
    sent: Seq<(Field, WireValue<D, C, FD, ED>)>,
    received: Seq<(String, WireValue<D, C, FD, ED>)>,
    deny_unknown: bool,
)
    requires
        v.encodes(sent),
        carries(sent, received),
    ensures
        decoded(received, deny_unknown) == Ok::<RjShip<D, C, FD, ED>, DecodeError>(v),
{
    lemma_keys_distinct();
    let keys = v.wire_keys();
    let body = v.wire_body();
    assert forall|i: int| 0 <= i < received.len() implies #[trigger] received[i].0@ == keys[i].key()
        && (i > 0 ==> received[i].1 == body[i - 1]) by {
        assert(sent.map_values(|p: (Field, WireValue<D, C, FD, ED>)| p.0)[i] == keys[i]);
        if i > 0 {
            assert(sent.drop_first().map_values(|p: (Field, WireValue<D, C, FD, ED>)| p.1)[i - 1]
                == body[i - 1]);
        }
    }
    assert(received.len() == keys.len());
    assert(!has_unknown_key(received));
    assert(received[0].1 == sent[0].1);
    lemma_lookup_at(received, 0, "status"@);
    match v {
        RjShip::Success { data } => {
            lemma_lookup_at(received, 1, "data"@);
        },
        RjShip::Fail { message, code, data } => {
            lemma_lookup_at(received, 1, "message"@);
            if code is Some {
                lemma_lookup_at(received, 2, "code"@);
            } else {
                lemma_lookup_absent(received, "code"@);
            }
            if data is Some {
                lemma_lookup_at(received, received.len() - 1, "data"@);
            } else {
                lemma_lookup_absent(received, "data"@);
            }
        },
        RjShip::Error { message, code, data } => {
            lemma_lookup_at(received, 1, "message"@);
            if code is Some {
                lemma_lookup_at(received, 2, "code"@);
            } else {
                lemma_lookup_absent(received, "code"@);
            }
            if data is Some {
                lemma_lookup_at(received, received.len() - 1, "data"@);
            } else {
                lemma_lookup_absent(received, "data"@);
            }
        },
    }
}

impl<D, C, FD, ED> RjShip<D, C, FD, ED> {
    /// Whether this is a failure or an error that carries a code.
    pub open spec fn has_code(self) -> bool {
        match self {
            RjShip::Success { .. } => false,
            RjShip::Fail { code, .. } => code is Some,
            RjShip::Error { code, .. } => code is Some,
        }
    }

    /// Whether this is a failure or an error that carries a payload.
    pub open spec fn has_data(self) -> bool {
        match self {
            RjShip::Success { .. } => false,
            RjShip::Fail { data, .. } => data is Some,
            RjShip::Error { data, .. } => data is Some,
        }
    }
}

/// Omission and presence: the encoded form of a failure or an error holds
/// `"status"` and `"message"`, `"code"` exactly when a code is present,
/// `"data"` exactly when a payload is present, nothing else, and no key
/// twice. An absent field is left out, never written as a null.
pub proof fn lemma_optional_fields<D, C, FD, ED>(v: RjShip<D, C, FD, ED>)
    requires
        !(v is Success),
    ensures
        v.wire_keys().no_duplicates(),
        forall|f: Field|
            v.wire_keys().contains(f) <==> (f == Field::Status || f == Field::Message || (f
                == Field::Code && v.has_code()) || (f == Field::Data && v.has_data())),
{
    let keys = v.wire_keys();
    assert forall|f: Field|
        keys.contains(f) <==> (f == Field::Status || f == Field::Message || (f == Field::Code
            && v.has_code()) || (f == Field::Data && v.has_data())) by {
        if f == Field::Status {
            assert(keys[0] == f);
        }
        if f == Field::Message {
            assert(keys[1] == f);
        }
        if f == Field::Code && v.has_code() {
            assert(keys[2] == f);
        }
        if f == Field::Data && v.has_data() {
            assert(keys[keys.len() - 1] == f);
        }
    }
}

/// Whether two texts hold the same characters.
fn text_eq(a: &str, b: &str) -> (r: bool)
    ensures
        r == (a@ == b@),
{
    let n = a.unicode_len();
    if n != b.unicode_len() {
        return false;
    }
    let mut i: usize = 0;
    while i < n
        invariant
            n == a@.len() == b@.len(),
            i <= n,
            forall|j: int| 0 <= j < i ==> a@[j] == b@[j],
        decreases n - i,
    {
        if a.get_char(i) != b.get_char(i) {
            return false;
        }
        i = i + 1;
    }
    assert(a@ =~= b@);
    true
}

} // verus!
