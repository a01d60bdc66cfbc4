use vstd::prelude::*;

verus! {

/// The contents shared by the `Fail` and `Error` outcomes: a message, an
/// optional numeric code and an optional payload.
///
/// It is what the accessors hand out, and it converts back into the
/// corresponding outcome without loss.
#[derive(Debug, Clone, PartialEq)]
pub struct ResultFields<Msg, C, D> {
    pub message: Msg,
    pub code: Option<C>,
    pub data: Option<D>,
}

} // verus!
