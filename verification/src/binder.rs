use vstd::prelude::*;
use crate::codec::{encode, spec_decode, spec_encode, Encoded, EncodedValue};
use crate::error::SpiError;
use crate::tag::TypeTag;
use crate::value::{NativeValue, Value};

verus! {

/// One argument of a statement as the caller supplies it: the type it is
/// declared with, and a native value or nothing for SQL null.
pub type Argument = (TypeTag, Option<NativeValue>);

/// The mathematical reading of an [`Argument`].
pub open spec fn argument_view(argument: Argument) -> (TypeTag, Option<Value>) {
    (
        argument.0,
        match argument.1 {
            Some(value) => Some(value@),
            None => None,
        },
    )
}

/// Whether a value can stand under the tag it is declared with: null can
/// under every tag, a value that is there only under its own.
pub open spec fn bindable(declared: TypeTag, value: Option<Value>) -> bool {
    value matches Some(v) ==> v.tag() == declared
}

/// What binding makes of one argument.
pub open spec fn spec_bind_one(declared: TypeTag, value: Option<Value>) -> Encoded {
    match value {
        Some(v) => spec_encode(v),
        None => Encoded { tag: declared, raw: None },
    }
}

/// What binding makes of a list of arguments: each one bound, in the order
/// given.
pub open spec fn spec_bind(arguments: Seq<(TypeTag, Option<Value>)>) -> Seq<Encoded> {
    Seq::new(arguments.len(), |i: int| spec_bind_one(arguments[i].0, arguments[i].1))
}

/// The parameter that the placeholder `$number` stands for: placeholders
/// count from 1.
pub open spec fn spec_parameter_for(bound: Seq<Encoded>, number: int) -> Option<Encoded> {
    if 1 <= number <= bound.len() {
        Some(bound[number - 1])
    } else {
        None
    }
}

/// A statement parameter ready for submission: a type tag and the encoded
/// value that travels under it. The two always agree on the tag.
#[derive(Debug, PartialEq, Eq)]
pub struct BoundParameter {
    tag: TypeTag,
    value: EncodedValue,
}

impl View for BoundParameter {
    type V = Encoded;

    closed spec fn view(&self) -> Encoded {
        self.value@
    }
}

impl BoundParameter {
    /// What holds of every `BoundParameter`: the tag it is declared with is
    /// the tag of its value.
    #[verifier::type_invariant]
    pub closed spec fn wf(self) -> bool {
        self.tag == self.value@.tag
    }

    /// The tag the parameter is declared with.
    pub fn tag(&self) -> (tag: TypeTag)
        ensures
            tag == self@.tag,
    {
        proof {
            use_type_invariant(self);
        }
        self.tag
    }

    /// The encoded value of the parameter.
    pub fn value(&self) -> (value: &EncodedValue)
        ensures
            value@ == self@,
    {
        &self.value
    }
}

/// Binds one argument under its declared tag.
fn bind_one(declared: TypeTag, value: &Option<NativeValue>) -> (outcome: Option<BoundParameter>)
    ensures
        match outcome {
            Some(bound) => {
                &&& bindable(declared, argument_view((declared, *value)).1)
                &&& bound@ == spec_bind_one(declared, argument_view((declared, *value)).1)
            },
            None => !bindable(declared, argument_view((declared, *value)).1),
        },
{
    match value {
        None => Some(BoundParameter { tag: declared, value: EncodedValue::null(declared) }),
        Some(native) => {
            if native.tag() == declared {
                Some(BoundParameter { tag: declared, value: encode(native) })
            } else {
                None
            }
        },
    }
}

/// Binds the arguments of a statement, in the order given: the parameter at
/// position `N`, counted from 1, is the one that placeholder `$N` stands for.
///
/// Fails with `EncodingError` exactly when some argument holds a value of
/// another type than it is declared with. An empty list binds to an empty
/// list.
pub fn bind(arguments: &Vec<Argument>) -> (outcome: Result<Vec<BoundParameter>, SpiError>)
    ensures
        match outcome {
            Ok(bound) => {
                &&& forall|i: int|
                    0 <= i < arguments.len() ==> bindable(
                        arguments[i].0,
                        #[trigger] argument_view(arguments[i]).1,
                    )
                &&& bound@.map_values(|p: BoundParameter| p@) == spec_bind(
                    arguments@.map_values(|a: Argument| argument_view(a)),
                )
            },
            Err(e) => {
                &&& e == SpiError::EncodingError
                &&& exists|i: int|
                    0 <= i < arguments.len() && !bindable(
                        arguments[i].0,
                        #[trigger] argument_view(arguments[i]).1,
                    )
            },
        },
{
    let mut bound: Vec<BoundParameter> = Vec::new();
    let mut at: usize = 0;
    while at < arguments.len()
        invariant
            at <= arguments.len(),
            bound.len() == at,
            forall|i: int|
                0 <= i < at ==> bindable(arguments[i].0, #[trigger] argument_view(arguments[i]).1),
            forall|i: int|
                0 <= i < at ==> (#[trigger] bound[i])@ == spec_bind_one(
                    arguments[i].0,
                    argument_view(arguments[i]).1,
                ),
        decreases arguments.len() - at,
    {
        let argument = &arguments[at];
        match bind_one(argument.0, &argument.1) {
            Some(parameter) => {
                bound.push(parameter);
            },
            None => {
                return Err(SpiError::EncodingError);
            },
        }
        at = at + 1;
    }
    assert(bound@.map_values(|p: BoundParameter| p@) =~= spec_bind(
        arguments@.map_values(|a: Argument| argument_view(a)),
    ));
    Ok(bound)
}

/// The parameter that the placeholder `$number` stands for, or `None` where
/// the list has no such position.
pub fn parameter_for(bound: &Vec<BoundParameter>, number: usize) -> (parameter: Option<
    &BoundParameter,
>)
    ensures
        match parameter {
            Some(p) => Some(p@) == spec_parameter_for(
                bound@.map_values(|p: BoundParameter| p@),
                number as int,
            ),
            None => spec_parameter_for(bound@.map_values(|p: BoundParameter| p@), number as int)
                is None,
        },
{
    if 1 <= number && number <= bound.len() {
        Some(&bound[number - 1])
    } else {
        None
    }
}

/// Binding keeps positions: the placeholder `$N` stands for the `N`-th
/// argument, and decoding what it stands for under the declared type gives
/// that argument's value back.
pub proof fn law_placeholder_selects_argument(
    arguments: Seq<(TypeTag, Option<Value>)>,
    number: int,
)
    requires
        1 <= number <= arguments.len(),
        bindable(arguments[number - 1].0, arguments[number - 1].1),
    ensures
        spec_parameter_for(spec_bind(arguments), number) matches Some(parameter) && spec_decode(
            parameter,
            arguments[number - 1].0,
        ) == Ok::<Option<Value>, SpiError>(arguments[number - 1].1),
{
    match arguments[number - 1].1 {
        Some(v) => {
            crate::codec::law_encode_decode_round_trip(v);
        },
        None => {},
    }
}

/// Binding preserves length and order, and every parameter it makes is a
/// well-formed encoded value under the declared tag.
pub proof fn law_bind_keeps_order(arguments: Seq<(TypeTag, Option<Value>)>, at: int)
    requires
        0 <= at < arguments.len(),
        bindable(arguments[at].0, arguments[at].1),
    ensures
        spec_bind(arguments).len() == arguments.len(),
        spec_bind(arguments)[at].tag == arguments[at].0,
        spec_bind(arguments)[at].well_formed(),
        spec_bind(arguments)[at].raw is None <==> arguments[at].1 is None,
{
    match arguments[at].1 {
        Some(v) => {
            crate::codec::law_encode_decode_round_trip(v);
        },
        None => {},
    }
}

} // verus!
