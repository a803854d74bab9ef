use vstd::prelude::*;

verus! {

/// The scalar SQL types this layer can carry.
///
/// Each tag stands for one type of the host; the host knows it by the object
/// identifier returned by [`TypeTag::oid`].
#[derive(Clone, Copy, Debug, PartialEq, Eq, Structural)]
pub enum TypeTag {
    /// `boolean`
    Bool,
    /// `smallint`, two bytes
    Int2,
    /// `integer`, four bytes
    Int4,
    /// `bigint`, eight bytes
    Int8,
    /// `oid`, an unsigned four-byte object identifier
    Oid,
    /// `text`
    Text,
}

impl TypeTag {
    /// The host's object identifier of the type.
    pub open spec fn spec_oid(self) -> u32 {
        match self {
            TypeTag::Bool => 16,
            TypeTag::Int8 => 20,
            TypeTag::Int2 => 21,
            TypeTag::Int4 => 23,
            TypeTag::Text => 25,
            TypeTag::Oid => 26,
        }
    }

    /// The host's object identifier of the type.
    #[verifier::when_used_as_spec(spec_oid)]
    pub fn oid(self) -> (oid: u32)
        ensures
            oid == self.spec_oid(),
    {
        match self {
            TypeTag::Bool => 16,
            TypeTag::Int8 => 20,
            TypeTag::Int2 => 21,
            TypeTag::Int4 => 23,
            TypeTag::Text => 25,
            TypeTag::Oid => 26,
        }
    }

    /// The tag the host identifies by `oid`, or `None` where this layer has no
    /// tag for it.
    pub fn from_oid(oid: u32) -> (tag: Option<TypeTag>)
        ensures
            match tag {
                Some(t) => t.spec_oid() == oid,
                None => forall|t: TypeTag| t.spec_oid() != oid,
            },
    {
        if oid == 16 {
            Some(TypeTag::Bool)
        } else if oid == 20 {
            Some(TypeTag::Int8)
        } else if oid == 21 {
            Some(TypeTag::Int2)
        } else if oid == 23 {
            Some(TypeTag::Int4)
        } else if oid == 25 {
            Some(TypeTag::Text)
        } else if oid == 26 {
            Some(TypeTag::Oid)
        } else {
            None
        }
    }
}

/// No two tags share an object identifier, so a tag sent to the host and read
/// back is the same tag.
pub proof fn law_oid_identifies_tag(a: TypeTag, b: TypeTag)
    ensures
        a.spec_oid() == b.spec_oid() <==> a == b,
{
}

} // verus!
