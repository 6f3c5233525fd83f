//! The closed set of types that the boundary can name, and the numeric codes
//! by which it names them.

use vstd::prelude::*;

verus! {

/// The primitive kinds that a parameter can hold.
#[derive(Clone, Copy, Debug, PartialEq, Eq, Structural)]
pub enum PrimitiveKind {
    Int32,
    Int64,
    Float32,
    Float64,
}

/// The object families whose members the bridge can re-wrap.
#[derive(Clone, Copy, Debug, PartialEq, Eq, Structural)]
pub enum Family {
    Machine,
    Kernel,
    Distance,
    Features,
    File,
    CombinationRule,
    Labels,
    Evaluation,
}

/// First-level type tag: a primitive kind, or a nested object whose family
/// is told by a second-level tag.
#[derive(Clone, Copy, Debug, PartialEq, Eq, Structural)]
pub enum TypeTag {
    Primitive(PrimitiveKind),
    Object,
}

/// How the boundary reported the outcome of a call.
#[derive(Clone, Copy, Debug, PartialEq, Eq, Structural)]
pub enum Status {
    Success,
    Error,
}

/// The two codes of a result envelope.
#[derive(Clone, Copy, Debug)]
pub struct ReturnCodes {
    pub success: u32,
    pub error: u32,
}

impl ReturnCodes {
    pub open spec fn wf(&self) -> bool {
        self.success != self.error
    }

    pub open spec fn spec_status(&self, code: u32) -> Option<Status> {
        if code == self.success {
            Some(Status::Success)
        } else if code == self.error {
            Some(Status::Error)
        } else {
            None
        }
    }

    pub open spec fn spec_code(&self, status: Status) -> u32 {
        match status {
            Status::Success => self.success,
            Status::Error => self.error,
        }
    }

    /// Tells whether the two codes differ.
    pub fn is_consistent(&self) -> (r: bool)
        ensures
            r == self.wf(),
    {
        self.success != self.error
    }

    /// Reads a returned status code; `None` is a code that is neither of the
    /// two, a violation of the protocol rather than a failed operation.
    pub fn status(&self, code: u32) -> (r: Option<Status>)
        ensures
            r == self.spec_status(code),
    {
        if code == self.success {
            Some(Status::Success)
        } else if code == self.error {
            Some(Status::Error)
        } else {
            None
        }
    }
}

/// The first-level codes: one per primitive kind, one for nested objects.
#[derive(Clone, Copy, Debug)]
pub struct TypeCodes {
    pub int32: u32,
    pub int64: u32,
    pub float32: u32,
    pub float64: u32,
    pub object: u32,
}

impl TypeCodes {
    pub open spec fn wf(&self) -> bool {
        &&& self.int32 != self.int64
        &&& self.int32 != self.float32
        &&& self.int32 != self.float64
        &&& self.int32 != self.object
        &&& self.int64 != self.float32
        &&& self.int64 != self.float64
        &&& self.int64 != self.object
        &&& self.float32 != self.float64
        &&& self.float32 != self.object
        &&& self.float64 != self.object
    }

    pub open spec fn spec_code(&self, tag: TypeTag) -> u32 {
        match tag {
            TypeTag::Primitive(PrimitiveKind::Int32) => self.int32,
            TypeTag::Primitive(PrimitiveKind::Int64) => self.int64,
            TypeTag::Primitive(PrimitiveKind::Float32) => self.float32,
            TypeTag::Primitive(PrimitiveKind::Float64) => self.float64,
            TypeTag::Object => self.object,
        }
    }

    pub open spec fn spec_tag(&self, code: u32) -> Option<TypeTag> {
        if code == self.int32 {
            Some(TypeTag::Primitive(PrimitiveKind::Int32))
        } else if code == self.int64 {
            Some(TypeTag::Primitive(PrimitiveKind::Int64))
        } else if code == self.float32 {
            Some(TypeTag::Primitive(PrimitiveKind::Float32))
        } else if code == self.float64 {
            Some(TypeTag::Primitive(PrimitiveKind::Float64))
        } else if code == self.object {
            Some(TypeTag::Object)
        } else {
            None
        }
    }

    /// Tells whether no two types share a code.
    pub fn is_consistent(&self) -> (r: bool)
        ensures
            r == self.wf(),
    {
        self.int32 != self.int64 && self.int32 != self.float32 && self.int32 != self.float64
            && self.int32 != self.object && self.int64 != self.float32
            && self.int64 != self.float64 && self.int64 != self.object
            && self.float32 != self.float64 && self.float32 != self.object
            && self.float64 != self.object
    }

    /// The code that tags a value of the given type on its way in.
    pub fn code(&self, tag: TypeTag) -> (r: u32)
        ensures
            r == self.spec_code(tag),
    {
        match tag {
            TypeTag::Primitive(PrimitiveKind::Int32) => self.int32,
            TypeTag::Primitive(PrimitiveKind::Int64) => self.int64,
            TypeTag::Primitive(PrimitiveKind::Float32) => self.float32,
            TypeTag::Primitive(PrimitiveKind::Float64) => self.float64,
            TypeTag::Object => self.object,
        }
    }

    /// The type that a code names, if it names one.
    pub fn tag(&self, code: u32) -> (r: Option<TypeTag>)
        ensures
            r == self.spec_tag(code),
    {
        if code == self.int32 {
            Some(TypeTag::Primitive(PrimitiveKind::Int32))
        } else if code == self.int64 {
            Some(TypeTag::Primitive(PrimitiveKind::Int64))
        } else if code == self.float32 {
            Some(TypeTag::Primitive(PrimitiveKind::Float32))
        } else if code == self.float64 {
            Some(TypeTag::Primitive(PrimitiveKind::Float64))
        } else if code == self.object {
            Some(TypeTag::Object)
        } else {
            None
        }
    }
}


/// The second-level codes: one per object family.
#[derive(Clone, Copy, Debug)]
pub struct FamilyCodes {
    pub machine: u32,
    pub kernel: u32,
    pub distance: u32,
    pub features: u32,
    pub file: u32,
    pub combination_rule: u32,
    pub labels: u32,
    pub evaluation: u32,
}

impl FamilyCodes {
    pub open spec fn wf(&self) -> bool {
        &&& self.machine != self.kernel
        &&& self.machine != self.distance
        &&& self.machine != self.features
        &&& self.machine != self.file
        &&& self.machine != self.combination_rule
        &&& self.machine != self.labels
        &&& self.machine != self.evaluation
        &&& self.kernel != self.distance
        &&& self.kernel != self.features
        &&& self.kernel != self.file
        &&& self.kernel != self.combination_rule
        &&& self.kernel != self.labels
        &&& self.kernel != self.evaluation
        &&& self.distance != self.features
        &&& self.distance != self.file
        &&& self.distance != self.combination_rule
        &&& self.distance != self.labels
        &&& self.distance != self.evaluation
        &&& self.features != self.file
        &&& self.features != self.combination_rule
        &&& self.features != self.labels
        &&& self.features != self.evaluation
        &&& self.file != self.combination_rule
        &&& self.file != self.labels
        &&& self.file != self.evaluation
        &&& self.combination_rule != self.labels
        &&& self.combination_rule != self.evaluation
        &&& self.labels != self.evaluation
    }

    pub open spec fn spec_code(&self, family: Family) -> u32 {
        match family {
            Family::Machine => self.machine,
            Family::Kernel => self.kernel,
            Family::Distance => self.distance,
            Family::Features => self.features,
            Family::File => self.file,
            Family::CombinationRule => self.combination_rule,
            Family::Labels => self.labels,
            Family::Evaluation => self.evaluation,
        }
    }

    pub open spec fn spec_family(&self, code: u32) -> Option<Family> {
        if code == self.machine {
            Some(Family::Machine)
        } else if code == self.kernel {
            Some(Family::Kernel)
        } else if code == self.distance {
            Some(Family::Distance)
        } else if code == self.features {
            Some(Family::Features)
        } else if code == self.file {
            Some(Family::File)
        } else if code == self.combination_rule {
            Some(Family::CombinationRule)
        } else if code == self.labels {
            Some(Family::Labels)
        } else if code == self.evaluation {
            Some(Family::Evaluation)
        } else {
            None
        }
    }

    /// Tells whether no two families share a code.
    pub fn is_consistent(&self) -> (r: bool)
        ensures
            r == self.wf(),
    {
        self.machine != self.kernel && self.machine != self.distance
            && self.machine != self.features && self.machine != self.file
            && self.machine != self.combination_rule && self.machine != self.labels
            && self.machine != self.evaluation && self.kernel != self.distance
            && self.kernel != self.features && self.kernel != self.file
            && self.kernel != self.combination_rule && self.kernel != self.labels
            && self.kernel != self.evaluation && self.distance != self.features
            && self.distance != self.file && self.distance != self.combination_rule
            && self.distance != self.labels && self.distance != self.evaluation
            && self.features != self.file && self.features != self.combination_rule
            && self.features != self.labels && self.features != self.evaluation
            && self.file != self.combination_rule && self.file != self.labels
            && self.file != self.evaluation && self.combination_rule != self.labels
            && self.combination_rule != self.evaluation && self.labels != self.evaluation
    }

    /// The code by which the boundary names a family.
    pub fn code(&self, family: Family) -> (r: u32)
        ensures
            r == self.spec_code(family),
    {
        match family {
            Family::Machine => self.machine,
            Family::Kernel => self.kernel,
            Family::Distance => self.distance,
            Family::Features => self.features,
            Family::File => self.file,
            Family::CombinationRule => self.combination_rule,
            Family::Labels => self.labels,
            Family::Evaluation => self.evaluation,
        }
    }

    /// Derived-type resolution: the family that a second-level code names,
    /// if the registry knows it.
    pub fn family(&self, code: u32) -> (r: Option<Family>)
        ensures
            r == self.spec_family(code),
    {
        if code == self.machine {
            Some(Family::Machine)
        } else if code == self.kernel {
            Some(Family::Kernel)
        } else if code == self.distance {
            Some(Family::Distance)
        } else if code == self.features {
            Some(Family::Features)
        } else if code == self.file {
            Some(Family::File)
        } else if code == self.combination_rule {
            Some(Family::CombinationRule)
        } else if code == self.labels {
            Some(Family::Labels)
        } else if code == self.evaluation {
            Some(Family::Evaluation)
        } else {
            None
        }
    }
}

/// Every code that the bridge reads from or writes to the boundary.
#[derive(Clone, Copy, Debug)]
pub struct Registry {
    pub returns: ReturnCodes,
    pub types: TypeCodes,
    pub families: FamilyCodes,
}

impl Registry {
    /// Each table names each of its entries by a code of its own.
    pub open spec fn wf(&self) -> bool {
        &&& self.returns.wf()
        &&& self.types.wf()
        &&& self.families.wf()
    }

    /// Tells whether the tables are consistent, so that every code reads back
    /// as the entry it was given for.
    pub fn is_consistent(&self) -> (r: bool)
        ensures
            r == self.wf(),
    {
        self.returns.is_consistent() && self.types.is_consistent()
            && self.families.is_consistent()
    }
}

/// A status written with its code reads back as that status, and a code reads
/// as a status only if it is that status's code.
pub proof fn lemma_status_round_trip(codes: ReturnCodes, status: Status, code: u32)
    requires
        codes.wf(),
    ensures
        codes.spec_status(codes.spec_code(status)) == Some(status),
        codes.spec_status(code) == Some(status) ==> code == codes.spec_code(status),
{
}

/// A type tag sent with its code reads back as the same tag, for each of the
/// primitive kinds and for nested objects; and a code reads as a tag only if
/// it is that tag's code.
pub proof fn lemma_tag_round_trip(codes: TypeCodes, tag: TypeTag, code: u32)
    requires
        codes.wf(),
    ensures
        codes.spec_tag(codes.spec_code(tag)) == Some(tag),
        codes.spec_tag(code) == Some(tag) ==> code == codes.spec_code(tag),
{
}

/// Derived-type resolution is exact over the registry: the code of each
/// family resolves to that family and to no other, and a code resolves to a
/// family only if it is that family's code.
pub proof fn lemma_family_round_trip(codes: FamilyCodes, family: Family, code: u32)
    requires
        codes.wf(),
    ensures
        codes.spec_family(codes.spec_code(family)) == Some(family),
        codes.spec_family(code) == Some(family) ==> code == codes.spec_code(family),
{
}

} // verus!
