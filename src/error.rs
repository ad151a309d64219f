//! The flat result codes, and how every richer failure of the grid engine
//! collapses into one of them.
use vstd::prelude::*;

verus! {

/// Result code (success or specific error) from an operation.
#[derive(Debug, Copy, Clone, PartialEq, Eq, Structural)]
pub struct H3Error(pub u32);

/// The closed set of result codes.
#[derive(Debug, Copy, Clone, PartialEq, Eq, Structural)]
#[non_exhaustive]
pub enum H3ErrorCodes {
    /// Success (no error).
    ESuccess,
    /// The operation failed but a more specific error is not available.
    EFailed,
    /// Argument was outside of acceptable range (when a more specific error
    /// code is not available).
    EDomain,
    /// Latitude or longitude arguments were outside of acceptable range.
    ELatlngDomain,
    /// Resolution argument was outside of acceptable range.
    EResDomain,
    /// Cell argument was not valid.
    ECellInvalid,
    /// Directed edge argument was not valid.
    EDirEdgeInvalid,
    /// Undirected edge argument was not valid.
    EUndirEdgeInvalid,
    /// Vertex argument was not valid.
    EVertexInvalid,
    /// Pentagon distortion was encountered which the algorithm could not
    /// handle.
    EPentagon,
    /// Duplicate input was encountered in the arguments and the algorithm
    /// could not handle it.
    EDuplicateInput,
    /// Cell arguments were not neighbors.
    ENotNeighbors,
    /// Cell arguments had incompatible resolutions.
    EResMismatch,
    /// Necessary memory allocation failed.
    EMemoryAlloc,
    /// Bounds of provided memory were not large enough.
    EMemoryBounds,
    /// Mode or flags argument was not valid.
    EOptionInvalid,
}

impl H3ErrorCodes {
    /// The numeric value of the code.
    pub open spec fn spec_value(self) -> u32 {
        match self {
            H3ErrorCodes::ESuccess => 0,
            H3ErrorCodes::EFailed => 1,
            H3ErrorCodes::EDomain => 2,
            H3ErrorCodes::ELatlngDomain => 3,
            H3ErrorCodes::EResDomain => 4,
            H3ErrorCodes::ECellInvalid => 5,
            H3ErrorCodes::EDirEdgeInvalid => 6,
            H3ErrorCodes::EUndirEdgeInvalid => 7,
            H3ErrorCodes::EVertexInvalid => 8,
            H3ErrorCodes::EPentagon => 9,
            H3ErrorCodes::EDuplicateInput => 10,
            H3ErrorCodes::ENotNeighbors => 11,
            H3ErrorCodes::EResMismatch => 12,
            H3ErrorCodes::EMemoryAlloc => 13,
            H3ErrorCodes::EMemoryBounds => 14,
            H3ErrorCodes::EOptionInvalid => 15,
        }
    }

    /// The numeric value of the code.
    #[verifier::when_used_as_spec(spec_value)]
    pub fn value(self) -> (r: u32)
        ensures
            r == self.spec_value(),
    {
        match self {
            H3ErrorCodes::ESuccess => 0,
            H3ErrorCodes::EFailed => 1,
            H3ErrorCodes::EDomain => 2,
            H3ErrorCodes::ELatlngDomain => 3,
            H3ErrorCodes::EResDomain => 4,
            H3ErrorCodes::ECellInvalid => 5,
            H3ErrorCodes::EDirEdgeInvalid => 6,
            H3ErrorCodes::EUndirEdgeInvalid => 7,
            H3ErrorCodes::EVertexInvalid => 8,
            H3ErrorCodes::EPentagon => 9,
            H3ErrorCodes::EDuplicateInput => 10,
            H3ErrorCodes::ENotNeighbors => 11,
            H3ErrorCodes::EResMismatch => 12,
            H3ErrorCodes::EMemoryAlloc => 13,
            H3ErrorCodes::EMemoryBounds => 14,
            H3ErrorCodes::EOptionInvalid => 15,
        }
    }
}

/// The result code that stands for `c`.
pub open spec fn code(c: H3ErrorCodes) -> H3Error {
    H3Error(c.spec_value())
}

/// The result code of a successful call.
pub open spec fn success() -> H3Error {
    code(H3ErrorCodes::ESuccess)
}

impl H3Error {
    /// Builds the result code that stands for `c`.
    pub fn of(c: H3ErrorCodes) -> (r: H3Error)
        ensures
            r == code(c),
    {
        H3Error(c.value())
    }

    /// Whether this code reports success.
    pub fn is_success(self) -> (r: bool)
        ensures
            r == (self == success()),
    {
        self.0 == 0
    }
}

impl From<H3ErrorCodes> for H3Error {
    fn from(value: H3ErrorCodes) -> (r: Self)
        ensures
            r == code(value),
    {
        H3Error(value.value())
    }
}

impl vstd::std_specs::convert::FromSpecImpl<H3ErrorCodes> for H3Error {
    open spec fn obeys_from_spec() -> bool {
        true
    }

    open spec fn from_spec(v: H3ErrorCodes) -> Self {
        code(v)
    }
}

} // verus!

verus! {

/// Why a cell could not be placed in the local coordinate system of another.
#[derive(Debug, Copy, Clone, PartialEq, Eq, Structural)]
pub enum LocalIjFailure {
    /// The two cells have incompatible resolutions.
    ResolutionMismatch,
    /// Pentagon distortion was encountered and could not be handled.
    Pentagon,
    /// The coordinate system cannot reach the cell (e.g. too far away).
    HexGrid,
}

/// The result code that a coordinate-system failure collapses to.
pub open spec fn local_ij_code(f: LocalIjFailure) -> H3Error {
    match f {
        LocalIjFailure::ResolutionMismatch => code(H3ErrorCodes::EResMismatch),
        LocalIjFailure::Pentagon => code(H3ErrorCodes::EPentagon),
        LocalIjFailure::HexGrid => code(H3ErrorCodes::EFailed),
    }
}

impl From<LocalIjFailure> for H3Error {
    fn from(value: LocalIjFailure) -> (r: Self)
        ensures
            r == local_ij_code(value),
    {
        match value {
            LocalIjFailure::ResolutionMismatch => H3Error::of(H3ErrorCodes::EResMismatch),
            LocalIjFailure::Pentagon => H3Error::of(H3ErrorCodes::EPentagon),
            LocalIjFailure::HexGrid => H3Error::of(H3ErrorCodes::EFailed),
        }
    }
}

impl vstd::std_specs::convert::FromSpecImpl<LocalIjFailure> for H3Error {
    open spec fn obeys_from_spec() -> bool {
        true
    }

    open spec fn from_spec(v: LocalIjFailure) -> Self {
        local_ij_code(v)
    }
}

} // verus!

verus! {

/// Why a set of cells could not be compacted.
#[derive(Debug, Copy, Clone, PartialEq, Eq, Structural)]
pub enum CompactionFailure {
    /// The cells have different resolutions.
    HeterogeneousResolution,
    /// A cell occurs twice.
    DuplicateInput,
    /// Any other reason.
    Other,
}

/// The result code that a compaction failure collapses to.
pub open spec fn compaction_code(f: CompactionFailure) -> H3Error {
    match f {
        CompactionFailure::HeterogeneousResolution => code(H3ErrorCodes::EResMismatch),
        CompactionFailure::DuplicateInput => code(H3ErrorCodes::EDuplicateInput),
        CompactionFailure::Other => code(H3ErrorCodes::EFailed),
    }
}

impl From<CompactionFailure> for H3Error {
    fn from(value: CompactionFailure) -> (r: Self)
        ensures
            r == compaction_code(value),
    {
        match value {
            CompactionFailure::HeterogeneousResolution => H3Error::of(H3ErrorCodes::EResMismatch),
            CompactionFailure::DuplicateInput => H3Error::of(H3ErrorCodes::EDuplicateInput),
            CompactionFailure::Other => H3Error::of(H3ErrorCodes::EFailed),
        }
    }
}

impl vstd::std_specs::convert::FromSpecImpl<CompactionFailure> for H3Error {
    open spec fn obeys_from_spec() -> bool {
        true
    }

    open spec fn from_spec(v: CompactionFailure) -> Self {
        compaction_code(v)
    }
}

} // verus!

verus! {

/// Why the outline of a set of cells could not be traced.
#[derive(Debug, Copy, Clone, PartialEq, Eq, Structural)]
pub enum OutlinerFailure {
    /// The cells have different resolutions.
    HeterogeneousResolution,
    /// A cell occurs twice.
    DuplicateInput,
    /// Any other reason.
    Other,
}

/// The result code that an outline failure collapses to.
pub open spec fn outliner_code(f: OutlinerFailure) -> H3Error {
    match f {
        OutlinerFailure::HeterogeneousResolution => code(H3ErrorCodes::EResMismatch),
        OutlinerFailure::DuplicateInput => code(H3ErrorCodes::EDuplicateInput),
        OutlinerFailure::Other => code(H3ErrorCodes::EFailed),
    }
}

impl From<OutlinerFailure> for H3Error {
    fn from(value: OutlinerFailure) -> (r: Self)
        ensures
            r == outliner_code(value),
    {
        match value {
            OutlinerFailure::HeterogeneousResolution => H3Error::of(H3ErrorCodes::EResMismatch),
            OutlinerFailure::DuplicateInput => H3Error::of(H3ErrorCodes::EDuplicateInput),
            OutlinerFailure::Other => H3Error::of(H3ErrorCodes::EFailed),
        }
    }
}

impl vstd::std_specs::convert::FromSpecImpl<OutlinerFailure> for H3Error {
    open spec fn obeys_from_spec() -> bool {
        true
    }

    open spec fn from_spec(v: OutlinerFailure) -> Self {
        outliner_code(v)
    }
}

} // verus!
