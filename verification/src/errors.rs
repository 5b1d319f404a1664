use vstd::prelude::*;

verus! {

/// One of the two assets the exchange trades.
#[derive(Clone, Copy, PartialEq, Eq, Structural, Debug)]
pub enum AssetSide {
    AssetA,
    AssetB,
}

impl AssetSide {
    /// The other asset: the one paid out when `self` was deposited.
    pub open spec fn spec_opposite(self) -> AssetSide {
        match self {
            AssetSide::AssetA => AssetSide::AssetB,
            AssetSide::AssetB => AssetSide::AssetA,
        }
    }

    pub fn opposite(self) -> (r: AssetSide)
        ensures
            r == self.spec_opposite(),
    {
        match self {
            AssetSide::AssetA => AssetSide::AssetB,
            AssetSide::AssetB => AssetSide::AssetA,
        }
    }
}

/// Every failure the exchange can report. Each is terminal for the
/// operation in which it occurs; no state is mutated on a failure path.
#[derive(Clone, Copy, PartialEq, Eq, Structural, Debug)]
pub enum AmmError {
    /// A deposit notification came from an identity that is neither
    /// configured asset ledger.
    UnauthorizedCaller,
    /// A remote call reported failure, or its payload could not be
    /// interpreted; the side names whose result was unusable.
    RemoteDecodeFailure(AssetSide),
    /// The reserve product exceeds the widest supported integer range.
    ArithmeticOverflow,
    /// A query needing descriptive metadata ran before bootstrap completed.
    UninitializedMetadata,
}

} // verus!
