use vstd::prelude::*;

verus! {

/// Volume unit in which an uncorrected meter reading is given.
#[derive(Clone, Copy, Debug, PartialEq, Eq, Structural)]
pub enum VolumeUnit {
    /// Cubic feet.
    Cf,
    /// Hundreds of cubic feet.
    Ccf,
    /// Thousands of cubic feet.
    Mcf,
}

/// Cubic feet in one unit of `u`.
pub open spec fn cubic_feet_in(u: VolumeUnit) -> nat {
    match u {
        VolumeUnit::Cf => 1,
        VolumeUnit::Ccf => 100,
        VolumeUnit::Mcf => 1000,
    }
}

/// The unit picked by menu entry `choice` (1: CF, 2: CCF, 3: MCF).
pub open spec fn volume_unit_of_choice(choice: int) -> Option<VolumeUnit> {
    if choice == 1 {
        Some(VolumeUnit::Cf)
    } else if choice == 2 {
        Some(VolumeUnit::Ccf)
    } else if choice == 3 {
        Some(VolumeUnit::Mcf)
    } else {
        None
    }
}

impl VolumeUnit {
    /// The unit of menu entry `choice`, or `None` for an entry outside 1 to 3.
    pub fn from_choice(choice: u32) -> (r: Option<VolumeUnit>)
        ensures
            r == volume_unit_of_choice(choice as int),
    {
        match choice {
            1 => Some(VolumeUnit::Cf),
            2 => Some(VolumeUnit::Ccf),
            3 => Some(VolumeUnit::Mcf),
            _ => None,
        }
    }

    /// Cubic feet in one unit: the factor that brings a reading in this unit
    /// to cubic feet, and the divisor that brings cubic feet back to it.
    pub fn cubic_feet(&self) -> (r: u32)
        ensures
            r as nat == cubic_feet_in(*self),
    {
        match self {
            VolumeUnit::Cf => 1,
            VolumeUnit::Ccf => 100,
            VolumeUnit::Mcf => 1000,
        }
    }
}


/// Unit of an energy or volume figure in the conversion table.
#[derive(Clone, Copy, Debug, PartialEq, Eq, Structural)]
pub enum Unit {
    /// British thermal units.
    Btu,
    /// Thousands of BTU.
    Mbtu,
    /// Millions of BTU.
    Mmbtu,
    /// Cubic feet.
    Cf,
    /// Hundreds of cubic feet.
    Ccf,
    /// Thousands of cubic feet.
    Mcf,
}

/// Whether `u` measures energy (rather than volume).
pub open spec fn is_energy(u: Unit) -> bool {
    u is Btu || u is Mbtu || u is Mmbtu
}

/// One unit of `u` in the base unit of its kind: BTU for energy, cubic feet
/// for volume.
pub open spec fn base_units_in(u: Unit) -> nat {
    match u {
        Unit::Btu => 1,
        Unit::Mbtu => 1000,
        Unit::Mmbtu => 1000000,
        Unit::Cf => 1,
        Unit::Ccf => 100,
        Unit::Mcf => 1000,
    }
}

/// The unit picked by menu entry `choice` (1 to 6: BTU, MBTU, MMBTU, CF, CCF,
/// MCF).
pub open spec fn unit_of_choice(choice: int) -> Option<Unit> {
    if choice == 1 {
        Some(Unit::Btu)
    } else if choice == 2 {
        Some(Unit::Mbtu)
    } else if choice == 3 {
        Some(Unit::Mmbtu)
    } else if choice == 4 {
        Some(Unit::Cf)
    } else if choice == 5 {
        Some(Unit::Ccf)
    } else if choice == 6 {
        Some(Unit::Mcf)
    } else {
        None
    }
}

/// The label under which a figure in `u` is shown.
pub open spec fn label_of(u: Unit) -> Seq<char> {
    match u {
        Unit::Btu => seq!['B', 'T', 'U'],
        Unit::Mbtu => seq!['M', 'B', 'T', 'U'],
        Unit::Mmbtu => seq!['M', 'M', 'B', 'T', 'U'],
        Unit::Cf => seq!['C', 'F'],
        Unit::Ccf => seq!['C', 'C', 'F'],
        Unit::Mcf => seq!['M', 'C', 'F'],
    }
}

/// The six units in the order in which results are listed.
pub open spec fn listing_order() -> Seq<Unit> {
    seq![Unit::Btu, Unit::Mbtu, Unit::Mmbtu, Unit::Cf, Unit::Ccf, Unit::Mcf]
}

impl Unit {
    /// The unit of menu entry `choice`, or `None` for an entry outside 1 to 6.
    pub fn from_choice(choice: u32) -> (r: Option<Unit>)
        ensures
            r == unit_of_choice(choice as int),
    {
        match choice {
            1 => Some(Unit::Btu),
            2 => Some(Unit::Mbtu),
            3 => Some(Unit::Mmbtu),
            4 => Some(Unit::Cf),
            5 => Some(Unit::Ccf),
            6 => Some(Unit::Mcf),
            _ => None,
        }
    }

    /// Whether this unit measures energy.
    pub fn is_energy(&self) -> (r: bool)
        ensures
            r == is_energy(*self),
    {
        match self {
            Unit::Btu | Unit::Mbtu | Unit::Mmbtu => true,
            _ => false,
        }
    }

    /// One unit of this in BTU (energy) or in cubic feet (volume).
    pub fn base_units(&self) -> (r: u64)
        ensures
            r as nat == base_units_in(*self),
    {
        match self {
            Unit::Btu => 1,
            Unit::Mbtu => 1000,
            Unit::Mmbtu => 1000000,
            Unit::Cf => 1,
            Unit::Ccf => 100,
            Unit::Mcf => 1000,
        }
    }

    /// The label under which a figure in this unit is shown.
    pub fn label(&self) -> (r: &'static str)
        ensures
            r@ == label_of(*self),
    {
        proof {
            reveal_strlit("BTU");
            reveal_strlit("MBTU");
            reveal_strlit("MMBTU");
            reveal_strlit("CF");
            reveal_strlit("CCF");
            reveal_strlit("MCF");
        }
        match self {
            Unit::Btu => "BTU",
            Unit::Mbtu => "MBTU",
            Unit::Mmbtu => "MMBTU",
            Unit::Cf => "CF",
            Unit::Ccf => "CCF",
            Unit::Mcf => "MCF",
        }
    }

    /// All six units, in the order in which results are listed.
    pub fn listing() -> (r: Vec<Unit>)
        ensures
            r@ == listing_order(),
    {
        let r = vec![Unit::Btu, Unit::Mbtu, Unit::Mmbtu, Unit::Cf, Unit::Ccf, Unit::Mcf];
        assert(r@ =~= listing_order());
        r
    }
}

} // verus!
