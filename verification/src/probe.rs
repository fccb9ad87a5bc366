use vstd::prelude::*;

verus! {

/// Kind of a light probe object.
#[derive(Clone, Copy, Debug, PartialEq, Eq, Structural)]
pub enum ProbeType {
    Cube,
    Planar,
    Grid,
}

impl ProbeType {
    /// The probe type that a type code stands for, if any.
    pub open spec fn of_code(code: i8) -> Option<ProbeType> {
        if code == 0 {
            Some(ProbeType::Cube)
        } else if code == 1 {
            Some(ProbeType::Planar)
        } else if code == 2 {
            Some(ProbeType::Grid)
        } else {
            None
        }
    }

    /// Reads the type code of a light probe object.
    pub fn from_code(code: i8) -> (probe: Option<ProbeType>)
        ensures
            probe == Self::of_code(code),
    {
        match code {
            0 => Some(ProbeType::Cube),
            1 => Some(ProbeType::Planar),
            2 => Some(ProbeType::Grid),
            _ => None,
        }
    }

    /// Name of the probe type in reports.
    pub open spec fn spec_label(self) -> Seq<char> {
        match self {
            ProbeType::Cube => "LIGHTPROBE_TYPE_CUBE"@,
            ProbeType::Planar => "LIGHTPROBE_TYPE_PLANAR"@,
            ProbeType::Grid => "LIGHTPROBE_TYPE_GRID"@,
        }
    }

    /// Name of the probe type in reports.
    pub fn label(self) -> (name: &'static str)
        ensures
            name@ == self.spec_label(),
    {
        match self {
            ProbeType::Cube => "LIGHTPROBE_TYPE_CUBE",
            ProbeType::Planar => "LIGHTPROBE_TYPE_PLANAR",
            ProbeType::Grid => "LIGHTPROBE_TYPE_GRID",
        }
    }
}

} // verus!
