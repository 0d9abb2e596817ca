//! The kinds of resource in the game, and sets of them.
use vstd::prelude::*;

verus! {

/// The resources that a planet generates from an energy cell.
#[derive(Clone, Copy, Debug, PartialEq, Eq, Hash, Structural)]
pub enum BasicKind {
    Oxygen,
    Hydrogen,
    Carbon,
    Silicon,
}

/// The resources that a planet combines from two others.
#[derive(Clone, Copy, Debug, PartialEq, Eq, Hash, Structural)]
pub enum ComplexKind {
    Diamond,
    Water,
    Life,
    Robot,
    Dolphin,
    AIPartner,
}

/// Any resource.
#[derive(Clone, Copy, Debug, PartialEq, Eq, Hash, Structural)]
pub enum ResourceKind {
    Basic(BasicKind),
    Complex(ComplexKind),
}

/// A set of basic resources, one flag per kind.
#[derive(Clone, Copy, Debug, PartialEq, Eq, Structural)]
pub struct BasicSet {
    pub oxygen: bool,
    pub hydrogen: bool,
    pub carbon: bool,
    pub silicon: bool,
}

/// A set of complex resources, one flag per kind.
#[derive(Clone, Copy, Debug, PartialEq, Eq, Structural)]
pub struct ComplexSet {
    pub diamond: bool,
    pub water: bool,
    pub life: bool,
    pub robot: bool,
    pub dolphin: bool,
    pub ai_partner: bool,
}

pub open spec fn flag(b: bool) -> nat {
    if b {
        1
    } else {
        0
    }
}

impl BasicSet {
    pub open spec fn has(self, k: BasicKind) -> bool {
        match k {
            BasicKind::Oxygen => self.oxygen,
            BasicKind::Hydrogen => self.hydrogen,
            BasicKind::Carbon => self.carbon,
            BasicKind::Silicon => self.silicon,
        }
    }

    /// The number of kinds in the set.
    pub open spec fn size(self) -> nat {
        flag(self.oxygen) + flag(self.hydrogen) + flag(self.carbon) + flag(self.silicon)
    }

    /// The set with no kind in it.
    pub fn empty() -> (s: BasicSet)
        ensures
            s.size() == 0,
            forall|k: BasicKind| !s.has(k),
    {
        BasicSet { oxygen: false, hydrogen: false, carbon: false, silicon: false }
    }

    /// The set with one more kind in it.
    pub fn insert(&mut self, k: BasicKind)
        ensures
            forall|j: BasicKind| final(self).has(j) == (old(self).has(j) || j == k),
    {
        match k {
            BasicKind::Oxygen => self.oxygen = true,
            BasicKind::Hydrogen => self.hydrogen = true,
            BasicKind::Carbon => self.carbon = true,
            BasicKind::Silicon => self.silicon = true,
        }
    }

    /// Whether the kind is in the set.
    pub fn contains(&self, k: BasicKind) -> (b: bool)
        ensures
            b == self.has(k),
    {
        match k {
            BasicKind::Oxygen => self.oxygen,
            BasicKind::Hydrogen => self.hydrogen,
            BasicKind::Carbon => self.carbon,
            BasicKind::Silicon => self.silicon,
        }
    }

    /// The number of kinds in the set.
    pub fn len(&self) -> (n: usize)
        ensures
            n == self.size(),
    {
        let mut n: usize = 0;
        if self.oxygen {
            n = n + 1;
        }
        if self.hydrogen {
            n = n + 1;
        }
        if self.carbon {
            n = n + 1;
        }
        if self.silicon {
            n = n + 1;
        }
        n
    }
}

impl ComplexSet {
    pub open spec fn has(self, k: ComplexKind) -> bool {
        match k {
            ComplexKind::Diamond => self.diamond,
            ComplexKind::Water => self.water,
            ComplexKind::Life => self.life,
            ComplexKind::Robot => self.robot,
            ComplexKind::Dolphin => self.dolphin,
            ComplexKind::AIPartner => self.ai_partner,
        }
    }

    /// The number of kinds in the set.
    pub open spec fn size(self) -> nat {
        flag(self.diamond) + flag(self.water) + flag(self.life) + flag(self.robot) + flag(
            self.dolphin,
        ) + flag(self.ai_partner)
    }

    /// The set with no kind in it.
    pub fn empty() -> (s: ComplexSet)
        ensures
            s.size() == 0,
            forall|k: ComplexKind| !s.has(k),
    {
        ComplexSet {
            diamond: false,
            water: false,
            life: false,
            robot: false,
            dolphin: false,
            ai_partner: false,
        }
    }

    /// The set with one more kind in it.
    pub fn insert(&mut self, k: ComplexKind)
        ensures
            forall|j: ComplexKind| final(self).has(j) == (old(self).has(j) || j == k),
    {
        match k {
            ComplexKind::Diamond => self.diamond = true,
            ComplexKind::Water => self.water = true,
            ComplexKind::Life => self.life = true,
            ComplexKind::Robot => self.robot = true,
            ComplexKind::Dolphin => self.dolphin = true,
            ComplexKind::AIPartner => self.ai_partner = true,
        }
    }

    /// Whether the kind is in the set.
    pub fn contains(&self, k: ComplexKind) -> (b: bool)
        ensures
            b == self.has(k),
    {
        match k {
            ComplexKind::Diamond => self.diamond,
            ComplexKind::Water => self.water,
            ComplexKind::Life => self.life,
            ComplexKind::Robot => self.robot,
            ComplexKind::Dolphin => self.dolphin,
            ComplexKind::AIPartner => self.ai_partner,
        }
    }

    /// The number of kinds in the set.
    pub fn len(&self) -> (n: usize)
        ensures
            n == self.size(),
    {
        let mut n: usize = 0;
        if self.diamond {
            n = n + 1;
        }
        if self.water {
            n = n + 1;
        }
        if self.life {
            n = n + 1;
        }
        if self.robot {
            n = n + 1;
        }
        if self.dolphin {
            n = n + 1;
        }
        if self.ai_partner {
            n = n + 1;
        }
        n
    }
}

} // verus!
