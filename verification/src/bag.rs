//! An explorer's bag: one stack of items per kind of resource. The items
//! themselves are whatever the caller keeps (the game's resource values); the
//! bag orders them, counts them and hands out the ingredients of a recipe.
use vstd::prelude::*;
use crate::resources::{BasicKind, ComplexKind, ResourceKind};

verus! {

/// The two ingredients of a complex resource, in the order they are taken.
pub open spec fn recipe(k: ComplexKind) -> (ResourceKind, ResourceKind) {
    match k {
        ComplexKind::Diamond => (ResourceKind::Basic(BasicKind::Carbon), ResourceKind::Basic(BasicKind::Carbon)),
        ComplexKind::Water => (ResourceKind::Basic(BasicKind::Hydrogen), ResourceKind::Basic(BasicKind::Oxygen)),
        ComplexKind::Life => (ResourceKind::Complex(ComplexKind::Water), ResourceKind::Basic(BasicKind::Carbon)),
        ComplexKind::Robot => (ResourceKind::Basic(BasicKind::Silicon), ResourceKind::Complex(ComplexKind::Life)),
        ComplexKind::Dolphin => (ResourceKind::Complex(ComplexKind::Water), ResourceKind::Complex(ComplexKind::Life)),
        ComplexKind::AIPartner => (ResourceKind::Complex(ComplexKind::Robot), ResourceKind::Complex(ComplexKind::Diamond)),
    }
}

/// The kinds in the order the bag lists them.
pub open spec fn kind_order() -> Seq<ResourceKind> {
    seq![
        ResourceKind::Basic(BasicKind::Oxygen),
        ResourceKind::Basic(BasicKind::Hydrogen),
        ResourceKind::Basic(BasicKind::Carbon),
        ResourceKind::Basic(BasicKind::Silicon),
        ResourceKind::Complex(ComplexKind::Diamond),
        ResourceKind::Complex(ComplexKind::Water),
        ResourceKind::Complex(ComplexKind::Life),
        ResourceKind::Complex(ComplexKind::Robot),
        ResourceKind::Complex(ComplexKind::Dolphin),
        ResourceKind::Complex(ComplexKind::AIPartner),
    ]
}

/// A resource's kind repeated `n` times.
pub open spec fn repeat(k: ResourceKind, n: nat) -> Seq<ResourceKind> {
    Seq::new(n, |i: int| k)
}

/// Why a recipe cannot be made.
#[derive(Clone, Copy, Debug, PartialEq, Eq, Structural)]
pub enum CraftError {
    /// The bag lacks an ingredient of this resource.
    MissingResources(ComplexKind),
}

/// The text of a craft error, as the explorer reports it.
pub open spec fn craft_error_text(e: CraftError) -> Seq<char> {
    match e {
        CraftError::MissingResources(ComplexKind::Diamond) => "Missing resources for Diamond"@,
        CraftError::MissingResources(ComplexKind::Water) => "Missing resources for Water"@,
        CraftError::MissingResources(ComplexKind::Life) => "Missing resources for Life"@,
        CraftError::MissingResources(ComplexKind::Robot) => "Missing resources for Robot"@,
        CraftError::MissingResources(ComplexKind::Dolphin) => "Missing resources for Dolphin"@,
        CraftError::MissingResources(ComplexKind::AIPartner) => "Missing resources for AIPartner"@,
    }
}

impl CraftError {
    /// The error's text; see `craft_error_text`.
    pub fn message(&self) -> (s: String)
        ensures
            s@ == craft_error_text(*self),
    {
        match self {
            CraftError::MissingResources(ComplexKind::Diamond) => "Missing resources for Diamond".to_owned(),
            CraftError::MissingResources(ComplexKind::Water) => "Missing resources for Water".to_owned(),
            CraftError::MissingResources(ComplexKind::Life) => "Missing resources for Life".to_owned(),
            CraftError::MissingResources(ComplexKind::Robot) => "Missing resources for Robot".to_owned(),
            CraftError::MissingResources(ComplexKind::Dolphin) => "Missing resources for Dolphin".to_owned(),
            CraftError::MissingResources(ComplexKind::AIPartner) => "Missing resources for AIPartner".to_owned(),
        }
    }
}

/// An explorer's bag.
pub struct Bag<T> {
    oxygen: Vec<T>,
    hydrogen: Vec<T>,
    carbon: Vec<T>,
    silicon: Vec<T>,
    diamond: Vec<T>,
    water: Vec<T>,
    life: Vec<T>,
    robot: Vec<T>,
    dolphin: Vec<T>,
    ai_partner: Vec<T>,
}

/// `post` is `pre` with `x` on top of the stack of `k`.
pub open spec fn inserted<T>(pre: Bag<T>, post: Bag<T>, k: ResourceKind, x: T) -> bool {
    &&& post.stack(k) == pre.stack(k).push(x)
    &&& forall|j: ResourceKind| j != k ==> #[trigger] post.stack(j) == pre.stack(j)
}

/// `r` is what taking an item of kind `k` from `pre` gave, and `post` is the
/// bag left: the top of the stack where it is not empty, else nothing.
pub open spec fn took<T>(pre: Bag<T>, post: Bag<T>, k: ResourceKind, r: Option<T>) -> bool {
    &&& forall|j: ResourceKind| j != k ==> #[trigger] post.stack(j) == pre.stack(j)
    &&& if pre.stack(k).len() == 0 {
        r is None && post.stack(k) == pre.stack(k)
    } else {
        r == Some(pre.stack(k).last()) && post.stack(k) == pre.stack(k).drop_last()
    }
}

/// `post` is `pre` with the ingredients `a` and `b` of recipe `k` taken
/// out: `a` the last item of the first kind put in, then `b` the last of the
/// second kind left (for a diamond, the last two carbons).
pub open spec fn crafted<T>(pre: Bag<T>, post: Bag<T>, k: ComplexKind, a: T, b: T) -> bool {
    let (k1, k2) = recipe(k);
    &&& forall|j: ResourceKind| j != k1 && j != k2 ==> #[trigger] post.stack(j) == pre.stack(j)
    &&& if k1 == k2 {
        let s = pre.stack(k1);
        &&& s.len() >= 2
        &&& a == s[s.len() - 1]
        &&& b == s[s.len() - 2]
        &&& post.stack(k1) == s.take(s.len() - 2)
    } else {
        &&& pre.stack(k1).len() >= 1
        &&& pre.stack(k2).len() >= 1
        &&& a == pre.stack(k1).last()
        &&& b == pre.stack(k2).last()
        &&& post.stack(k1) == pre.stack(k1).drop_last()
        &&& post.stack(k2) == pre.stack(k2).drop_last()
    }
}

/// Every stack of `a` equals the one of `b`.
pub open spec fn same_items<T>(a: Bag<T>, b: Bag<T>) -> bool {
    forall|k: ResourceKind| #[trigger] a.stack(k) == b.stack(k)
}

impl<T> Bag<T> {
    /// The items of a kind, oldest first.
    pub closed spec fn stack(self, k: ResourceKind) -> Seq<T> {
        match k {
            ResourceKind::Basic(BasicKind::Oxygen) => self.oxygen@,
            ResourceKind::Basic(BasicKind::Hydrogen) => self.hydrogen@,
            ResourceKind::Basic(BasicKind::Carbon) => self.carbon@,
            ResourceKind::Basic(BasicKind::Silicon) => self.silicon@,
            ResourceKind::Complex(ComplexKind::Diamond) => self.diamond@,
            ResourceKind::Complex(ComplexKind::Water) => self.water@,
            ResourceKind::Complex(ComplexKind::Life) => self.life@,
            ResourceKind::Complex(ComplexKind::Robot) => self.robot@,
            ResourceKind::Complex(ComplexKind::Dolphin) => self.dolphin@,
            ResourceKind::Complex(ComplexKind::AIPartner) => self.ai_partner@,
        }
    }

    /// The number of items of a kind.
    pub open spec fn amount(self, k: ResourceKind) -> nat {
        self.stack(k).len()
    }

    /// Whether the bag holds both ingredients of a recipe (two carbons for a
    /// diamond).
    pub open spec fn craftable(self, k: ComplexKind) -> bool {
        let (a, b) = recipe(k);
        if a == b {
            self.amount(a) >= 2
        } else {
            self.amount(a) >= 1 && self.amount(b) >= 1
        }
    }

    /// The kinds of the items, one entry per item, kind after kind in the
    /// order of `kind_order`.
    pub open spec fn listing(self) -> Seq<ResourceKind> {
        self.listing_upto(10)
    }

    /// The listing of the first `n` kinds of `kind_order`.
    pub open spec fn listing_upto(self, n: nat) -> Seq<ResourceKind>
        decreases n,
    {
        if n == 0 {
            Seq::empty()
        } else {
            let k = kind_order()[n - 1];
            self.listing_upto((n - 1) as nat) + repeat(k, self.amount(k))
        }
    }

    /// An empty bag.
    pub fn new() -> (b: Bag<T>)
        ensures
            forall|k: ResourceKind| #[trigger] b.stack(k) == Seq::<T>::empty(),
    {
        Bag {
            oxygen: Vec::new(),
            hydrogen: Vec::new(),
            carbon: Vec::new(),
            silicon: Vec::new(),
            diamond: Vec::new(),
            water: Vec::new(),
            life: Vec::new(),
            robot: Vec::new(),
            dolphin: Vec::new(),
            ai_partner: Vec::new(),
        }
    }

    /// Puts an item of kind `k` on top of its stack.
    pub fn insert(&mut self, k: ResourceKind, x: T)
        ensures
            inserted(*old(self), *final(self), k, x),
    {
        match k {
            ResourceKind::Basic(BasicKind::Oxygen) => self.oxygen.push(x),
            ResourceKind::Basic(BasicKind::Hydrogen) => self.hydrogen.push(x),
            ResourceKind::Basic(BasicKind::Carbon) => self.carbon.push(x),
            ResourceKind::Basic(BasicKind::Silicon) => self.silicon.push(x),
            ResourceKind::Complex(ComplexKind::Diamond) => self.diamond.push(x),
            ResourceKind::Complex(ComplexKind::Water) => self.water.push(x),
            ResourceKind::Complex(ComplexKind::Life) => self.life.push(x),
            ResourceKind::Complex(ComplexKind::Robot) => self.robot.push(x),
            ResourceKind::Complex(ComplexKind::Dolphin) => self.dolphin.push(x),
            ResourceKind::Complex(ComplexKind::AIPartner) => self.ai_partner.push(x),
        }
    }

    /// Takes the last item of kind `k` put in, if there is one.
    pub fn take_resource(&mut self, k: ResourceKind) -> (r: Option<T>)
        ensures
            took(*old(self), *final(self), k, r),
    {
        match k {
            ResourceKind::Basic(BasicKind::Oxygen) => self.oxygen.pop(),
            ResourceKind::Basic(BasicKind::Hydrogen) => self.hydrogen.pop(),
            ResourceKind::Basic(BasicKind::Carbon) => self.carbon.pop(),
            ResourceKind::Basic(BasicKind::Silicon) => self.silicon.pop(),
            ResourceKind::Complex(ComplexKind::Diamond) => self.diamond.pop(),
            ResourceKind::Complex(ComplexKind::Water) => self.water.pop(),
            ResourceKind::Complex(ComplexKind::Life) => self.life.pop(),
            ResourceKind::Complex(ComplexKind::Robot) => self.robot.pop(),
            ResourceKind::Complex(ComplexKind::Dolphin) => self.dolphin.pop(),
            ResourceKind::Complex(ComplexKind::AIPartner) => self.ai_partner.pop(),
        }
    }

    /// Whether the bag holds an item of kind `k`.
    pub fn contains(&self, k: ResourceKind) -> (b: bool)
        ensures
            b == (self.amount(k) > 0),
    {
        self.count(k) > 0
    }

    /// The number of items of kind `k`.
    pub fn count(&self, k: ResourceKind) -> (n: usize)
        ensures
            n == self.amount(k),
    {
        match k {
            ResourceKind::Basic(BasicKind::Oxygen) => self.oxygen.len(),
            ResourceKind::Basic(BasicKind::Hydrogen) => self.hydrogen.len(),
            ResourceKind::Basic(BasicKind::Carbon) => self.carbon.len(),
            ResourceKind::Basic(BasicKind::Silicon) => self.silicon.len(),
            ResourceKind::Complex(ComplexKind::Diamond) => self.diamond.len(),
            ResourceKind::Complex(ComplexKind::Water) => self.water.len(),
            ResourceKind::Complex(ComplexKind::Life) => self.life.len(),
            ResourceKind::Complex(ComplexKind::Robot) => self.robot.len(),
            ResourceKind::Complex(ComplexKind::Dolphin) => self.dolphin.len(),
            ResourceKind::Complex(ComplexKind::AIPartner) => self.ai_partner.len(),
        }
    }

    /// Whether a recipe can be made, then its first ingredient and whether
    /// the bag holds one, then its second ingredient and whether the bag
    /// holds one (for a diamond, whether it holds two carbons).
    pub fn can_craft(&self, k: ComplexKind) -> (r: (bool, ResourceKind, bool, ResourceKind, bool))
        ensures
            r.0 == self.craftable(k),
            (r.1, r.3) == recipe(k),
            k == ComplexKind::Diamond ==> r.2 == (self.amount(r.1) >= 1) && r.4 == (self.amount(r.1) >= 2),
            k != ComplexKind::Diamond ==> r.2 == (self.amount(r.1) >= 1) && r.4 == (self.amount(r.3) >= 1),
    {
        match k {
            ComplexKind::Diamond => {
                let res = ResourceKind::Basic(BasicKind::Carbon);
                let n = self.count(res);
                (n >= 2, res, n >= 1, res, n >= 2)
            },
            _ => {
                let (r1, r2) = Bag::<T>::ingredients(k);
                let c1 = self.contains(r1);
                let c2 = self.contains(r2);
                (c1 && c2, r1, c1, r2, c2)
            },
        }
    }

    /// The two ingredients of a recipe.
    pub fn ingredients(k: ComplexKind) -> (r: (ResourceKind, ResourceKind))
        ensures
            r == recipe(k),
    {
        match k {
            ComplexKind::Diamond => (ResourceKind::Basic(BasicKind::Carbon), ResourceKind::Basic(BasicKind::Carbon)),
            ComplexKind::Water => (ResourceKind::Basic(BasicKind::Hydrogen), ResourceKind::Basic(BasicKind::Oxygen)),
            ComplexKind::Life => (ResourceKind::Complex(ComplexKind::Water), ResourceKind::Basic(BasicKind::Carbon)),
            ComplexKind::Robot => (ResourceKind::Basic(BasicKind::Silicon), ResourceKind::Complex(ComplexKind::Life)),
            ComplexKind::Dolphin => (ResourceKind::Complex(ComplexKind::Water), ResourceKind::Complex(ComplexKind::Life)),
            ComplexKind::AIPartner => (
                ResourceKind::Complex(ComplexKind::Robot),
                ResourceKind::Complex(ComplexKind::Diamond),
            ),
        }
    }

    /// Takes the two ingredients of a recipe out of the bag: the last of
    /// the first kind put in, then the last of the second. A bag that lacks
    /// one is left as it was and the recipe's error comes back.
    pub fn make_request(&mut self, k: ComplexKind) -> (r: Result<(T, T), CraftError>)
        ensures
            r is Ok <==> old(self).craftable(k),
            r is Err ==> r == Err::<(T, T), CraftError>(CraftError::MissingResources(k)) && same_items(
                *final(self),
                *old(self),
            ),
            r matches Ok((a, b)) ==> crafted(*old(self), *final(self), k, a, b),
    {
        let (ok, r1, _, r2, _) = self.can_craft(k);
        if !ok {
            return Err(CraftError::MissingResources(k));
        }
        let ghost before = *self;
        let a = self.take_resource(r1);
        let ghost mid = *self;
        let b = self.take_resource(r2);
        match (a, b) {
            (Some(a), Some(b)) => {
                proof {
                    assert(before == *old(self));
                    let s0 = before.stack(r1);
                    if r1 == r2 {
                        assert(mid.stack(r1) == s0.drop_last());
                        assert(s0.drop_last().last() == s0[s0.len() - 2]);
                        assert(self.stack(r1) =~= s0.take(s0.len() - 2));
                    }
                    assert(crafted(*old(self), *self, k, a, b));
                }
                Ok((a, b))
            },
            _ => {
                proof {
                    assert(false);
                }
                Err(CraftError::MissingResources(k))
            },
        }
    }

    /// The ingredients of a diamond: two carbons.
    pub fn make_diamond_request(&mut self) -> (r: Result<(T, T), CraftError>)
        ensures
            r is Ok <==> old(self).craftable(ComplexKind::Diamond),
            r is Err ==> r == Err::<(T, T), CraftError>(CraftError::MissingResources(ComplexKind::Diamond))
                && same_items(*final(self), *old(self)),
            r matches Ok((a, b)) ==> crafted(*old(self), *final(self), ComplexKind::Diamond, a, b),
    {
        self.make_request(ComplexKind::Diamond)
    }

    /// The ingredients of water: hydrogen, then oxygen.
    pub fn make_water_request(&mut self) -> (r: Result<(T, T), CraftError>)
        ensures
            r is Ok <==> old(self).craftable(ComplexKind::Water),
            r is Err ==> r == Err::<(T, T), CraftError>(CraftError::MissingResources(ComplexKind::Water))
                && same_items(*final(self), *old(self)),
            r matches Ok((a, b)) ==> crafted(*old(self), *final(self), ComplexKind::Water, a, b),
    {
        self.make_request(ComplexKind::Water)
    }

    /// The ingredients of life: water, then carbon.
    pub fn make_life_request(&mut self) -> (r: Result<(T, T), CraftError>)
        ensures
            r is Ok <==> old(self).craftable(ComplexKind::Life),
            r is Err ==> r == Err::<(T, T), CraftError>(CraftError::MissingResources(ComplexKind::Life))
                && same_items(*final(self), *old(self)),
            r matches Ok((a, b)) ==> crafted(*old(self), *final(self), ComplexKind::Life, a, b),
    {
        self.make_request(ComplexKind::Life)
    }

    /// The ingredients of a robot: silicon, then life.
    pub fn make_robot_request(&mut self) -> (r: Result<(T, T), CraftError>)
        ensures
            r is Ok <==> old(self).craftable(ComplexKind::Robot),
            r is Err ==> r == Err::<(T, T), CraftError>(CraftError::MissingResources(ComplexKind::Robot))
                && same_items(*final(self), *old(self)),
            r matches Ok((a, b)) ==> crafted(*old(self), *final(self), ComplexKind::Robot, a, b),
    {
        self.make_request(ComplexKind::Robot)
    }

    /// The ingredients of a dolphin: water, then life.
    pub fn make_dolphin_request(&mut self) -> (r: Result<(T, T), CraftError>)
        ensures
            r is Ok <==> old(self).craftable(ComplexKind::Dolphin),
            r is Err ==> r == Err::<(T, T), CraftError>(CraftError::MissingResources(ComplexKind::Dolphin))
                && same_items(*final(self), *old(self)),
            r matches Ok((a, b)) ==> crafted(*old(self), *final(self), ComplexKind::Dolphin, a, b),
    {
        self.make_request(ComplexKind::Dolphin)
    }

    /// The ingredients of an AI partner: a robot, then a diamond.
    pub fn make_ai_partner_request(&mut self) -> (r: Result<(T, T), CraftError>)
        ensures
            r is Ok <==> old(self).craftable(ComplexKind::AIPartner),
            r is Err ==> r == Err::<(T, T), CraftError>(CraftError::MissingResources(ComplexKind::AIPartner))
                && same_items(*final(self), *old(self)),
            r matches Ok((a, b)) ==> crafted(*old(self), *final(self), ComplexKind::AIPartner, a, b),
    {
        self.make_request(ComplexKind::AIPartner)
    }

    /// The kind of every item, one entry per item, kind after kind in the
    /// order of `kind_order`; what the orchestrator is told the bag holds.
    pub fn to_resource_types(&self) -> (v: Vec<ResourceKind>)
        ensures
            v@ == self.listing(),
    {
        let mut out: Vec<ResourceKind> = Vec::new();
        let mut i: usize = 0;
        while i < 10
            invariant
                0 <= i <= 10,
                out@ == self.listing_upto(i as nat),
            decreases 10 - i,
        {
            let k = Bag::<T>::kind_at(i);
            let n = self.count(k);
            let ghost base = out@;
            let mut j: usize = 0;
            while j < n
                invariant
                    0 <= j <= n,
                    n == self.amount(k),
                    out@ == base + repeat(k, j as nat),
                decreases n - j,
            {
                out.push(k);
                proof {
                    assert(out@ =~= base + repeat(k, (j + 1) as nat));
                }
                j = j + 1;
            }
            proof {
                assert(kind_order()[(i + 1) - 1] == k);
            }
            i = i + 1;
        }
        out
    }

    /// The kind at position `i` of `kind_order`.
    fn kind_at(i: usize) -> (k: ResourceKind)
        requires
            i < 10,
        ensures
            k == kind_order()[i as int],
    {
        match i {
            0 => ResourceKind::Basic(BasicKind::Oxygen),
            1 => ResourceKind::Basic(BasicKind::Hydrogen),
            2 => ResourceKind::Basic(BasicKind::Carbon),
            3 => ResourceKind::Basic(BasicKind::Silicon),
            4 => ResourceKind::Complex(ComplexKind::Diamond),
            5 => ResourceKind::Complex(ComplexKind::Water),
            6 => ResourceKind::Complex(ComplexKind::Life),
            7 => ResourceKind::Complex(ComplexKind::Robot),
            8 => ResourceKind::Complex(ComplexKind::Dolphin),
            _ => ResourceKind::Complex(ComplexKind::AIPartner),
        }
    }
}

} // verus!
