use vstd::prelude::*;

verus! {

/// Largest immunity a state may carry; keeps the per-mille health ratio
/// arithmetic exact.
pub const MAX_IMMUNITY: i32 = 1_000_000;

/// The infection capability shared by entities that can fall ill.
pub trait Infectable {
    spec fn inf_wf(&self) -> bool;

    fn get_immunity(self) -> i32
        requires
            self.inf_wf(),
    ;

    fn become_infected(&mut self)
        requires
            old(self).inf_wf(),
        ensures
            final(self).inf_wf(),
    ;

    fn needs_doctor(&mut self) -> (r: bool)
        requires
            old(self).inf_wf(),
        ensures
            final(self).inf_wf(),
    ;

    fn cure(&mut self)
        requires
            old(self).inf_wf(),
        ensures
            final(self).inf_wf(),
    ;
}

/// Per-entity health counter bounded by a constant immunity ceiling.
#[derive(Clone, Copy, Debug, PartialEq, Eq, Structural)]
pub struct InfectionParams {
    pub immunity: i32,
    pub health: i32,
}

impl InfectionParams {
    /// Health never leaves [0, immunity]; immunity is a positive constant.
    pub open spec fn wf(self) -> bool {
        &&& 0 <= self.health <= self.immunity
        &&& 1 <= self.immunity <= MAX_IMMUNITY
    }

    pub open spec fn spec_is_healthy(self) -> bool {
        self.health == self.immunity
    }

    pub open spec fn spec_needs_doctor(self) -> bool {
        self.health <= 0
    }

    /// One step toward critical: health drops by 1, saturating at 0.
    pub open spec fn spec_infect(self) -> InfectionParams {
        if self.health > 0 {
            InfectionParams { health: (self.health - 1) as i32, ..self }
        } else {
            self
        }
    }

    /// One step toward healthy: health rises by 1, saturating at immunity.
    pub open spec fn spec_cure(self) -> InfectionParams {
        if self.health < self.immunity {
            InfectionParams { health: (self.health + 1) as i32, ..self }
        } else {
            self
        }
    }

    /// Instantaneous full restoration.
    pub open spec fn spec_recover(self) -> InfectionParams {
        InfectionParams { health: self.immunity, ..self }
    }

    pub fn get_immunity(self) -> (r: i32)
        ensures
            r == self.immunity,
    {
        self.immunity
    }

    pub fn is_healthy(self) -> (r: bool)
        ensures
            r == self.spec_is_healthy(),
    {
        self.health == self.immunity
    }

    /// Health as a fraction of immunity, in per-mille.
    pub fn helth_to_imm(self) -> (r: i32)
        requires
            self.wf(),
        ensures
            r == self.health * 1000 / self.immunity as int,
            0 <= r <= 1000,
    {
        let h = (self.health as u64) * 1000;
        let q = h / (self.immunity as u64);
        assert(q <= 1000) by {
            assert(self.health * 1000 <= self.immunity * 1000) by (nonlinear_arith)
                requires 0 <= self.health <= self.immunity;
            vstd::arithmetic::div_mod::lemma_div_is_ordered(
                self.health * 1000,
                self.immunity * 1000,
                self.immunity as int,
            );
            assert((self.immunity * 1000) / (self.immunity as int) == 1000) by (nonlinear_arith)
                requires 1 <= self.immunity;
        }
        q as i32
    }

    pub fn infect(&mut self)
        ensures
            *final(self) == old(self).spec_infect(),
    {
        if self.health > 0 {
            self.health = self.health - 1;
        }
    }

    pub fn recover(&mut self)
        ensures
            *final(self) == old(self).spec_recover(),
    {
        self.health = self.immunity;
    }

    pub fn cure(&mut self)
        ensures
            *final(self) == old(self).spec_cure(),
    {
        if self.health < self.immunity {
            self.health = self.health + 1;
        }
    }

    pub fn needs_doctor(self) -> (r: bool)
        ensures
            r == self.spec_needs_doctor(),
    {
        self.health <= 0
    }
}

impl Default for InfectionParams {
    /// Full health under the default immunity of 10.
    fn default() -> (d: Self)
        ensures
            d == (InfectionParams { immunity: 10, health: 10 }),
            d.wf(),
    {
        InfectionParams { immunity: 10, health: 10 }
    }
}

/// Infecting a state already at the floor leaves it at the floor.
pub proof fn lemma_infect_saturates_at_floor(s: InfectionParams)
    requires
        s.health == 0,
    ensures
        s.spec_infect() == s,
        s.spec_infect().health == 0,
{
}

/// Curing a state already at full health leaves it unchanged.
pub proof fn lemma_cure_saturates_at_ceiling(s: InfectionParams)
    requires
        s.health == s.immunity,
    ensures
        s.spec_cure() == s,
{
}

/// Recovery always lands on a healthy state.
pub proof fn lemma_recover_heals(s: InfectionParams)
    ensures
        s.spec_recover().spec_is_healthy(),
{
}

/// The transitions keep the well-formedness bounds.
pub proof fn lemma_transitions_preserve_wf(s: InfectionParams)
    requires
        s.wf(),
    ensures
        s.spec_infect().wf(),
        s.spec_cure().wf(),
        s.spec_recover().wf(),
{
}

} // verus!
