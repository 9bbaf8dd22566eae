//! The odds calculator's state: the selected generation and the methods
//! enabled in each generation. Flags of a generation that is not selected are
//! kept as they are, and count again once it is selected.
use vstd::prelude::*;
use crate::odds::{
    Generation, Odds, base_denominator, base_denominator_of, effective_odds, is_probability,
    resolve_effective_odds, weight_table,
};

verus! {

/// Methods of generation 4.
#[derive(Clone, Copy, Debug, PartialEq, Eq, Structural)]
pub struct Gen4Modifiers {
    pub masuda: bool,
    pub radar: bool,
}

/// Methods of generation 5.
#[derive(Clone, Copy, Debug, PartialEq, Eq, Structural)]
pub struct Gen5Modifiers {
    pub masuda: bool,
    pub charm: bool,
}

/// Methods of generation 6. `hidden` is recorded but carries no weight.
#[derive(Clone, Copy, Debug, PartialEq, Eq, Structural)]
pub struct Gen6Modifiers {
    pub masuda: bool,
    pub radar: bool,
    pub charm: bool,
    pub safari: bool,
    pub fishing: bool,
    pub hidden: bool,
}

/// Methods of generation 7.
#[derive(Clone, Copy, Debug, PartialEq, Eq, Structural)]
pub struct Gen7Modifiers {
    pub masuda: bool,
    pub charm: bool,
    pub sos: bool,
}

/// Methods of generation 8.
#[derive(Clone, Copy, Debug, PartialEq, Eq, Structural)]
pub struct Gen8Modifiers {
    pub masuda: bool,
    pub charm: bool,
    pub radar: bool,
    pub dynamax: bool,
    pub underground: bool,
    pub mass: bool,
    pub massive: bool,
    pub dex10: bool,
    pub dexmax: bool,
}

impl Gen4Modifiers {
    /// The flags in the order of the generation's weight table.
    pub open spec fn flag_seq(self) -> Seq<bool> {
        seq![self.masuda, self.radar]
    }

    pub fn flags(&self) -> (r: Vec<bool>)
        ensures
            r@ == self.flag_seq(),
    {
        let r = vec![self.masuda, self.radar];
        assert(r@ =~= self.flag_seq());
        r
    }
}

impl Gen5Modifiers {
    /// The flags in the order of the generation's weight table.
    pub open spec fn flag_seq(self) -> Seq<bool> {
        seq![self.masuda, self.charm]
    }

    pub fn flags(&self) -> (r: Vec<bool>)
        ensures
            r@ == self.flag_seq(),
    {
        let r = vec![self.masuda, self.charm];
        assert(r@ =~= self.flag_seq());
        r
    }
}

impl Gen6Modifiers {
    /// The flags in the order of the generation's weight table.
    pub open spec fn flag_seq(self) -> Seq<bool> {
        seq![self.masuda, self.radar, self.charm, self.safari, self.fishing]
    }

    pub fn flags(&self) -> (r: Vec<bool>)
        ensures
            r@ == self.flag_seq(),
    {
        let r = vec![self.masuda, self.radar, self.charm, self.safari, self.fishing];
        assert(r@ =~= self.flag_seq());
        r
    }
}

impl Gen7Modifiers {
    /// The flags in the order of the generation's weight table.
    pub open spec fn flag_seq(self) -> Seq<bool> {
        seq![self.masuda, self.charm, self.sos]
    }

    pub fn flags(&self) -> (r: Vec<bool>)
        ensures
            r@ == self.flag_seq(),
    {
        let r = vec![self.masuda, self.charm, self.sos];
        assert(r@ =~= self.flag_seq());
        r
    }
}

impl Gen8Modifiers {
    /// The flags in the order of the generation's weight table.
    pub open spec fn flag_seq(self) -> Seq<bool> {
        seq![
            self.masuda,
            self.charm,
            self.radar,
            self.dynamax,
            self.underground,
            self.mass,
            self.massive,
            self.dex10,
            self.dexmax,
        ]
    }

    pub fn flags(&self) -> (r: Vec<bool>)
        ensures
            r@ == self.flag_seq(),
    {
        let r = vec![
            self.masuda,
            self.charm,
            self.radar,
            self.dynamax,
            self.underground,
            self.mass,
            self.massive,
            self.dex10,
            self.dexmax,
        ];
        assert(r@ =~= self.flag_seq());
        r
    }
}

impl Default for Gen4Modifiers {
    fn default() -> (r: Self)
        ensures
            r == (Gen4Modifiers { masuda: false, radar: false }),
    {
        Gen4Modifiers { masuda: false, radar: false }
    }
}

impl Default for Gen5Modifiers {
    fn default() -> (r: Self)
        ensures
            r == (Gen5Modifiers { masuda: false, charm: false }),
    {
        Gen5Modifiers { masuda: false, charm: false }
    }
}

impl Default for Gen6Modifiers {
    fn default() -> (r: Self)
        ensures
            r == (Gen6Modifiers {
                masuda: false,
                radar: false,
                charm: false,
                safari: false,
                fishing: false,
                hidden: false,
            }),
    {
        Gen6Modifiers {
            masuda: false,
            radar: false,
            charm: false,
            safari: false,
            fishing: false,
            hidden: false,
        }
    }
}

impl Default for Gen7Modifiers {
    fn default() -> (r: Self)
        ensures
            r == (Gen7Modifiers { masuda: false, charm: false, sos: false }),
    {
        Gen7Modifiers { masuda: false, charm: false, sos: false }
    }
}

impl Default for Gen8Modifiers {
    fn default() -> (r: Self)
        ensures
            r == (Gen8Modifiers {
                masuda: false,
                charm: false,
                radar: false,
                dynamax: false,
                underground: false,
                mass: false,
                massive: false,
                dex10: false,
                dexmax: false,
            }),
    {
        Gen8Modifiers {
            masuda: false,
            charm: false,
            radar: false,
            dynamax: false,
            underground: false,
            mass: false,
            massive: false,
            dex10: false,
            dexmax: false,
        }
    }
}

/// The selected generation and the methods enabled in every generation.
#[derive(Clone, Copy, Debug)]
pub struct OddsCalculator {
    pub sel_gen: Generation,
    pub gen4_mod: Gen4Modifiers,
    pub gen5_mod: Gen5Modifiers,
    pub gen6_mod: Gen6Modifiers,
    pub gen7_mod: Gen7Modifiers,
    pub gen8_mod: Gen8Modifiers,
}

impl OddsCalculator {
    /// The flags of generation `g`, in the order of its weight table.
    pub open spec fn flags_of(self, g: Generation) -> Seq<bool> {
        match g {
            Generation::Gen2or3 => seq![],
            Generation::Gen4 => self.gen4_mod.flag_seq(),
            Generation::Gen5 => self.gen5_mod.flag_seq(),
            Generation::Gen6 => self.gen6_mod.flag_seq(),
            Generation::Gen7 => self.gen7_mod.flag_seq(),
            Generation::Gen8 => self.gen8_mod.flag_seq(),
        }
    }

    /// Every method of every generation is off.
    pub open spec fn no_flags(self) -> bool {
        &&& self.gen4_mod == Gen4Modifiers { masuda: false, radar: false }
        &&& self.gen5_mod == Gen5Modifiers { masuda: false, charm: false }
        &&& self.gen6_mod == Gen6Modifiers {
            masuda: false,
            radar: false,
            charm: false,
            safari: false,
            fishing: false,
            hidden: false,
        }
        &&& self.gen7_mod == Gen7Modifiers { masuda: false, charm: false, sos: false }
        &&& self.gen8_mod == Gen8Modifiers {
            masuda: false,
            charm: false,
            radar: false,
            dynamax: false,
            underground: false,
            mass: false,
            massive: false,
            dex10: false,
            dexmax: false,
        }
    }

    /// A calculator on generation 2 or 3, with no method enabled anywhere.
    pub fn new() -> (r: Self)
        ensures
            r.sel_gen == Generation::Gen2or3,
            r.no_flags(),
    {
        OddsCalculator {
            sel_gen: Generation::Gen2or3,
            gen4_mod: Gen4Modifiers::default(),
            gen5_mod: Gen5Modifiers::default(),
            gen6_mod: Gen6Modifiers::default(),
            gen7_mod: Gen7Modifiers::default(),
            gen8_mod: Gen8Modifiers::default(),
        }
    }

    /// Selects generation `g`; the flags of every generation are kept.
    pub fn select_generation(&mut self, g: Generation)
        ensures
            final(self).sel_gen == g,
            final(self).gen4_mod == old(self).gen4_mod,
            final(self).gen5_mod == old(self).gen5_mod,
            final(self).gen6_mod == old(self).gen6_mod,
            final(self).gen7_mod == old(self).gen7_mod,
            final(self).gen8_mod == old(self).gen8_mod,
    {
        self.sel_gen = g;
    }

    /// The flags of the selected generation, in the order of its weight table.
    pub fn selected_flags(&self) -> (r: Vec<bool>)
        ensures
            r@ == self.flags_of(self.sel_gen),
            r@.len() == weight_table(self.sel_gen).len(),
    {
        match self.sel_gen {
            Generation::Gen2or3 => {
                let r: Vec<bool> = Vec::new();
                assert(r@ =~= self.flags_of(self.sel_gen));
                r
            },
            Generation::Gen4 => self.gen4_mod.flags(),
            Generation::Gen5 => self.gen5_mod.flags(),
            Generation::Gen6 => self.gen6_mod.flags(),
            Generation::Gen7 => self.gen7_mod.flags(),
            Generation::Gen8 => self.gen8_mod.flags(),
        }
    }

    /// The unmodified odds of the selected generation: one in its base denominator.
    pub fn base_odds(&self) -> (r: Odds)
        ensures
            r.numerator == 1,
            r.denominator == base_denominator_of(self.sel_gen),
    {
        Odds { numerator: 1, denominator: base_denominator(self.sel_gen) }
    }

    /// The odds of the selected generation with its enabled methods.
    pub fn current_odds(&self) -> (r: Odds)
        ensures
            (r.numerator as int, r.denominator as int) == effective_odds(
                self.sel_gen,
                self.flags_of(self.sel_gen),
            ),
            is_probability(r),
    {
        let flags = self.selected_flags();
        resolve_effective_odds(self.sel_gen, &flags)
    }
}

} // verus!
