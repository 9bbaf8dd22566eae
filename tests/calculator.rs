use pokemon_counter::calculator::{Gen4Modifiers, Gen6Modifiers, Gen8Modifiers, OddsCalculator};
use pokemon_counter::odds::{Generation, Odds};

#[test]
fn new_calculator_starts_on_gen2_without_flags() {
    let c = OddsCalculator::new();
    assert_eq!(c.sel_gen, Generation::Gen2or3);
    assert_eq!(c.gen4_mod, Gen4Modifiers::default());
    assert_eq!(c.gen8_mod, Gen8Modifiers::default());
    assert_eq!(c.base_odds(), Odds { numerator: 1, denominator: 8192 });
    assert_eq!(c.current_odds(), Odds { numerator: 1, denominator: 8192 });
    assert!(c.selected_flags().is_empty());
}

#[test]
fn flags_count_only_for_the_selected_generation() {
    let mut c = OddsCalculator::new();
    c.gen6_mod.masuda = true;
    c.gen6_mod.radar = true;
    assert_eq!(c.current_odds(), Odds { numerator: 1, denominator: 8192 });
    c.select_generation(Generation::Gen6);
    assert_eq!(c.base_odds(), Odds { numerator: 1, denominator: 4096 });
    assert_eq!(c.current_odds(), Odds { numerator: 87, denominator: 4096 });
}

#[test]
fn switching_generation_keeps_flags() {
    let mut c = OddsCalculator::new();
    c.select_generation(Generation::Gen5);
    c.gen5_mod.charm = true;
    assert_eq!(c.current_odds(), Odds { numerator: 3, denominator: 8192 });
    c.select_generation(Generation::Gen7);
    assert_eq!(c.current_odds(), Odds { numerator: 1, denominator: 4096 });
    c.select_generation(Generation::Gen5);
    assert!(c.gen5_mod.charm);
    assert_eq!(c.current_odds(), Odds { numerator: 3, denominator: 8192 });
}

#[test]
fn hidden_flag_carries_no_weight() {
    let mut c = OddsCalculator::new();
    c.select_generation(Generation::Gen6);
    c.gen6_mod = Gen6Modifiers { hidden: true, ..Gen6Modifiers::default() };
    assert_eq!(c.current_odds(), Odds { numerator: 1, denominator: 4096 });
    assert_eq!(c.selected_flags(), vec![false; 5]);
}

#[test]
fn gen8_flags_in_table_order() {
    let mut c = OddsCalculator::new();
    c.select_generation(Generation::Gen8);
    c.gen8_mod.charm = true;
    c.gen8_mod.dexmax = true;
    c.gen8_mod.underground = true;
    assert_eq!(
        c.selected_flags(),
        vec![false, true, false, false, true, false, false, false, true]
    );
    assert_eq!(c.current_odds(), Odds { numerator: 6, denominator: 4096 });
}
