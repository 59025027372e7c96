use crafting_orders::components::SetPiece;
use crafting_orders::entities::armour::ArmourParts;
use crafting_orders::entities::armour::ArmourTraits;
use crafting_orders::entities::armour::ArmourWeights;
use crafting_orders::entities::jewelry::Jewelries;
use crafting_orders::entities::jewelry::JewelryTraits;
use crafting_orders::entities::weapon::OneHandedWeapons;
use crafting_orders::entities::weapon::WeaponKind;
use crafting_orders::entities::weapon::WeaponTraits;
use crafting_orders::entities::Gear;
use crafting_orders::entities::GearQuality;
use crafting_orders::entities::OrderError;
use crafting_orders::requests::find_role_mention;
use crafting_orders::requests::gear::expand_parts;
use crafting_orders::requests::gear::parse_gear_parts;
use crafting_orders::requests::gear::sort_gear;
use crafting_orders::requests::gear::Attribute;
use crafting_orders::requests::gear::Elicitation;
use crafting_orders::requests::gear::OrderMode;
use crafting_orders::requests::gear::Phase;
use crafting_orders::requests::gear::Prompt;

fn names(values: &[&str]) -> Vec<String> {
    values.iter().map(|s| s.to_string()).collect()
}

#[test]
fn empty_or_blank_name_is_rejected() {
    assert!(matches!(
        Elicitation::new("", OrderMode::Full),
        Err(OrderError::InvalidOrderName)
    ));
    assert!(matches!(
        Elicitation::new("   ", OrderMode::Full),
        Err(OrderError::InvalidOrderName)
    ));
    assert!(Elicitation::new("Cólera", OrderMode::Full).is_ok());
}

#[test]
fn unknown_part_name_aborts_the_order() {
    let mut e = Elicitation::new("Set", OrderMode::Full).unwrap();
    let r = e.supply_parts(&names(&["Cabeza", "Tentáculo"]));
    assert_eq!(r, Err(OrderError::CatalogNotFound));
    assert_eq!(e.phase, Phase::Cancelled);
    assert!(e.into_order().is_none());
}

#[test]
fn colera_order_head_and_ring_expands_to_three_items() {
    // order "Cólera", parts = [Head, Ring] -> after expansion [Head, Ring, Ring];
    // declining enchantments leaves every piece unenchanted.
    let mut e = Elicitation::new("Cólera", OrderMode::Full).unwrap();
    e.supply_parts(&names(&["Cabeza", "Anillo"])).unwrap();
    assert_eq!(e.phase, Phase::AwaitingEnchantmentOptIn);
    e.set_enchantment_opt_in(false);

    assert_eq!(
        e.current_prompt(),
        Some(Prompt::SelectAttribute(
            Attribute::GearTrait,
            Gear::Armour(ArmourParts::Head)
        ))
    );
    e.supply_attribute("Divinidad").unwrap();
    e.supply_attribute("Blanco").unwrap();
    e.supply_attribute("Ligera").unwrap();

    // first ring of the jewelry family: resolved individually, then bulk
    // questions for the rest of the family
    e.supply_attribute("Arcanidad").unwrap();
    e.supply_attribute("Verde").unwrap();
    assert_eq!(e.phase, Phase::AwaitingBulkConfirm);
    assert_eq!(e.current_prompt(), Some(Prompt::ConfirmBulk(Attribute::GearTrait)));
    e.answer_bulk(true);
    assert_eq!(e.current_prompt(), Some(Prompt::ConfirmBulk(Attribute::Quality)));
    e.answer_bulk(true);

    // the second ring resolved entirely from the bulk defaults
    assert_eq!(e.phase, Phase::AwaitingPowerTier);
    e.answer_power_tier(true);
    e.confirm_order(true);
    assert_eq!(e.phase, Phase::Confirmed);

    let order = e.into_order().unwrap();
    assert_eq!(order.name, "Cólera");
    assert_eq!(order.items.len(), 3);
    match &order.items[0] {
        SetPiece::Armour(a) => {
            assert_eq!(a.kind, ArmourParts::Head);
            assert_eq!(a.armour_trait, ArmourTraits::Divines);
            assert_eq!(a.weight, ArmourWeights::Light);
            assert_eq!(a.quality, GearQuality::White);
            assert!(a.enchantment.is_none());
        }
        other => panic!("expected armour, got {:?}", other),
    }
    for ring in &order.items[1..] {
        match ring {
            SetPiece::Jewelry(j) => {
                assert_eq!(j.kind, Jewelries::Ring);
                assert_eq!(j.jewelry_trait, JewelryTraits::Arcane);
                assert_eq!(j.quality, GearQuality::Green);
                assert!(j.enchantment.is_none());
            }
            other => panic!("expected jewelry, got {:?}", other),
        }
    }
}

#[test]
fn dual_wield_dagger_yields_two_independent_daggers() {
    // one OneHanded(Dagger) plus a yes to dual wield expands to two entries,
    // each independently resolvable.
    let mut e = Elicitation::new("Dual", OrderMode::Full).unwrap();
    e.supply_parts(&names(&["Daga"])).unwrap();
    assert_eq!(e.phase, Phase::ExpandingDuplicates);
    assert_eq!(
        e.current_prompt(),
        Some(Prompt::ConfirmDualWield(OneHandedWeapons::Dagger))
    );
    e.answer_dual_wield(true);
    e.set_enchantment_opt_in(false);

    // sample dagger
    e.supply_attribute("Carga").unwrap();
    e.supply_attribute("Blanco").unwrap();
    // the two daggers form a family of two: bulk questions follow
    assert_eq!(e.phase, Phase::AwaitingBulkConfirm);
    e.answer_bulk(false);
    e.answer_bulk(false);
    // declining the defaults: the second dagger is asked everything again
    assert_eq!(e.phase, Phase::Resolving);
    e.supply_attribute("Filo").unwrap();
    e.supply_attribute("Verde").unwrap();

    e.answer_power_tier(false);
    e.confirm_order(true);
    let order = e.into_order().unwrap();
    assert_eq!(order.items.len(), 2);
    let traits: Vec<WeaponTraits> = order
        .items
        .iter()
        .map(|p| match p {
            SetPiece::Weapon(w) => {
                assert_eq!(w.kind, WeaponKind::OneHanded(OneHandedWeapons::Dagger));
                w.weapon_trait
            }
            other => panic!("expected weapon, got {:?}", other),
        })
        .collect();
    assert_eq!(traits, vec![WeaponTraits::Charged, WeaponTraits::Sharpened]);
}

#[test]
fn timeout_mid_resolution_cancels_everything() {
    // timeout while resolving the 2nd of 3 armour pieces: the whole order is
    // cancelled and nothing is ever handed out for announcement.
    let mut e = Elicitation::new("Set", OrderMode::Full).unwrap();
    e.supply_parts(&names(&["Cabeza", "Cuerpo", "Piernas"])).unwrap();
    e.set_enchantment_opt_in(false);
    // first piece fully resolved and previewed
    e.supply_attribute("Solidez").unwrap();
    e.supply_attribute("Azul").unwrap();
    e.supply_attribute("Pesada").unwrap();
    // decline all bulk defaults
    e.answer_bulk(false);
    e.answer_bulk(false);
    e.answer_bulk(false);
    assert_eq!(e.pieces.len(), 1);
    // second piece: one attribute in, then the prompt times out
    e.supply_attribute("Refuerzo").unwrap();
    e.timeout();
    assert_eq!(e.phase, Phase::Cancelled);
    assert_eq!(e.failure, Some(OrderError::Timeout));
    assert!(e.into_order().is_none());
}

#[test]
fn bulk_defaults_shared_by_whole_family() {
    let mut e = Elicitation::new("Armadura", OrderMode::Full).unwrap();
    e.supply_parts(&names(&["Cabeza", "Hombros", "Pies"])).unwrap();
    e.set_enchantment_opt_in(false);
    e.supply_attribute("Imbuición").unwrap();
    e.supply_attribute("Amarilla").unwrap();
    e.supply_attribute("Media").unwrap();
    // accept every bulk default: trait, quality, weight
    e.answer_bulk(true);
    e.answer_bulk(true);
    e.answer_bulk(true);
    // the two remaining pieces resolve silently
    assert_eq!(e.phase, Phase::AwaitingPowerTier);
    e.answer_power_tier(true);
    e.confirm_order(true);
    let order = e.into_order().unwrap();
    assert_eq!(order.items.len(), 3);
    for p in &order.items {
        match p {
            SetPiece::Armour(a) => {
                assert_eq!(a.armour_trait, ArmourTraits::Infused);
                assert_eq!(a.quality, GearQuality::Yellow);
                assert_eq!(a.weight, ArmourWeights::Medium);
            }
            other => panic!("expected armour, got {:?}", other),
        }
    }
}

#[test]
fn unknown_attribute_value_aborts_the_order() {
    let mut e = Elicitation::new("Set", OrderMode::Full).unwrap();
    e.supply_parts(&names(&["Collar"])).unwrap();
    e.set_enchantment_opt_in(false);
    assert_eq!(e.supply_attribute("Velocidad"), Err(OrderError::CatalogNotFound));
    assert_eq!(e.phase, Phase::Cancelled);
    assert_eq!(e.failure, Some(OrderError::CatalogNotFound));
}

#[test]
fn research_order_fixes_white_quality_and_skips_enchantments() {
    let mut e = Elicitation::new("Rasgos", OrderMode::Research).unwrap();
    e.supply_parts(&names(&["Escudo", "Collar"])).unwrap();
    // research never asks the enchantment opt-in
    assert_eq!(e.phase, Phase::Resolving);
    // shield: trait and weight only, no quality question
    assert_eq!(
        e.current_prompt(),
        Some(Prompt::SelectAttribute(
            Attribute::GearTrait,
            Gear::Armour(ArmourParts::Shield)
        ))
    );
    e.supply_attribute("Refuerzo").unwrap();
    assert_eq!(
        e.current_prompt(),
        Some(Prompt::SelectAttribute(
            Attribute::Weight,
            Gear::Armour(ArmourParts::Shield)
        ))
    );
    e.supply_attribute("Pesada").unwrap();
    // necklace: trait only
    e.supply_attribute("Armonía").unwrap();
    // research goes straight to the confirmation gate
    assert_eq!(e.phase, Phase::AwaitingConfirmation);
    e.confirm_order(true);
    let order = e.into_order().unwrap();
    assert_eq!(order.items.len(), 2);
    for p in &order.items {
        match p {
            SetPiece::Armour(a) => {
                assert_eq!(a.quality, GearQuality::White);
                assert!(a.enchantment.is_none());
            }
            SetPiece::Jewelry(j) => {
                assert_eq!(j.quality, GearQuality::White);
                assert!(j.enchantment.is_none());
            }
            other => panic!("unexpected piece {:?}", other),
        }
    }
}

#[test]
fn declining_the_final_gate_cancels() {
    let mut e = Elicitation::new("Rasgos", OrderMode::Research).unwrap();
    e.supply_parts(&names(&["Collar"])).unwrap();
    e.supply_attribute("Saludable").unwrap();
    e.confirm_order(false);
    assert_eq!(e.phase, Phase::Cancelled);
    assert!(e.into_order().is_none());
}

#[test]
fn expansion_duplicates_rings_and_confirmed_dual_wields() {
    let ring = Gear::Jewelry(Jewelries::Ring);
    let dagger = Gear::Weapon(WeaponKind::OneHanded(OneHandedWeapons::Dagger));
    let head = Gear::Armour(ArmourParts::Head);
    let expanded = expand_parts(&vec![ring, dagger, head], &vec![true]);
    assert_eq!(expanded, vec![ring, ring, dagger, dagger, head]);
    let declined = expand_parts(&vec![ring, dagger, head], &vec![false]);
    assert_eq!(declined, vec![ring, ring, dagger, head]);
}

#[test]
fn sorting_groups_weapons_then_armour_then_jewelry() {
    let ring = Gear::Jewelry(Jewelries::Ring);
    let dagger = Gear::Weapon(WeaponKind::OneHanded(OneHandedWeapons::Dagger));
    let head = Gear::Armour(ArmourParts::Head);
    let feet = Gear::Armour(ArmourParts::Feet);
    let sorted = sort_gear(vec![ring, feet, dagger, head, ring]);
    assert_eq!(sorted, vec![dagger, head, feet, ring, ring]);
}

#[test]
fn parse_gear_parts_partitions_by_family() {
    let ring = Gear::Jewelry(Jewelries::Ring);
    let dagger = Gear::Weapon(WeaponKind::OneHanded(OneHandedWeapons::Dagger));
    let head = Gear::Armour(ArmourParts::Head);
    let (weapons, armour, jewelry) = parse_gear_parts(vec![ring, dagger, head, ring]);
    assert_eq!(weapons, vec![WeaponKind::OneHanded(OneHandedWeapons::Dagger)]);
    assert_eq!(armour, vec![ArmourParts::Head]);
    assert_eq!(jewelry, vec![Jewelries::Ring, Jewelries::Ring]);
}

#[test]
fn role_mention_extraction() {
    assert_eq!(
        find_role_mention("hola <@&123456789> equipo"),
        Some("<@&123456789>".to_string())
    );
    assert_eq!(
        find_role_mention("<@&1> y <@&2>"),
        Some("<@&1>".to_string())
    );
    assert_eq!(find_role_mention("sin menciones"), None);
    assert_eq!(find_role_mention("<@&> sin dígitos"), None);
    assert_eq!(find_role_mention("<@&12x> truncada y <@&99>"), Some("<@&99>".to_string()));
}

#[test]
fn enchantment_opt_in_resolves_glyphs_with_bulk_default() {
    let mut e = Elicitation::new("Joyas", OrderMode::Full).unwrap();
    e.supply_parts(&names(&["Collar", "Anillo"])).unwrap();
    e.set_enchantment_opt_in(true);
    // sample necklace: trait, enchantment, quality
    e.supply_attribute("Arcanidad").unwrap();
    assert_eq!(
        e.current_prompt(),
        Some(Prompt::SelectAttribute(
            Attribute::Enchantment,
            Gear::Jewelry(Jewelries::Necklace)
        ))
    );
    e.supply_attribute("Glifo de bloqueo").unwrap();
    e.supply_attribute("Azul").unwrap();
    // bulk: keep the glyph and the quality for both rings, not the trait
    e.answer_bulk(false);
    e.answer_bulk(true);
    e.answer_bulk(true);
    // both rings still ask their trait
    e.supply_attribute("Robustez").unwrap();
    e.supply_attribute("Agilidad").unwrap();
    e.answer_power_tier(true);
    e.confirm_order(true);
    let order = e.into_order().unwrap();
    assert_eq!(order.items.len(), 3);
    for p in &order.items {
        match p {
            SetPiece::Jewelry(j) => {
                assert_eq!(
                    j.enchantment,
                    Some(crafting_orders::entities::jewelry::JewelryEnchantments::Shielding)
                );
                assert_eq!(j.quality, GearQuality::Blue);
            }
            other => panic!("expected jewelry, got {:?}", other),
        }
    }
}
