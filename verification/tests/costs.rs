use crafting_orders::components::display_cost;
use crafting_orders::components::display_material_cost;
use crafting_orders::components::display_research_cost;
use crafting_orders::components::int_to_string;
use crafting_orders::components::Embed;
use crafting_orders::components::SetPiece;
use crafting_orders::entities::armour::Armour;
use crafting_orders::entities::armour::ArmourParts;
use crafting_orders::entities::armour::ArmourTraits;
use crafting_orders::entities::armour::ArmourWeights;
use crafting_orders::entities::jewelry::Jewelries;
use crafting_orders::entities::jewelry::Jewelry;
use crafting_orders::entities::jewelry::JewelryTraits;
use crafting_orders::entities::weapon::OneHandedWeapons;
use crafting_orders::entities::weapon::TwoHandedWeapons;
use crafting_orders::entities::weapon::Weapon;
use crafting_orders::entities::weapon::WeaponEnchantments;
use crafting_orders::entities::weapon::WeaponKind;
use crafting_orders::entities::weapon::WeaponTraits;
use crafting_orders::entities::GearQuality;
use crafting_orders::entities::MaterialCost;

fn field_value(e: &Embed, name: &str) -> Option<String> {
    for f in &e.fields {
        if f.name == name {
            return Some(f.value.clone());
        }
    }
    None
}

#[test]
fn white_unenchanted_armour_costs_base_plus_trait_only() {
    let piece = Armour {
        kind: ArmourParts::Head,
        weight: ArmourWeights::Light,
        armour_trait: ArmourTraits::Divines,
        enchantment: None,
        quality: GearQuality::White,
    };
    let cost = piece.cost();
    assert_eq!(
        cost,
        vec![
            (130, "Seda ancestral (Ancestor Silk)".to_string()),
            (1, "Zafiro (Sapphire)".to_string()),
        ]
    );
}

#[test]
fn armour_part_quantities() {
    let body = Armour {
        kind: ArmourParts::Body,
        weight: ArmourWeights::Heavy,
        armour_trait: ArmourTraits::Sturdy,
        enchantment: None,
        quality: GearQuality::White,
    };
    assert_eq!(body.cost()[0], (150, "Lingote de rubedita (Rubedite Ingots)".to_string()));
    let shield = Armour {
        kind: ArmourParts::Shield,
        weight: ArmourWeights::Heavy,
        armour_trait: ArmourTraits::Sturdy,
        enchantment: None,
        quality: GearQuality::White,
    };
    // the shield is woodwork whatever the weight says
    assert_eq!(
        shield.cost()[0],
        (140, "Madera de fresno rubí lijado (Sanded Ruby Ash)".to_string())
    );
}

#[test]
fn enchanted_green_dagger_cost() {
    let piece = Weapon {
        kind: WeaponKind::OneHanded(OneHandedWeapons::Dagger),
        weapon_trait: WeaponTraits::Precise,
        enchantment: Some(WeaponEnchantments::Fire),
        quality: GearQuality::Green,
    };
    assert_eq!(
        piece.cost(),
        vec![
            (100, "Lingote de rubedita (Rubedite Ingots)".to_string()),
            (1, "Rubí (Ruby)".to_string()),
            (1, "Repora".to_string()),
            (1, "Rakeipa".to_string()),
            (1, "Jejota".to_string()),
            (2, "Piedra de esmeril (Honing Stone)".to_string()),
        ]
    );
}

#[test]
fn unenchanted_weapon_takes_no_quality_rune() {
    let piece = Weapon {
        kind: WeaponKind::OneHanded(OneHandedWeapons::Sword),
        weapon_trait: WeaponTraits::Charged,
        enchantment: None,
        quality: GearQuality::Green,
    };
    let cost = piece.cost();
    assert!(cost.iter().all(|(_, m)| m != "Jejota" && m != "Ta"));
    assert_eq!(cost[0], (110, "Lingote de rubedita (Rubedite Ingots)".to_string()));
}

#[test]
fn frost_staff_is_forged_but_refined_as_woodwork() {
    let piece = Weapon {
        kind: WeaponKind::TwoHanded(TwoHandedWeapons::FrostStaff),
        weapon_trait: WeaponTraits::Training,
        enchantment: None,
        quality: GearQuality::Yellow,
    };
    assert_eq!(
        piece.cost(),
        vec![
            (140, "Lingote de rubedita (Rubedite Ingots)".to_string()),
            (1, "Cornalina (Carnelian)".to_string()),
            (2, "Brea (Pitch)".to_string()),
            (3, "Turpen".to_string()),
            (4, "Masilla (Mastic)".to_string()),
            (8, "Colofonia (Rosin)".to_string()),
        ]
    );
}

#[test]
fn blue_ring_cost() {
    let piece = Jewelry {
        kind: Jewelries::Ring,
        jewelry_trait: JewelryTraits::Robust,
        enchantment: None,
        quality: GearQuality::Blue,
    };
    assert_eq!(
        piece.cost(),
        vec![
            (100, "Onza de platino (Platinum Ounces)".to_string()),
            (1, "Cinc (Zinc)".to_string()),
            (2, "Chapado de iridio (Iridium Plating)".to_string()),
        ]
    );
}

#[test]
fn research_cost_is_trait_material_only() {
    let piece = SetPiece::Armour(Armour {
        kind: ArmourParts::Legs,
        weight: ArmourWeights::Heavy,
        armour_trait: ArmourTraits::Impenetrable,
        enchantment: None,
        quality: GearQuality::White,
    });
    assert_eq!(piece.research_cost(), vec![(1, "Diamante (Diamond)".to_string())]);
}

#[test]
fn manifest_groups_and_sums_by_material() {
    let e = display_material_cost(vec![
        (2, "Turpen".to_string()),
        (3, "Kuta".to_string()),
        (5, "Turpen".to_string()),
    ]);
    assert_eq!(e.title, "Materiales");
    assert_eq!(e.description, "Lista de los materiales necesarios para este equipo");
    assert_eq!(e.fields.len(), 2);
    assert_eq!(field_value(&e, "Turpen"), Some("7".to_string()));
    assert_eq!(field_value(&e, "Kuta"), Some("3".to_string()));
    assert!(e.fields.iter().all(|f| f.inline));
}

#[test]
fn crafting_manifest_merges_across_pieces() {
    let dagger = |t: WeaponTraits| {
        SetPiece::Weapon(Weapon {
            kind: WeaponKind::OneHanded(OneHandedWeapons::Dagger),
            weapon_trait: t,
            enchantment: None,
            quality: GearQuality::White,
        })
    };
    let pieces = vec![dagger(WeaponTraits::Precise), dagger(WeaponTraits::Precise)];
    let e = display_cost(&pieces);
    assert_eq!(
        field_value(&e, "Lingote de rubedita (Rubedite Ingots)"),
        Some("200".to_string())
    );
    assert_eq!(field_value(&e, "Rubí (Ruby)"), Some("2".to_string()));
}

#[test]
fn cost_is_invariant_under_reordering() {
    let a = SetPiece::Armour(Armour {
        kind: ArmourParts::Body,
        weight: ArmourWeights::Light,
        armour_trait: ArmourTraits::Divines,
        enchantment: None,
        quality: GearQuality::Purple,
    });
    let b = SetPiece::Jewelry(Jewelry {
        kind: Jewelries::Necklace,
        jewelry_trait: JewelryTraits::Arcane,
        enchantment: None,
        quality: GearQuality::Green,
    });
    let c = SetPiece::Weapon(Weapon {
        kind: WeaponKind::TwoHanded(TwoHandedWeapons::Bow),
        weapon_trait: WeaponTraits::Infused,
        enchantment: None,
        quality: GearQuality::White,
    });
    let one = display_cost(&vec![a, b, c]);
    let two = display_cost(&vec![c, a, b]);
    let mut f1: Vec<(String, String)> =
        one.fields.iter().map(|f| (f.name.clone(), f.value.clone())).collect();
    let mut f2: Vec<(String, String)> =
        two.fields.iter().map(|f| (f.name.clone(), f.value.clone())).collect();
    f1.sort();
    f2.sort();
    assert_eq!(f1, f2);

    let r1 = display_research_cost(&vec![a, b, c]);
    let r2 = display_research_cost(&vec![b, c, a]);
    let mut g1: Vec<(String, String)> =
        r1.fields.iter().map(|f| (f.name.clone(), f.value.clone())).collect();
    let mut g2: Vec<(String, String)> =
        r2.fields.iter().map(|f| (f.name.clone(), f.value.clone())).collect();
    g1.sort();
    g2.sort();
    assert_eq!(g1, g2);
}

#[test]
fn research_manifest_counts_each_trait_once_per_piece() {
    let ring = |t: JewelryTraits| {
        SetPiece::Jewelry(Jewelry {
            kind: Jewelries::Ring,
            jewelry_trait: t,
            enchantment: None,
            quality: GearQuality::Yellow,
        })
    };
    let e = display_research_cost(&vec![ring(JewelryTraits::Swift), ring(JewelryTraits::Swift)]);
    assert_eq!(e.fields.len(), 1);
    assert_eq!(field_value(&e, "Cera dorada (Gilding Wax)"), Some("2".to_string()));
}

#[test]
fn quantity_rendering() {
    assert_eq!(int_to_string(0), "0");
    assert_eq!(int_to_string(7), "7");
    assert_eq!(int_to_string(150), "150");
    assert_eq!(int_to_string(100000), "100000");
    assert_eq!(int_to_string(-42), "-42");
}
