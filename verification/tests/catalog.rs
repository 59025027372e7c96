use crafting_orders::entities::armour::ArmourEnchantments;
use crafting_orders::entities::armour::ArmourParts;
use crafting_orders::entities::armour::ArmourTraits;
use crafting_orders::entities::armour::ArmourWeights;
use crafting_orders::entities::jewelry::Jewelries;
use crafting_orders::entities::jewelry::JewelryEnchantments;
use crafting_orders::entities::jewelry::JewelryTraits;
use crafting_orders::entities::materials::PartMaterials;
use crafting_orders::entities::materials::RuneQualityMaterials;
use crafting_orders::entities::weapon::OneHandedWeapons;
use crafting_orders::entities::weapon::TwoHandedWeapons;
use crafting_orders::entities::weapon::WeaponEnchantments;
use crafting_orders::entities::weapon::WeaponKind;
use crafting_orders::entities::weapon::WeaponTraits;
use crafting_orders::entities::Gear;
use crafting_orders::entities::GearQuality;
use crafting_orders::entities::OrderError;

fn all_gear() -> Vec<Gear> {
    let mut v = Vec::new();
    for p in [
        ArmourParts::Head,
        ArmourParts::Shoulder,
        ArmourParts::Body,
        ArmourParts::Hands,
        ArmourParts::Waist,
        ArmourParts::Legs,
        ArmourParts::Feet,
        ArmourParts::Shield,
    ] {
        v.push(Gear::Armour(p));
    }
    for j in [Jewelries::Necklace, Jewelries::Ring] {
        v.push(Gear::Jewelry(j));
    }
    for w in [
        OneHandedWeapons::Mace,
        OneHandedWeapons::Dagger,
        OneHandedWeapons::Sword,
        OneHandedWeapons::Axe,
    ] {
        v.push(Gear::Weapon(WeaponKind::OneHanded(w)));
    }
    for w in [
        TwoHandedWeapons::Mace,
        TwoHandedWeapons::Sword,
        TwoHandedWeapons::Axe,
        TwoHandedWeapons::FrostStaff,
        TwoHandedWeapons::FireStaff,
        TwoHandedWeapons::LightningStaff,
        TwoHandedWeapons::RestorationStaff,
        TwoHandedWeapons::Bow,
    ] {
        v.push(Gear::Weapon(WeaponKind::TwoHanded(w)));
    }
    v
}

#[test]
fn gear_display_names() {
    assert_eq!(Gear::Armour(ArmourParts::Head).display_name(), "Cabeza");
    assert_eq!(Gear::Jewelry(Jewelries::Ring).display_name(), "Anillo");
    assert_eq!(
        Gear::Weapon(WeaponKind::OneHanded(OneHandedWeapons::Dagger)).display_name(),
        "Daga"
    );
    assert_eq!(
        Gear::Weapon(WeaponKind::TwoHanded(TwoHandedWeapons::RestorationStaff)).display_name(),
        "Bastón de restauración"
    );
}

#[test]
fn gear_name_round_trip_all_kinds() {
    for g in all_gear() {
        let name = g.display_name();
        let parsed = Gear::from_name(&name).expect("catalog name must parse");
        assert_eq!(parsed, g);
    }
}

#[test]
fn gear_lookup_unknown_name_fails() {
    assert_eq!(Gear::from_name("Yelmo"), Err(OrderError::CatalogNotFound));
    assert_eq!(Gear::from_name(""), Err(OrderError::CatalogNotFound));
    // case-sensitive exact match
    assert_eq!(Gear::from_name("cabeza"), Err(OrderError::CatalogNotFound));
    // accent-sensitive exact match
    assert_eq!(Gear::from_name("Baston glacial"), Err(OrderError::CatalogNotFound));
}

#[test]
fn quality_names_and_order() {
    assert_eq!(GearQuality::White.display_name(), "Blanco");
    assert_eq!(GearQuality::Green.display_name(), "Verde");
    assert_eq!(GearQuality::Blue.display_name(), "Azul");
    assert_eq!(GearQuality::Purple.display_name(), "Morada");
    assert_eq!(GearQuality::Yellow.display_name(), "Amarilla");
    assert_eq!(GearQuality::from_name("Morada"), Ok(GearQuality::Purple));
    assert_eq!(GearQuality::from_name("morada"), Err(OrderError::CatalogNotFound));
    assert_eq!(GearQuality::White.emoji(), "⚪");
    assert_eq!(GearQuality::Yellow.emoji(), "🟡");
}

#[test]
fn trait_names_round_trip() {
    for t in [
        ArmourTraits::Divines,
        ArmourTraits::Invigorating,
        ArmourTraits::Impenetrable,
        ArmourTraits::Infused,
        ArmourTraits::Nirnhoned,
        ArmourTraits::Reinforced,
        ArmourTraits::Sturdy,
        ArmourTraits::Training,
        ArmourTraits::WellFitted,
    ] {
        assert_eq!(ArmourTraits::from_name(&t.display_name()), Ok(t));
    }
    assert_eq!(WeaponTraits::from_name("Filo"), Ok(WeaponTraits::Sharpened));
    assert_eq!(JewelryTraits::from_name("Trinidad"), Ok(JewelryTraits::Triune));
    assert_eq!(WeaponTraits::from_name("Divinidad"), Err(OrderError::CatalogNotFound));
}

#[test]
fn enchantment_names_round_trip() {
    assert_eq!(
        ArmourEnchantments::from_name("Glifo de defensa prismática"),
        Ok(ArmourEnchantments::PrismaticDefense)
    );
    assert_eq!(
        WeaponEnchantments::from_name("Glifo de absorción de magia"),
        Ok(WeaponEnchantments::AbsorbMagicka)
    );
    assert_eq!(
        JewelryEnchantments::from_name("Glifo de regeneración prismática"),
        Ok(JewelryEnchantments::PrismaticRecovery)
    );
    assert_eq!(
        ArmourEnchantments::from_name("Glifo de fuego"),
        Err(OrderError::CatalogNotFound)
    );
}

#[test]
fn weight_names() {
    assert_eq!(ArmourWeights::from_name("Ligera"), Ok(ArmourWeights::Light));
    assert_eq!(ArmourWeights::from_name("Media"), Ok(ArmourWeights::Medium));
    assert_eq!(ArmourWeights::from_name("Pesada"), Ok(ArmourWeights::Heavy));
    assert_eq!(ArmourWeights::from_name("Plumas"), Err(OrderError::CatalogNotFound));
}

#[test]
fn material_names() {
    assert_eq!(
        PartMaterials::RubediteIngots.display_name(),
        "Lingote de rubedita (Rubedite Ingots)"
    );
    assert_eq!(RuneQualityMaterials::Kuta.display_name(), "Kuta");
}

#[test]
fn descriptions_shown_in_menus() {
    assert_eq!(Jewelries::Ring.description(), "Se asumen dos anillos");
    assert_eq!(Jewelries::Necklace.description(), "Solo uno");
    assert_eq!(OneHandedWeapons::Dagger.description(), "A una mano");
    assert_eq!(TwoHandedWeapons::Bow.description(), "A dos manos");
    assert_eq!(
        ArmourTraits::Divines.description(),
        "Aumenta los efectos de las piedras de Mundus"
    );
}
