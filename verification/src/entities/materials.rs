//! Raw crafting materials: refinement and part materials, trait gems and the
//! runes consumed by enchantments and quality upgrades.

use vstd::prelude::*;

verus! {

#[derive(Clone, Copy, PartialEq, Eq, Structural, Debug)]
pub enum PartMaterials {
    AncestorSilk,
    RubedoLeather,
    RubediteIngots,
    SandedRubyAsh,
    PlatinumOunces,
}

impl PartMaterials {
    pub open spec fn name_spec(self) -> Seq<char> {
        match self {
            PartMaterials::AncestorSilk => "Seda ancestral (Ancestor Silk)"@,
            PartMaterials::RubedoLeather => "Cuero rubedo (Rubedo Leather)"@,
            PartMaterials::RubediteIngots => "Lingote de rubedita (Rubedite Ingots)"@,
            PartMaterials::SandedRubyAsh => "Madera de fresno rubí lijado (Sanded Ruby Ash)"@,
            PartMaterials::PlatinumOunces => "Onza de platino (Platinum Ounces)"@,
        }
    }

    /// Canonical display name in the catalog.
    pub fn display_name(&self) -> (r: String)
        ensures
            r@ == self.name_spec(),
    {
        match self {
            PartMaterials::AncestorSilk => "Seda ancestral (Ancestor Silk)".to_owned(),
            PartMaterials::RubedoLeather => "Cuero rubedo (Rubedo Leather)".to_owned(),
            PartMaterials::RubediteIngots => "Lingote de rubedita (Rubedite Ingots)".to_owned(),
            PartMaterials::SandedRubyAsh => "Madera de fresno rubí lijado (Sanded Ruby Ash)".to_owned(),
            PartMaterials::PlatinumOunces => "Onza de platino (Platinum Ounces)".to_owned(),
        }
    }
}

#[derive(Clone, Copy, PartialEq, Eq, Structural, Debug)]
pub enum RuneQualityMaterials {
    Ta,
    Jejota,
    Denata,
    Rekuta,
    Kuta,
}

impl RuneQualityMaterials {
    pub open spec fn name_spec(self) -> Seq<char> {
        match self {
            RuneQualityMaterials::Ta => "Ta"@,
            RuneQualityMaterials::Jejota => "Jejota"@,
            RuneQualityMaterials::Denata => "Denata"@,
            RuneQualityMaterials::Rekuta => "Rekuta"@,
            RuneQualityMaterials::Kuta => "Kuta"@,
        }
    }

    /// Canonical display name in the catalog.
    pub fn display_name(&self) -> (r: String)
        ensures
            r@ == self.name_spec(),
    {
        match self {
            RuneQualityMaterials::Ta => "Ta".to_owned(),
            RuneQualityMaterials::Jejota => "Jejota".to_owned(),
            RuneQualityMaterials::Denata => "Denata".to_owned(),
            RuneQualityMaterials::Rekuta => "Rekuta".to_owned(),
            RuneQualityMaterials::Kuta => "Kuta".to_owned(),
        }
    }
}

#[derive(Clone, Copy, PartialEq, Eq, Structural, Debug)]
pub enum TailoringQualityMaterials {
    Hemming,
    Embroidery,
    ElegantLining,
    DreughWax,
}

impl TailoringQualityMaterials {
    pub open spec fn name_spec(self) -> Seq<char> {
        match self {
            TailoringQualityMaterials::Hemming => "Hilo de coser (Hemming)"@,
            TailoringQualityMaterials::Embroidery => "Bordado (Embroidery)"@,
            TailoringQualityMaterials::ElegantLining => "Revestimiento elegante (Elegant Lining)"@,
            TailoringQualityMaterials::DreughWax => "Cera de dreugh (Dreugh Wax)"@,
        }
    }

    /// Canonical display name in the catalog.
    pub fn display_name(&self) -> (r: String)
        ensures
            r@ == self.name_spec(),
    {
        match self {
            TailoringQualityMaterials::Hemming => "Hilo de coser (Hemming)".to_owned(),
            TailoringQualityMaterials::Embroidery => "Bordado (Embroidery)".to_owned(),
            TailoringQualityMaterials::ElegantLining => "Revestimiento elegante (Elegant Lining)".to_owned(),
            TailoringQualityMaterials::DreughWax => "Cera de dreugh (Dreugh Wax)".to_owned(),
        }
    }
}

#[derive(Clone, Copy, PartialEq, Eq, Structural, Debug)]
pub enum BlacksmithQualityMaterials {
    HoningStone,
    DwarvenOil,
    GrainSolvent,
    TemperingAlloy,
}

impl BlacksmithQualityMaterials {
    pub open spec fn name_spec(self) -> Seq<char> {
        match self {
            BlacksmithQualityMaterials::HoningStone => "Piedra de esmeril (Honing Stone)"@,
            BlacksmithQualityMaterials::DwarvenOil => "Aceite enano (Dwarven Oil)"@,
            BlacksmithQualityMaterials::GrainSolvent => "Disolvente granulado (Grain Solvent)"@,
            BlacksmithQualityMaterials::TemperingAlloy => "Aleación de temple (Tempering Alloy)"@,
        }
    }

    /// Canonical display name in the catalog.
    pub fn display_name(&self) -> (r: String)
        ensures
            r@ == self.name_spec(),
    {
        match self {
            BlacksmithQualityMaterials::HoningStone => "Piedra de esmeril (Honing Stone)".to_owned(),
            BlacksmithQualityMaterials::DwarvenOil => "Aceite enano (Dwarven Oil)".to_owned(),
            BlacksmithQualityMaterials::GrainSolvent => "Disolvente granulado (Grain Solvent)".to_owned(),
            BlacksmithQualityMaterials::TemperingAlloy => "Aleación de temple (Tempering Alloy)".to_owned(),
        }
    }
}

#[derive(Clone, Copy, PartialEq, Eq, Structural, Debug)]
pub enum WoodworkingQualityMaterials {
    Pitch,
    Turpen,
    Mastic,
    Rosin,
}

impl WoodworkingQualityMaterials {
    pub open spec fn name_spec(self) -> Seq<char> {
        match self {
            WoodworkingQualityMaterials::Pitch => "Brea (Pitch)"@,
            WoodworkingQualityMaterials::Turpen => "Turpen"@,
            WoodworkingQualityMaterials::Mastic => "Masilla (Mastic)"@,
            WoodworkingQualityMaterials::Rosin => "Colofonia (Rosin)"@,
        }
    }

    /// Canonical display name in the catalog.
    pub fn display_name(&self) -> (r: String)
        ensures
            r@ == self.name_spec(),
    {
        match self {
            WoodworkingQualityMaterials::Pitch => "Brea (Pitch)".to_owned(),
            WoodworkingQualityMaterials::Turpen => "Turpen".to_owned(),
            WoodworkingQualityMaterials::Mastic => "Masilla (Mastic)".to_owned(),
            WoodworkingQualityMaterials::Rosin => "Colofonia (Rosin)".to_owned(),
        }
    }
}

#[derive(Clone, Copy, PartialEq, Eq, Structural, Debug)]
pub enum JewelryQualityMaterials {
    TernePlating,
    IridiumPlating,
    ZirconPlating,
    ChromiumPlating,
}

impl JewelryQualityMaterials {
    pub open spec fn name_spec(self) -> Seq<char> {
        match self {
            JewelryQualityMaterials::TernePlating => "Chapado de terne (Terne Plating)"@,
            JewelryQualityMaterials::IridiumPlating => "Chapado de iridio (Iridium Plating)"@,
            JewelryQualityMaterials::ZirconPlating => "Chapado de circón (Zircon Plating)"@,
            JewelryQualityMaterials::ChromiumPlating => "Chapado de cromo (Chromium Plating)"@,
        }
    }

    /// Canonical display name in the catalog.
    pub fn display_name(&self) -> (r: String)
        ensures
            r@ == self.name_spec(),
    {
        match self {
            JewelryQualityMaterials::TernePlating => "Chapado de terne (Terne Plating)".to_owned(),
            JewelryQualityMaterials::IridiumPlating => "Chapado de iridio (Iridium Plating)".to_owned(),
            JewelryQualityMaterials::ZirconPlating => "Chapado de circón (Zircon Plating)".to_owned(),
            JewelryQualityMaterials::ChromiumPlating => "Chapado de cromo (Chromium Plating)".to_owned(),
        }
    }
}

#[derive(Clone, Copy, PartialEq, Eq, Structural, Debug)]
pub enum ArmourTraitMaterials {
    Sapphire,
    Diamond,
    Bloodstone,
    Garnet,
    FortifiedNirncrux,
    Sardonyx,
    Quartz,
    Emerald,
    Almandine,
}

impl ArmourTraitMaterials {
    pub open spec fn name_spec(self) -> Seq<char> {
        match self {
            ArmourTraitMaterials::Sapphire => "Zafiro (Sapphire)"@,
            ArmourTraitMaterials::Diamond => "Diamante (Diamond)"@,
            ArmourTraitMaterials::Bloodstone => "Piedra de sangre (Bloodstone)"@,
            ArmourTraitMaterials::Garnet => "Granate (Garnet)"@,
            ArmourTraitMaterials::FortifiedNirncrux => "Nirncrux fortificado (Fortified Nirncrux)"@,
            ArmourTraitMaterials::Sardonyx => "Sardónice (Sardonyx)"@,
            ArmourTraitMaterials::Quartz => "Cuarzo (Quartz)"@,
            ArmourTraitMaterials::Emerald => "Esmeralda (Emerald)"@,
            ArmourTraitMaterials::Almandine => "Almandino (Almandine)"@,
        }
    }

    /// Canonical display name in the catalog.
    pub fn display_name(&self) -> (r: String)
        ensures
            r@ == self.name_spec(),
    {
        match self {
            ArmourTraitMaterials::Sapphire => "Zafiro (Sapphire)".to_owned(),
            ArmourTraitMaterials::Diamond => "Diamante (Diamond)".to_owned(),
            ArmourTraitMaterials::Bloodstone => "Piedra de sangre (Bloodstone)".to_owned(),
            ArmourTraitMaterials::Garnet => "Granate (Garnet)".to_owned(),
            ArmourTraitMaterials::FortifiedNirncrux => "Nirncrux fortificado (Fortified Nirncrux)".to_owned(),
            ArmourTraitMaterials::Sardonyx => "Sardónice (Sardonyx)".to_owned(),
            ArmourTraitMaterials::Quartz => "Cuarzo (Quartz)".to_owned(),
            ArmourTraitMaterials::Emerald => "Esmeralda (Emerald)".to_owned(),
            ArmourTraitMaterials::Almandine => "Almandino (Almandine)".to_owned(),
        }
    }
}

#[derive(Clone, Copy, PartialEq, Eq, Structural, Debug)]
pub enum WeaponTraitMaterials {
    Amethyst,
    Citrine,
    Turquoise,
    Jade,
    PotentNirncrux,
    Chysolite,
    Ruby,
    FireOpal,
    Carnelian,
}

impl WeaponTraitMaterials {
    pub open spec fn name_spec(self) -> Seq<char> {
        match self {
            WeaponTraitMaterials::Amethyst => "Amatista (Amethyst)"@,
            WeaponTraitMaterials::Citrine => "Citrina (Citrine)"@,
            WeaponTraitMaterials::Turquoise => "Turquesa (Turquoise)"@,
            WeaponTraitMaterials::Jade => "Jade"@,
            WeaponTraitMaterials::PotentNirncrux => "Temple de Nirn (Potent Nirncrux)"@,
            WeaponTraitMaterials::Chysolite => "Crisolita (Chysolite)"@,
            WeaponTraitMaterials::Ruby => "Rubí (Ruby)"@,
            WeaponTraitMaterials::FireOpal => "Ópalo de fuego (Fire Opal)"@,
            WeaponTraitMaterials::Carnelian => "Cornalina (Carnelian)"@,
        }
    }

    /// Canonical display name in the catalog.
    pub fn display_name(&self) -> (r: String)
        ensures
            r@ == self.name_spec(),
    {
        match self {
            WeaponTraitMaterials::Amethyst => "Amatista (Amethyst)".to_owned(),
            WeaponTraitMaterials::Citrine => "Citrina (Citrine)".to_owned(),
            WeaponTraitMaterials::Turquoise => "Turquesa (Turquoise)".to_owned(),
            WeaponTraitMaterials::Jade => "Jade".to_owned(),
            WeaponTraitMaterials::PotentNirncrux => "Temple de Nirn (Potent Nirncrux)".to_owned(),
            WeaponTraitMaterials::Chysolite => "Crisolita (Chysolite)".to_owned(),
            WeaponTraitMaterials::Ruby => "Rubí (Ruby)".to_owned(),
            WeaponTraitMaterials::FireOpal => "Ópalo de fuego (Fire Opal)".to_owned(),
            WeaponTraitMaterials::Carnelian => "Cornalina (Carnelian)".to_owned(),
        }
    }
}

#[derive(Clone, Copy, PartialEq, Eq, Structural, Debug)]
pub enum JewelryTraitMaterials {
    Cobalt,
    Slaughterstone,
    Dibellium,
    Antimony,
    AurbicAmber,
    Titanium,
    Zinc,
    GildingWax,
    DawnPrism,
}

impl JewelryTraitMaterials {
    pub open spec fn name_spec(self) -> Seq<char> {
        match self {
            JewelryTraitMaterials::Cobalt => "Cobalto (Cobalt)"@,
            JewelryTraitMaterials::Slaughterstone => "Piedra masacre (Slaughterstone)"@,
            JewelryTraitMaterials::Dibellium => "Dibelio (Dibellium)"@,
            JewelryTraitMaterials::Antimony => "Antimonio (Antimony)"@,
            JewelryTraitMaterials::AurbicAmber => "Ámbar aúrbico (AurbicAmber)"@,
            JewelryTraitMaterials::Titanium => "Titanio (Titanium)"@,
            JewelryTraitMaterials::Zinc => "Cinc (Zinc)"@,
            JewelryTraitMaterials::GildingWax => "Cera dorada (Gilding Wax)"@,
            JewelryTraitMaterials::DawnPrism => "Prisma del alba (Dawn Prism)"@,
        }
    }

    /// Canonical display name in the catalog.
    pub fn display_name(&self) -> (r: String)
        ensures
            r@ == self.name_spec(),
    {
        match self {
            JewelryTraitMaterials::Cobalt => "Cobalto (Cobalt)".to_owned(),
            JewelryTraitMaterials::Slaughterstone => "Piedra masacre (Slaughterstone)".to_owned(),
            JewelryTraitMaterials::Dibellium => "Dibelio (Dibellium)".to_owned(),
            JewelryTraitMaterials::Antimony => "Antimonio (Antimony)".to_owned(),
            JewelryTraitMaterials::AurbicAmber => "Ámbar aúrbico (AurbicAmber)".to_owned(),
            JewelryTraitMaterials::Titanium => "Titanio (Titanium)".to_owned(),
            JewelryTraitMaterials::Zinc => "Cinc (Zinc)".to_owned(),
            JewelryTraitMaterials::GildingWax => "Cera dorada (Gilding Wax)".to_owned(),
            JewelryTraitMaterials::DawnPrism => "Prisma del alba (Dawn Prism)".to_owned(),
        }
    }
}

#[derive(Clone, Copy, PartialEq, Eq, Structural, Debug)]
pub enum PotencyRunes {
    Repora,
    Itade,
}

impl PotencyRunes {
    pub open spec fn name_spec(self) -> Seq<char> {
        match self {
            PotencyRunes::Repora => "Repora"@,
            PotencyRunes::Itade => "Itade"@,
        }
    }

    /// Canonical display name in the catalog.
    pub fn display_name(&self) -> (r: String)
        ensures
            r@ == self.name_spec(),
    {
        match self {
            PotencyRunes::Repora => "Repora".to_owned(),
            PotencyRunes::Itade => "Itade".to_owned(),
        }
    }
}

#[derive(Clone, Copy, PartialEq, Eq, Structural, Debug)]
pub enum EssenceRunes {
    Dekeipa,
    Deni,
    Denima,
    Deteri,
    Hakeijo,
    Haoko,
    Indeko,
    Kaderi,
    Kuoko,
    Makderi,
    Makko,
    Makkoma,
    Meip,
    Oko,
    Okoma,
    Okori,
    Oru,
    Rakeipa,
    Taderi,
}

impl EssenceRunes {
    pub open spec fn name_spec(self) -> Seq<char> {
        match self {
            EssenceRunes::Dekeipa => "Dekeipa"@,
            EssenceRunes::Deni => "Deni"@,
            EssenceRunes::Denima => "Denima"@,
            EssenceRunes::Deteri => "Deteri"@,
            EssenceRunes::Hakeijo => "Hakeijo"@,
            EssenceRunes::Haoko => "Haoko"@,
            EssenceRunes::Indeko => "Indeko"@,
            EssenceRunes::Kaderi => "Kaderi"@,
            EssenceRunes::Kuoko => "Kuoko"@,
            EssenceRunes::Makderi => "Makderi"@,
            EssenceRunes::Makko => "Makko"@,
            EssenceRunes::Makkoma => "Makkoma"@,
            EssenceRunes::Meip => "Meip"@,
            EssenceRunes::Oko => "Oko"@,
            EssenceRunes::Okoma => "Okoma"@,
            EssenceRunes::Okori => "Okori"@,
            EssenceRunes::Oru => "Oru"@,
            EssenceRunes::Rakeipa => "Rakeipa"@,
            EssenceRunes::Taderi => "Taderi"@,
        }
    }

    /// Canonical display name in the catalog.
    pub fn display_name(&self) -> (r: String)
        ensures
            r@ == self.name_spec(),
    {
        match self {
            EssenceRunes::Dekeipa => "Dekeipa".to_owned(),
            EssenceRunes::Deni => "Deni".to_owned(),
            EssenceRunes::Denima => "Denima".to_owned(),
            EssenceRunes::Deteri => "Deteri".to_owned(),
            EssenceRunes::Hakeijo => "Hakeijo".to_owned(),
            EssenceRunes::Haoko => "Haoko".to_owned(),
            EssenceRunes::Indeko => "Indeko".to_owned(),
            EssenceRunes::Kaderi => "Kaderi".to_owned(),
            EssenceRunes::Kuoko => "Kuoko".to_owned(),
            EssenceRunes::Makderi => "Makderi".to_owned(),
            EssenceRunes::Makko => "Makko".to_owned(),
            EssenceRunes::Makkoma => "Makkoma".to_owned(),
            EssenceRunes::Meip => "Meip".to_owned(),
            EssenceRunes::Oko => "Oko".to_owned(),
            EssenceRunes::Okoma => "Okoma".to_owned(),
            EssenceRunes::Okori => "Okori".to_owned(),
            EssenceRunes::Oru => "Oru".to_owned(),
            EssenceRunes::Rakeipa => "Rakeipa".to_owned(),
            EssenceRunes::Taderi => "Taderi".to_owned(),
        }
    }
}

} // verus!
