//! Weapon kinds, traits and enchantments, and the cost of a weapon.

use vstd::prelude::*;

verus! {

use crate::entities::GearQuality;
use crate::entities::MaterialCost;
use crate::entities::OrderError;
use crate::entities::cost_entries_match;
use crate::entities::cost_one;
use crate::entities::cost_two;
use crate::entities::enchantment_quality_cost_spec;
use crate::entities::get_enchantment_quality_cost;
use crate::entities::lemma_cost_entries_match_concat;
use crate::entities::str_eq;
use crate::entities::materials::EssenceRunes;
use crate::entities::materials::PartMaterials;
use crate::entities::materials::PotencyRunes;
use crate::entities::materials::WeaponTraitMaterials;

#[derive(Clone, Copy, PartialEq, Eq, Structural, Debug)]
pub enum OneHandedWeapons {
    /// A una mano
    Mace,
    /// A una mano
    Dagger,
    /// A una mano
    Sword,
    /// A una mano
    Axe,
}

impl OneHandedWeapons {
    pub open spec fn name_spec(self) -> Seq<char> {
        match self {
            OneHandedWeapons::Mace => "Maza"@,
            OneHandedWeapons::Dagger => "Daga"@,
            OneHandedWeapons::Sword => "Espada"@,
            OneHandedWeapons::Axe => "Hacha"@,
        }
    }

    /// Canonical display name in the catalog.
    pub fn display_name(&self) -> (r: String)
        ensures
            r@ == self.name_spec(),
    {
        match self {
            OneHandedWeapons::Mace => "Maza".to_owned(),
            OneHandedWeapons::Dagger => "Daga".to_owned(),
            OneHandedWeapons::Sword => "Espada".to_owned(),
            OneHandedWeapons::Axe => "Hacha".to_owned(),
        }
    }

    /// Total lookup by display name; fails exactly on unknown names.
    pub fn from_name(s: &str) -> (r: Result<Self, OrderError>)
        ensures
            match r {
                Ok(v) => v.name_spec() == s@,
                Err(e) => e == OrderError::CatalogNotFound
                    && forall|v: Self| v.name_spec() != s@,
            },
    {
        if str_eq(s, "Maza") {
            Ok(OneHandedWeapons::Mace)
        } else if str_eq(s, "Daga") {
            Ok(OneHandedWeapons::Dagger)
        } else if str_eq(s, "Espada") {
            Ok(OneHandedWeapons::Sword)
        } else if str_eq(s, "Hacha") {
            Ok(OneHandedWeapons::Axe)
        } else {
            Err(OrderError::CatalogNotFound)
        }
    }

    pub open spec fn description_spec(self) -> Seq<char> {
        match self {
            OneHandedWeapons::Mace => "A una mano"@,
            OneHandedWeapons::Dagger => "A una mano"@,
            OneHandedWeapons::Sword => "A una mano"@,
            OneHandedWeapons::Axe => "A una mano"@,
        }
    }

    /// Short human-readable description, shown beside the name in menus.
    pub fn description(&self) -> (r: String)
        ensures
            r@ == self.description_spec(),
    {
        match self {
            OneHandedWeapons::Mace => "A una mano".to_owned(),
            OneHandedWeapons::Dagger => "A una mano".to_owned(),
            OneHandedWeapons::Sword => "A una mano".to_owned(),
            OneHandedWeapons::Axe => "A una mano".to_owned(),
        }
    }
}

impl MaterialCost for OneHandedWeapons {
    open spec fn cost_spec(&self) -> Seq<(i32, Seq<char>)> {
        match *self {
            OneHandedWeapons::Mace => seq![(110i32, PartMaterials::RubediteIngots.name_spec())],
            OneHandedWeapons::Dagger => seq![(100i32, PartMaterials::RubediteIngots.name_spec())],
            OneHandedWeapons::Sword => seq![(110i32, PartMaterials::RubediteIngots.name_spec())],
            OneHandedWeapons::Axe => seq![(110i32, PartMaterials::RubediteIngots.name_spec())],
        }
    }

    fn cost(&self) -> (r: Vec<(i32, String)>)
        ensures
            cost_entries_match(r@, self.cost_spec()),
    {
        match *self {
            OneHandedWeapons::Mace => cost_one(110, PartMaterials::RubediteIngots.display_name()),
            OneHandedWeapons::Dagger => cost_one(100, PartMaterials::RubediteIngots.display_name()),
            OneHandedWeapons::Sword => cost_one(110, PartMaterials::RubediteIngots.display_name()),
            OneHandedWeapons::Axe => cost_one(110, PartMaterials::RubediteIngots.display_name()),
        }
    }
}

#[derive(Clone, Copy, PartialEq, Eq, Structural, Debug)]
pub enum TwoHandedWeapons {
    /// A dos manos
    Mace,
    /// A dos manos
    Sword,
    /// A dos manos
    Axe,
    /// A dos manos
    FrostStaff,
    /// A dos manos
    FireStaff,
    /// A dos manos
    LightningStaff,
    /// A dos manos
    RestorationStaff,
    /// A dos manos
    Bow,
}

impl TwoHandedWeapons {
    pub open spec fn name_spec(self) -> Seq<char> {
        match self {
            TwoHandedWeapons::Mace => "Mazo"@,
            TwoHandedWeapons::Sword => "Mandoble"@,
            TwoHandedWeapons::Axe => "Hacha de combate"@,
            TwoHandedWeapons::FrostStaff => "Bastón glacial"@,
            TwoHandedWeapons::FireStaff => "Bastón infernal"@,
            TwoHandedWeapons::LightningStaff => "Bastón eléctrico"@,
            TwoHandedWeapons::RestorationStaff => "Bastón de restauración"@,
            TwoHandedWeapons::Bow => "Arco"@,
        }
    }

    /// Canonical display name in the catalog.
    pub fn display_name(&self) -> (r: String)
        ensures
            r@ == self.name_spec(),
    {
        match self {
            TwoHandedWeapons::Mace => "Mazo".to_owned(),
            TwoHandedWeapons::Sword => "Mandoble".to_owned(),
            TwoHandedWeapons::Axe => "Hacha de combate".to_owned(),
            TwoHandedWeapons::FrostStaff => "Bastón glacial".to_owned(),
            TwoHandedWeapons::FireStaff => "Bastón infernal".to_owned(),
            TwoHandedWeapons::LightningStaff => "Bastón eléctrico".to_owned(),
            TwoHandedWeapons::RestorationStaff => "Bastón de restauración".to_owned(),
            TwoHandedWeapons::Bow => "Arco".to_owned(),
        }
    }

    /// Total lookup by display name; fails exactly on unknown names.
    pub fn from_name(s: &str) -> (r: Result<Self, OrderError>)
        ensures
            match r {
                Ok(v) => v.name_spec() == s@,
                Err(e) => e == OrderError::CatalogNotFound
                    && forall|v: Self| v.name_spec() != s@,
            },
    {
        if str_eq(s, "Mazo") {
            Ok(TwoHandedWeapons::Mace)
        } else if str_eq(s, "Mandoble") {
            Ok(TwoHandedWeapons::Sword)
        } else if str_eq(s, "Hacha de combate") {
            Ok(TwoHandedWeapons::Axe)
        } else if str_eq(s, "Bastón glacial") {
            Ok(TwoHandedWeapons::FrostStaff)
        } else if str_eq(s, "Bastón infernal") {
            Ok(TwoHandedWeapons::FireStaff)
        } else if str_eq(s, "Bastón eléctrico") {
            Ok(TwoHandedWeapons::LightningStaff)
        } else if str_eq(s, "Bastón de restauración") {
            Ok(TwoHandedWeapons::RestorationStaff)
        } else if str_eq(s, "Arco") {
            Ok(TwoHandedWeapons::Bow)
        } else {
            Err(OrderError::CatalogNotFound)
        }
    }

    pub open spec fn description_spec(self) -> Seq<char> {
        match self {
            TwoHandedWeapons::Mace => "A dos manos"@,
            TwoHandedWeapons::Sword => "A dos manos"@,
            TwoHandedWeapons::Axe => "A dos manos"@,
            TwoHandedWeapons::FrostStaff => "A dos manos"@,
            TwoHandedWeapons::FireStaff => "A dos manos"@,
            TwoHandedWeapons::LightningStaff => "A dos manos"@,
            TwoHandedWeapons::RestorationStaff => "A dos manos"@,
            TwoHandedWeapons::Bow => "A dos manos"@,
        }
    }

    /// Short human-readable description, shown beside the name in menus.
    pub fn description(&self) -> (r: String)
        ensures
            r@ == self.description_spec(),
    {
        match self {
            TwoHandedWeapons::Mace => "A dos manos".to_owned(),
            TwoHandedWeapons::Sword => "A dos manos".to_owned(),
            TwoHandedWeapons::Axe => "A dos manos".to_owned(),
            TwoHandedWeapons::FrostStaff => "A dos manos".to_owned(),
            TwoHandedWeapons::FireStaff => "A dos manos".to_owned(),
            TwoHandedWeapons::LightningStaff => "A dos manos".to_owned(),
            TwoHandedWeapons::RestorationStaff => "A dos manos".to_owned(),
            TwoHandedWeapons::Bow => "A dos manos".to_owned(),
        }
    }
}

impl MaterialCost for TwoHandedWeapons {
    open spec fn cost_spec(&self) -> Seq<(i32, Seq<char>)> {
        match *self {
            TwoHandedWeapons::Mace => seq![(140i32, PartMaterials::RubediteIngots.name_spec())],
            TwoHandedWeapons::Sword => seq![(140i32, PartMaterials::RubediteIngots.name_spec())],
            TwoHandedWeapons::Axe => seq![(140i32, PartMaterials::RubediteIngots.name_spec())],
            TwoHandedWeapons::FrostStaff => seq![(140i32, PartMaterials::RubediteIngots.name_spec())],
            TwoHandedWeapons::FireStaff => seq![(120i32, PartMaterials::SandedRubyAsh.name_spec())],
            TwoHandedWeapons::LightningStaff => seq![(120i32, PartMaterials::SandedRubyAsh.name_spec())],
            TwoHandedWeapons::RestorationStaff => seq![(120i32, PartMaterials::SandedRubyAsh.name_spec())],
            TwoHandedWeapons::Bow => seq![(120i32, PartMaterials::SandedRubyAsh.name_spec())],
        }
    }

    fn cost(&self) -> (r: Vec<(i32, String)>)
        ensures
            cost_entries_match(r@, self.cost_spec()),
    {
        match *self {
            TwoHandedWeapons::Mace => cost_one(140, PartMaterials::RubediteIngots.display_name()),
            TwoHandedWeapons::Sword => cost_one(140, PartMaterials::RubediteIngots.display_name()),
            TwoHandedWeapons::Axe => cost_one(140, PartMaterials::RubediteIngots.display_name()),
            TwoHandedWeapons::FrostStaff => cost_one(140, PartMaterials::RubediteIngots.display_name()),
            TwoHandedWeapons::FireStaff => cost_one(120, PartMaterials::SandedRubyAsh.display_name()),
            TwoHandedWeapons::LightningStaff => cost_one(120, PartMaterials::SandedRubyAsh.display_name()),
            TwoHandedWeapons::RestorationStaff => cost_one(120, PartMaterials::SandedRubyAsh.display_name()),
            TwoHandedWeapons::Bow => cost_one(120, PartMaterials::SandedRubyAsh.display_name()),
        }
    }
}

#[derive(Clone, Copy, PartialEq, Eq, Structural, Debug)]
pub enum WeaponTraits {
    /// Aumenta la probabilidad de aplicar efectos de estado
    Charged,
    /// Aumenta la resistencia física y a hechizos
    Defending,
    /// Aumenta la curación realizada
    Powered,
    /// Aumenta el encantamiento de las armas
    Infused,
    /// Aumenta el daño del arma
    Nirnhoned,
    /// Aumenta el crítico de arma y hechizo
    Precise,
    /// Aumenta la penetración física y mágica
    Sharpened,
    /// Aumenta la experiencia ganada con cada muerte
    Training,
    /// Aumenta la ganancia de puntos de máxima
    Decisive,
}

impl WeaponTraits {
    pub open spec fn name_spec(self) -> Seq<char> {
        match self {
            WeaponTraits::Charged => "Carga"@,
            WeaponTraits::Defending => "Defensa"@,
            WeaponTraits::Powered => "Potencia"@,
            WeaponTraits::Infused => "Imbuido"@,
            WeaponTraits::Nirnhoned => "Temple de Nirn"@,
            WeaponTraits::Precise => "Precisión"@,
            WeaponTraits::Sharpened => "Filo"@,
            WeaponTraits::Training => "Entrenamiento"@,
            WeaponTraits::Decisive => "Decisivo"@,
        }
    }

    /// Canonical display name in the catalog.
    pub fn display_name(&self) -> (r: String)
        ensures
            r@ == self.name_spec(),
    {
        match self {
            WeaponTraits::Charged => "Carga".to_owned(),
            WeaponTraits::Defending => "Defensa".to_owned(),
            WeaponTraits::Powered => "Potencia".to_owned(),
            WeaponTraits::Infused => "Imbuido".to_owned(),
            WeaponTraits::Nirnhoned => "Temple de Nirn".to_owned(),
            WeaponTraits::Precise => "Precisión".to_owned(),
            WeaponTraits::Sharpened => "Filo".to_owned(),
            WeaponTraits::Training => "Entrenamiento".to_owned(),
            WeaponTraits::Decisive => "Decisivo".to_owned(),
        }
    }

    /// Total lookup by display name; fails exactly on unknown names.
    pub fn from_name(s: &str) -> (r: Result<Self, OrderError>)
        ensures
            match r {
                Ok(v) => v.name_spec() == s@,
                Err(e) => e == OrderError::CatalogNotFound
                    && forall|v: Self| v.name_spec() != s@,
            },
    {
        if str_eq(s, "Carga") {
            Ok(WeaponTraits::Charged)
        } else if str_eq(s, "Defensa") {
            Ok(WeaponTraits::Defending)
        } else if str_eq(s, "Potencia") {
            Ok(WeaponTraits::Powered)
        } else if str_eq(s, "Imbuido") {
            Ok(WeaponTraits::Infused)
        } else if str_eq(s, "Temple de Nirn") {
            Ok(WeaponTraits::Nirnhoned)
        } else if str_eq(s, "Precisión") {
            Ok(WeaponTraits::Precise)
        } else if str_eq(s, "Filo") {
            Ok(WeaponTraits::Sharpened)
        } else if str_eq(s, "Entrenamiento") {
            Ok(WeaponTraits::Training)
        } else if str_eq(s, "Decisivo") {
            Ok(WeaponTraits::Decisive)
        } else {
            Err(OrderError::CatalogNotFound)
        }
    }

    pub open spec fn description_spec(self) -> Seq<char> {
        match self {
            WeaponTraits::Charged => "Aumenta la probabilidad de aplicar efectos de estado"@,
            WeaponTraits::Defending => "Aumenta la resistencia física y a hechizos"@,
            WeaponTraits::Powered => "Aumenta la curación realizada"@,
            WeaponTraits::Infused => "Aumenta el encantamiento de las armas"@,
            WeaponTraits::Nirnhoned => "Aumenta el daño del arma"@,
            WeaponTraits::Precise => "Aumenta el crítico de arma y hechizo"@,
            WeaponTraits::Sharpened => "Aumenta la penetración física y mágica"@,
            WeaponTraits::Training => "Aumenta la experiencia ganada con cada muerte"@,
            WeaponTraits::Decisive => "Aumenta la ganancia de puntos de máxima"@,
        }
    }

    /// Short human-readable description, shown beside the name in menus.
    pub fn description(&self) -> (r: String)
        ensures
            r@ == self.description_spec(),
    {
        match self {
            WeaponTraits::Charged => "Aumenta la probabilidad de aplicar efectos de estado".to_owned(),
            WeaponTraits::Defending => "Aumenta la resistencia física y a hechizos".to_owned(),
            WeaponTraits::Powered => "Aumenta la curación realizada".to_owned(),
            WeaponTraits::Infused => "Aumenta el encantamiento de las armas".to_owned(),
            WeaponTraits::Nirnhoned => "Aumenta el daño del arma".to_owned(),
            WeaponTraits::Precise => "Aumenta el crítico de arma y hechizo".to_owned(),
            WeaponTraits::Sharpened => "Aumenta la penetración física y mágica".to_owned(),
            WeaponTraits::Training => "Aumenta la experiencia ganada con cada muerte".to_owned(),
            WeaponTraits::Decisive => "Aumenta la ganancia de puntos de máxima".to_owned(),
        }
    }
}

impl MaterialCost for WeaponTraits {
    open spec fn cost_spec(&self) -> Seq<(i32, Seq<char>)> {
        match *self {
            WeaponTraits::Charged => seq![(1i32, WeaponTraitMaterials::Amethyst.name_spec())],
            WeaponTraits::Defending => seq![(1i32, WeaponTraitMaterials::Turquoise.name_spec())],
            WeaponTraits::Powered => seq![(1i32, WeaponTraitMaterials::Chysolite.name_spec())],
            WeaponTraits::Infused => seq![(1i32, WeaponTraitMaterials::Jade.name_spec())],
            WeaponTraits::Nirnhoned => seq![(1i32, WeaponTraitMaterials::PotentNirncrux.name_spec())],
            WeaponTraits::Precise => seq![(1i32, WeaponTraitMaterials::Ruby.name_spec())],
            WeaponTraits::Sharpened => seq![(1i32, WeaponTraitMaterials::FireOpal.name_spec())],
            WeaponTraits::Training => seq![(1i32, WeaponTraitMaterials::Carnelian.name_spec())],
            WeaponTraits::Decisive => seq![(1i32, WeaponTraitMaterials::Citrine.name_spec())],
        }
    }

    fn cost(&self) -> (r: Vec<(i32, String)>)
        ensures
            cost_entries_match(r@, self.cost_spec()),
    {
        match *self {
            WeaponTraits::Charged => cost_one(1, WeaponTraitMaterials::Amethyst.display_name()),
            WeaponTraits::Defending => cost_one(1, WeaponTraitMaterials::Turquoise.display_name()),
            WeaponTraits::Powered => cost_one(1, WeaponTraitMaterials::Chysolite.display_name()),
            WeaponTraits::Infused => cost_one(1, WeaponTraitMaterials::Jade.display_name()),
            WeaponTraits::Nirnhoned => cost_one(1, WeaponTraitMaterials::PotentNirncrux.display_name()),
            WeaponTraits::Precise => cost_one(1, WeaponTraitMaterials::Ruby.display_name()),
            WeaponTraits::Sharpened => cost_one(1, WeaponTraitMaterials::FireOpal.display_name()),
            WeaponTraits::Training => cost_one(1, WeaponTraitMaterials::Carnelian.display_name()),
            WeaponTraits::Decisive => cost_one(1, WeaponTraitMaterials::Citrine.display_name()),
        }
    }
}

#[derive(Clone, Copy, PartialEq, Eq, Structural, Debug)]
pub enum WeaponEnchantments {
    /// Inflige daño de llamas
    Fire,
    /// Inflige daño de escarcha
    Frost,
    /// Inflige daño de descarga eléctica
    Shock,
    /// Inflige daño de veneno
    Poison,
    /// Inflige daño de enfermedad
    Foulness,
    /// Inflige daño de Oblivion usando la salud máxima del enemigo
    DecreaseHealth,
    /// Otorga un escudo de daño que protege del daño
    Hardening,
    /// Inglige daño de magia y restablece salud
    AbsorbHealth,
    /// Inflige daño de magia y recuperas magia
    AbsorbMagicka,
    /// Inflige daño físico y recuperas aguante
    AbsorbStamina,
    /// Aumenta el daño de arma y hechizo
    WeaponDamage,
    /// Reduce el daño de arma y hechizo del objetivo
    Weakening,
    /// Reduce la resistencia física y a hechizos del objetivo
    Crushing,
    /// Inflige daño de magia y restablece salud, magia y aguante
    PrismaticOnslaught,
}

impl WeaponEnchantments {
    pub open spec fn name_spec(self) -> Seq<char> {
        match self {
            WeaponEnchantments::Fire => "Glifo de fuego"@,
            WeaponEnchantments::Frost => "Glifo de escarcha"@,
            WeaponEnchantments::Shock => "Glifo de descarga"@,
            WeaponEnchantments::Poison => "Glifo de veneno"@,
            WeaponEnchantments::Foulness => "Glifo de podredumbre"@,
            WeaponEnchantments::DecreaseHealth => "Glifo de disminución de salud"@,
            WeaponEnchantments::Hardening => "Glifo de robustez"@,
            WeaponEnchantments::AbsorbHealth => "Glifo de absorción de salud"@,
            WeaponEnchantments::AbsorbMagicka => "Glifo de absorción de magia"@,
            WeaponEnchantments::AbsorbStamina => "Glifo de absorción de aguante"@,
            WeaponEnchantments::WeaponDamage => "Glifo de daño por arma"@,
            WeaponEnchantments::Weakening => "Glifo de debilidad"@,
            WeaponEnchantments::Crushing => "Glifo de aplastamiento"@,
            WeaponEnchantments::PrismaticOnslaught => "Glifo de asalto prismático"@,
        }
    }

    /// Canonical display name in the catalog.
    pub fn display_name(&self) -> (r: String)
        ensures
            r@ == self.name_spec(),
    {
        match self {
            WeaponEnchantments::Fire => "Glifo de fuego".to_owned(),
            WeaponEnchantments::Frost => "Glifo de escarcha".to_owned(),
            WeaponEnchantments::Shock => "Glifo de descarga".to_owned(),
            WeaponEnchantments::Poison => "Glifo de veneno".to_owned(),
            WeaponEnchantments::Foulness => "Glifo de podredumbre".to_owned(),
            WeaponEnchantments::DecreaseHealth => "Glifo de disminución de salud".to_owned(),
            WeaponEnchantments::Hardening => "Glifo de robustez".to_owned(),
            WeaponEnchantments::AbsorbHealth => "Glifo de absorción de salud".to_owned(),
            WeaponEnchantments::AbsorbMagicka => "Glifo de absorción de magia".to_owned(),
            WeaponEnchantments::AbsorbStamina => "Glifo de absorción de aguante".to_owned(),
            WeaponEnchantments::WeaponDamage => "Glifo de daño por arma".to_owned(),
            WeaponEnchantments::Weakening => "Glifo de debilidad".to_owned(),
            WeaponEnchantments::Crushing => "Glifo de aplastamiento".to_owned(),
            WeaponEnchantments::PrismaticOnslaught => "Glifo de asalto prismático".to_owned(),
        }
    }

    /// Total lookup by display name; fails exactly on unknown names.
    pub fn from_name(s: &str) -> (r: Result<Self, OrderError>)
        ensures
            match r {
                Ok(v) => v.name_spec() == s@,
                Err(e) => e == OrderError::CatalogNotFound
                    && forall|v: Self| v.name_spec() != s@,
            },
    {
        if str_eq(s, "Glifo de fuego") {
            Ok(WeaponEnchantments::Fire)
        } else if str_eq(s, "Glifo de escarcha") {
            Ok(WeaponEnchantments::Frost)
        } else if str_eq(s, "Glifo de descarga") {
            Ok(WeaponEnchantments::Shock)
        } else if str_eq(s, "Glifo de veneno") {
            Ok(WeaponEnchantments::Poison)
        } else if str_eq(s, "Glifo de podredumbre") {
            Ok(WeaponEnchantments::Foulness)
        } else if str_eq(s, "Glifo de disminución de salud") {
            Ok(WeaponEnchantments::DecreaseHealth)
        } else if str_eq(s, "Glifo de robustez") {
            Ok(WeaponEnchantments::Hardening)
        } else if str_eq(s, "Glifo de absorción de salud") {
            Ok(WeaponEnchantments::AbsorbHealth)
        } else if str_eq(s, "Glifo de absorción de magia") {
            Ok(WeaponEnchantments::AbsorbMagicka)
        } else if str_eq(s, "Glifo de absorción de aguante") {
            Ok(WeaponEnchantments::AbsorbStamina)
        } else if str_eq(s, "Glifo de daño por arma") {
            Ok(WeaponEnchantments::WeaponDamage)
        } else if str_eq(s, "Glifo de debilidad") {
            Ok(WeaponEnchantments::Weakening)
        } else if str_eq(s, "Glifo de aplastamiento") {
            Ok(WeaponEnchantments::Crushing)
        } else if str_eq(s, "Glifo de asalto prismático") {
            Ok(WeaponEnchantments::PrismaticOnslaught)
        } else {
            Err(OrderError::CatalogNotFound)
        }
    }

    pub open spec fn description_spec(self) -> Seq<char> {
        match self {
            WeaponEnchantments::Fire => "Inflige daño de llamas"@,
            WeaponEnchantments::Frost => "Inflige daño de escarcha"@,
            WeaponEnchantments::Shock => "Inflige daño de descarga eléctica"@,
            WeaponEnchantments::Poison => "Inflige daño de veneno"@,
            WeaponEnchantments::Foulness => "Inflige daño de enfermedad"@,
            WeaponEnchantments::DecreaseHealth => "Inflige daño de Oblivion usando la salud máxima del enemigo"@,
            WeaponEnchantments::Hardening => "Otorga un escudo de daño que protege del daño"@,
            WeaponEnchantments::AbsorbHealth => "Inglige daño de magia y restablece salud"@,
            WeaponEnchantments::AbsorbMagicka => "Inflige daño de magia y recuperas magia"@,
            WeaponEnchantments::AbsorbStamina => "Inflige daño físico y recuperas aguante"@,
            WeaponEnchantments::WeaponDamage => "Aumenta el daño de arma y hechizo"@,
            WeaponEnchantments::Weakening => "Reduce el daño de arma y hechizo del objetivo"@,
            WeaponEnchantments::Crushing => "Reduce la resistencia física y a hechizos del objetivo"@,
            WeaponEnchantments::PrismaticOnslaught => "Inflige daño de magia y restablece salud, magia y aguante"@,
        }
    }

    /// Short human-readable description, shown beside the name in menus.
    pub fn description(&self) -> (r: String)
        ensures
            r@ == self.description_spec(),
    {
        match self {
            WeaponEnchantments::Fire => "Inflige daño de llamas".to_owned(),
            WeaponEnchantments::Frost => "Inflige daño de escarcha".to_owned(),
            WeaponEnchantments::Shock => "Inflige daño de descarga eléctica".to_owned(),
            WeaponEnchantments::Poison => "Inflige daño de veneno".to_owned(),
            WeaponEnchantments::Foulness => "Inflige daño de enfermedad".to_owned(),
            WeaponEnchantments::DecreaseHealth => "Inflige daño de Oblivion usando la salud máxima del enemigo".to_owned(),
            WeaponEnchantments::Hardening => "Otorga un escudo de daño que protege del daño".to_owned(),
            WeaponEnchantments::AbsorbHealth => "Inglige daño de magia y restablece salud".to_owned(),
            WeaponEnchantments::AbsorbMagicka => "Inflige daño de magia y recuperas magia".to_owned(),
            WeaponEnchantments::AbsorbStamina => "Inflige daño físico y recuperas aguante".to_owned(),
            WeaponEnchantments::WeaponDamage => "Aumenta el daño de arma y hechizo".to_owned(),
            WeaponEnchantments::Weakening => "Reduce el daño de arma y hechizo del objetivo".to_owned(),
            WeaponEnchantments::Crushing => "Reduce la resistencia física y a hechizos del objetivo".to_owned(),
            WeaponEnchantments::PrismaticOnslaught => "Inflige daño de magia y restablece salud, magia y aguante".to_owned(),
        }
    }
}

impl MaterialCost for WeaponEnchantments {
    open spec fn cost_spec(&self) -> Seq<(i32, Seq<char>)> {
        match *self {
            WeaponEnchantments::Fire => seq![(1i32, PotencyRunes::Repora.name_spec()), (1i32, EssenceRunes::Rakeipa.name_spec())],
            WeaponEnchantments::Frost => seq![(1i32, PotencyRunes::Repora.name_spec()), (1i32, EssenceRunes::Dekeipa.name_spec())],
            WeaponEnchantments::Shock => seq![(1i32, PotencyRunes::Repora.name_spec()), (1i32, EssenceRunes::Meip.name_spec())],
            WeaponEnchantments::Poison => seq![(1i32, PotencyRunes::Repora.name_spec()), (1i32, EssenceRunes::Kuoko.name_spec())],
            WeaponEnchantments::Foulness => seq![(1i32, PotencyRunes::Repora.name_spec()), (1i32, EssenceRunes::Haoko.name_spec())],
            WeaponEnchantments::DecreaseHealth => seq![(1i32, PotencyRunes::Itade.name_spec()), (1i32, EssenceRunes::Okoma.name_spec())],
            WeaponEnchantments::Hardening => seq![(1i32, PotencyRunes::Repora.name_spec()), (1i32, EssenceRunes::Deteri.name_spec())],
            WeaponEnchantments::AbsorbHealth => seq![(1i32, PotencyRunes::Itade.name_spec()), (1i32, EssenceRunes::Oko.name_spec())],
            WeaponEnchantments::AbsorbMagicka => seq![(1i32, PotencyRunes::Itade.name_spec()), (1i32, EssenceRunes::Makko.name_spec())],
            WeaponEnchantments::AbsorbStamina => seq![(1i32, PotencyRunes::Itade.name_spec()), (1i32, EssenceRunes::Deni.name_spec())],
            WeaponEnchantments::WeaponDamage => seq![(1i32, PotencyRunes::Repora.name_spec()), (1i32, EssenceRunes::Okori.name_spec())],
            WeaponEnchantments::Weakening => seq![(1i32, PotencyRunes::Itade.name_spec()), (1i32, EssenceRunes::Okori.name_spec())],
            WeaponEnchantments::Crushing => seq![(1i32, PotencyRunes::Itade.name_spec()), (1i32, EssenceRunes::Deteri.name_spec())],
            WeaponEnchantments::PrismaticOnslaught => seq![(1i32, PotencyRunes::Itade.name_spec()), (1i32, EssenceRunes::Hakeijo.name_spec())],
        }
    }

    fn cost(&self) -> (r: Vec<(i32, String)>)
        ensures
            cost_entries_match(r@, self.cost_spec()),
    {
        match *self {
            WeaponEnchantments::Fire => cost_two(
                1,
                PotencyRunes::Repora.display_name(),
                1,
                EssenceRunes::Rakeipa.display_name(),
            ),
            WeaponEnchantments::Frost => cost_two(
                1,
                PotencyRunes::Repora.display_name(),
                1,
                EssenceRunes::Dekeipa.display_name(),
            ),
            WeaponEnchantments::Shock => cost_two(
                1,
                PotencyRunes::Repora.display_name(),
                1,
                EssenceRunes::Meip.display_name(),
            ),
            WeaponEnchantments::Poison => cost_two(
                1,
                PotencyRunes::Repora.display_name(),
                1,
                EssenceRunes::Kuoko.display_name(),
            ),
            WeaponEnchantments::Foulness => cost_two(
                1,
                PotencyRunes::Repora.display_name(),
                1,
                EssenceRunes::Haoko.display_name(),
            ),
            WeaponEnchantments::DecreaseHealth => cost_two(
                1,
                PotencyRunes::Itade.display_name(),
                1,
                EssenceRunes::Okoma.display_name(),
            ),
            WeaponEnchantments::Hardening => cost_two(
                1,
                PotencyRunes::Repora.display_name(),
                1,
                EssenceRunes::Deteri.display_name(),
            ),
            WeaponEnchantments::AbsorbHealth => cost_two(
                1,
                PotencyRunes::Itade.display_name(),
                1,
                EssenceRunes::Oko.display_name(),
            ),
            WeaponEnchantments::AbsorbMagicka => cost_two(
                1,
                PotencyRunes::Itade.display_name(),
                1,
                EssenceRunes::Makko.display_name(),
            ),
            WeaponEnchantments::AbsorbStamina => cost_two(
                1,
                PotencyRunes::Itade.display_name(),
                1,
                EssenceRunes::Deni.display_name(),
            ),
            WeaponEnchantments::WeaponDamage => cost_two(
                1,
                PotencyRunes::Repora.display_name(),
                1,
                EssenceRunes::Okori.display_name(),
            ),
            WeaponEnchantments::Weakening => cost_two(
                1,
                PotencyRunes::Itade.display_name(),
                1,
                EssenceRunes::Okori.display_name(),
            ),
            WeaponEnchantments::Crushing => cost_two(
                1,
                PotencyRunes::Itade.display_name(),
                1,
                EssenceRunes::Deteri.display_name(),
            ),
            WeaponEnchantments::PrismaticOnslaught => cost_two(
                1,
                PotencyRunes::Itade.display_name(),
                1,
                EssenceRunes::Hakeijo.display_name(),
            ),
        }
    }
}

/// A weapon is either one-handed (eligible for dual wielding) or two-handed.
#[derive(Clone, Copy, PartialEq, Eq, Structural, Debug)]
pub enum WeaponKind {
    OneHanded(OneHandedWeapons),
    TwoHanded(TwoHandedWeapons),
}

impl WeaponKind {
    pub open spec fn name_spec(self) -> Seq<char> {
        match self {
            WeaponKind::OneHanded(w) => w.name_spec(),
            WeaponKind::TwoHanded(w) => w.name_spec(),
        }
    }

    /// Canonical display name in the catalog.
    pub fn display_name(&self) -> (r: String)
        ensures
            r@ == self.name_spec(),
    {
        match self {
            WeaponKind::OneHanded(w) => w.display_name(),
            WeaponKind::TwoHanded(w) => w.display_name(),
        }
    }

    /// Total lookup by display name, trying one-handed kinds first.
    pub fn from_name(s: &str) -> (r: Result<Self, OrderError>)
        ensures
            match r {
                Ok(v) => v.name_spec() == s@,
                Err(e) => e == OrderError::CatalogNotFound
                    && forall|v: Self| v.name_spec() != s@,
            },
    {
        if let Ok(w) = OneHandedWeapons::from_name(s) {
            Ok(WeaponKind::OneHanded(w))
        } else if let Ok(w) = TwoHandedWeapons::from_name(s) {
            Ok(WeaponKind::TwoHanded(w))
        } else {
            Err(OrderError::CatalogNotFound)
        }
    }
}

/// A fully specified weapon of an order.
#[derive(Clone, Copy, PartialEq, Eq, Debug)]
pub struct Weapon {
    pub kind: WeaponKind,
    pub weapon_trait: WeaponTraits,
    pub enchantment: Option<WeaponEnchantments>,
    pub quality: GearQuality,
}

impl MaterialCost for WeaponKind {
    open spec fn cost_spec(&self) -> Seq<(i32, Seq<char>)> {
        match *self {
            WeaponKind::OneHanded(w) => w.cost_spec(),
            WeaponKind::TwoHanded(w) => w.cost_spec(),
        }
    }

    fn cost(&self) -> (r: Vec<(i32, String)>)
        ensures
            cost_entries_match(r@, self.cost_spec()),
    {
        match self {
            WeaponKind::OneHanded(w) => w.cost(),
            WeaponKind::TwoHanded(w) => w.cost(),
        }
    }
}

/// Quality upgrade materials for a weapon: blacksmithing materials for metal
/// weapons, woodworking materials for staves and bows.
pub open spec fn weapon_quality_mats_spec(kind: WeaponKind, quality: GearQuality) -> Seq<
    (i32, Seq<char>),
> {
    match kind {
        WeaponKind::OneHanded(_) => crate::entities::blacksmith_quality_cost_spec(quality),
        WeaponKind::TwoHanded(w) => match w {
            TwoHandedWeapons::Mace | TwoHandedWeapons::Sword | TwoHandedWeapons::Axe =>
                crate::entities::blacksmith_quality_cost_spec(quality),
            _ => crate::entities::woodworking_quality_cost_spec(quality),
        },
    }
}

/// Quality upgrade materials for a weapon of the given kind.
pub fn get_quality_mats(weapon: &WeaponKind, quality: &GearQuality) -> (r: Vec<(i32, String)>)
    ensures
        cost_entries_match(r@, weapon_quality_mats_spec(*weapon, *quality)),
{
    match weapon {
        WeaponKind::OneHanded(_) => crate::entities::get_blacksmith_quality_cost(quality),
        WeaponKind::TwoHanded(w) => match w {
            TwoHandedWeapons::Mace | TwoHandedWeapons::Sword | TwoHandedWeapons::Axe =>
                crate::entities::get_blacksmith_quality_cost(quality),
            _ => crate::entities::get_woodworking_quality_cost(quality),
        },
    }
}

impl MaterialCost for Weapon {
    /// Base weapon material, then the trait gem, then (only for an enchanted
    /// weapon) the glyph runes and the quality rune, then the quality upgrade
    /// materials of the weapon's production line.
    open spec fn cost_spec(&self) -> Seq<(i32, Seq<char>)> {
        self.kind.cost_spec() + self.weapon_trait.cost_spec() + (
        match self.enchantment {
            Some(e) => e.cost_spec() + enchantment_quality_cost_spec(self.quality),
            None => Seq::empty(),
        }) + weapon_quality_mats_spec(self.kind, self.quality)
    }

    fn cost(&self) -> (r: Vec<(i32, String)>)
        ensures
            cost_entries_match(r@, self.cost_spec()),
    {
        let mut v = self.kind.cost();
        let ghost mut s = self.kind.cost_spec();
        let mut t = self.weapon_trait.cost();
        proof {
            lemma_cost_entries_match_concat(v@, s, t@, self.weapon_trait.cost_spec());
            s = s + self.weapon_trait.cost_spec();
        }
        v.append(&mut t);
        if let Some(e) = &self.enchantment {
            let mut ec = e.cost();
            proof {
                lemma_cost_entries_match_concat(v@, s, ec@, e.cost_spec());
                s = s + e.cost_spec();
            }
            v.append(&mut ec);
            let mut qr = get_enchantment_quality_cost(&self.quality);
            proof {
                lemma_cost_entries_match_concat(
                    v@,
                    s,
                    qr@,
                    enchantment_quality_cost_spec(self.quality),
                );
                s = s + enchantment_quality_cost_spec(self.quality);
            }
            v.append(&mut qr);
        }
        let mut qm = get_quality_mats(&self.kind, &self.quality);
        proof {
            lemma_cost_entries_match_concat(
                v@,
                s,
                qm@,
                weapon_quality_mats_spec(self.kind, self.quality),
            );
            s = s + weapon_quality_mats_spec(self.kind, self.quality);
            assert(s =~= self.cost_spec());
        }
        v.append(&mut qm);
        v
    }
}

} // verus!
