//! View models handed to the transport layer: select menus, buttons, text
//! inputs and embeds, plus the material cost aggregation that fills the
//! manifest embeds.

pub mod enchantments;
pub mod traits;

use vstd::prelude::*;

verus! {

use vstd::string::StringExecFns;
use crate::entities::GearQuality;
use crate::entities::MaterialCost;
use crate::entities::armour::Armour;
use crate::entities::armour::ArmourParts;
use crate::entities::armour::ArmourWeights;
use crate::entities::jewelry::Jewelries;
use crate::entities::jewelry::Jewelry;
use crate::entities::weapon::OneHandedWeapons;
use crate::entities::weapon::TwoHandedWeapons;
use crate::entities::weapon::Weapon;
use crate::entities::cost_entries_match;
use crate::entities::lemma_cost_entries_match_concat;

/// One fully resolved piece of an order.
#[derive(Clone, Copy, PartialEq, Eq, Debug)]
pub enum SetPiece {
    Weapon(Weapon),
    Armour(Armour),
    Jewelry(Jewelry),
}

impl MaterialCost for SetPiece {
    open spec fn cost_spec(&self) -> Seq<(i32, Seq<char>)> {
        match *self {
            SetPiece::Weapon(w) => w.cost_spec(),
            SetPiece::Armour(a) => a.cost_spec(),
            SetPiece::Jewelry(j) => j.cost_spec(),
        }
    }

    fn cost(&self) -> (r: Vec<(i32, String)>)
        ensures
            cost_entries_match(r@, self.cost_spec()),
    {
        match self {
            SetPiece::Weapon(w) => w.cost(),
            SetPiece::Armour(a) => a.cost(),
            SetPiece::Jewelry(j) => j.cost(),
        }
    }
}

impl SetPiece {
    /// The gear this piece was requested as.
    pub open spec fn kind_spec(&self) -> crate::entities::Gear {
        match *self {
            SetPiece::Weapon(w) => crate::entities::Gear::Weapon(w.kind),
            SetPiece::Armour(a) => crate::entities::Gear::Armour(a.kind),
            SetPiece::Jewelry(j) => crate::entities::Gear::Jewelry(j.kind),
        }
    }

    pub open spec fn quality_spec(&self) -> GearQuality {
        match *self {
            SetPiece::Weapon(w) => w.quality,
            SetPiece::Armour(a) => a.quality,
            SetPiece::Jewelry(j) => j.quality,
        }
    }

    pub open spec fn has_enchantment_spec(&self) -> bool {
        match *self {
            SetPiece::Weapon(w) => w.enchantment is Some,
            SetPiece::Armour(a) => a.enchantment is Some,
            SetPiece::Jewelry(j) => j.enchantment is Some,
        }
    }

    /// Researching a trait only needs the trait material itself.
    pub open spec fn research_cost_spec(&self) -> Seq<(i32, Seq<char>)> {
        match *self {
            SetPiece::Weapon(w) => w.weapon_trait.cost_spec(),
            SetPiece::Armour(a) => a.armour_trait.cost_spec(),
            SetPiece::Jewelry(j) => j.jewelry_trait.cost_spec(),
        }
    }

    /// Materials needed to research this piece's trait.
    pub fn research_cost(&self) -> (r: Vec<(i32, String)>)
        ensures
            cost_entries_match(r@, self.research_cost_spec()),
    {
        match self {
            SetPiece::Weapon(w) => w.weapon_trait.cost(),
            SetPiece::Armour(a) => a.armour_trait.cost(),
            SetPiece::Jewelry(j) => j.jewelry_trait.cost(),
        }
    }

    /// Display name of the piece's kind.
    pub fn kind_name(&self) -> (r: String)
        ensures
            r@ == self.kind_spec().name_spec(),
    {
        match self {
            SetPiece::Weapon(w) => w.kind.display_name(),
            SetPiece::Armour(a) => a.kind.display_name(),
            SetPiece::Jewelry(j) => j.kind.display_name(),
        }
    }
}

/// One selectable option of a select menu.
#[derive(Clone, PartialEq, Eq, Debug)]
pub struct SelectOption {
    pub value: String,
    pub label: String,
    pub description: String,
    pub emoji: String,
}

/// A select menu as the transport layer renders it.
#[derive(Clone, PartialEq, Eq, Debug)]
pub struct SelectMenu {
    pub name: String,
    pub placeholder: String,
    pub options: Vec<SelectOption>,
    pub max_values: u32,
}

/// An option shows a catalog entry when value and label carry its display
/// name and the description its catalog description.
pub open spec fn option_shows(o: SelectOption, name: Seq<char>, description: Seq<char>) -> bool {
    &&& o.value@ == name
    &&& o.label@ == name
    &&& o.description@ == description
    &&& o.emoji@ == Seq::<char>::empty()
}

pub(crate) fn opt(value: String, description: String) -> (o: SelectOption)
    ensures
        option_shows(o, value@, description@),
{
    SelectOption {
        label: value.clone(),
        value,
        description,
        emoji: String::new(),
    }
}

/// One field of an embed.
#[derive(Clone, PartialEq, Eq, Debug)]
pub struct EmbedField {
    pub name: String,
    pub value: String,
    pub inline: bool,
}

/// A rich message embed as the transport layer renders it.
#[derive(Clone, PartialEq, Eq, Debug)]
pub struct Embed {
    pub title: String,
    pub description: String,
    pub color: Option<(u8, u8, u8)>,
    pub fields: Vec<EmbedField>,
}

/// Executable embed fields match their model entry by entry.
pub open spec fn field_entries_match(v: Seq<EmbedField>, s: Seq<(Seq<char>, Seq<char>, bool)>) -> bool {
    &&& v.len() == s.len()
    &&& forall|i: int|
        0 <= i < v.len() ==> (#[trigger] v[i]).name@ == s[i].0 && v[i].value@ == s[i].1
            && v[i].inline == s[i].2
}

/// Matching field lists stay matched under concatenation.
pub proof fn lemma_field_entries_match_concat(
    v1: Seq<EmbedField>,
    s1: Seq<(Seq<char>, Seq<char>, bool)>,
    v2: Seq<EmbedField>,
    s2: Seq<(Seq<char>, Seq<char>, bool)>,
)
    requires
        field_entries_match(v1, s1),
        field_entries_match(v2, s2),
    ensures
        field_entries_match(v1 + v2, s1 + s2),
{
    assert forall|i: int| 0 <= i < (v1 + v2).len() implies (#[trigger] (v1 + v2)[i]).name@ == (s1
        + s2)[i].0 && (v1 + v2)[i].value@ == (s1 + s2)[i].1 && (v1 + v2)[i].inline == (s1
        + s2)[i].2 by {
        if i < v1.len() {
            assert(v1[i].name@ == s1[i].0 && v1[i].value@ == s1[i].1 && v1[i].inline == s1[i].2);
        } else {
            assert(v2[i - v1.len()].name@ == s2[i - s1.len()].0 && v2[i - v1.len()].value@ == s2[i
                - s1.len()].1 && v2[i - v1.len()].inline == s2[i - s1.len()].2);
        }
    }
}

pub(crate) fn field(name: String, value: String, inline: bool) -> (f: EmbedField)
    ensures
        f.name@ == name@,
        f.value@ == value@,
        f.inline == inline,
{
    EmbedField { name, value, inline }
}

/// Concatenates `text` between a prefix and a suffix.
pub(crate) fn framed(prefix: &str, text: &str, suffix: &str) -> (r: String)
    ensures
        r@ == prefix@ + text@ + suffix@,
{
    let mut s = prefix.to_owned();
    s.append(text);
    s.append(suffix);
    s
}

/// Style of a button.
#[derive(Clone, Copy, PartialEq, Eq, Structural, Debug)]
pub enum ButtonStyle {
    Primary,
    Secondary,
    Success,
    Danger,
}

/// Emoji on a button: either a plain unicode emoji or a custom one known to
/// the transport layer by numeric id.
#[derive(Clone, PartialEq, Eq, Debug)]
pub enum ButtonEmoji {
    Unicode(String),
    Custom { name: String, id: u64, animated: bool },
}

/// A button as the transport layer renders it.
#[derive(Clone, PartialEq, Eq, Debug)]
pub struct Button {
    pub custom_id: String,
    pub label: String,
    pub style: ButtonStyle,
    pub emoji: ButtonEmoji,
}

/// A row of buttons.
#[derive(Clone, PartialEq, Eq, Debug)]
pub struct ActionRow {
    pub buttons: Vec<Button>,
}

/// Style of a text input.
#[derive(Clone, Copy, PartialEq, Eq, Structural, Debug)]
pub enum InputTextStyle {
    Short,
    Paragraph,
}

/// A free-text input of a modal dialog.
#[derive(Clone, PartialEq, Eq, Debug)]
pub struct TextInput {
    pub style: InputTextStyle,
    pub label: String,
    pub name: String,
    pub placeholder: String,
}

/// Text input asking for the order's set name.
pub fn gear_set_modal(name: &str) -> (t: TextInput)
    ensures
        t.style == InputTextStyle::Short,
        t.label@ == "Nombre del Set/Conjunto"@,
        t.name@ == name@,
        t.placeholder@ == "Cólera de la orden"@,
{
    TextInput {
        style: InputTextStyle::Short,
        label: "Nombre del Set/Conjunto".to_owned(),
        name: name.to_owned(),
        placeholder: "Cólera de la orden".to_owned(),
    }
}

/// Text input asking for a free-form consumables list.
pub fn consumables_modal(name: &str) -> (t: TextInput)
    ensures
        t.style == InputTextStyle::Paragraph,
        t.label@ == "Pociones y Comida"@,
        t.name@ == name@,
        t.placeholder@ == "- Poción de poder de hechizo (x20)\n- Sopa de zanahorioa (x10)"@,
{
    TextInput {
        style: InputTextStyle::Paragraph,
        label: "Pociones y Comida".to_owned(),
        name: name.to_owned(),
        placeholder: "- Poción de poder de hechizo (x20)\n- Sopa de zanahorioa (x10)".to_owned(),
    }
}

/// Text input asking for a free-form glyph list.
pub fn enchantments_modal(name: &str) -> (t: TextInput)
    ensures
        t.style == InputTextStyle::Paragraph,
        t.label@ == "Glifos"@,
        t.name@ == name@,
        t.placeholder@ == "- Glifo Realmente Soberbio de Magia (x2)\n- Glifo Realmente Soberbio de Vida (x2)"@,
{
    TextInput {
        style: InputTextStyle::Paragraph,
        label: "Glifos".to_owned(),
        name: name.to_owned(),
        placeholder: "- Glifo Realmente Soberbio de Magia (x2)\n- Glifo Realmente Soberbio de Vida (x2)".to_owned(),
    }
}

/// The emoji is the given unicode emoji.
pub open spec fn emoji_is_unicode(e: ButtonEmoji, s: Seq<char>) -> bool {
    match e {
        ButtonEmoji::Unicode(u) => u@ == s,
        ButtonEmoji::Custom { .. } => false,
    }
}

/// Yes/no button pair. The yes button keeps the given name as its id; the no
/// button appends `_no` to it.
pub fn confirmation_row(name: &str) -> (r: ActionRow)
    ensures
        r.buttons@.len() == 2,
        r.buttons@[0].custom_id@ == name@,
        r.buttons@[0].label@ == "Si"@,
        r.buttons@[0].style == ButtonStyle::Success,
        emoji_is_unicode(r.buttons@[0].emoji, "👍"@),
        r.buttons@[1].custom_id@ == name@ + "_no"@,
        r.buttons@[1].label@ == "No"@,
        r.buttons@[1].style == ButtonStyle::Danger,
        emoji_is_unicode(r.buttons@[1].emoji, "👎"@),
{
    let mut buttons: Vec<Button> = Vec::new();
    buttons.push(
        Button {
            custom_id: name.to_owned(),
            label: "Si".to_owned(),
            style: ButtonStyle::Success,
            emoji: ButtonEmoji::Unicode("👍".to_owned()),
        },
    );
    proof {
        reveal_strlit("");
        assert(name@ + "_no"@ + ""@ =~= name@ + "_no"@);
    }
    buttons.push(
        Button {
            custom_id: framed(name, "_no", ""),
            label: "No".to_owned(),
            style: ButtonStyle::Danger,
            emoji: ButtonEmoji::Unicode("👎".to_owned()),
        },
    );
    ActionRow { buttons }
}

/// The four entry buttons of the request menu.
pub fn menu_action_row() -> (r: ActionRow)
    ensures
        r.buttons@.len() == 4,
        r.buttons@[0].custom_id@ == "Gear"@ && r.buttons@[0].label@ == "Equipamiento"@
            && r.buttons@[0].style == ButtonStyle::Primary,
        r.buttons@[1].custom_id@ == "Consumables"@ && r.buttons@[1].label@ == "Consumibles"@
            && r.buttons@[1].style == ButtonStyle::Success,
        r.buttons@[2].custom_id@ == "Enchantment"@ && r.buttons@[2].label@ == "Encantamientos"@
            && r.buttons@[2].style == ButtonStyle::Secondary,
        r.buttons@[3].custom_id@ == "GearResearch"@ && r.buttons@[3].label@ == "Investigar Rasgos"@
            && r.buttons@[3].style == ButtonStyle::Primary,
{
    let mut buttons: Vec<Button> = Vec::new();
    buttons.push(
        Button {
            custom_id: "Gear".to_owned(),
            label: "Equipamiento".to_owned(),
            style: ButtonStyle::Primary,
            emoji: ButtonEmoji::Unicode("⚔️".to_owned()),
        },
    );
    buttons.push(
        Button {
            custom_id: "Consumables".to_owned(),
            label: "Consumibles".to_owned(),
            style: ButtonStyle::Success,
            emoji: ButtonEmoji::Custom {
                name: "potion".to_owned(),
                id: 1138123617482322031,
                animated: false,
            },
        },
    );
    buttons.push(
        Button {
            custom_id: "Enchantment".to_owned(),
            label: "Encantamientos".to_owned(),
            style: ButtonStyle::Secondary,
            emoji: ButtonEmoji::Unicode("🪄".to_owned()),
        },
    );
    buttons.push(
        Button {
            custom_id: "GearResearch".to_owned(),
            label: "Investigar Rasgos".to_owned(),
            style: ButtonStyle::Primary,
            emoji: ButtonEmoji::Unicode("🔬".to_owned()),
        },
    );
    ActionRow { buttons }
}

/// Weight menu for an armour piece.
pub fn armor_weight(name: &str) -> (m: SelectMenu)
    ensures
        m.name@ == name@,
        m.placeholder@ == "Selecciona el peso de la armadura"@,
        m.max_values == 1,
        m.options@.len() == 3,
        option_shows(m.options@[0], ArmourWeights::Light.name_spec(), Seq::empty()),
        option_shows(m.options@[1], ArmourWeights::Medium.name_spec(), Seq::empty()),
        option_shows(m.options@[2], ArmourWeights::Heavy.name_spec(), Seq::empty()),
{
    let mut options: Vec<SelectOption> = Vec::new();
    options.push(opt(ArmourWeights::Light.display_name(), String::new()));
    options.push(opt(ArmourWeights::Medium.display_name(), String::new()));
    options.push(opt(ArmourWeights::Heavy.display_name(), String::new()));
    SelectMenu {
        name: name.to_owned(),
        placeholder: "Selecciona el peso de la armadura".to_owned(),
        options,
        max_values: 1,
    }
}

/// Quality menu, one option per tier with its emoji.
pub fn gear_quality(name: &str) -> (m: SelectMenu)
    ensures
        m.name@ == name@,
        m.placeholder@ == "Selecciona la calidad de la pieza"@,
        m.max_values == 1,
        m.options@.len() == 5,
        forall|i: int|
            0 <= i < 5 ==> (#[trigger] m.options@[i]).value@ == quality_list()[i].name_spec()
                && m.options@[i].label@ == quality_list()[i].name_spec() && m.options@[i].emoji@
                == quality_list()[i].emoji_spec() && m.options@[i].description@ == Seq::<
                char,
            >::empty(),
{
    let mut options: Vec<SelectOption> = Vec::new();
    options.push(quality_opt(GearQuality::White));
    options.push(quality_opt(GearQuality::Green));
    options.push(quality_opt(GearQuality::Blue));
    options.push(quality_opt(GearQuality::Purple));
    options.push(quality_opt(GearQuality::Yellow));
    SelectMenu {
        name: name.to_owned(),
        placeholder: "Selecciona la calidad de la pieza".to_owned(),
        options,
        max_values: 1,
    }
}

/// The quality tiers in menu order.
pub open spec fn quality_list() -> Seq<GearQuality> {
    seq![
        GearQuality::White,
        GearQuality::Green,
        GearQuality::Blue,
        GearQuality::Purple,
        GearQuality::Yellow,
    ]
}

fn quality_opt(q: GearQuality) -> (o: SelectOption)
    ensures
        o.value@ == q.name_spec(),
        o.label@ == q.name_spec(),
        o.emoji@ == q.emoji_spec(),
        o.description@ == Seq::<char>::empty(),
{
    let name = q.display_name();
    SelectOption {
        label: name.clone(),
        value: name,
        description: String::new(),
        emoji: q.emoji(),
    }
}

/// The gear kinds in part-selection menu order: armour parts, then jewelry,
/// then one-handed weapons, then two-handed weapons.
pub open spec fn gear_menu_list() -> Seq<crate::entities::Gear> {
    seq![
        crate::entities::Gear::Armour(ArmourParts::Head),
        crate::entities::Gear::Armour(ArmourParts::Shoulder),
        crate::entities::Gear::Armour(ArmourParts::Body),
        crate::entities::Gear::Armour(ArmourParts::Hands),
        crate::entities::Gear::Armour(ArmourParts::Waist),
        crate::entities::Gear::Armour(ArmourParts::Legs),
        crate::entities::Gear::Armour(ArmourParts::Feet),
        crate::entities::Gear::Armour(ArmourParts::Shield),
        crate::entities::Gear::Jewelry(Jewelries::Necklace),
        crate::entities::Gear::Jewelry(Jewelries::Ring),
        crate::entities::Gear::Weapon(
            crate::entities::weapon::WeaponKind::OneHanded(OneHandedWeapons::Mace),
        ),
        crate::entities::Gear::Weapon(
            crate::entities::weapon::WeaponKind::OneHanded(OneHandedWeapons::Dagger),
        ),
        crate::entities::Gear::Weapon(
            crate::entities::weapon::WeaponKind::OneHanded(OneHandedWeapons::Sword),
        ),
        crate::entities::Gear::Weapon(
            crate::entities::weapon::WeaponKind::OneHanded(OneHandedWeapons::Axe),
        ),
        crate::entities::Gear::Weapon(
            crate::entities::weapon::WeaponKind::TwoHanded(TwoHandedWeapons::Mace),
        ),
        crate::entities::Gear::Weapon(
            crate::entities::weapon::WeaponKind::TwoHanded(TwoHandedWeapons::Sword),
        ),
        crate::entities::Gear::Weapon(
            crate::entities::weapon::WeaponKind::TwoHanded(TwoHandedWeapons::Axe),
        ),
        crate::entities::Gear::Weapon(
            crate::entities::weapon::WeaponKind::TwoHanded(TwoHandedWeapons::FrostStaff),
        ),
        crate::entities::Gear::Weapon(
            crate::entities::weapon::WeaponKind::TwoHanded(TwoHandedWeapons::FireStaff),
        ),
        crate::entities::Gear::Weapon(
            crate::entities::weapon::WeaponKind::TwoHanded(TwoHandedWeapons::LightningStaff),
        ),
        crate::entities::Gear::Weapon(
            crate::entities::weapon::WeaponKind::TwoHanded(TwoHandedWeapons::RestorationStaff),
        ),
        crate::entities::Gear::Weapon(
            crate::entities::weapon::WeaponKind::TwoHanded(TwoHandedWeapons::Bow),
        ),
    ]
}

/// Description shown beside a gear kind in the part-selection menu: armour
/// parts carry none, jewelry and weapons their catalog description.
pub open spec fn gear_menu_description_spec(g: crate::entities::Gear) -> Seq<char> {
    match g {
        crate::entities::Gear::Armour(_) => Seq::empty(),
        crate::entities::Gear::Jewelry(j) => j.description_spec(),
        crate::entities::Gear::Weapon(crate::entities::weapon::WeaponKind::OneHanded(w)) =>
            w.description_spec(),
        crate::entities::Gear::Weapon(crate::entities::weapon::WeaponKind::TwoHanded(w)) =>
            w.description_spec(),
    }
}

/// Multi-select of the gear parts of a set, up to twelve at a time.
pub fn gear_set_parts(name: &str) -> (m: SelectMenu)
    ensures
        m.name@ == name@,
        m.placeholder@ == "Selecciona las partes del set que quieres"@,
        m.max_values == 12,
        m.options@.len() == gear_menu_list().len(),
        forall|i: int|
            0 <= i < gear_menu_list().len() ==> option_shows(
                #[trigger] m.options@[i],
                gear_menu_list()[i].name_spec(),
                gear_menu_description_spec(gear_menu_list()[i]),
            ),
{
    let mut options: Vec<SelectOption> = Vec::new();
    options.push(opt(ArmourParts::Head.display_name(), String::new()));
    options.push(opt(ArmourParts::Shoulder.display_name(), String::new()));
    options.push(opt(ArmourParts::Body.display_name(), String::new()));
    options.push(opt(ArmourParts::Hands.display_name(), String::new()));
    options.push(opt(ArmourParts::Waist.display_name(), String::new()));
    options.push(opt(ArmourParts::Legs.display_name(), String::new()));
    options.push(opt(ArmourParts::Feet.display_name(), String::new()));
    options.push(opt(ArmourParts::Shield.display_name(), String::new()));
    options.push(opt(Jewelries::Necklace.display_name(), Jewelries::Necklace.description()));
    options.push(opt(Jewelries::Ring.display_name(), Jewelries::Ring.description()));
    options.push(
        opt(OneHandedWeapons::Mace.display_name(), OneHandedWeapons::Mace.description()),
    );
    options.push(
        opt(OneHandedWeapons::Dagger.display_name(), OneHandedWeapons::Dagger.description()),
    );
    options.push(
        opt(OneHandedWeapons::Sword.display_name(), OneHandedWeapons::Sword.description()),
    );
    options.push(opt(OneHandedWeapons::Axe.display_name(), OneHandedWeapons::Axe.description()));
    options.push(opt(TwoHandedWeapons::Mace.display_name(), TwoHandedWeapons::Mace.description()));
    options.push(
        opt(TwoHandedWeapons::Sword.display_name(), TwoHandedWeapons::Sword.description()),
    );
    options.push(opt(TwoHandedWeapons::Axe.display_name(), TwoHandedWeapons::Axe.description()));
    options.push(
        opt(
            TwoHandedWeapons::FrostStaff.display_name(),
            TwoHandedWeapons::FrostStaff.description(),
        ),
    );
    options.push(
        opt(TwoHandedWeapons::FireStaff.display_name(), TwoHandedWeapons::FireStaff.description()),
    );
    options.push(
        opt(
            TwoHandedWeapons::LightningStaff.display_name(),
            TwoHandedWeapons::LightningStaff.description(),
        ),
    );
    options.push(
        opt(
            TwoHandedWeapons::RestorationStaff.display_name(),
            TwoHandedWeapons::RestorationStaff.description(),
        ),
    );
    options.push(opt(TwoHandedWeapons::Bow.display_name(), TwoHandedWeapons::Bow.description()));
    SelectMenu {
        name: name.to_owned(),
        placeholder: "Selecciona las partes del set que quieres".to_owned(),
        options,
        max_values: 12,
    }
}

/// Title card shown when a gear order starts.
pub fn gear_set_embed(set: &str) -> (e: Embed)
    ensures
        e.title@ == "🛡️ "@ + set@ + " 🛡️"@,
        e.description@ == "Configura el equipo que deseas con las opciones"@,
        e.color is None,
        e.fields@.len() == 0,
{
    Embed {
        title: framed("🛡️ ", set, " 🛡️"),
        description: "Configura el equipo que deseas con las opciones".to_owned(),
        color: None,
        fields: Vec::new(),
    }
}

/// Concatenation of `f` over a sequence.
pub open spec fn concat_over<A, B>(s: Seq<A>, f: spec_fn(A) -> Seq<B>) -> Seq<B>
    decreases s.len(),
{
    if s.len() == 0 {
        Seq::empty()
    } else {
        f(s.first()) + concat_over(s.drop_first(), f)
    }
}

pub proof fn lemma_concat_over_snoc<A, B>(s: Seq<A>, f: spec_fn(A) -> Seq<B>)
    requires
        s.len() > 0,
    ensures
        concat_over(s, f) == concat_over(s.drop_last(), f) + f(s.last()),
    decreases s.len(),
{
    if s.len() == 1 {
        assert(s.drop_last() =~= Seq::<A>::empty());
        assert(s.drop_first() =~= Seq::<A>::empty());
        assert(concat_over(s, f) =~= concat_over(s.drop_last(), f) + f(s.last()));
    } else {
        lemma_concat_over_snoc(s.drop_first(), f);
        assert(s.drop_first().drop_last() =~= s.drop_last().drop_first());
        assert(s.drop_first().last() == s.last());
        assert(s.drop_last().first() == s.first());
        assert((f(s.first()) + concat_over(s.drop_first().drop_last(), f)) + f(s.last()) =~= f(
            s.first(),
        ) + (concat_over(s.drop_first().drop_last(), f) + f(s.last())));
        assert(concat_over(s, f) =~= concat_over(s.drop_last(), f) + f(s.last()));
    }
}

pub proof fn lemma_concat_over_take_step<A, B>(s: Seq<A>, i: int, f: spec_fn(A) -> Seq<B>)
    requires
        0 <= i < s.len(),
    ensures
        concat_over(s.take(i + 1), f) == concat_over(s.take(i), f) + f(s[i]),
{
    lemma_concat_over_snoc(s.take(i + 1), f);
    assert(s.take(i + 1).drop_last() =~= s.take(i));
    assert(s.take(i + 1).last() == s[i]);
}

/// The attribute fields of one piece: weight for armour, the trait, the
/// quality, and the enchantment when present.
pub open spec fn piece_detail_fields_spec(p: SetPiece, ench_inline: bool) -> Seq<
    (Seq<char>, Seq<char>, bool),
> {
    match p {
        SetPiece::Weapon(w) => seq![
            ("Rasgo"@, w.weapon_trait.name_spec(), true),
            ("Calidad"@, w.quality.name_spec(), true),
        ] + (match w.enchantment {
            Some(e) => seq![("Encantamiento"@, e.name_spec(), ench_inline)],
            None => Seq::empty(),
        }),
        SetPiece::Armour(a) => seq![
            ("Peso"@, a.weight.name_spec(), true),
            ("Rasgo"@, a.armour_trait.name_spec(), true),
            ("Calidad"@, a.quality.name_spec(), true),
        ] + (match a.enchantment {
            Some(e) => seq![("Encantamiento"@, e.name_spec(), ench_inline)],
            None => Seq::empty(),
        }),
        SetPiece::Jewelry(j) => seq![
            ("Rasgo"@, j.jewelry_trait.name_spec(), true),
            ("Calidad"@, j.quality.name_spec(), true),
        ] + (match j.enchantment {
            Some(e) => seq![("Encantamiento"@, e.name_spec(), ench_inline)],
            None => Seq::empty(),
        }),
    }
}

fn piece_detail_fields(part: &SetPiece, ench_inline: bool) -> (v: Vec<EmbedField>)
    ensures
        field_entries_match(v@, piece_detail_fields_spec(*part, ench_inline)),
{
    let mut v: Vec<EmbedField> = Vec::new();
    match part {
        SetPiece::Weapon(w) => {
            v.push(field("Rasgo".to_owned(), w.weapon_trait.display_name(), true));
            v.push(field("Calidad".to_owned(), w.quality.display_name(), true));
            if let Some(e) = &w.enchantment {
                v.push(field("Encantamiento".to_owned(), e.display_name(), ench_inline));
            }
        },
        SetPiece::Armour(a) => {
            v.push(field("Peso".to_owned(), a.weight.display_name(), true));
            v.push(field("Rasgo".to_owned(), a.armour_trait.display_name(), true));
            v.push(field("Calidad".to_owned(), a.quality.display_name(), true));
            if let Some(e) = &a.enchantment {
                v.push(field("Encantamiento".to_owned(), e.display_name(), ench_inline));
            }
        },
        SetPiece::Jewelry(j) => {
            v.push(field("Rasgo".to_owned(), j.jewelry_trait.display_name(), true));
            v.push(field("Calidad".to_owned(), j.quality.display_name(), true));
            if let Some(e) = &j.enchantment {
                v.push(field("Encantamiento".to_owned(), e.display_name(), ench_inline));
            }
        },
    }
    v
}

/// One piece as a run of fields in a multi-piece embed: a header field with
/// the kind's name, then the attribute fields.
pub open spec fn piece_summary_fields_spec(p: SetPiece, ench_inline: bool) -> Seq<
    (Seq<char>, Seq<char>, bool),
> {
    seq![(p.kind_spec().name_spec(), Seq::<char>::empty(), false)] + piece_detail_fields_spec(
        p,
        ench_inline,
    )
}

fn piece_summary_fields(part: &SetPiece, ench_inline: bool) -> (v: Vec<EmbedField>)
    ensures
        field_entries_match(v@, piece_summary_fields_spec(*part, ench_inline)),
{
    let mut v: Vec<EmbedField> = Vec::new();
    v.push(field(part.kind_name(), String::new(), false));
    let mut details = piece_detail_fields(part, ench_inline);
    proof {
        lemma_field_entries_match_concat(
            v@,
            seq![(part.kind_spec().name_spec(), Seq::<char>::empty(), false)],
            details@,
            piece_detail_fields_spec(*part, ench_inline),
        );
    }
    v.append(&mut details);
    v
}

/// One piece as a run of fields in the research recap: a header field with
/// the kind's name, the weight for armour, and the trait.
pub open spec fn research_fields_spec(p: SetPiece) -> Seq<(Seq<char>, Seq<char>, bool)> {
    seq![(p.kind_spec().name_spec(), Seq::<char>::empty(), false)] + (match p {
        SetPiece::Weapon(w) => seq![(":hourglass: Rasgo"@, w.weapon_trait.name_spec(), true)],
        SetPiece::Armour(a) => seq![
            (":lifter: Peso"@, a.weight.name_spec(), true),
            (":hourglass: Rasgo"@, a.armour_trait.name_spec(), true),
        ],
        SetPiece::Jewelry(j) => seq![(":hourglass: Rasgo"@, j.jewelry_trait.name_spec(), true)],
    })
}

fn research_fields(part: &SetPiece) -> (v: Vec<EmbedField>)
    ensures
        field_entries_match(v@, research_fields_spec(*part)),
{
    let mut v: Vec<EmbedField> = Vec::new();
    v.push(field(part.kind_name(), String::new(), false));
    match part {
        SetPiece::Weapon(w) => {
            v.push(field(":hourglass: Rasgo".to_owned(), w.weapon_trait.display_name(), true));
        },
        SetPiece::Armour(a) => {
            v.push(field(":lifter: Peso".to_owned(), a.weight.display_name(), true));
            v.push(field(":hourglass: Rasgo".to_owned(), a.armour_trait.display_name(), true));
        },
        SetPiece::Jewelry(j) => {
            v.push(field(":hourglass: Rasgo".to_owned(), j.jewelry_trait.display_name(), true));
        },
    }
    v
}

/// Embed showing one freshly resolved piece, kind in the title.
pub fn gear_piece_embed(part: &SetPiece) -> (e: Embed)
    ensures
        e.title@ == "🛠️ "@ + part.kind_spec().name_spec() + " 🛠️"@,
        e.description@ == Seq::<char>::empty(),
        e.color is None,
        field_entries_match(e.fields@, piece_detail_fields_spec(*part, true)),
{
    let name = part.kind_name();
    Embed {
        title: framed("🛠️ ", name.as_str(), " 🛠️"),
        description: String::new(),
        color: None,
        fields: piece_detail_fields(part, true),
    }
}

fn pieces_fields(set: &Vec<SetPiece>, ench_inline: bool) -> (fields: Vec<EmbedField>)
    ensures
        field_entries_match(
            fields@,
            concat_over(set@, |p: SetPiece| piece_summary_fields_spec(p, ench_inline)),
        ),
{
    let ghost f = |p: SetPiece| piece_summary_fields_spec(p, ench_inline);
    let mut fields: Vec<EmbedField> = Vec::new();
    let mut i: usize = 0;
    while i < set.len()
        invariant
            i <= set@.len(),
            field_entries_match(fields@, concat_over(set@.take(i as int), f)),
            f == (|p: SetPiece| piece_summary_fields_spec(p, ench_inline)),
        decreases set@.len() - i,
    {
        let mut fs = piece_summary_fields(&set[i], ench_inline);
        proof {
            lemma_concat_over_take_step(set@, i as int, f);
            lemma_field_entries_match_concat(
                fields@,
                concat_over(set@.take(i as int), f),
                fs@,
                f(set@[i as int]),
            );
        }
        fields.append(&mut fs);
        i = i + 1;
    }
    proof {
        assert(set@.take(set@.len() as int) =~= set@);
    }
    fields
}

/// Recap of a finalized order: every piece with all resolved attributes.
pub fn gear_result_embed(set: &Vec<SetPiece>, name: &str) -> (e: Embed)
    ensures
        e.title@ == "🛠️ "@ + name@ + " 🛠️"@,
        e.description@ == Seq::<char>::empty(),
        e.color is None,
        field_entries_match(
            e.fields@,
            concat_over(set@, |p: SetPiece| piece_summary_fields_spec(p, true)),
        ),
{
    Embed {
        title: framed("🛠️ ", name, " 🛠️"),
        description: String::new(),
        color: None,
        fields: pieces_fields(set, true),
    }
}

/// Announcement card of a placed order: every piece with all resolved
/// attributes, enchantments on their own line.
pub fn gear_set_piece_embed(set: &str, pieces: &Vec<SetPiece>) -> (e: Embed)
    ensures
        e.title@ == "🛠️ "@ + set@ + " 🛠️"@,
        e.description@ == Seq::<char>::empty(),
        e.color == Some((127u8, 255u8, 0u8)),
        field_entries_match(
            e.fields@,
            concat_over(pieces@, |p: SetPiece| piece_summary_fields_spec(p, false)),
        ),
{
    Embed {
        title: framed("🛠️ ", set, " 🛠️"),
        description: String::new(),
        color: Some((127, 255, 0)),
        fields: pieces_fields(pieces, false),
    }
}

/// Announcement card of a research order: each piece's kind, weight for
/// armour, and trait.
pub fn gear_research_piece_embed(pieces: &Vec<SetPiece>) -> (e: Embed)
    ensures
        e.title@ == "🛠️ Investigación 🛠️"@,
        e.description@ == Seq::<char>::empty(),
        e.color == Some((127u8, 255u8, 0u8)),
        field_entries_match(e.fields@, concat_over(pieces@, |p: SetPiece| research_fields_spec(p))),
{
    let ghost f = |p: SetPiece| research_fields_spec(p);
    let mut fields: Vec<EmbedField> = Vec::new();
    let mut i: usize = 0;
    while i < pieces.len()
        invariant
            i <= pieces@.len(),
            field_entries_match(fields@, concat_over(pieces@.take(i as int), f)),
            f == (|p: SetPiece| research_fields_spec(p)),
        decreases pieces@.len() - i,
    {
        let mut fs = research_fields(&pieces[i]);
        proof {
            lemma_concat_over_take_step(pieces@, i as int, f);
            lemma_field_entries_match_concat(
                fields@,
                concat_over(pieces@.take(i as int), f),
                fs@,
                f(pieces@[i as int]),
            );
        }
        fields.append(&mut fs);
        i = i + 1;
    }
    proof {
        assert(pieces@.take(pieces@.len() as int) =~= pieces@);
    }
    Embed {
        title: "🛠️ Investigación 🛠️".to_owned(),
        description: String::new(),
        color: Some((127, 255, 0)),
        fields,
    }
}

/// The view of an executable cost list: quantities with material names as
/// character sequences.
pub open spec fn views_of(v: Seq<(i32, String)>) -> Seq<(i32, Seq<char>)> {
    v.map_values(|p: (i32, String)| (p.0, p.1@))
}

/// What one cost entry contributes to the total of material `m`.
pub open spec fn entry_qty(e: (i32, Seq<char>), m: Seq<char>) -> int {
    if e.1 == m {
        e.0 as int
    } else {
        0
    }
}

/// Total quantity of material `m` over a cost list.
pub open spec fn total_qty(entries: Seq<(i32, Seq<char>)>, m: Seq<char>) -> int
    decreases entries.len(),
{
    if entries.len() == 0 {
        0
    } else {
        entry_qty(entries.first(), m) + total_qty(entries.drop_first(), m)
    }
}

/// The cost list names material `m` somewhere.
pub open spec fn mentions(entries: Seq<(i32, Seq<char>)>, m: Seq<char>) -> bool {
    exists|i: int| 0 <= i < entries.len() && entries[i].1 == m
}

pub proof fn lemma_total_qty_snoc(entries: Seq<(i32, Seq<char>)>, m: Seq<char>)
    requires
        entries.len() > 0,
    ensures
        total_qty(entries, m) == total_qty(entries.drop_last(), m) + entry_qty(entries.last(), m),
    decreases entries.len(),
{
    if entries.len() == 1 {
        assert(entries.drop_last() =~= Seq::<(i32, Seq<char>)>::empty());
        assert(entries.drop_first() =~= Seq::<(i32, Seq<char>)>::empty());
    } else {
        lemma_total_qty_snoc(entries.drop_first(), m);
        assert(entries.drop_first().drop_last() =~= entries.drop_last().drop_first());
        assert(entries.drop_first().last() == entries.last());
        assert(entries.drop_last().first() == entries.first());
    }
}

pub proof fn lemma_total_qty_take_step(entries: Seq<(i32, Seq<char>)>, i: int, m: Seq<char>)
    requires
        0 <= i < entries.len(),
    ensures
        total_qty(entries.take(i + 1), m) == total_qty(entries.take(i), m) + entry_qty(
            entries[i],
            m,
        ),
{
    lemma_total_qty_snoc(entries.take(i + 1), m);
    assert(entries.take(i + 1).drop_last() =~= entries.take(i));
    assert(entries.take(i + 1).last() == entries[i]);
}

pub proof fn lemma_total_qty_concat(a: Seq<(i32, Seq<char>)>, b: Seq<(i32, Seq<char>)>, m: Seq<char>)
    ensures
        total_qty(a + b, m) == total_qty(a, m) + total_qty(b, m),
    decreases a.len(),
{
    if a.len() == 0 {
        assert(a + b =~= b);
    } else {
        lemma_total_qty_concat(a.drop_first(), b, m);
        assert((a + b).drop_first() =~= a.drop_first() + b);
        assert((a + b).first() == a.first());
    }
}

/// A material no entry names totals zero.
pub proof fn lemma_total_qty_absent(entries: Seq<(i32, Seq<char>)>, m: Seq<char>)
    requires
        !mentions(entries, m),
    ensures
        total_qty(entries, m) == 0,
    decreases entries.len(),
{
    if entries.len() > 0 {
        assert(entries[0].1 != m);
        assert forall|i: int| 0 <= i < entries.drop_first().len() implies entries.drop_first()[i].1
            != m by {
            assert(entries.drop_first()[i] == entries[i + 1]);
        }
        lemma_total_qty_absent(entries.drop_first(), m);
    }
}

pub proof fn lemma_total_qty_bounded(entries: Seq<(i32, Seq<char>)>, m: Seq<char>)
    ensures
        -(entries.len() * 0x8000_0000) <= total_qty(entries, m) <= entries.len() * 0x8000_0000,
    decreases entries.len(),
{
    if entries.len() > 0 {
        lemma_total_qty_bounded(entries.drop_first(), m);
        assert(-0x8000_0000 <= entry_qty(entries.first(), m) <= 0x8000_0000);
    }
}

pub proof fn lemma_mentions_take_step(entries: Seq<(i32, Seq<char>)>, i: int, m: Seq<char>)
    requires
        0 <= i < entries.len(),
    ensures
        mentions(entries.take(i + 1), m) <==> (mentions(entries.take(i), m) || entries[i].1 == m),
{
    let pre = entries.take(i);
    let post = entries.take(i + 1);
    if mentions(pre, m) {
        let k = choose|k: int| 0 <= k < pre.len() && pre[k].1 == m;
        assert(post[k].1 == m);
        assert(mentions(post, m));
    }
    if entries[i].1 == m {
        assert(post[i].1 == m);
        assert(mentions(post, m));
    }
    if mentions(post, m) {
        let k = choose|k: int| 0 <= k < post.len() && post[k].1 == m;
        if k < i {
            assert(pre[k].1 == m);
            assert(mentions(pre, m));
        } else {
            assert(entries[i].1 == m);
        }
    }
}

/// An aggregated manifest matches a cost list when its keys are exactly the
/// materials the list mentions, each key appears once, and each quantity is
/// that material's total over the list.
pub open spec fn manifest_matches(r: Seq<(i64, String)>, entries: Seq<(i32, Seq<char>)>) -> bool {
    &&& forall|j: int| 0 <= j < r.len() ==> (#[trigger] r[j]).0 == total_qty(entries, r[j].1@)
    &&& forall|j: int, k: int|
        0 <= j < k < r.len() ==> (#[trigger] r[j]).1@ != (#[trigger] r[k]).1@
    &&& forall|j: int| 0 <= j < r.len() ==> mentions(entries, (#[trigger] r[j]).1@)
    &&& forall|m: Seq<char>|
        #[trigger] mentions(entries, m) ==> exists|j: int| 0 <= j < r.len() && r[j].1@ == m
}

/// Groups a cost list by material name, summing the quantities: the material
/// manifest, one entry per distinct material.
pub fn aggregate_cost(cost: &Vec<(i32, String)>) -> (r: Vec<(i64, String)>)
    requires
        cost@.len() <= 0x0400_0000,
    ensures
        manifest_matches(r@, views_of(cost@)),
{
    let ghost entries = views_of(cost@);
    let mut r: Vec<(i64, String)> = Vec::new();
    let mut i: usize = 0;
    while i < cost.len()
        invariant
            i <= cost@.len(),
            cost@.len() <= 0x0400_0000,
            entries == views_of(cost@),
            manifest_matches(r@, entries.take(i as int)),
        decreases cost@.len() - i,
    {
        let ghost pre = entries.take(i as int);
        let ghost post = entries.take(i as int + 1);
        let ghost name = cost@[i as int].1@;
        let q = cost[i].0;
        proof {
            assert(entries[i as int] == (cost@[i as int].0, cost@[i as int].1@));
            assert(entries[i as int].1 == name);
            assert(entry_qty(entries[i as int], name) == q as int);
        }
        let mut j: usize = 0;
        let mut found = false;
        while j < r.len() && !found
            invariant
                j <= r@.len(),
                !found ==> forall|k: int| 0 <= k < j ==> (#[trigger] r@[k]).1@ != name,
                found ==> j < r@.len() && r@[j as int].1@ == name,
                i < cost@.len(),
                name == cost@[i as int].1@,
            decreases r@.len() - j + (if found { 0int } else { 1int }),
        {
            if r[j].1 == cost[i].1 {
                found = true;
            } else {
                j = j + 1;
            }
        }
        let ghost r0 = r@;
        if found {
            proof {
                lemma_total_qty_bounded(pre, name);
                assert(r0[j as int].0 == total_qty(pre, name));
            }
            let cur = r[j].0;
            r[j].0 = cur + (q as i64);
            proof {
                assert(r@ =~= r0.update(j as int, ((cur + q as i64) as i64, r0[j as int].1)));
                assert forall|jj: int| 0 <= jj < r@.len() implies (#[trigger] r@[jj]).0
                    == total_qty(post, r@[jj].1@) by {
                    lemma_total_qty_take_step(entries, i as int, r@[jj].1@);
                    if jj != j as int {
                        assert(r@[jj] == r0[jj]);
                        assert(r0[jj].1@ != name);
                        assert(entry_qty(entries[i as int], r@[jj].1@) == 0);
                    }
                }
                assert forall|jj: int| 0 <= jj < r@.len() implies mentions(
                    post,
                    (#[trigger] r@[jj]).1@,
                ) by {
                    lemma_mentions_take_step(entries, i as int, r@[jj].1@);
                    assert(r@[jj].1@ == r0[jj].1@);
                }
                assert forall|m: Seq<char>| #[trigger] mentions(post, m) implies exists|jj: int|
                    0 <= jj < r@.len() && r@[jj].1@ == m by {
                    lemma_mentions_take_step(entries, i as int, m);
                    if mentions(pre, m) {
                        let w = choose|w: int| 0 <= w < r0.len() && r0[w].1@ == m;
                        assert(r@[w].1@ == m);
                    } else {
                        assert(m == name);
                        assert(r@[j as int].1@ == m);
                    }
                }
            }
        } else {
            proof {
                if mentions(pre, name) {
                    let w = choose|w: int| 0 <= w < r0.len() && r0[w].1@ == name;
                    assert(false);
                }
                lemma_total_qty_absent(pre, name);
            }
            let name_owned = cost[i].1.clone();
            r.push((q as i64, name_owned));
            proof {
                assert(r@ =~= r0.push((q as i64, cost@[i as int].1)));
                assert forall|jj: int| 0 <= jj < r@.len() implies (#[trigger] r@[jj]).0
                    == total_qty(post, r@[jj].1@) by {
                    lemma_total_qty_take_step(entries, i as int, r@[jj].1@);
                    if jj < r0.len() {
                        assert(r@[jj] == r0[jj]);
                        assert(r0[jj].1@ != name);
                        assert(entry_qty(entries[i as int], r@[jj].1@) == 0);
                    } else {
                        assert(r@[jj].1@ == name);
                        assert(total_qty(pre, name) == 0);
                    }
                }
                assert forall|jj: int| 0 <= jj < r@.len() implies mentions(
                    post,
                    (#[trigger] r@[jj]).1@,
                ) by {
                    lemma_mentions_take_step(entries, i as int, r@[jj].1@);
                    if jj < r0.len() {
                        assert(r@[jj].1@ == r0[jj].1@);
                    } else {
                        assert(r@[jj].1@ == name);
                    }
                }
                assert forall|m: Seq<char>| #[trigger] mentions(post, m) implies exists|jj: int|
                    0 <= jj < r@.len() && r@[jj].1@ == m by {
                    lemma_mentions_take_step(entries, i as int, m);
                    if mentions(pre, m) {
                        let w = choose|w: int| 0 <= w < r0.len() && r0[w].1@ == m;
                        assert(r@[w].1@ == m);
                    } else {
                        assert(m == name);
                        assert(r@[r@.len() - 1].1@ == m);
                    }
                }
            }
        }
        i = i + 1;
    }
    proof {
        assert(entries.take(entries.len() as int) =~= entries);
    }
    r
}

/// The decimal digit characters.
pub open spec fn dec_digit_char(d: int) -> char {
    if d == 0 {
        '0'
    } else if d == 1 {
        '1'
    } else if d == 2 {
        '2'
    } else if d == 3 {
        '3'
    } else if d == 4 {
        '4'
    } else if d == 5 {
        '5'
    } else if d == 6 {
        '6'
    } else if d == 7 {
        '7'
    } else if d == 8 {
        '8'
    } else {
        '9'
    }
}

/// Decimal rendering of a non-negative integer.
pub open spec fn dec_str(n: int) -> Seq<char>
    recommends
        n >= 0,
    decreases n,
{
    if n < 10 {
        seq![dec_digit_char(n)]
    } else {
        dec_str(n / 10).push(dec_digit_char(n % 10))
    }
}

/// Decimal rendering of an integer, with a leading minus when negative.
pub open spec fn int_str(n: int) -> Seq<char> {
    if n < 0 {
        seq!['-'] + dec_str(-n)
    } else {
        dec_str(n)
    }
}

fn digit_string(d: u64) -> (s: String)
    requires
        d < 10,
    ensures
        s@ == seq![dec_digit_char(d as int)],
{
    let s: String = if d == 0 {
        "0".to_owned()
    } else if d == 1 {
        "1".to_owned()
    } else if d == 2 {
        "2".to_owned()
    } else if d == 3 {
        "3".to_owned()
    } else if d == 4 {
        "4".to_owned()
    } else if d == 5 {
        "5".to_owned()
    } else if d == 6 {
        "6".to_owned()
    } else if d == 7 {
        "7".to_owned()
    } else if d == 8 {
        "8".to_owned()
    } else {
        "9".to_owned()
    };
    proof {
        reveal_strlit("0");
        reveal_strlit("1");
        reveal_strlit("2");
        reveal_strlit("3");
        reveal_strlit("4");
        reveal_strlit("5");
        reveal_strlit("6");
        reveal_strlit("7");
        reveal_strlit("8");
        reveal_strlit("9");
        assert(s@ =~= seq![dec_digit_char(d as int)]);
    }
    s
}

fn u64_dec_string(n: u64) -> (s: String)
    ensures
        s@ == dec_str(n as int),
    decreases n,
{
    if n < 10 {
        digit_string(n)
    } else {
        let mut s = u64_dec_string(n / 10);
        let d = digit_string(n % 10);
        s.append(d.as_str());
        proof {
            assert(s@ =~= dec_str(n as int / 10).push(dec_digit_char(n as int % 10)));
        }
        s
    }
}

/// Decimal rendering of a quantity.
pub fn int_to_string(n: i64) -> (s: String)
    requires
        n > i64::MIN,
    ensures
        s@ == int_str(n as int),
{
    if n < 0 {
        let mut s = "-".to_owned();
        let d = u64_dec_string((-n) as u64);
        s.append(d.as_str());
        proof {
            reveal_strlit("-");
            assert(s@ =~= seq!['-'] + dec_str(-(n as int)));
        }
        s
    } else {
        u64_dec_string(n as u64)
    }
}

/// The concatenated crafting cost entries of a list of pieces.
pub open spec fn crafting_entries(ps: Seq<SetPiece>) -> Seq<(i32, Seq<char>)>
    decreases ps.len(),
{
    if ps.len() == 0 {
        Seq::empty()
    } else {
        ps.first().cost_spec() + crafting_entries(ps.drop_first())
    }
}

/// The concatenated research cost entries of a list of pieces.
pub open spec fn research_entries(ps: Seq<SetPiece>) -> Seq<(i32, Seq<char>)>
    decreases ps.len(),
{
    if ps.len() == 0 {
        Seq::empty()
    } else {
        ps.first().research_cost_spec() + research_entries(ps.drop_first())
    }
}

/// Total crafting quantity of material `m` over a list of pieces.
pub open spec fn crafting_total(ps: Seq<SetPiece>, m: Seq<char>) -> int
    decreases ps.len(),
{
    if ps.len() == 0 {
        0
    } else {
        total_qty(ps.first().cost_spec(), m) + crafting_total(ps.drop_first(), m)
    }
}

/// Total research quantity of material `m` over a list of pieces.
pub open spec fn research_total(ps: Seq<SetPiece>, m: Seq<char>) -> int
    decreases ps.len(),
{
    if ps.len() == 0 {
        0
    } else {
        total_qty(ps.first().research_cost_spec(), m) + research_total(ps.drop_first(), m)
    }
}

/// The flat entry list and the per-piece sum agree on every material.
pub proof fn lemma_crafting_entries_total(ps: Seq<SetPiece>, m: Seq<char>)
    ensures
        total_qty(crafting_entries(ps), m) == crafting_total(ps, m),
    decreases ps.len(),
{
    if ps.len() > 0 {
        lemma_total_qty_concat(ps.first().cost_spec(), crafting_entries(ps.drop_first()), m);
        lemma_crafting_entries_total(ps.drop_first(), m);
    }
}

/// The flat entry list and the per-piece sum agree on every material.
pub proof fn lemma_research_entries_total(ps: Seq<SetPiece>, m: Seq<char>)
    ensures
        total_qty(research_entries(ps), m) == research_total(ps, m),
    decreases ps.len(),
{
    if ps.len() > 0 {
        lemma_total_qty_concat(
            ps.first().research_cost_spec(),
            research_entries(ps.drop_first()),
            m,
        );
        lemma_research_entries_total(ps.drop_first(), m);
    }
}

pub proof fn lemma_crafting_entries_snoc(ps: Seq<SetPiece>)
    requires
        ps.len() > 0,
    ensures
        crafting_entries(ps) == crafting_entries(ps.drop_last()) + ps.last().cost_spec(),
    decreases ps.len(),
{
    if ps.len() == 1 {
        assert(ps.drop_last() =~= Seq::<SetPiece>::empty());
        assert(ps.drop_first() =~= Seq::<SetPiece>::empty());
        assert(crafting_entries(ps) =~= crafting_entries(ps.drop_last()) + ps.last().cost_spec());
    } else {
        lemma_crafting_entries_snoc(ps.drop_first());
        assert(ps.drop_first().drop_last() =~= ps.drop_last().drop_first());
        assert(ps.drop_first().last() == ps.last());
        assert(ps.drop_last().first() == ps.first());
        assert((ps.first().cost_spec() + crafting_entries(ps.drop_first().drop_last()))
            + ps.last().cost_spec() =~= ps.first().cost_spec() + (crafting_entries(
            ps.drop_first().drop_last(),
        ) + ps.last().cost_spec()));
        assert(crafting_entries(ps) =~= crafting_entries(ps.drop_last()) + ps.last().cost_spec());
    }
}

pub proof fn lemma_research_entries_snoc(ps: Seq<SetPiece>)
    requires
        ps.len() > 0,
    ensures
        research_entries(ps) == research_entries(ps.drop_last())
            + ps.last().research_cost_spec(),
    decreases ps.len(),
{
    if ps.len() == 1 {
        assert(ps.drop_last() =~= Seq::<SetPiece>::empty());
        assert(ps.drop_first() =~= Seq::<SetPiece>::empty());
        assert(research_entries(ps) =~= research_entries(ps.drop_last())
            + ps.last().research_cost_spec());
    } else {
        lemma_research_entries_snoc(ps.drop_first());
        assert(ps.drop_first().drop_last() =~= ps.drop_last().drop_first());
        assert(ps.drop_first().last() == ps.last());
        assert(ps.drop_last().first() == ps.first());
        assert((ps.first().research_cost_spec() + research_entries(ps.drop_first().drop_last()))
            + ps.last().research_cost_spec() =~= ps.first().research_cost_spec() + (
        research_entries(ps.drop_first().drop_last()) + ps.last().research_cost_spec()));
        assert(research_entries(ps) =~= research_entries(ps.drop_last())
            + ps.last().research_cost_spec());
    }
}

pub proof fn lemma_crafting_total_remove(ps: Seq<SetPiece>, i: int, m: Seq<char>)
    requires
        0 <= i < ps.len(),
    ensures
        crafting_total(ps, m) == total_qty(ps[i].cost_spec(), m) + crafting_total(
            ps.remove(i),
            m,
        ),
    decreases ps.len(),
{
    if i == 0 {
        assert(ps.remove(0) =~= ps.drop_first());
    } else {
        lemma_crafting_total_remove(ps.drop_first(), i - 1, m);
        assert(ps.remove(i).drop_first() =~= ps.drop_first().remove(i - 1));
        assert(ps.remove(i).first() == ps.first());
        assert(ps.drop_first()[i - 1] == ps[i]);
    }
}

pub proof fn lemma_research_total_remove(ps: Seq<SetPiece>, i: int, m: Seq<char>)
    requires
        0 <= i < ps.len(),
    ensures
        research_total(ps, m) == total_qty(ps[i].research_cost_spec(), m) + research_total(
            ps.remove(i),
            m,
        ),
    decreases ps.len(),
{
    if i == 0 {
        assert(ps.remove(0) =~= ps.drop_first());
    } else {
        lemma_research_total_remove(ps.drop_first(), i - 1, m);
        assert(ps.remove(i).drop_first() =~= ps.drop_first().remove(i - 1));
        assert(ps.remove(i).first() == ps.first());
        assert(ps.drop_first()[i - 1] == ps[i]);
    }
}

/// Crafting and research totals only see the multiset of pieces: reordering
/// the item list never changes what any material costs.
pub proof fn lemma_cost_order_independent(ps1: Seq<SetPiece>, ps2: Seq<SetPiece>, m: Seq<char>)
    requires
        ps1.to_multiset() == ps2.to_multiset(),
    ensures
        crafting_total(ps1, m) == crafting_total(ps2, m),
        research_total(ps1, m) == research_total(ps2, m),
    decreases ps1.len(),
{
    broadcast use vstd::seq_lib::group_to_multiset_ensures;

    if ps1.len() == 0 {
        assert(ps1.to_multiset().len() == 0);
        assert(ps2.to_multiset().len() == 0);
        assert(ps2.len() == 0);
    } else {
        let x = ps1[0];
        assert(ps1.contains(x));
        assert(ps1.to_multiset().count(x) > 0);
        assert(ps2.to_multiset().count(x) > 0);
        assert(ps2.contains(x));
        let j = choose|j: int| 0 <= j < ps2.len() && ps2[j] == x;
        lemma_crafting_total_remove(ps1, 0, m);
        lemma_crafting_total_remove(ps2, j, m);
        lemma_research_total_remove(ps1, 0, m);
        lemma_research_total_remove(ps2, j, m);
        assert(ps1.remove(0).to_multiset() =~= ps1.to_multiset().remove(x));
        assert(ps2.remove(j).to_multiset() =~= ps2.to_multiset().remove(x));
        lemma_cost_order_independent(ps1.remove(0), ps2.remove(j), m);
    }
}

pub proof fn lemma_piece_cost_len(p: SetPiece)
    ensures
        p.cost_spec().len() <= 9,
        p.research_cost_spec().len() <= 2,
{
}

/// Manifest fields: one inline field per distinct material that the cost
/// list mentions, valued with that material's decimal total.
pub open spec fn manifest_fields_show(
    fields: Seq<EmbedField>,
    entries: Seq<(i32, Seq<char>)>,
) -> bool {
    &&& forall|j: int|
        0 <= j < fields.len() ==> (#[trigger] fields[j]).value@ == int_str(
            total_qty(entries, fields[j].name@),
        ) && fields[j].inline
    &&& forall|j: int, k: int|
        0 <= j < k < fields.len() ==> (#[trigger] fields[j]).name@ != (#[trigger] fields[k]).name@
    &&& forall|j: int| 0 <= j < fields.len() ==> mentions(entries, (#[trigger] fields[j]).name@)
    &&& forall|m: Seq<char>|
        #[trigger] mentions(entries, m) ==> exists|j: int|
            0 <= j < fields.len() && fields[j].name@ == m
}

/// The manifest embed of a cost list: every mentioned material once, with
/// the total quantity it needs.
pub fn display_material_cost(cost: Vec<(i32, String)>) -> (e: Embed)
    requires
        cost@.len() <= 0x0400_0000,
    ensures
        e.title@ == "Materiales"@,
        e.description@ == "Lista de los materiales necesarios para este equipo"@,
        e.color is None,
        manifest_fields_show(e.fields@, views_of(cost@)),
{
    let ghost entries = views_of(cost@);
    let manifest = aggregate_cost(&cost);
    let mut fields: Vec<EmbedField> = Vec::new();
    let mut i: usize = 0;
    while i < manifest.len()
        invariant
            i <= manifest@.len(),
            entries == views_of(cost@),
            entries.len() <= 0x0400_0000,
            manifest_matches(manifest@, entries),
            fields@.len() == i,
            forall|j: int|
                0 <= j < i ==> (#[trigger] fields@[j]).name@ == manifest@[j].1@ && fields@[j].value@
                    == int_str(manifest@[j].0 as int) && fields@[j].inline,
        decreases manifest@.len() - i,
    {
        let q = manifest[i].0;
        proof {
            lemma_total_qty_bounded(entries, manifest@[i as int].1@);
            assert(q as int == total_qty(entries, manifest@[i as int].1@));
            assert(q > i64::MIN);
        }
        let name = manifest[i].1.clone();
        fields.push(field(name, int_to_string(q), true));
        i = i + 1;
    }
    proof {
        assert forall|m: Seq<char>| #[trigger] mentions(entries, m) implies exists|j: int|
            0 <= j < fields@.len() && fields@[j].name@ == m by {
            let w = choose|w: int| 0 <= w < manifest@.len() && manifest@[w].1@ == m;
            assert(fields@[w].name@ == m);
        }
    }
    Embed {
        title: "Materiales".to_owned(),
        description: "Lista de los materiales necesarios para este equipo".to_owned(),
        color: None,
        fields,
    }
}

/// The full crafting manifest of a finalized list of pieces.
pub fn display_cost(pieces: &Vec<SetPiece>) -> (e: Embed)
    requires
        pieces@.len() <= 0x0010_0000,
    ensures
        e.title@ == "Materiales"@,
        e.description@ == "Lista de los materiales necesarios para este equipo"@,
        e.color is None,
        manifest_fields_show(e.fields@, crafting_entries(pieces@)),
{
    let mut flat: Vec<(i32, String)> = Vec::new();
    let mut i: usize = 0;
    while i < pieces.len()
        invariant
            i <= pieces@.len(),
            pieces@.len() <= 0x0010_0000,
            cost_entries_match(flat@, crafting_entries(pieces@.take(i as int))),
            flat@.len() <= 9 * i,
        decreases pieces@.len() - i,
    {
        let mut c = pieces[i].cost();
        proof {
            lemma_crafting_entries_snoc(pieces@.take(i as int + 1));
            assert(pieces@.take(i as int + 1).drop_last() =~= pieces@.take(i as int));
            assert(pieces@.take(i as int + 1).last() == pieces@[i as int]);
            lemma_cost_entries_match_concat(
                flat@,
                crafting_entries(pieces@.take(i as int)),
                c@,
                pieces@[i as int].cost_spec(),
            );
            lemma_piece_cost_len(pieces@[i as int]);
        }
        flat.append(&mut c);
        i = i + 1;
    }
    proof {
        assert(pieces@.take(pieces@.len() as int) =~= pieces@);
        assert forall|k: int| 0 <= k < views_of(flat@).len() implies views_of(flat@)[k]
            == crafting_entries(pieces@)[k] by {
            assert(views_of(flat@)[k] == (flat@[k].0, flat@[k].1@));
        }
        assert(views_of(flat@) =~= crafting_entries(pieces@));
    }
    display_material_cost(flat)
}

/// The research manifest of a finalized list of pieces: trait materials
/// only.
pub fn display_research_cost(pieces: &Vec<SetPiece>) -> (e: Embed)
    requires
        pieces@.len() <= 0x0010_0000,
    ensures
        e.title@ == "Materiales"@,
        e.description@ == "Lista de los materiales necesarios para este equipo"@,
        e.color is None,
        manifest_fields_show(e.fields@, research_entries(pieces@)),
{
    let mut flat: Vec<(i32, String)> = Vec::new();
    let mut i: usize = 0;
    while i < pieces.len()
        invariant
            i <= pieces@.len(),
            pieces@.len() <= 0x0010_0000,
            cost_entries_match(flat@, research_entries(pieces@.take(i as int))),
            flat@.len() <= 9 * i,
        decreases pieces@.len() - i,
    {
        let mut c = pieces[i].research_cost();
        proof {
            lemma_research_entries_snoc(pieces@.take(i as int + 1));
            assert(pieces@.take(i as int + 1).drop_last() =~= pieces@.take(i as int));
            assert(pieces@.take(i as int + 1).last() == pieces@[i as int]);
            lemma_cost_entries_match_concat(
                flat@,
                research_entries(pieces@.take(i as int)),
                c@,
                pieces@[i as int].research_cost_spec(),
            );
            lemma_piece_cost_len(pieces@[i as int]);
        }
        flat.append(&mut c);
        i = i + 1;
    }
    proof {
        assert(pieces@.take(pieces@.len() as int) =~= pieces@);
        assert forall|k: int| 0 <= k < views_of(flat@).len() implies views_of(flat@)[k]
            == research_entries(pieces@)[k] by {
            assert(views_of(flat@)[k] == (flat@[k].0, flat@[k].1@));
        }
        assert(views_of(flat@) =~= research_entries(pieces@));
    }
    display_material_cost(flat)
}

/// A single White-quality, unenchanted armour piece costs exactly its base
/// part material plus its trait material: no quality upgrade materials and
/// no enchantment runes.
pub proof fn lemma_white_armour_cost(a: Armour, m: Seq<char>)
    requires
        a.quality == GearQuality::White,
        a.enchantment is None,
    ensures
        crafting_total(seq![SetPiece::Armour(a)], m) == total_qty(
            crate::entities::armour::part_mats_spec(a.kind, a.weight) + a.armour_trait.cost_spec(),
            m,
        ),
{
    let p = SetPiece::Armour(a);
    let empty = Seq::<SetPiece>::empty();
    assert(crafting_total(empty, m) == 0);
    assert(seq![p].drop_first() =~= empty);
    assert(seq![p].first() == p);
    assert(crafting_total(seq![p], m) == total_qty(p.cost_spec(), m) + crafting_total(
        seq![p].drop_first(),
        m,
    ));
    assert(a.cost_spec() =~= crate::entities::armour::part_mats_spec(a.kind, a.weight)
        + a.armour_trait.cost_spec());
    assert(p.cost_spec() == a.cost_spec());
}

} // verus!
