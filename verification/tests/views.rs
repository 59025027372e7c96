use crafting_orders::components::armor_weight;
use crafting_orders::components::confirmation_row;
use crafting_orders::components::consumables_modal;
use crafting_orders::components::enchantments::gear_weapon_enchantments;
use crafting_orders::components::enchantments_modal;
use crafting_orders::components::gear_piece_embed;
use crafting_orders::components::gear_quality;
use crafting_orders::components::gear_research_piece_embed;
use crafting_orders::components::gear_result_embed;
use crafting_orders::components::gear_set_embed;
use crafting_orders::components::gear_set_modal;
use crafting_orders::components::gear_set_parts;
use crafting_orders::components::gear_set_piece_embed;
use crafting_orders::components::menu_action_row;
use crafting_orders::components::traits::gear_armour_traits;
use crafting_orders::components::ButtonStyle;
use crafting_orders::components::InputTextStyle;
use crafting_orders::components::SetPiece;
use crafting_orders::entities::armour::Armour;
use crafting_orders::entities::armour::ArmourParts;
use crafting_orders::entities::armour::ArmourTraits;
use crafting_orders::entities::armour::ArmourWeights;
use crafting_orders::entities::weapon::OneHandedWeapons;
use crafting_orders::entities::weapon::Weapon;
use crafting_orders::entities::weapon::WeaponEnchantments;
use crafting_orders::entities::weapon::WeaponKind;
use crafting_orders::entities::weapon::WeaponTraits;
use crafting_orders::entities::GearQuality;

#[test]
fn part_selection_menu_lists_whole_catalog() {
    let m = gear_set_parts("gear_set_parts");
    assert_eq!(m.name, "gear_set_parts");
    assert_eq!(m.placeholder, "Selecciona las partes del set que quieres");
    assert_eq!(m.max_values, 12);
    assert_eq!(m.options.len(), 22);
    assert_eq!(m.options[0].value, "Cabeza");
    assert_eq!(m.options[8].value, "Collar");
    assert_eq!(m.options[9].description, "Se asumen dos anillos");
    assert_eq!(m.options[21].value, "Arco");
    for o in &m.options {
        assert_eq!(o.label, o.value);
    }
}

#[test]
fn quality_menu_carries_emojis() {
    let m = gear_quality("quality");
    assert_eq!(m.placeholder, "Selecciona la calidad de la pieza");
    let labels: Vec<&str> = m.options.iter().map(|o| o.label.as_str()).collect();
    assert_eq!(labels, vec!["Blanco", "Verde", "Azul", "Morada", "Amarilla"]);
    let emojis: Vec<&str> = m.options.iter().map(|o| o.emoji.as_str()).collect();
    assert_eq!(emojis, vec!["⚪", "🟢", "🔵", "🟣", "🟡"]);
}

#[test]
fn weight_and_trait_and_enchantment_menus() {
    let w = armor_weight("weight");
    assert_eq!(w.placeholder, "Selecciona el peso de la armadura");
    let labels: Vec<&str> = w.options.iter().map(|o| o.label.as_str()).collect();
    assert_eq!(labels, vec!["Ligera", "Media", "Pesada"]);

    let t = gear_armour_traits("armour_trait");
    assert_eq!(t.placeholder, "Selecciona el rasgo que quieres");
    assert_eq!(t.options.len(), 9);
    assert_eq!(t.options[0].value, "Divinidad");
    assert_eq!(t.options[0].description, "Aumenta los efectos de las piedras de Mundus");

    let e = gear_weapon_enchantments("weapon_enchantment");
    assert_eq!(e.placeholder, "Selecciona el encantamiento que quieres");
    assert_eq!(e.options.len(), 14);
    assert_eq!(e.options[0].value, "Glifo de fuego");
}

#[test]
fn confirmation_row_names_yes_and_no() {
    let row = confirmation_row("confirm_yes");
    assert_eq!(row.buttons.len(), 2);
    assert_eq!(row.buttons[0].custom_id, "confirm_yes");
    assert_eq!(row.buttons[0].label, "Si");
    assert_eq!(row.buttons[0].style, ButtonStyle::Success);
    assert_eq!(row.buttons[1].custom_id, "confirm_yes_no");
    assert_eq!(row.buttons[1].label, "No");
    assert_eq!(row.buttons[1].style, ButtonStyle::Danger);
}

#[test]
fn menu_row_offers_the_four_flows() {
    let row = menu_action_row();
    let ids: Vec<&str> = row.buttons.iter().map(|b| b.custom_id.as_str()).collect();
    assert_eq!(ids, vec!["Gear", "Consumables", "Enchantment", "GearResearch"]);
}

#[test]
fn modals() {
    let m = gear_set_modal("gear_set");
    assert_eq!(m.style, InputTextStyle::Short);
    assert_eq!(m.label, "Nombre del Set/Conjunto");
    assert_eq!(m.placeholder, "Cólera de la orden");
    let c = consumables_modal("consumables");
    assert_eq!(c.style, InputTextStyle::Paragraph);
    assert_eq!(c.label, "Pociones y Comida");
    let g = enchantments_modal("enchantments");
    assert_eq!(g.label, "Glifos");
}

#[test]
fn piece_embed_shows_resolved_attributes() {
    let piece = SetPiece::Weapon(Weapon {
        kind: WeaponKind::OneHanded(OneHandedWeapons::Axe),
        weapon_trait: WeaponTraits::Decisive,
        enchantment: Some(WeaponEnchantments::Frost),
        quality: GearQuality::Purple,
    });
    let e = gear_piece_embed(&piece);
    assert_eq!(e.title, "🛠️ Hacha 🛠️");
    let fields: Vec<(&str, &str, bool)> =
        e.fields.iter().map(|f| (f.name.as_str(), f.value.as_str(), f.inline)).collect();
    assert_eq!(
        fields,
        vec![
            ("Rasgo", "Decisivo", true),
            ("Calidad", "Morada", true),
            ("Encantamiento", "Glifo de escarcha", true),
        ]
    );
}

#[test]
fn recap_embeds() {
    let piece = SetPiece::Armour(Armour {
        kind: ArmourParts::Waist,
        weight: ArmourWeights::Medium,
        armour_trait: ArmourTraits::WellFitted,
        enchantment: None,
        quality: GearQuality::Blue,
    });
    let set = vec![piece];

    let start = gear_set_embed("Cólera");
    assert_eq!(start.title, "🛡️ Cólera 🛡️");
    assert_eq!(start.description, "Configura el equipo que deseas con las opciones");

    let result = gear_result_embed(&set, "Cólera");
    assert_eq!(result.title, "🛠️ Cólera 🛠️");
    assert_eq!(result.fields[0].name, "Cintura");
    assert_eq!(result.fields[0].inline, false);
    assert_eq!(result.fields[1].name, "Peso");
    assert_eq!(result.fields[1].value, "Media");

    let card = gear_set_piece_embed("Cólera", &set);
    assert_eq!(card.color, Some((127, 255, 0)));

    let research = gear_research_piece_embed(&set);
    assert_eq!(research.title, "🛠️ Investigación 🛠️");
    let fields: Vec<(&str, &str)> =
        research.fields.iter().map(|f| (f.name.as_str(), f.value.as_str())).collect();
    assert_eq!(
        fields,
        vec![
            ("Cintura", ""),
            (":lifter: Peso", "Media"),
            (":hourglass: Rasgo", "Buen ajuste"),
        ]
    );
}
