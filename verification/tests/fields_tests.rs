use pillars_core::fields::{
    EntityField, FieldVal, checkpoint_fields, door_fields, enemy_fields, killer_from_int_cell,
    spawn_fields, str_eq, str_eq_ignore_case, text_fields, totem_fields, trigger_fields,
};
use pillars_core::hazards::{Direction, TotemType};

fn field(name: &str, value: FieldVal) -> EntityField {
    EntityField { identifier: String::from(name), value }
}

#[test]
fn trigger_fields_defaults() {
    let fs: Vec<EntityField> = Vec::new();
    let (id, visible) = trigger_fields(&fs);
    assert_eq!(id, 666);
    assert!(!visible);
}

#[test]
fn trigger_fields_reads_values() {
    let fs = vec![
        field("ID", FieldVal::IntVal(Some(7))),
        field("Visible", FieldVal::BoolVal(true)),
    ];
    let (id, visible) = trigger_fields(&fs);
    assert_eq!(id, 7);
    assert!(visible);
}

#[test]
fn empty_numeric_field_defaults() {
    // A present but empty id field falls back to the sentinel instead of
    // failing.
    let fs = vec![field("ID", FieldVal::IntVal(None))];
    let (id, _) = trigger_fields(&fs);
    assert_eq!(id, 666);
}

#[test]
fn first_matching_field_wins() {
    let fs = vec![
        field("ID", FieldVal::IntVal(Some(1))),
        field("ID", FieldVal::IntVal(Some(2))),
    ];
    let (id, _) = trigger_fields(&fs);
    assert_eq!(id, 1);
}

#[test]
fn door_fields_reads_level_id() {
    let fs = vec![field("LvID", FieldVal::StrVal(Some(String::from("West"))))];
    assert_eq!(door_fields(&fs), String::from("West"));
    let empty: Vec<EntityField> = Vec::new();
    assert_eq!(door_fields(&empty), String::new());
}

#[test]
fn text_fields_reads_all_three() {
    let fs = vec![
        field("Value", FieldVal::StrVal(Some(String::from("hello")))),
        field("Visible", FieldVal::BoolVal(true)),
        field("ID", FieldVal::IntVal(Some(3))),
    ];
    let (value, visible, id) = text_fields(&fs);
    assert_eq!(value, String::from("hello"));
    assert!(visible);
    assert_eq!(id, 3);
}

#[test]
fn checkpoint_fields_default_is_zero() {
    let empty: Vec<EntityField> = Vec::new();
    assert_eq!(checkpoint_fields(&empty), 0);
    let fs = vec![field("ID", FieldVal::IntVal(Some(4)))];
    assert_eq!(checkpoint_fields(&fs), 4);
}

#[test]
fn spawn_fields_read_axis_flags() {
    let fs = vec![
        field("AffectX", FieldVal::BoolVal(true)),
        field("AffectY", FieldVal::BoolVal(false)),
    ];
    assert_eq!(spawn_fields(&fs), (true, false));
    let empty: Vec<EntityField> = Vec::new();
    assert_eq!(spawn_fields(&empty), (false, false));
}

#[test]
fn enemy_fields_default_tangible_and_smart() {
    let empty: Vec<EntityField> = Vec::new();
    assert_eq!(enemy_fields(&empty), (0, 0, true, true));
    let fs = vec![
        field("MoveDistanceX", FieldVal::UnitsVal(Some(64))),
        field("Tangible", FieldVal::BoolVal(false)),
    ];
    assert_eq!(enemy_fields(&fs), (64, 0, false, true));
}

#[test]
fn totem_fields_match_element_names_case_insensitively() {
    let fire = vec![field("Totem", FieldVal::EnumVal(Some(String::from("FireTotem"))))];
    assert_eq!(totem_fields(&fire), TotemType::Fire);
    let earth = vec![field("Totem", FieldVal::EnumVal(Some(String::from("earthtotem"))))];
    assert_eq!(totem_fields(&earth), TotemType::Earth);
    let water = vec![field("Totem", FieldVal::EnumVal(Some(String::from("WATERTOTEM"))))];
    assert_eq!(totem_fields(&water), TotemType::Water);
}

#[test]
fn unknown_totem_name_is_air() {
    let odd = vec![field("Totem", FieldVal::EnumVal(Some(String::from("banana"))))];
    assert_eq!(totem_fields(&odd), TotemType::Air);
    let hollow = vec![field("Totem", FieldVal::EnumVal(None))];
    assert_eq!(totem_fields(&hollow), TotemType::Air);
    let empty: Vec<EntityField> = Vec::new();
    assert_eq!(totem_fields(&empty), TotemType::Air);
}

#[test]
fn killer_cells_map_to_directions() {
    assert_eq!(killer_from_int_cell(2), Direction::North);
    assert_eq!(killer_from_int_cell(3), Direction::South);
    assert_eq!(killer_from_int_cell(4), Direction::East);
    assert_eq!(killer_from_int_cell(5), Direction::West);
    assert_eq!(killer_from_int_cell(0), Direction::North);
}

#[test]
fn string_comparisons() {
    assert!(str_eq("Yard", "Yard"));
    assert!(!str_eq("Yard", "Cellar"));
    assert!(!str_eq("Yard", "Yar"));
    assert!(str_eq_ignore_case("FireTotem", "fireTOTEM"));
    assert!(!str_eq_ignore_case("FireTotem", "WaterTotem"));
}
