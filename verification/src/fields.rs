use vstd::prelude::*;
use vstd::string::StrSliceExecFns;
use crate::hazards::{Direction, TotemType};
use crate::interact::DEFAULT_ID;

verus! {

/// One typed value carried by a level-data entity field. A numeric field
/// may be present but empty, which callers must default, never fail on.
/// Distances are whole world units.
#[derive(Debug)]
pub enum FieldVal {
    IntVal(Option<i32>),
    UnitsVal(Option<i64>),
    BoolVal(bool),
    StrVal(Option<String>),
    EnumVal(Option<String>),
}

/// A named field of a level-data entity instance.
#[derive(Debug)]
pub struct EntityField {
    pub identifier: String,
    pub value: FieldVal,
}

/// The value of the first field carrying the given name, if any.
pub open spec fn lookup_field(fs: Seq<EntityField>, name: Seq<char>) -> Option<FieldVal>
    decreases fs.len(),
{
    if fs.len() == 0 {
        None
    } else if fs[0].identifier@ == name {
        Some(fs[0].value)
    } else {
        lookup_field(fs.drop_first(), name)
    }
}

pub open spec fn int_field_or(v: Option<FieldVal>, d: i32) -> i32 {
    match v {
        Some(FieldVal::IntVal(Some(x))) => x,
        _ => d,
    }
}

pub open spec fn units_field_or(v: Option<FieldVal>, d: i64) -> i64 {
    match v {
        Some(FieldVal::UnitsVal(Some(x))) => x,
        _ => d,
    }
}

pub open spec fn bool_field_or(v: Option<FieldVal>, d: bool) -> bool {
    match v {
        Some(FieldVal::BoolVal(b)) => b,
        _ => d,
    }
}

pub open spec fn str_field_or_empty(v: Option<FieldVal>) -> Seq<char> {
    match v {
        Some(FieldVal::StrVal(Some(s))) => s@,
        _ => Seq::empty(),
    }
}

proof fn lemma_lookup_none(fs: Seq<EntityField>, name: Seq<char>)
    requires
        forall|j: int| 0 <= j < fs.len() ==> (#[trigger] fs[j]).identifier@ != name,
    ensures
        lookup_field(fs, name) is None,
    decreases fs.len(),
{
    if fs.len() > 0 {
        assert(fs[0].identifier@ != name);
        assert(forall|j: int|
            0 <= j < fs.drop_first().len() ==> (#[trigger] fs.drop_first()[j]).identifier@
                != name) by {
            assert(forall|j: int|
                0 <= j < fs.drop_first().len() ==> fs.drop_first()[j] == fs[j + 1]);
        }
        lemma_lookup_none(fs.drop_first(), name);
    }
}

proof fn lemma_lookup_at(fs: Seq<EntityField>, name: Seq<char>, i: int)
    requires
        0 <= i < fs.len(),
        fs[i].identifier@ == name,
        forall|j: int| 0 <= j < i ==> (#[trigger] fs[j]).identifier@ != name,
    ensures
        lookup_field(fs, name) == Some(fs[i].value),
    decreases i,
{
    if i == 0 {
    } else {
        assert(fs[0].identifier@ != name);
        assert(forall|j: int| 0 <= j < fs.drop_first().len() ==> fs.drop_first()[j] == fs[j + 1]);
        lemma_lookup_at(fs.drop_first(), name, i - 1);
    }
}

/// Character-for-character equality of two strings.
pub fn str_eq(a: &str, b: &str) -> (r: bool)
    ensures
        r == (a@ == b@),
{
    let n = a.unicode_len();
    if n != b.unicode_len() {
        return false;
    }
    let mut i: usize = 0;
    while i < n
        invariant
            n == a@.len(),
            n == b@.len(),
            0 <= i <= n,
            forall|k: int| 0 <= k < i ==> a@[k] == b@[k],
        decreases n - i,
    {
        let ca = a.get_char(i);
        let cb = b.get_char(i);
        if ca != cb {
            return false;
        }
        i += 1;
    }
    proof {
        assert(a@ =~= b@);
    }
    true
}

/// A character folded to lower case, for the plain letters A to Z only.
pub open spec fn lower_char(c: char) -> char {
    if 65 <= c as u32 <= 90 {
        (((c as u32) + 32) as u8) as char
    } else {
        c
    }
}

/// A character sequence folded to lower case letter by letter.
pub open spec fn ascii_lower(s: Seq<char>) -> Seq<char> {
    s.map_values(|c: char| lower_char(c))
}

fn lower_char_exec(c: char) -> (r: char)
    ensures
        r == lower_char(c),
{
    let u = c as u32;
    if u >= 65 && u <= 90 {
        ((u + 32) as u8) as char
    } else {
        c
    }
}

/// Equality of two strings up to plain-letter case.
pub fn str_eq_ignore_case(a: &str, b: &str) -> (r: bool)
    ensures
        r == (ascii_lower(a@) == ascii_lower(b@)),
{
    let n = a.unicode_len();
    if n != b.unicode_len() {
        proof {
            assert(ascii_lower(a@).len() != ascii_lower(b@).len());
        }
        return false;
    }
    let mut i: usize = 0;
    while i < n
        invariant
            n == a@.len(),
            n == b@.len(),
            0 <= i <= n,
            forall|k: int| 0 <= k < i ==> ascii_lower(a@)[k] == ascii_lower(b@)[k],
        decreases n - i,
    {
        let ca = lower_char_exec(a.get_char(i));
        let cb = lower_char_exec(b.get_char(i));
        if ca != cb {
            proof {
                assert(ascii_lower(a@)[i as int] != ascii_lower(b@)[i as int]);
            }
            return false;
        }
        i += 1;
    }
    proof {
        assert(ascii_lower(a@) =~= ascii_lower(b@));
    }
    true
}

/// The value of the first field carrying the given name, if any.
pub fn find_field<'a>(fs: &'a Vec<EntityField>, name: &str) -> (r: Option<&'a FieldVal>)
    ensures
        match r {
            Some(v) => lookup_field(fs@, name@) == Some(*v),
            None => lookup_field(fs@, name@) is None,
        },
{
    let mut i: usize = 0;
    while i < fs.len()
        invariant
            0 <= i <= fs@.len(),
            forall|j: int| 0 <= j < i ==> (#[trigger] fs@[j]).identifier@ != name@,
        decreases fs@.len() - i,
    {
        if str_eq(fs[i].identifier.as_str(), name) {
            proof {
                lemma_lookup_at(fs@, name@, i as int);
            }
            return Some(&fs[i].value);
        }
        i += 1;
    }
    proof {
        lemma_lookup_none(fs@, name@);
    }
    None
}

/// Trigger data from raw entity fields: the id (the sentinel when the
/// field is missing or empty) and the visibility the trigger assigns.
pub fn trigger_fields(fs: &Vec<EntityField>) -> (r: (i32, bool))
    ensures
        r.0 == int_field_or(lookup_field(fs@, "ID"@), DEFAULT_ID),
        r.1 == bool_field_or(lookup_field(fs@, "Visible"@), false),
{
    let id: i32 = match find_field(fs, "ID") {
        Some(FieldVal::IntVal(Some(v))) => *v,
        _ => DEFAULT_ID,
    };
    let visible: bool = match find_field(fs, "Visible") {
        Some(FieldVal::BoolVal(b)) => *b,
        _ => false,
    };
    (id, visible)
}

/// The level identifier a door leads to; empty when the field is missing
/// or empty.
pub fn door_fields(fs: &Vec<EntityField>) -> (r: String)
    ensures
        r@ == str_field_or_empty(lookup_field(fs@, "LvID"@)),
{
    match find_field(fs, "LvID") {
        Some(FieldVal::StrVal(Some(s))) => s.clone(),
        _ => String::new(),
    }
}

/// In-game text data from raw entity fields: the text itself, its initial
/// visibility, and its id.
pub fn text_fields(fs: &Vec<EntityField>) -> (r: (String, bool, i32))
    ensures
        r.0@ == str_field_or_empty(lookup_field(fs@, "Value"@)),
        r.1 == bool_field_or(lookup_field(fs@, "Visible"@), false),
        r.2 == int_field_or(lookup_field(fs@, "ID"@), DEFAULT_ID),
{
    let value: String = match find_field(fs, "Value") {
        Some(FieldVal::StrVal(Some(s))) => s.clone(),
        _ => String::new(),
    };
    let visible: bool = match find_field(fs, "Visible") {
        Some(FieldVal::BoolVal(b)) => *b,
        _ => false,
    };
    let id: i32 = match find_field(fs, "ID") {
        Some(FieldVal::IntVal(Some(v))) => *v,
        _ => DEFAULT_ID,
    };
    (value, visible, id)
}

/// A checkpoint's id; zero when the field is missing or empty.
pub fn checkpoint_fields(fs: &Vec<EntityField>) -> (r: i32)
    ensures
        r == int_field_or(lookup_field(fs@, "ID"@), 0),
{
    match find_field(fs, "ID") {
        Some(FieldVal::IntVal(Some(v))) => *v,
        _ => 0,
    }
}

/// Which axes a spawn point overrides when the player is repositioned.
pub fn spawn_fields(fs: &Vec<EntityField>) -> (r: (bool, bool))
    ensures
        r.0 == bool_field_or(lookup_field(fs@, "AffectX"@), false),
        r.1 == bool_field_or(lookup_field(fs@, "AffectY"@), false),
{
    let ax: bool = match find_field(fs, "AffectX") {
        Some(FieldVal::BoolVal(b)) => *b,
        _ => false,
    };
    let ay: bool = match find_field(fs, "AffectY") {
        Some(FieldVal::BoolVal(b)) => *b,
        _ => false,
    };
    (ax, ay)
}

/// Enemy data from raw entity fields: the movement range (zero by
/// default) and the tangible and smart flags, which default to true.
pub fn enemy_fields(fs: &Vec<EntityField>) -> (r: (i64, i64, bool, bool))
    ensures
        r.0 == units_field_or(lookup_field(fs@, "MoveDistanceX"@), 0),
        r.1 == units_field_or(lookup_field(fs@, "MoveDistanceY"@), 0),
        r.2 == bool_field_or(lookup_field(fs@, "Tangible"@), true),
        r.3 == bool_field_or(lookup_field(fs@, "Smart"@), true),
{
    let dx: i64 = match find_field(fs, "MoveDistanceX") {
        Some(FieldVal::UnitsVal(Some(v))) => *v,
        _ => 0,
    };
    let dy: i64 = match find_field(fs, "MoveDistanceY") {
        Some(FieldVal::UnitsVal(Some(v))) => *v,
        _ => 0,
    };
    let tangible: bool = match find_field(fs, "Tangible") {
        Some(FieldVal::BoolVal(b)) => *b,
        _ => true,
    };
    let smart: bool = match find_field(fs, "Smart") {
        Some(FieldVal::BoolVal(b)) => *b,
        _ => true,
    };
    (dx, dy, tangible, smart)
}

/// The element named by a totem's enum field, compared up to case.
pub open spec fn totem_kind_of_name(s: Seq<char>) -> TotemType {
    if ascii_lower(s) == "firetotem"@ {
        TotemType::Fire
    } else if ascii_lower(s) == "earthtotem"@ {
        TotemType::Earth
    } else if ascii_lower(s) == "watertotem"@ {
        TotemType::Water
    } else {
        TotemType::Air
    }
}

/// The element of a totem whose enum field is missing or empty: Air.
pub open spec fn totem_kind_of(v: Option<FieldVal>) -> TotemType {
    match v {
        Some(FieldVal::EnumVal(Some(s))) => totem_kind_of_name(s@),
        _ => TotemType::Air,
    }
}

fn totem_kind_from_name(s: &str) -> (r: TotemType)
    ensures
        r == totem_kind_of_name(s@),
{
    proof {
        reveal_strlit("firetotem");
        reveal_strlit("earthtotem");
        reveal_strlit("watertotem");
        assert(ascii_lower("firetotem"@) =~= "firetotem"@);
        assert(ascii_lower("earthtotem"@) =~= "earthtotem"@);
        assert(ascii_lower("watertotem"@) =~= "watertotem"@);
    }
    if str_eq_ignore_case(s, "firetotem") {
        TotemType::Fire
    } else if str_eq_ignore_case(s, "earthtotem") {
        TotemType::Earth
    } else if str_eq_ignore_case(s, "watertotem") {
        TotemType::Water
    } else {
        TotemType::Air
    }
}

/// The element of a totem from its raw entity fields.
pub fn totem_fields(fs: &Vec<EntityField>) -> (r: TotemType)
    ensures
        r == totem_kind_of(lookup_field(fs@, "Totem"@)),
{
    match find_field(fs, "Totem") {
        Some(FieldVal::EnumVal(Some(s))) => totem_kind_from_name(s.as_str()),
        _ => TotemType::Air,
    }
}

/// The hazard direction encoded by an integer grid cell; anything unknown
/// points north.
pub open spec fn killer_direction_of(value: i32) -> Direction {
    if value == 2 {
        Direction::North
    } else if value == 3 {
        Direction::South
    } else if value == 4 {
        Direction::East
    } else if value == 5 {
        Direction::West
    } else {
        Direction::North
    }
}

/// Build a hazard's direction from its integer grid cell.
pub fn killer_from_int_cell(value: i32) -> (r: Direction)
    ensures
        r == killer_direction_of(value),
{
    if value == 2 {
        Direction::North
    } else if value == 3 {
        Direction::South
    } else if value == 4 {
        Direction::East
    } else if value == 5 {
        Direction::West
    } else {
        Direction::North
    }
}

} // verus!
