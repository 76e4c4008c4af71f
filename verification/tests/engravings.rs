use loa_parser::engravings::get_engravings;
use loa_parser::model::{Engraving, EngravingData};
use loa_parser::tables::GameData;

fn engraving(id: u32, name: &str) -> (u32, EngravingData) {
    (id, EngravingData { id, name: name.to_string(), icon: format!("{}.png", id) })
}

fn data() -> GameData {
    GameData::from_entries(
        vec![],
        vec![],
        vec![],
        vec![],
        vec![
            engraving(125, "Mayhem"),
            engraving(188, "Berserker's Technique"),
            engraving(118, "Grudge"),
            engraving(299, "Cursed Doll"),
            engraving(141, "Keen Blunt Weapon"),
        ],
        vec![],
    )
}

fn e(id: u32, level: u8) -> Engraving {
    Engraving { id, level }
}

fn ids_levels(v: &Option<Vec<loa_parser::model::PlayerEngraving>>) -> Vec<(u32, u8)> {
    v.as_ref().unwrap().iter().map(|p| (p.id, p.level)).collect()
}

#[test]
fn no_engravings_given() {
    assert!(get_engravings(102, &None, &data()).is_none());
    assert!(get_engravings(102, &Some(vec![]), &data()).is_none());
}

#[test]
fn unknown_engravings_are_dropped() {
    assert!(get_engravings(102, &Some(vec![e(1, 3), e(2, 1)]), &data()).is_none());
}

#[test]
fn split_and_ordered() {
    let given = Some(vec![e(118, 3), e(188, 1), e(299, 3), e(125, 3), e(141, 2), e(9999, 3)]);
    let p = get_engravings(102, &given, &data()).unwrap();
    assert_eq!(ids_levels(&p.class_engravings), vec![(125, 3), (188, 1)]);
    assert_eq!(ids_levels(&p.other_engravings), vec![(118, 3), (299, 3), (141, 2)]);
    let first = &p.class_engravings.as_ref().unwrap()[0];
    assert_eq!(first.name, "Mayhem");
    assert_eq!(first.icon, "125.png");
}

#[test]
fn other_class_has_no_class_engravings() {
    let given = Some(vec![e(188, 1), e(125, 3)]);
    let p = get_engravings(204, &given, &data()).unwrap();
    assert!(p.class_engravings.is_none());
    assert_eq!(ids_levels(&p.other_engravings), vec![(125, 3), (188, 1)]);
}

#[test]
fn only_class_engravings() {
    let given = Some(vec![e(188, 3), e(125, 3)]);
    let p = get_engravings(102, &given, &data()).unwrap();
    assert!(p.other_engravings.is_none());
    assert_eq!(ids_levels(&p.class_engravings), vec![(125, 3), (188, 3)]);
}

#[test]
fn equal_engravings_kept_twice() {
    let given = Some(vec![e(141, 1), e(118, 2), e(141, 1)]);
    let p = get_engravings(102, &given, &data()).unwrap();
    assert_eq!(ids_levels(&p.other_engravings), vec![(118, 2), (141, 1), (141, 1)]);
}
