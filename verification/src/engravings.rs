//! A player's engravings, split into class engravings and the others, each
//! list in the order they are shown.
use vstd::prelude::*;
use crate::classes::{engraving_class, is_class_engraving};
use crate::model::{Engraving, EngravingData, PlayerEngraving, PlayerEngravings};
use crate::tables::{engraving_table, GameData};

verus! {

broadcast use vstd::seq_lib::group_to_multiset_ensures;

/// An engraving of a player, named and drawn as the engraving table says.
pub open spec fn player_engraving(e: Engraving, known: EngravingData) -> PlayerEngraving {
    PlayerEngraving { name: known.name, id: e.id, level: e.level, icon: known.icon }
}

/// The engravings that the table knows, in the order given, that are (when
/// `own`) or are not (otherwise) engravings of the class.
pub open spec fn found_engravings(
    d: GameData,
    class_id: u32,
    es: Seq<Engraving>,
    own: bool,
) -> Seq<PlayerEngraving>
    decreases es.len(),
{
    if es.len() == 0 {
        Seq::empty()
    } else {
        let rest = found_engravings(d, class_id, es.drop_last(), own);
        match engraving_table(d).get(es.last().id) {
            Some(known) => if (engraving_class(known.id) == Some(class_id)) == own {
                rest.push(player_engraving(es.last(), known))
            } else {
                rest
            },
            None => rest,
        }
    }
}

/// `a` is shown before `b`: a higher level first, and among equal levels the
/// lower id first.
pub open spec fn shown_before(a: PlayerEngraving, b: PlayerEngraving) -> bool {
    a.level > b.level || (a.level == b.level && a.id < b.id)
}

/// The engravings are in the order they are shown.
pub open spec fn in_shown_order(s: Seq<PlayerEngraving>) -> bool {
    forall|i: int, j: int| 0 <= i < j < s.len() ==> !shown_before(#[trigger] s[j], #[trigger] s[i])
}

/// A shown list of engravings holds exactly the found ones, in the order they
/// are shown; it is absent exactly where none was found.
pub open spec fn shows(found: Seq<PlayerEngraving>, shown: Option<Vec<PlayerEngraving>>) -> bool {
    match shown {
        Some(v) => found.len() > 0 && v@.to_multiset() == found.to_multiset() && in_shown_order(v@),
        None => found.len() == 0,
    }
}

/// Puts `e` after every engraving that is not shown after it.
fn insert_in_shown_order(v: &mut Vec<PlayerEngraving>, e: PlayerEngraving)
    requires
        in_shown_order(old(v)@),
    ensures
        in_shown_order(final(v)@),
        final(v)@.to_multiset() == old(v)@.to_multiset().insert(e),
{
    let mut j: usize = 0;
    while j < v.len() && !(e.level > v[j].level || (e.level == v[j].level && e.id < v[j].id))
        invariant
            j <= v@.len(),
            forall|k: int| 0 <= k < j ==> !shown_before(e, #[trigger] v@[k]),
        decreases v@.len() - j,
    {
        j = j + 1;
    }
    let ghost s = v@;
    v.insert(j, e);
    proof {
        let t = v@;
        assert(t == s.insert(j as int, e));
        assert forall|a: int, b: int| 0 <= a < b < t.len() implies !shown_before(
            #[trigger] t[b],
            #[trigger] t[a],
        ) by {
            if b < j {
                assert(t[a] == s[a] && t[b] == s[b]);
            } else if b == j {
                assert(t[a] == s[a]);
            } else if a == j {
                assert(t[b] == s[b - 1]);
                assert(shown_before(e, s[j as int]));
                if b - 1 > j {
                    assert(!shown_before(s[b - 1], s[j as int]));
                }
            } else if a < j {
                assert(t[a] == s[a] && t[b] == s[b - 1]);
            } else {
                assert(t[a] == s[a - 1] && t[b] == s[b - 1]);
            }
        }
        assert(t.remove(j as int) == s);
        assert(t.to_multiset().remove(e) == s.to_multiset());
        assert(t.to_multiset().count(e) > 0);
        assert(t.to_multiset() =~= s.to_multiset().insert(e));
    }
}

/// The player's engravings that the table knows, split into those of the
/// class and the others, each list in the order they are shown; `None` where
/// no engravings are given or none of them is known.
pub fn get_engravings(
    class_id: u32,
    engravings: &Option<Vec<Engraving>>,
    data: &GameData,
) -> (r: Option<PlayerEngravings>)
    ensures
        match engravings {
            None => r is None,
            Some(es) => {
                let own = found_engravings(*data, class_id, es@, true);
                let other = found_engravings(*data, class_id, es@, false);
                if own.len() == 0 && other.len() == 0 {
                    r is None
                } else {
                    r matches Some(p) && shows(own, p.class_engravings) && shows(
                        other,
                        p.other_engravings,
                    )
                }
            },
        },
{
    let es = match engravings {
        Some(es) => es,
        None => return None,
    };
    assert(*engravings == Some(*es));
    let mut class_engravings: Vec<PlayerEngraving> = Vec::new();
    let mut other_engravings: Vec<PlayerEngraving> = Vec::new();
    let n = es.len();
    for i in 0..n
        invariant
            n == es@.len(),
            in_shown_order(class_engravings@),
            in_shown_order(other_engravings@),
            class_engravings@.to_multiset() == found_engravings(
                *data,
                class_id,
                es@.take(i as int),
                true,
            ).to_multiset(),
            other_engravings@.to_multiset() == found_engravings(
                *data,
                class_id,
                es@.take(i as int),
                false,
            ).to_multiset(),
    {
        let e = es[i];
        assert(es@.take(i as int + 1).drop_last() == es@.take(i as int));
        if let Some(known) = data.engraving(e.id) {
            let player_engraving = PlayerEngraving {
                name: known.name.clone(),
                id: e.id,
                level: e.level,
                icon: known.icon.clone(),
            };
            if is_class_engraving(class_id, known.id) {
                insert_in_shown_order(&mut class_engravings, player_engraving);
            } else {
                insert_in_shown_order(&mut other_engravings, player_engraving);
            }
        }
    }
    assert(es@.take(n as int) == es@);
    let ghost own = found_engravings(*data, class_id, es@, true);
    let ghost other = found_engravings(*data, class_id, es@, false);
    assert(class_engravings@.len() == own.len()) by {
        assert(class_engravings@.to_multiset().len() == own.to_multiset().len());
    }
    assert(other_engravings@.len() == other.len()) by {
        assert(other_engravings@.to_multiset().len() == other.to_multiset().len());
    }
    let class = if class_engravings.len() == 0 {
        None
    } else {
        Some(class_engravings)
    };
    let other = if other_engravings.len() == 0 {
        None
    } else {
        Some(other_engravings)
    };
    if class.is_none() && other.is_none() {
        None
    } else {
        Some(PlayerEngravings { class_engravings: class, other_engravings: other })
    }
}

/// The number of the given engravings that the engraving table knows.
pub open spec fn known_count(d: GameData, es: Seq<Engraving>) -> int
    decreases es.len(),
{
    if es.len() == 0 {
        0
    } else {
        known_count(d, es.drop_last()) + if engraving_table(d).contains_key(es.last().id) {
            1int
        } else {
            0int
        }
    }
}

/// Splitting a player's engravings loses and repeats none: every known
/// engraving lands in exactly one of the two lists.
pub proof fn lemma_engraving_split_is_partition(d: GameData, class_id: u32, es: Seq<Engraving>)
    ensures
        found_engravings(d, class_id, es, true).len() + found_engravings(d, class_id, es, false).len()
            == known_count(d, es),
    decreases es.len(),
{
    if es.len() > 0 {
        lemma_engraving_split_is_partition(d, class_id, es.drop_last());
    }
}

/// Every engraving in the class list is one of the class's own engravings,
/// and none in the other list is.
pub proof fn lemma_found_engravings_belong(
    d: GameData,
    class_id: u32,
    es: Seq<Engraving>,
    own: bool,
    i: int,
)
    requires
        0 <= i < found_engravings(d, class_id, es, own).len(),
    ensures
        engraving_table(d).contains_key(found_engravings(d, class_id, es, own)[i].id),
        (engraving_class(engraving_table(d)[found_engravings(d, class_id, es, own)[i].id].id)
            == Some(class_id)) == own,
    decreases es.len(),
{
    if es.len() > 0 {
        let rest = found_engravings(d, class_id, es.drop_last(), own);
        if i < rest.len() {
            lemma_found_engravings_belong(d, class_id, es.drop_last(), own, i);
        }
    }
}

} // verus!
