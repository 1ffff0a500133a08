use vstd::prelude::*;
use crate::data::sprite::SpriteId;
use crate::fx::handlers::Boots;
use crate::menu::text::{push_int, signed_decimal};

verus! {

/// Chips still needed to open the exit; never below zero.
pub fn chips_remaining(required_chips: i32, chips: i32) -> (r: i32)
    requires
        i32::MIN <= required_chips - chips <= i32::MAX,
    ensures
        r == (if required_chips - chips > 0 { required_chips - chips } else { 0 }),
{
    let left = required_chips - chips;
    if left > 0 { left } else { 0 }
}

/// Whole seconds left of a level's time limit (given in seconds) after
/// `time` ticks at sixty ticks a second, rounded up; `-1` when the level
/// has no time limit.
pub fn time_remaining(time_limit: i32, time: i32) -> (r: i32)
    requires
        i32::MIN <= time_limit * 60 - time <= i32::MAX,
    ensures
        r == (if time_limit <= 0 { -1 } else { (time_limit * 60 - time + 59) / 60 }),
{
    if time_limit <= 0 {
        return -1;
    }
    let ticks: i64 = time_limit as i64 * 60 - time as i64;
    let shifted: i64 = ticks + 59;
    let q: i64 = if shifted >= 0 { shifted / 60 } else { -((-shifted + 59) / 60) };
    assert(q == shifted / 60) by (nonlinear_arith)
        requires
            shifted < 0 ==> q == -((-shifted + 59) / 60),
            shifted >= 0 ==> q == shifted / 60,
    ;
    assert(i32::MIN <= q <= i32::MAX) by (nonlinear_arith)
        requires
            q == shifted / 60,
            shifted == ticks + 59,
            i32::MIN <= ticks <= i32::MAX,
    ;
    q as i32
}

/// The key sprite of inventory slot `i`: blue, red, green, yellow.
pub open spec fn spec_key_slot_sprite(i: int) -> SpriteId {
    if i == 0 {
        SpriteId::BlueKey
    } else if i == 1 {
        SpriteId::RedKey
    } else if i == 2 {
        SpriteId::GreenKey
    } else {
        SpriteId::YellowKey
    }
}

/// The key slots of the first `n` kinds that the player holds, each with
/// its sprite.
pub open spec fn key_slots_upto(keys: Seq<i32>, n: int) -> Seq<(usize, SpriteId)>
    decreases n,
{
    if n <= 0 {
        Seq::empty()
    } else {
        let prev = key_slots_upto(keys, n - 1);
        if keys[n - 1] > 0 {
            prev.push(((n - 1) as usize, spec_key_slot_sprite(n - 1)))
        } else {
            prev
        }
    }
}

/// The slots of the key bar that show a key, with the key's sprite; the
/// key counts are blue, red, green, yellow.
pub fn key_slots(keys: [i32; 4]) -> (r: Vec<(usize, SpriteId)>)
    ensures
        r@ == key_slots_upto(keys@, 4),
{
    let mut out: Vec<(usize, SpriteId)> = Vec::new();
    let mut i: usize = 0;
    while i < 4
        invariant
            i <= 4,
            keys@.len() == 4,
            out@ == key_slots_upto(keys@, i as int),
        decreases 4 - i,
    {
        if keys[i] > 0 {
            let sprite = if i == 0 {
                SpriteId::BlueKey
            } else if i == 1 {
                SpriteId::RedKey
            } else if i == 2 {
                SpriteId::GreenKey
            } else {
                SpriteId::YellowKey
            };
            out.push((i, sprite));
        }
        i += 1;
    }
    out
}

/// The key counts of the first `n` kinds that are shown as a number: two
/// or more of a kind.
pub open spec fn key_labels_upto(keys: Seq<i32>, n: int) -> Seq<(usize, i32)>
    decreases n,
{
    if n <= 0 {
        Seq::empty()
    } else {
        let prev = key_labels_upto(keys, n - 1);
        if keys[n - 1] >= 2 {
            prev.push(((n - 1) as usize, keys[n - 1]))
        } else {
            prev
        }
    }
}

/// The slots of the key bar that show a count beside the key, with the
/// count.
pub fn key_labels(keys: [i32; 4]) -> (r: Vec<(usize, i32)>)
    ensures
        r@ == key_labels_upto(keys@, 4),
{
    let mut out: Vec<(usize, i32)> = Vec::new();
    let mut i: usize = 0;
    while i < 4
        invariant
            i <= 4,
            keys@.len() == 4,
            out@ == key_labels_upto(keys@, i as int),
        decreases 4 - i,
    {
        if keys[i] >= 2 {
            out.push((i, keys[i]));
        }
        i += 1;
    }
    out
}

/// The slots of the item bar that show a pair of boots: flippers, fire
/// boots, ice skates, suction boots.
pub open spec fn spec_boot_slots(boots: Boots) -> Seq<(usize, SpriteId)> {
    (if boots.flippers { seq![(0usize, SpriteId::Flippers)] } else { Seq::empty() })
        + (if boots.fire_boots { seq![(1usize, SpriteId::FireBoots)] } else { Seq::empty() })
        + (if boots.ice_skates { seq![(2usize, SpriteId::IceSkates)] } else { Seq::empty() })
        + (if boots.suction_boots { seq![(3usize, SpriteId::SuctionBoots)] } else { Seq::empty() })
}

/// The slots of the item bar that show a pair of boots, with its sprite.
pub fn boot_slots(boots: Boots) -> (r: Vec<(usize, SpriteId)>)
    ensures
        r@ == spec_boot_slots(boots),
{
    let mut out: Vec<(usize, SpriteId)> = Vec::new();
    if boots.flippers {
        out.push((0, SpriteId::Flippers));
    }
    if boots.fire_boots {
        out.push((1, SpriteId::FireBoots));
    }
    if boots.ice_skates {
        out.push((2, SpriteId::IceSkates));
    }
    if boots.suction_boots {
        out.push((3, SpriteId::SuctionBoots));
    }
    assert(out@ =~= spec_boot_slots(boots));
    out
}

/// The key bar has a background when any key is held, the item bar when
/// any boots are.
pub fn bar_backgrounds(keys: [i32; 4], boots: Boots) -> (r: (bool, bool))
    ensures
        r.0 == exists|i: int| 0 <= i < 4 && keys@[i] > 0,
        r.1 == (boots.flippers || boots.fire_boots || boots.ice_skates || boots.suction_boots),
{
    let any_key = keys[0] > 0 || keys[1] > 0 || keys[2] > 0 || keys[3] > 0;
    proof {
        if any_key {
            if keys@[0] > 0 {
                assert(0 <= 0int < 4 && keys@[0] > 0);
            } else if keys@[1] > 0 {
                assert(0 <= 1int < 4 && keys@[1] > 0);
            } else if keys@[2] > 0 {
                assert(0 <= 2int < 4 && keys@[2] > 0);
            } else {
                assert(0 <= 3int < 4 && keys@[3] > 0);
            }
        }
    }
    (any_key, boots.flippers || boots.fire_boots || boots.ice_skates || boots.suction_boots)
}

/// The lines shown over a level before its first move: its number, its
/// name and, when it has one, its password.
pub open spec fn intro_lines(level_number: i32, name: Seq<char>, password: Option<Seq<char>>) -> Seq<Seq<char>> {
    let head = seq!["~ Level "@ + signed_decimal(level_number as int) + " ~"@, name];
    match password {
        Some(p) => head.push("Password: "@ + p),
        None => head,
    }
}

/// The lines shown over a level before its first move.
pub fn level_intro_lines(level_number: i32, name: &String, password: &Option<String>) -> (r: Vec<String>)
    ensures
        r@.map_values(|l: String| l@) == intro_lines(
            level_number,
            name@,
            match password {
                Some(p) => Some(p@),
                None => None,
            },
        ),
{
    let mut first = String::from_str("~ Level ");
    push_int(&mut first, level_number);
    first.append(" ~");
    let mut r: Vec<String> = Vec::new();
    r.push(first);
    r.push(name.clone());
    match password {
        Some(p) => {
            let mut line = String::from_str("Password: ");
            line.append(p.as_str());
            r.push(line);
        },
        None => {},
    }
    assert(r@.map_values(|l: String| l@) =~= intro_lines(
        level_number,
        name@,
        match password {
            Some(p) => Some(p@),
            None => None,
        },
    ));
    r
}

/// Whether the screen behind the HUD is darkened, and whether that just
/// changed (the moment the fade starts): darkened before the first move of
/// a level, and while a running level shows a hint it has.
pub fn hud_darken(game_time: i32, running: bool, show_hint: bool, has_hint: bool, darken: bool) -> (r: (bool, bool))
    ensures
        r.0 == (game_time == 0 || (running && show_hint && has_hint)),
        r.1 == (r.0 != darken),
{
    let now = if game_time == 0 {
        true
    } else if running && show_hint {
        has_hint
    } else {
        false
    };
    (now, now != darken)
}

} // verus!
