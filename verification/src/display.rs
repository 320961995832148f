//! Values the screens are drawn from: the permission summary of a role,
//! the welcome animation's characters and the logo's placement.

use vstd::prelude::*;
use crate::types::Screen;

verus! {

/// The names of the permissions a role summary mentions, in order, with
/// their bits.
pub open spec fn permission_names(p: i64) -> Seq<Seq<char>> {
    let v = if p & (1i64 << 0u64) != 0 { seq!["View"@] } else { seq![] };
    let s = if p & (1i64 << 11u64) != 0 { seq!["Send"@] } else { seq![] };
    let r = if p & (1i64 << 14u64) != 0 { seq!["React"@] } else { seq![] };
    let m = if p & (1i64 << 3u64) != 0 { seq!["Manage"@] } else { seq![] };
    let k = if p & (1i64 << 4u64) != 0 { seq!["Kick"@] } else { seq![] };
    let b = if p & (1i64 << 5u64) != 0 { seq!["Ban"@] } else { seq![] };
    v + s + r + m + k + b
}

/// Texts joined with ", ".
pub open spec fn joined(ls: Seq<Seq<char>>) -> Seq<char>
    decreases ls.len(),
{
    if ls.len() == 0 {
        Seq::empty()
    } else if ls.len() == 1 {
        ls[0]
    } else {
        joined(ls.drop_last()) + ", "@ + ls.last()
    }
}

/// A role's permissions in brief: all of them, none, or the names of the
/// view, send, react, manage, kick and ban permissions it has.
pub open spec fn permissions_brief(p: i64) -> Seq<char> {
    if p == i64::MAX {
        "All permissions"@
    } else if permission_names(p).len() == 0 {
        "No permissions"@
    } else {
        joined(permission_names(p))
    }
}

fn add_name(acc: &mut Vec<String>, name: &str)
    ensures
        final(acc)@.len() == old(acc)@.len() + 1,
        final(acc)@.drop_last() == old(acc)@,
        final(acc)@.last()@ == name@,
{
    acc.push(name.to_owned());
    assert(acc@.drop_last() =~= old(acc)@);
}

/// A role's permissions in brief.
pub fn permissions_summary(p: i64) -> (r: String)
    ensures
        r@ == permissions_brief(p),
{
    if p == i64::MAX {
        return "All permissions".to_owned();
    }
    let mut names: Vec<String> = Vec::new();
    if p & (1i64 << 0u64) != 0 {
        add_name(&mut names, "View");
    }
    if p & (1i64 << 11u64) != 0 {
        add_name(&mut names, "Send");
    }
    if p & (1i64 << 14u64) != 0 {
        add_name(&mut names, "React");
    }
    if p & (1i64 << 3u64) != 0 {
        add_name(&mut names, "Manage");
    }
    if p & (1i64 << 4u64) != 0 {
        add_name(&mut names, "Kick");
    }
    if p & (1i64 << 5u64) != 0 {
        add_name(&mut names, "Ban");
    }
    assert(names@.map_values(|s: String| s@) =~= permission_names(p));
    if names.len() == 0 {
        return "No permissions".to_owned();
    }
    let mut out = names[0].clone();
    let mut i: usize = 1;
    proof {
        assert(names@.map_values(|s: String| s@).subrange(0, 1) =~= seq![names@[0]@]);
    }
    while i < names.len()
        invariant
            1 <= i <= names@.len(),
            out@ == joined(names@.map_values(|s: String| s@).subrange(0, i as int)),
        decreases names@.len() - i,
    {
        let ghost prev = names@.map_values(|s: String| s@).subrange(0, i as int);
        out = crate::text::concat3(out.as_str(), ", ", names[i].as_str());
        i = i + 1;
        proof {
            let now = names@.map_values(|s: String| s@).subrange(0, i as int);
            assert(now.drop_last() =~= prev);
        }
    }
    assert(names@.map_values(|s: String| s@).subrange(0, names@.len() as int) =~= names@.map_values(|s: String| s@));
    out
}

/// The characters the welcome animation rains.
pub open spec fn rain_alphabet() -> Seq<char> {
    seq![
        '0', '1', '2', '3', '4', '5', '6', '7', '8', '9',
        'A', 'B', 'C', 'D', 'E', 'F', 'G', 'H', 'J', 'K',
        'a', 'b', 'c', 'd', 'e', 'f', 'g', 'h', 'j', 'k',
        '!', '@', '#', '$', '%', '&', '*', '+', '=', '~',
        '<', '>', '{', '}', '[', ']', '|', '/', '\\', '^',
    ]
}

/// Number of rain characters.
pub const RAIN_LEN: usize = 50;

/// The animation's scrambling of a seed (wrapping arithmetic).
pub open spec fn scramble(seed: usize) -> usize {
    let h = seed.wrapping_mul(2654435761);
    let g = h ^ (h >> 16usize);
    g.wrapping_mul(0x45d9f3b) ^ (g.wrapping_mul(0x45d9f3b) >> 16usize)
}

/// Deterministic scrambling, so that each frame of the animation is the
/// same for the same seed.
pub fn hash(seed: usize) -> (r: usize)
    ensures
        r == scramble(seed),
{
    let h = seed.wrapping_mul(2654435761);
    let g = h ^ (h >> 16usize);
    g.wrapping_mul(0x45d9f3b) ^ (g.wrapping_mul(0x45d9f3b) >> 16usize)
}

/// The seed of a cell of the animation at a tick.
pub open spec fn rain_seed(col: usize, row: usize, tick: usize) -> usize {
    col.wrapping_mul(1009).wrapping_add(row.wrapping_mul(37)).wrapping_add((tick / 3).wrapping_mul(7))
}

fn rain_char(i: usize) -> (c: char)
    requires
        i < RAIN_LEN,
    ensures
        c == rain_alphabet()[i as int],
{
    let v: Vec<char> = vec![
        '0', '1', '2', '3', '4', '5', '6', '7', '8', '9',
        'A', 'B', 'C', 'D', 'E', 'F', 'G', 'H', 'J', 'K',
        'a', 'b', 'c', 'd', 'e', 'f', 'g', 'h', 'j', 'k',
        '!', '@', '#', '$', '%', '&', '*', '+', '=', '~',
        '<', '>', '{', '}', '[', ']', '|', '/', '\\', '^',
    ];
    assert(v@ =~= rain_alphabet());
    v[i]
}

/// The rain character of a cell at a tick (it changes every third tick).
pub fn rain_char_at(col: usize, row: usize, tick: usize) -> (c: char)
    ensures
        c == rain_alphabet()[(scramble(rain_seed(col, row, tick)) % RAIN_LEN) as int],
{
    let seed = col.wrapping_mul(1009).wrapping_add(row.wrapping_mul(37)).wrapping_add((tick / 3).wrapping_mul(7));
    let h = hash(seed);
    rain_char(h % RAIN_LEN)
}

/// Width of the logo, in characters.
pub const LOGO_WIDTH: u16 = 35;

/// Height of the logo, in lines.
pub const LOGO_HEIGHT: u16 = 5;

/// Where the logo goes in an area: centred, its top left corner.
pub open spec fn logo_origin_of(x: u16, y: u16, w: u16, h: u16) -> (int, int) {
    (
        x + (if w > LOGO_WIDTH { w - LOGO_WIDTH } else { 0 }) / 2,
        y + (if h > LOGO_HEIGHT { h - LOGO_HEIGHT } else { 0 }) / 2,
    )
}

/// The top left corner of the centred logo in the area at (`x`, `y`) of
/// `w` by `h` cells.
pub fn logo_origin(x: u16, y: u16, w: u16, h: u16) -> (r: (u16, u16))
    requires
        x + w <= u16::MAX,
        y + h <= u16::MAX,
    ensures
        r.0 == logo_origin_of(x, y, w, h).0,
        r.1 == logo_origin_of(x, y, w, h).1,
{
    let dw = if w > LOGO_WIDTH {
        w - LOGO_WIDTH
    } else {
        0
    };
    let dh = if h > LOGO_HEIGHT {
        h - LOGO_HEIGHT
    } else {
        0
    };
    (x + dw / 2, y + dh / 2)
}

/// The lines of the logo.
pub open spec fn logo_lines() -> Seq<Seq<char>> {
    seq![
        "██  ██ ██    ██ ████  ████    ████ "@,
        "██  ██ ███  ███ ██ ██ ██  ██ ██  ██"@,
        "██  ██ ████████ ████  ████   ██████"@,
        "██  ██ ██ ██ ██ ██ ██ ██ ██  ██  ██"@,
        " ████  ██    ██ ████  ██  ██ ██  ██"@,
    ]
}

/// A line of the logo.
pub fn logo_line(i: usize) -> (r: Vec<char>)
    requires
        i < 5,
    ensures
        r@ == logo_lines()[i as int],
{
    let s = if i == 0 {
        "██  ██ ██    ██ ████  ████    ████ "
    } else if i == 1 {
        "██  ██ ███  ███ ██ ██ ██  ██ ██  ██"
    } else if i == 2 {
        "██  ██ ████████ ████  ████   ██████"
    } else if i == 3 {
        "██  ██ ██ ██ ██ ██ ██ ██ ██  ██  ██"
    } else {
        " ████  ██    ██ ████  ██  ██ ██  ██"
    };
    crate::text::chars_of(s)
}

/// The logo character at cell (`x`, `y`) when the logo's corner is at
/// (`lx`, `ly`), if the cell is on the logo.
pub fn logo_char_at(x: u16, y: u16, lx: u16, ly: u16) -> (r: Option<char>)
    ensures
        r == if x < lx || y < ly || y - ly >= 5 || x - lx >= logo_lines()[y - ly].len() {
            None
        } else {
            Some(logo_lines()[y - ly][x - lx])
        },
{
    if x < lx || y < ly {
        return None;
    }
    let cy = (y - ly) as usize;
    let cx = (x - lx) as usize;
    if cy >= 5 {
        return None;
    }
    let line = logo_line(cy);
    if cx < line.len() {
        Some(line[cx])
    } else {
        None
    }
}

/// Number of friends the chat screen lists (`None` on other screens).
pub fn listed_friend_count(s: &Screen) -> (r: Option<usize>)
    ensures
        match *s {
            Screen::Chat { friends, .. } => r == Some(friends@.len() as usize),
            _ => r is None,
        },
{
    match s {
        Screen::Chat { friends, .. } => Some(friends.len()),
        _ => None,
    }
}

} // verus!
