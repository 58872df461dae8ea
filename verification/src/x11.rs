//! Monitor geometry as `xrandr --listmonitors` prints it, and the choice
//! between the X11 and the Wayland capture paths.

use vstd::prelude::*;

use crate::text::{
    before_first, chars_of, field_bounds, fields, index_of, line_bounds, lines, parse_i32,
    parse_i32_at, parse_u32, parse_u32_at, find_char, string_from_chars,
};

verus! {

/// Monitor geometry parsed from `xrandr --listmonitors`, used to build the
/// x11grab `-video_size`/offset arguments.
#[derive(Debug, Clone)]
pub struct MonGeom {
    pub name: String,
    pub w: u32,
    pub h: u32,
    pub x: i32,
    pub y: i32,
}

/// The fields of a `MonGeom` as plain values: name, width, height, x, y.
pub type GeomView = (Seq<char>, u32, u32, i32, i32);

impl MonGeom {
    pub open spec fn geom(&self) -> GeomView {
        (self.name@, self.w, self.h, self.x, self.y)
    }
}

/// The geometry field without its leading `'+'` and `'*'` flags
/// (`trim_start_matches`).
pub open spec fn trim_flags(s: Seq<char>) -> Seq<char>
    decreases s.len(),
{
    if s.len() > 0 && (s[0] == '+' || s[0] == '*') {
        trim_flags(s.drop_first())
    } else {
        s
    }
}

/// What a monitor line such as ` 0: +*eDP-1 1920/309x1080/174+0+0  eDP-1`
/// describes. Its whitespace-separated fields are the index, the flagged
/// name, the geometry and the name. The geometry, without leading `'+'` or
/// `'*'` flags, is split at the first `'x'`; the width is what precedes the
/// first `'/'` before it. The remainder is split at its first two `'+'`
/// into height (up to its first `'/'`), x offset and y offset (the rest).
/// Any missing part or unparsable number gives `None`.
pub open spec fn monitor_line(line: Seq<char>) -> Option<GeomView> {
    let f = fields(line);
    if f.len() < 4 {
        None
    } else {
        let geom = trim_flags(f[2]);
        match index_of(geom, 'x') {
            None => None,
            Some(i) => {
                let wh = geom.take(i);
                let rest = geom.skip(i + 1);
                match index_of(rest, '+') {
                    None => None,
                    Some(j) => {
                        let after = rest.skip(j + 1);
                        match index_of(after, '+') {
                            None => None,
                            Some(k) => {
                                match (
                                    parse_u32(before_first(wh, '/')),
                                    parse_u32(before_first(rest.take(j), '/')),
                                    parse_i32(after.take(k)),
                                    parse_i32(after.skip(k + 1)),
                                ) {
                                    (Some(w), Some(h), Some(x), Some(y)) => Some(
                                        (f[3], w, h, x, y),
                                    ),
                                    _ => None,
                                }
                            },
                        }
                    },
                }
            },
        }
    }
}

/// The monitors that `xrandr --listmonitors` output lists: every line after
/// the first that `monitor_line` accepts, in order.
pub open spec fn monitor_list(lines: Seq<Seq<char>>) -> Seq<GeomView>
    decreases lines.len(),
{
    if lines.len() == 0 {
        seq![]
    } else {
        let rest = monitor_list(lines.drop_last());
        match monitor_line(lines.last()) {
            Some(g) => rest.push(g),
            None => rest,
        }
    }
}

/// The monitors listed in the whole output `text` (its header line skipped).
pub open spec fn monitors_in(text: Seq<char>) -> Seq<GeomView> {
    let ls = lines(text);
    if ls.len() == 0 {
        seq![]
    } else {
        monitor_list(ls.drop_first())
    }
}

/// Position of the first character of `v[lo..hi]` that is not a flag.
fn skip_flags(v: &Vec<char>, lo: usize, hi: usize) -> (r: usize)
    requires
        lo <= hi <= v@.len(),
    ensures
        lo <= r <= hi,
        trim_flags(v@.subrange(lo as int, hi as int)) == v@.subrange(r as int, hi as int),
{
    let mut i = lo;
    while i < hi && (v[i] == '+' || v[i] == '*')
        invariant
            lo <= i <= hi <= v@.len(),
            trim_flags(v@.subrange(lo as int, hi as int)) == trim_flags(
                v@.subrange(i as int, hi as int),
            ),
        decreases hi - i,
    {
        assert(v@.subrange(i as int, hi as int).drop_first() =~= v@.subrange(i + 1, hi as int));
        i += 1;
    }
    i
}

/// The part of `v[lo..hi]` before its first `'/'`, as an end position.
fn end_before_slash(v: &Vec<char>, lo: usize, hi: usize) -> (e: usize)
    requires
        lo <= hi <= v@.len(),
    ensures
        lo <= e <= hi,
        v@.subrange(lo as int, e as int) == before_first(v@.subrange(lo as int, hi as int), '/'),
{
    match find_char(v, lo, hi, '/') {
        Some(j) => {
            assert(v@.subrange(lo as int, j as int) =~= v@.subrange(lo as int, hi as int).take(
                j - lo,
            ));
            j
        },
        None => hi,
    }
}

/// Parses the monitor line held in `v`.
fn parse_monitor_chars(v: &Vec<char>) -> (r: Option<MonGeom>)
    ensures
        match r {
            Some(m) => monitor_line(v@) == Some(m.geom()),
            None => monitor_line(v@) is None,
        },
{
    let fb = field_bounds(v);
    if fb.len() < 4 {
        return None;
    }
    let (g0, g1) = fb[2];
    let (n0, n1) = fb[3];
    let ghost f = fields(v@);
    assert(f[2] == v@.subrange(g0 as int, g1 as int));
    assert(f[3] == v@.subrange(n0 as int, n1 as int));
    let gs = skip_flags(v, g0, g1);
    let ghost geom = v@.subrange(gs as int, g1 as int);
    let xi = match find_char(v, gs, g1, 'x') {
        Some(xi) => xi,
        None => return None,
    };
    let ghost i = xi - gs;
    assert(geom.take(i) =~= v@.subrange(gs as int, xi as int));
    assert(geom.skip(i + 1) =~= v@.subrange(xi + 1, g1 as int));
    let ghost rest = geom.skip(i + 1);
    let p1 = match find_char(v, xi + 1, g1, '+') {
        Some(p1) => p1,
        None => return None,
    };
    let ghost j = p1 - (xi + 1);
    assert(rest.take(j) =~= v@.subrange(xi + 1, p1 as int));
    assert(rest.skip(j + 1) =~= v@.subrange(p1 + 1, g1 as int));
    let ghost after = rest.skip(j + 1);
    let p2 = match find_char(v, p1 + 1, g1, '+') {
        Some(p2) => p2,
        None => return None,
    };
    let ghost k = p2 - (p1 + 1);
    assert(after.take(k) =~= v@.subrange(p1 + 1, p2 as int));
    assert(after.skip(k + 1) =~= v@.subrange(p2 + 1, g1 as int));
    let we = end_before_slash(v, gs, xi);
    let he = end_before_slash(v, xi + 1, p1);
    let w = parse_u32_at(v, gs, we);
    let h = parse_u32_at(v, xi + 1, he);
    let x = parse_i32_at(v, p1 + 1, p2);
    let y = parse_i32_at(v, p2 + 1, g1);
    match (w, h, x, y) {
        (Some(w), Some(h), Some(x), Some(y)) => {
            let name = string_from_chars(v, n0, n1);
            Some(MonGeom { name, w, h, x, y })
        },
        _ => None,
    }
}

/// Parses one line of `xrandr --listmonitors` output (see `monitor_line`).
pub fn parse_monitor_line(line: &str) -> (r: Option<MonGeom>)
    ensures
        match r {
            Some(m) => monitor_line(line@) == Some(m.geom()),
            None => monitor_line(line@) is None,
        },
{
    let v = chars_of(line);
    parse_monitor_chars(&v)
}

fn sub_vec(v: &Vec<char>, lo: usize, hi: usize) -> (r: Vec<char>)
    requires
        lo <= hi <= v@.len(),
    ensures
        r@ == v@.subrange(lo as int, hi as int),
{
    let mut r: Vec<char> = Vec::new();
    let mut i = lo;
    while i < hi
        invariant
            lo <= i <= hi <= v@.len(),
            r@ == v@.subrange(lo as int, i as int),
        decreases hi - i,
    {
        r.push(v[i]);
        assert(r@ =~= v@.subrange(lo as int, i + 1));
        i += 1;
    }
    r
}

/// The monitors listed in the output of `xrandr --listmonitors`: the header
/// line is skipped and lines that do not parse are left out. An empty or
/// unparsable output gives an empty list (the whole root screen is then
/// recorded).
pub fn parse_monitors(text: &str) -> (r: Vec<MonGeom>)
    ensures
        r@.map_values(|m: MonGeom| m.geom()) == monitors_in(text@),
{
    let v = chars_of(text);
    let lb = line_bounds(&v);
    let ghost ls = lines(v@);
    let mut r: Vec<MonGeom> = Vec::new();
    if lb.len() == 0 {
        assert(r@.map_values(|m: MonGeom| m.geom()) =~= Seq::<GeomView>::empty());
        return r;
    }
    let mut k: usize = 1;
    assert(ls.drop_first().take(0) =~= Seq::<Seq<char>>::empty());
    while k < lb.len()
        invariant
            1 <= k <= lb@.len(),
            lb@.len() == ls.len(),
            ls == lines(v@),
            forall|q: int|
                0 <= q < lb@.len() ==> {
                    &&& #[trigger] lb@[q].0 <= lb@[q].1 <= v@.len()
                    &&& v@.subrange(lb@[q].0 as int, lb@[q].1 as int) == ls[q]
                },
            r@.map_values(|m: MonGeom| m.geom()) == monitor_list(
                ls.drop_first().take(k - 1),
            ),
        decreases lb@.len() - k,
    {
        let (a, b) = lb[k];
        let line = sub_vec(&v, a, b);
        let ghost prefix = ls.drop_first().take(k - 1);
        let ghost next = ls.drop_first().take(k as int);
        assert(next.drop_last() =~= prefix);
        assert(next.last() == ls[k as int]);
        let ghost before = r@;
        match parse_monitor_chars(&line) {
            Some(m) => {
                r.push(m);
                assert(r@.map_values(|m: MonGeom| m.geom()) =~= before.map_values(
                    |m: MonGeom| m.geom(),
                ).push(m.geom()));
            },
            None => {},
        }
        k += 1;
    }
    assert(ls.drop_first().take(lb@.len() - 1) =~= ls.drop_first());
    r
}

/// ASCII lower-casing of a character, as a code point.
pub open spec fn ascii_lower(c: char) -> u32 {
    if 65 <= (c as u32) <= 90 {
        ((c as u32) + 32) as u32
    } else {
        c as u32
    }
}

/// `str::eq_ignore_ascii_case`.
pub open spec fn eq_ignore_ascii_case(a: Seq<char>, b: Seq<char>) -> bool {
    &&& a.len() == b.len()
    &&& forall|i: int| 0 <= i < a.len() ==> ascii_lower(#[trigger] a[i]) == ascii_lower(b[i])
}

fn lower_code(c: char) -> (u: u32)
    ensures
        u == ascii_lower(c),
{
    let u = c as u32;
    if 65 <= u && u <= 90 {
        u + 32
    } else {
        u
    }
}

/// Executable `eq_ignore_ascii_case`.
pub fn str_eq_ignore_ascii_case(a: &str, b: &str) -> (r: bool)
    ensures
        r == eq_ignore_ascii_case(a@, b@),
{
    let va = chars_of(a);
    let vb = chars_of(b);
    if va.len() != vb.len() {
        return false;
    }
    let mut i: usize = 0;
    while i < va.len()
        invariant
            va@ == a@,
            vb@ == b@,
            va@.len() == vb@.len(),
            i <= va@.len(),
            forall|j: int| 0 <= j < i ==> ascii_lower(#[trigger] va@[j]) == ascii_lower(vb@[j]),
        decreases va@.len() - i,
    {
        if lower_code(va[i]) != lower_code(vb[i]) {
            return false;
        }
        i += 1;
    }
    true
}

/// True when the session is Wayland (portal capture required): the
/// session type (`XDG_SESSION_TYPE`, when set) equals `wayland` ignoring
/// ASCII case, or `WAYLAND_DISPLAY` is set.
pub fn is_wayland_session(session_type: Option<&str>, wayland_display_set: bool) -> (r: bool)
    ensures
        r == ((session_type matches Some(t) && eq_ignore_ascii_case(t@, "wayland"@))
            || wayland_display_set),
{
    let by_type = match session_type {
        Some(t) => str_eq_ignore_ascii_case(t, "wayland"),
        None => false,
    };
    by_type || wayland_display_set
}

/// The names shown in the tray's monitor submenu: none on Wayland (the
/// portal's own picker replaces it), otherwise the monitors' names in order.
pub fn monitor_menu_names(wayland: bool, monitors: &Vec<MonGeom>) -> (r: Vec<String>)
    ensures
        wayland ==> r@.len() == 0,
        !wayland ==> r@.len() == monitors@.len() && forall|i: int|
            0 <= i < r@.len() ==> #[trigger] r@[i]@ == monitors@[i].name@,
{
    let mut r: Vec<String> = Vec::new();
    if wayland {
        return r;
    }
    let mut i: usize = 0;
    while i < monitors.len()
        invariant
            i <= monitors@.len(),
            r@.len() == i,
            forall|j: int| 0 <= j < i ==> #[trigger] r@[j]@ == monitors@[j].name@,
        decreases monitors@.len() - i,
    {
        r.push(monitors[i].name.clone());
        i += 1;
    }
    r
}

} // verus!
