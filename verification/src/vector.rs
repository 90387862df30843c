use vstd::prelude::*;
use vstd::string::StringExecFns;
use crate::text::{decimal, decimal_string};

verus! {

broadcast use vstd::seq_lib::group_to_multiset_ensures;

/// One color of a dot export: the color and the pixels (column, row) that
/// become dots of it, in scan order.
#[derive(Debug)]
pub struct DotGroup {
    pub color: (u8, u8, u8),
    pub points: Vec<(u32, u32)>,
}

/// The number of a color in lexicographic `(r, g, b)` order.
pub open spec fn color_code(c: (u8, u8, u8)) -> int {
    c.0 as int * 65536 + c.1 as int * 256 + c.2 as int
}

/// The color with a given number.
pub open spec fn code_color(code: int) -> (u8, u8, u8) {
    ((code / 65536) as u8, ((code / 256) % 256) as u8, (code % 256) as u8)
}

/// `2^40`: pixel indices are packed below this, colors above it.
pub open spec fn pack_shift() -> int {
    0x100_0000_0000
}

/// Scan-order index of pixel `(x, y)` in an image `width` pixels wide.
pub open spec fn scan_index(width: int, pt: (u32, u32)) -> int {
    pt.1 as int * width + pt.0 as int
}

/// The pixel (column, row) with scan-order index `p`.
pub open spec fn pixel_at(width: int, p: int) -> (u32, u32) {
    ((p % width) as u32, (p / width) as u32)
}

proof fn lemma_color_code(c: (u8, u8, u8))
    ensures
        0 <= color_code(c) < 0x100_0000,
        code_color(color_code(c)) == c,
{
}

proof fn lemma_pack(code: int, p: int)
    requires
        0 <= code < 0x100_0000,
        0 <= p < pack_shift(),
    ensures
        (code * pack_shift() + p) / pack_shift() == code,
        (code * pack_shift() + p) % pack_shift() == p,
        0 <= code * pack_shift() + p <= u64::MAX,
{
    vstd::arithmetic::div_mod::lemma_fundamental_div_mod_converse(
        code * pack_shift() + p,
        pack_shift(),
        code,
        p,
    );
    assert(code * pack_shift() <= 0xff_ffff * pack_shift()) by (nonlinear_arith)
        requires
            0 <= code < 0x100_0000,
    ;
}

proof fn lemma_pixel_at(width: int, height: int, p: int)
    requires
        width > 0,
        0 <= p < width * height,
    ensures
        0 <= p % width < width,
        0 <= p / width < height,
        (p / width) * width + p % width == p,
{
    vstd::arithmetic::div_mod::lemma_fundamental_div_mod(p, width);
    assert(p / width < height) by (nonlinear_arith)
        requires
            width > 0,
            0 <= p < width * height,
            p == width * (p / width) + p % width,
            0 <= p % width,
    ;
    assert((p / width) * width == width * (p / width)) by (nonlinear_arith);
}

/// Calls `<[u64]>::sort_unstable`. Claims what std documents: afterwards
/// the vector holds the same values, in ascending order.
#[verifier::external_body]
fn sort_ascending(v: &mut Vec<u64>)
    ensures
        final(v)@.to_multiset() == old(v)@.to_multiset(),
        forall|i: int, j: int| 0 <= i <= j < final(v)@.len() ==> final(v)@[i] <= final(v)@[j],
{
    v.sort_unstable();
}

/// The pixel `p` of a `width`x`height` image has dot color `c`.
pub open spec fn has_dot(keys: Seq<Option<(u8, u8, u8)>>, p: int, c: (u8, u8, u8)) -> bool {
    0 <= p < keys.len() && keys[p] == Some(c)
}

/// A packed value names a pixel that has a dot of the packed color.
spec fn packed_is_dot(keys: Seq<Option<(u8, u8, u8)>>, v: int) -> bool {
    &&& 0 <= v / pack_shift() < 0x100_0000
    &&& has_dot(keys, v % pack_shift(), code_color(v / pack_shift()))
}

fn pack_dots(keys: &Vec<Option<(u8, u8, u8)>>) -> (v: Vec<u64>)
    requires
        keys@.len() < 0x100_0000_0000,
    ensures
        forall|j: int| 0 <= j < v@.len() ==> packed_is_dot(keys@, #[trigger] v@[j] as int),
        forall|p: int, c: (u8, u8, u8)|
            has_dot(keys@, p, c) ==> v@.contains((color_code(c) * pack_shift() + p) as u64),
        v@.no_duplicates(),
{
    let n = keys.len();
    let mut v: Vec<u64> = Vec::new();
    let mut p: usize = 0;
    while p < n
        invariant
            n == keys@.len(),
            n < 0x100_0000_0000,
            p <= n,
            forall|j: int| 0 <= j < v@.len() ==> packed_is_dot(keys@, #[trigger] v@[j] as int),
            forall|j: int| 0 <= j < v@.len() ==> ((#[trigger] v@[j]) as int) % pack_shift() < p,
            forall|a: int, b: int|
                0 <= a < b < v@.len() ==> ((#[trigger] v@[a]) as int) % pack_shift() < ((#[trigger] v@[b]) as int)
                    % pack_shift(),
            forall|q: int, c: (u8, u8, u8)|
                0 <= q < p && has_dot(keys@, q, c) ==> v@.contains(
                    (color_code(c) * pack_shift() + q) as u64,
                ),
        decreases n - p,
    {
        match keys[p] {
            Some(c) => {
                proof {
                    lemma_color_code(c);
                    lemma_pack(color_code(c), p as int);
                }
                let code: u64 = (c.0 as u64) * 65536 + (c.1 as u64) * 256 + (c.2 as u64);
                let packed: u64 = code * 0x100_0000_0000 + (p as u64);
                let ghost before = v@;
                v.push(packed);
                proof {
                    assert(v@[v@.len() - 1] == packed);
                    assert forall|q: int, cc: (u8, u8, u8)|
                        0 <= q < p + 1 && has_dot(keys@, q, cc) implies v@.contains(
                            (color_code(cc) * pack_shift() + q) as u64,
                        ) by {
                        if q < p {
                            let w = (color_code(cc) * pack_shift() + q) as u64;
                            let j = choose|j: int| 0 <= j < before.len() && before[j] == w;
                            assert(v@[j] == w);
                        } else {
                            assert(cc == c);
                            assert(v@[v@.len() - 1] == packed);
                        }
                    }
                }
            },
            None => {
                proof {
                    assert forall|q: int, cc: (u8, u8, u8)|
                        0 <= q < p + 1 && has_dot(keys@, q, cc) implies v@.contains(
                            (color_code(cc) * pack_shift() + q) as u64,
                        ) by {
                        assert(q < p);
                    }
                }
            },
        }
        p = p + 1;
    }
    proof {
        assert forall|a: int, b: int| 0 <= a < v@.len() && 0 <= b < v@.len() && a != b implies v@[a]
            != v@[b] by {
            if a < b {
                assert((v@[a] as int) % pack_shift() < (v@[b] as int) % pack_shift());
            } else {
                assert((v@[b] as int) % pack_shift() < (v@[a] as int) % pack_shift());
            }
        }
    }
    v
}

/// Where a sorted packed value ended up: group `g` (or the open group,
/// when `g` equals the number of closed groups), point `t`.
spec fn placed_at(
    groups: Seq<DotGroup>,
    cur_code: int,
    cur: Seq<(u32, u32)>,
    width: int,
    v: int,
    g: int,
    t: int,
) -> bool {
    if g < groups.len() {
        &&& 0 <= g
        &&& 0 <= t < groups[g].points@.len()
        &&& groups[g].points@[t] == pixel_at(width, v % pack_shift())
        &&& color_code(groups[g].color) == v / pack_shift()
    } else {
        &&& g == groups.len()
        &&& 0 <= t < cur.len()
        &&& cur[t] == pixel_at(width, v % pack_shift())
        &&& cur_code == v / pack_shift()
    }
}

/// Every point of a group is a pixel of the image that has a dot of the
/// group's color, and the points are in strictly increasing scan order.
pub open spec fn group_is_sound(
    keys: Seq<Option<(u8, u8, u8)>>,
    width: int,
    height: int,
    color: (u8, u8, u8),
    points: Seq<(u32, u32)>,
) -> bool {
    &&& forall|t: int|
        0 <= t < points.len() ==> {
            &&& (#[trigger] points[t]).0 < width
            &&& points[t].1 < height
            &&& has_dot(keys, scan_index(width, points[t]), color)
        }
    &&& forall|a: int, b: int|
        0 <= a < b < points.len() ==> scan_index(width, #[trigger] points[a]) < scan_index(
            width,
            #[trigger] points[b],
        )
}

/// Groups the dot pixels of a `width`x`height` image by color. `keys[p]` is
/// the (8-bit) dot color of pixel `p` in scan order, or `None` for a
/// background pixel. The groups come in ascending `(r, g, b)` order, each
/// non-empty, holding exactly the pixels of its color in scan order.
#[verifier::rlimit(60)]
#[verifier::spinoff_prover]
pub fn group_dots(width: u32, height: u32, keys: &Vec<Option<(u8, u8, u8)>>) -> (groups: Vec<
    DotGroup,
>)
    requires
        keys@.len() == width * height,
        keys@.len() < 0x100_0000_0000,
    ensures
        forall|a: int, b: int|
            0 <= a < b < groups@.len() ==> color_code((#[trigger] groups@[a]).color) < color_code(
                (#[trigger] groups@[b]).color,
            ),
        forall|g: int|
            0 <= g < groups@.len() ==> (#[trigger] groups@[g]).points@.len() > 0 && group_is_sound(
                keys@,
                width as int,
                height as int,
                groups@[g].color,
                groups@[g].points@,
            ),
        forall|p: int, c: (u8, u8, u8)|
            has_dot(keys@, p, c) ==> exists|g: int, t: int|
                0 <= g < groups@.len() && 0 <= t < groups@[g].points@.len() && (#[trigger] groups@[g]).color
                    == c && #[trigger] groups@[g].points@[t] == pixel_at(width as int, p),
{
    let mut s = pack_dots(keys);
    let ghost input = s@;
    sort_ascending(&mut s);
    proof {
        input.lemma_multiset_has_no_duplicates();
        assert forall|x: u64| s@.to_multiset().contains(x) implies s@.to_multiset().count(x) == 1 by {
            assert(input.to_multiset().count(x) == 1);
        }
        s@.lemma_multiset_has_no_duplicates_conv();
        assert forall|j: int| 0 <= j < s@.len() implies packed_is_dot(keys@, #[trigger] s@[j] as int) by {
            assert(s@.contains(s@[j]));
            assert(s@.to_multiset().count(s@[j]) > 0);
            assert(input.contains(s@[j]));
            let k = choose|k: int| 0 <= k < input.len() && input[k] == s@[j];
            assert(packed_is_dot(keys@, input[k] as int));
        }
    }
    let m = s.len();
    let ghost w = width as int;
    let ghost h = height as int;
    let mut groups: Vec<DotGroup> = Vec::new();
    let mut cur_color: (u8, u8, u8) = (0, 0, 0);
    let mut cur_code: u64 = 0;
    let mut cur: Vec<(u32, u32)> = Vec::new();
    let ghost mut place: Seq<(int, int)> = Seq::empty();
    let mut i: usize = 0;
    while i < m
        invariant
            m == s@.len(),
            i <= m,
            keys@.len() == width * height,
            w == width,
            h == height,
            s@.no_duplicates(),
            forall|a: int, b: int| 0 <= a <= b < s@.len() ==> s@[a] <= s@[b],
            forall|j: int| 0 <= j < s@.len() ==> packed_is_dot(keys@, #[trigger] s@[j] as int),
            (i == 0) == (cur@.len() == 0),
            i == 0 ==> groups@.len() == 0,
            i > 0 ==> cur_code == (s@[i - 1] as int) / pack_shift(),
            i > 0 ==> color_code(cur_color) == cur_code,
            i > 0 ==> cur@.last() == pixel_at(w, (s@[i - 1] as int) % pack_shift()),
            group_is_sound(keys@, w, h, cur_color, cur@),
            forall|g: int|
                0 <= g < groups@.len() ==> (#[trigger] groups@[g]).points@.len() > 0 && group_is_sound(
                    keys@,
                    w,
                    h,
                    groups@[g].color,
                    groups@[g].points@,
                ),
            forall|a: int, b: int|
                0 <= a < b < groups@.len() ==> color_code((#[trigger] groups@[a]).color) < color_code(
                    (#[trigger] groups@[b]).color,
                ),
            forall|g: int| 0 <= g < groups@.len() ==> color_code((#[trigger] groups@[g]).color) < cur_code,
            place.len() == i,
            forall|k: int|
                0 <= k < i ==> placed_at(
                    groups@,
                    cur_code as int,
                    cur@,
                    w,
                    s@[k] as int,
                    (#[trigger] place[k]).0,
                    place[k].1,
                ),
        decreases m - i,
    {
        let v = s[i];
        let code = v / 0x100_0000_0000;
        let p = v % 0x100_0000_0000;
        proof {
            assert(packed_is_dot(keys@, v as int));
            lemma_pixel_at(w, h, p as int);
        }
        let pt: (u32, u32) = ((p % (width as u64)) as u32, (p / (width as u64)) as u32);
        assert(pt == pixel_at(w, p as int));
        assert(scan_index(w, pt) == p);
        if i > 0 && code == cur_code {
            proof {
                assert(s@[i - 1] <= v);
                assert(s@[i - 1] != v);
                assert((s@[i - 1] as int) % pack_shift() < p) by {
                    let a = s@[i - 1] as int;
                    vstd::arithmetic::div_mod::lemma_fundamental_div_mod(a, pack_shift());
                    vstd::arithmetic::div_mod::lemma_fundamental_div_mod(v as int, pack_shift());
                }
                lemma_pixel_at(w, h, (s@[i - 1] as int) % pack_shift());
            }
            let ghost before = cur@;
            cur.push(pt);
            proof {
                assert forall|a: int, b: int| 0 <= a < b < cur@.len() implies scan_index(
                    w,
                    #[trigger] cur@[a],
                ) < scan_index(w, #[trigger] cur@[b]) by {
                    if b < before.len() {
                        assert(cur@[a] == before[a] && cur@[b] == before[b]);
                    } else {
                        assert(cur@[a] == before[a]);
                        if a < before.len() - 1 {
                            assert(scan_index(w, before[a]) < scan_index(w, before[before.len() - 1]));
                        }
                    }
                }
                assert forall|t: int| 0 <= t < cur@.len() implies {
                    &&& (#[trigger] cur@[t]).0 < w
                    &&& cur@[t].1 < h
                    &&& has_dot(keys@, scan_index(w, cur@[t]), cur_color)
                } by {
                    if t < before.len() {
                        assert(cur@[t] == before[t]);
                    } else {
                        lemma_color_code(cur_color);
                    }
                }
                place = place.push((groups@.len() as int, before.len() as int));
                assert forall|k: int| 0 <= k < i + 1 implies placed_at(
                    groups@,
                    cur_code as int,
                    cur@,
                    w,
                    s@[k] as int,
                    (#[trigger] place[k]).0,
                    place[k].1,
                ) by {
                    if k < i {
                        let (g, t) = place[k];
                        if g == groups@.len() {
                            assert(cur@[t] == before[t]);
                        }
                    }
                }
            }
        } else {
            let ghost old_groups = groups@;
            let ghost old_cur = cur@;
            let ghost old_code = cur_code;
            let ghost old_color = cur_color;
            proof {
                if i > 0 {
                    assert(s@[i - 1] <= v);
                    assert((s@[i - 1] as int) / pack_shift() <= code) by {
                        vstd::arithmetic::div_mod::lemma_div_is_ordered(
                            s@[i - 1] as int,
                            v as int,
                            pack_shift(),
                        );
                    }
                }
                lemma_color_code(code_color(code as int));
            }
            if i > 0 {
                groups.push(DotGroup { color: cur_color, points: cur });
            }
            let color: (u8, u8, u8) = ((code / 65536) as u8, ((code / 256) % 256) as u8, (code % 256) as u8);
            assert(color == code_color(code as int));
            cur_color = color;
            cur_code = code;
            cur = Vec::new();
            cur.push(pt);
            proof {
                assert forall|g: int| 0 <= g < groups@.len() implies color_code(
                    (#[trigger] groups@[g]).color,
                ) < cur_code by {
                    assert(i > 0 ==> old_code < code);
                    if g < old_groups.len() {
                        assert(groups@[g] == old_groups[g]);
                        assert(color_code(old_groups[g].color) < old_code);
                    } else {
                        assert(groups@[g].color == old_color);
                        assert(color_code(old_color) == old_code);
                    }
                }
                assert forall|a: int, b: int| 0 <= a < b < groups@.len() implies color_code(
                    (#[trigger] groups@[a]).color,
                ) < color_code((#[trigger] groups@[b]).color) by {
                    assert(groups@[a] == old_groups[a]);
                    if b < old_groups.len() {
                        assert(groups@[b] == old_groups[b]);
                    }
                }
                assert forall|g: int| 0 <= g < groups@.len() implies (#[trigger] groups@[g]).points@.len()
                    > 0 && group_is_sound(keys@, w, h, groups@[g].color, groups@[g].points@) by {
                    if g < old_groups.len() {
                        assert(groups@[g] == old_groups[g]);
                    }
                }
                assert(group_is_sound(keys@, w, h, cur_color, cur@)) by {
                    assert(cur@[0] == pt);
                }
                place = place.push((groups@.len() as int, 0int));
                assert forall|k: int| 0 <= k < i + 1 implies placed_at(
                    groups@,
                    cur_code as int,
                    cur@,
                    w,
                    s@[k] as int,
                    (#[trigger] place[k]).0,
                    place[k].1,
                ) by {
                    if k < i {
                        let (g, t) = place[k];
                        if g < old_groups.len() {
                            assert(groups@[g] == old_groups[g]);
                        } else {
                            assert(groups@[g].points@ == old_cur);
                            assert(groups@[g].color == old_color);
                        }
                    }
                }
            }
        }
        i = i + 1;
    }
    let ghost last_groups = groups@;
    let ghost last_cur = cur@;
    let ghost last_color = cur_color;
    let ghost last_code = cur_code;
    if m > 0 {
        groups.push(DotGroup { color: cur_color, points: cur });
    }
    proof {
        assert forall|p: int, c: (u8, u8, u8)| has_dot(keys@, p, c) implies exists|g: int, t: int|
            0 <= g < groups@.len() && 0 <= t < groups@[g].points@.len() && (#[trigger] groups@[g]).color
                == c && #[trigger] groups@[g].points@[t] == pixel_at(width as int, p) by {
            lemma_color_code(c);
            let packed = (color_code(c) * pack_shift() + p) as u64;
            lemma_pack(color_code(c), p);
            assert(input.contains(packed));
            assert(input.to_multiset().count(packed) > 0);
            assert(s@.contains(packed));
            let k = choose|k: int| 0 <= k < s@.len() && s@[k] == packed;
            let (g, t) = place[k];
            assert(placed_at(last_groups, last_code as int, last_cur, w, s@[k] as int, g, t));
            if g < last_groups.len() {
                assert(groups@[g] == last_groups[g]);
                assert(color_code(groups@[g].color) == color_code(c));
                lemma_color_code(groups@[g].color);
                assert(groups@[g].points@[t] == pixel_at(width as int, p));
            } else {
                assert(groups@[g].color == last_color);
                assert(groups@[g].points@ == last_cur);
                lemma_color_code(last_color);
                assert(groups@[g].points@[t] == pixel_at(width as int, p));
            }
        }
    }
    groups
}

/// The dot drawn for pixel `(x, y)`: a circle centred in the pixel.
pub open spec fn circle_text(pt: (u32, u32), radius: Seq<char>) -> Seq<char> {
    "    <circle cx=\""@ + decimal(pt.0 as nat) + ".50\" cy=\""@ + decimal(pt.1 as nat)
        + ".50\" r=\""@ + radius + "\"/>\n"@
}

/// The dots of a run of points, one line each.
pub open spec fn circles_text(points: Seq<(u32, u32)>, radius: Seq<char>) -> Seq<char>
    decreases points.len(),
{
    if points.len() == 0 {
        Seq::empty()
    } else {
        circles_text(points.drop_last(), radius) + circle_text(points.last(), radius)
    }
}

/// The opening line of a color group.
pub open spec fn group_open_text(c: (u8, u8, u8)) -> Seq<char> {
    "  <g fill=\"rgb("@ + decimal(c.0 as nat) + ","@ + decimal(c.1 as nat) + ","@ + decimal(
        c.2 as nat,
    ) + ")\">\n"@
}

/// One color group: its opening line, its dots, its closing line.
pub open spec fn group_text(g: DotGroup, radius: Seq<char>) -> Seq<char> {
    group_open_text(g.color) + circles_text(g.points@, radius) + "  </g>\n"@
}

/// The color groups, one after another.
pub open spec fn groups_text(groups: Seq<DotGroup>, radius: Seq<char>) -> Seq<char>
    decreases groups.len(),
{
    if groups.len() == 0 {
        Seq::empty()
    } else {
        groups_text(groups.drop_last(), radius) + group_text(groups.last(), radius)
    }
}

/// The opening `<svg>` line for a `width`x`height` document.
pub open spec fn svg_open_text(width: nat, height: nat) -> Seq<char> {
    "<svg xmlns=\"http://www.w3.org/2000/svg\" width=\""@ + decimal(width) + "\" height=\""@
        + decimal(height) + "\" viewBox=\"0 0 "@ + decimal(width) + " "@ + decimal(height)
        + "\">\n"@
}

/// The whole dot document.
pub open spec fn dots_svg_text(width: nat, height: nat, groups: Seq<DotGroup>, radius: Seq<char>) -> Seq<
    char,
> {
    svg_open_text(width, height) + groups_text(groups, radius) + "</svg>\n"@
}

fn append_circle(svg: &mut String, pt: (u32, u32), radius_text: &str)
    ensures
        final(svg)@ == old(svg)@ + circle_text(pt, radius_text@),
{
    svg.append("    <circle cx=\"");
    svg.append(decimal_string(pt.0 as u64).as_str());
    svg.append(".50\" cy=\"");
    svg.append(decimal_string(pt.1 as u64).as_str());
    svg.append(".50\" r=\"");
    svg.append(radius_text);
    svg.append("\"/>\n");
    assert(svg@ =~= old(svg)@ + circle_text(pt, radius_text@));
}

fn append_group(svg: &mut String, g: &DotGroup, radius_text: &str)
    ensures
        final(svg)@ == old(svg)@ + group_text(*g, radius_text@),
{
    svg.append("  <g fill=\"rgb(");
    svg.append(decimal_string(g.color.0 as u64).as_str());
    svg.append(",");
    svg.append(decimal_string(g.color.1 as u64).as_str());
    svg.append(",");
    svg.append(decimal_string(g.color.2 as u64).as_str());
    svg.append(")\">\n");
    assert(svg@ =~= old(svg)@ + group_open_text(g.color));
    let ghost opened = svg@;
    let m = g.points.len();
    let mut t: usize = 0;
    assert(g.points@.take(0) =~= Seq::<(u32, u32)>::empty());
    assert(opened + circles_text(g.points@.take(0), radius_text@) =~= opened);
    while t < m
        invariant
            m == g.points@.len(),
            t <= m,
            svg@ == opened + circles_text(g.points@.take(t as int), radius_text@),
        decreases m - t,
    {
        let ghost prev = svg@;
        append_circle(svg, g.points[t], radius_text);
        proof {
            assert(g.points@.take(t + 1).drop_last() =~= g.points@.take(t as int));
            assert(svg@ =~= opened + circles_text(g.points@.take(t + 1), radius_text@));
        }
        t = t + 1;
    }
    svg.append("  </g>\n");
    assert(g.points@.take(m as int) =~= g.points@);
    assert(svg@ =~= old(svg)@ + group_text(*g, radius_text@));
}

/// Writes grouped dots as an SVG document: one `<g>` per color, one
/// `<circle>` per point centred in its pixel (`x + 0.5`, `y + 0.5`, two
/// decimals), with radius `radius_text` as given.
pub fn render_dots_svg(width: u32, height: u32, groups: &Vec<DotGroup>, radius_text: &str) -> (svg:
    String)
    ensures
        svg@ == dots_svg_text(width as nat, height as nat, groups@, radius_text@),
{
    let mut svg = String::from_str("<svg xmlns=\"http://www.w3.org/2000/svg\" width=\"");
    let ws = decimal_string(width as u64);
    let hs = decimal_string(height as u64);
    svg.append(ws.as_str());
    svg.append("\" height=\"");
    svg.append(hs.as_str());
    svg.append("\" viewBox=\"0 0 ");
    svg.append(ws.as_str());
    svg.append(" ");
    svg.append(hs.as_str());
    svg.append("\">\n");
    let ghost header = svg@;
    assert(header =~= svg_open_text(width as nat, height as nat));
    let n = groups.len();
    let mut gi: usize = 0;
    assert(groups@.take(0) =~= Seq::<DotGroup>::empty());
    assert(header + groups_text(groups@.take(0), radius_text@) =~= header);
    while gi < n
        invariant
            n == groups@.len(),
            gi <= n,
            svg@ == header + groups_text(groups@.take(gi as int), radius_text@),
        decreases n - gi,
    {
        append_group(&mut svg, &groups[gi], radius_text);
        proof {
            assert(groups@.take(gi + 1).drop_last() =~= groups@.take(gi as int));
            assert(svg@ =~= header + groups_text(groups@.take(gi + 1), radius_text@));
        }
        gi = gi + 1;
    }
    svg.append("</svg>\n");
    assert(groups@.take(n as int) =~= groups@);
    svg
}

/// The written form of group `k` in the run of groups: where it stands in
/// `groups_text`, split into the text before and after it.
proof fn lemma_groups_text_holds_group(groups: Seq<DotGroup>, radius: Seq<char>, k: int) -> (parts: (
    Seq<char>,
    Seq<char>,
))
    requires
        0 <= k < groups.len(),
    ensures
        groups_text(groups, radius) == parts.0 + group_text(groups[k], radius) + parts.1,
    decreases groups.len(),
{
    let rest = groups.drop_last();
    if k == groups.len() - 1 {
        let parts = (groups_text(rest, radius), Seq::<char>::empty());
        assert(groups_text(groups, radius) =~= parts.0 + group_text(groups[k], radius) + parts.1);
        parts
    } else {
        let inner = lemma_groups_text_holds_group(rest, radius, k);
        assert(rest[k] == groups[k]);
        let parts = (inner.0, inner.1 + group_text(groups.last(), radius));
        assert(groups_text(groups, radius) =~= parts.0 + group_text(groups[k], radius) + parts.1);
        parts
    }
}

/// Every colour group of the dot SVG is written with its own colour as
/// its fill, red, green and blue in that order as decimal numbers, and is
/// followed by that group's dots; the result gives the text before and
/// after that group.
#[verifier::spinoff_prover]
pub proof fn lemma_svg_fill_is_group_color(
    width: nat,
    height: nat,
    groups: Seq<DotGroup>,
    radius: Seq<char>,
    k: int,
) -> (parts: (Seq<char>, Seq<char>))
    requires
        0 <= k < groups.len(),
    ensures
        dots_svg_text(width, height, groups, radius) == parts.0 + ("  <g fill=\"rgb("@ + decimal(
            groups[k].color.0 as nat,
        ) + ","@ + decimal(groups[k].color.1 as nat) + ","@ + decimal(groups[k].color.2 as nat)
            + ")\">\n"@) + circles_text(groups[k].points@, radius) + "  </g>\n"@ + parts.1,
{
    let g = groups[k];
    let line = "  <g fill=\"rgb("@ + decimal(g.color.0 as nat) + ","@ + decimal(g.color.1 as nat)
        + ","@ + decimal(g.color.2 as nat) + ")\">\n"@;
    let dots = circles_text(g.points@, radius);
    let close = "  </g>\n"@;
    assert(group_open_text(g.color) == line);
    assert(group_text(g, radius) == line + dots + close);
    let inner = lemma_groups_text_holds_group(groups, radius, k);
    let pre = svg_open_text(width, height) + inner.0;
    let post = inner.1 + "</svg>\n"@;
    let whole = dots_svg_text(width, height, groups, radius);
    assert(whole == svg_open_text(width, height) + groups_text(groups, radius) + "</svg>\n"@);
    assert(whole =~= pre + group_text(g, radius) + post);
    assert(pre + (line + dots + close) + post =~= pre + line + dots + close + post);
    (pre, post)
}

} // verus!
