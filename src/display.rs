//! Monitors and the rule that decides which one a window occupies.
use vstd::prelude::*;
use crate::text::utf8_text;

verus! {

/// A monitor: its name and its rectangle in root coordinates.
#[derive(Clone, Debug)]
pub struct XDisplay {
    pub name: String,
    pub x: i16,
    pub y: i16,
    pub w: u16,
    pub h: u16,
}

impl XDisplay {
    /// A monitor whose name arrives as UTF-8 bytes; `None` where they are not
    /// valid UTF-8.
    pub fn from_name_bytes(name: &[u8], x: i16, y: i16, w: u16, h: u16) -> (r: Option<XDisplay>)
        ensures
            r is Some <==> vstd::utf8::valid_utf8(name@),
            r is Some ==> r->0.name@ == vstd::utf8::decode_utf8(name@) && r->0.x == x && r->0.y
                == y && r->0.w == w && r->0.h == h,
    {
        match utf8_text(name) {
            Some(n) => Some(XDisplay { name: n, x, y, w, h }),
            None => None,
        }
    }
}

/// The window's center point `(x + w/2, y + h/2)` lies on the monitor.
pub open spec fn center_on(d: XDisplay, x: int, y: int, w: int, h: int) -> bool {
    let cx = x + w / 2;
    let cy = y + h / 2;
    &&& d.x <= cx < d.x + d.w
    &&& d.y <= cy < d.y + d.h
}

pub open spec fn max_of(a: int, b: int) -> int {
    if a >= b {
        a
    } else {
        b
    }
}

pub open spec fn min_of(a: int, b: int) -> int {
    if a <= b {
        a
    } else {
        b
    }
}

/// The area that the window's rectangle shares with the monitor.
pub open spec fn overlap(d: XDisplay, x: int, y: int, w: int, h: int) -> int {
    let x1 = max_of(x, d.x as int);
    let y1 = max_of(y, d.y as int);
    let x2 = min_of(x + w, d.x + d.w);
    let y2 = min_of(y + h, d.y + d.h);
    if x1 < x2 && y1 < y2 {
        (x2 - x1) * (y2 - y1)
    } else {
        0
    }
}

/// The first of the first `n` monitors that holds the center point.
pub open spec fn first_center(ds: Seq<XDisplay>, x: int, y: int, w: int, h: int, n: int) -> Option<int>
    decreases n,
{
    if n <= 0 {
        None
    } else {
        match first_center(ds, x, y, w, h, n - 1) {
            Some(j) => Some(j),
            None => if center_on(ds[n - 1], x, y, w, h) {
                Some(n - 1)
            } else {
                None
            },
        }
    }
}

/// Among the first `n` monitors, the first one with the largest positive
/// overlap.
pub open spec fn best_overlap(ds: Seq<XDisplay>, x: int, y: int, w: int, h: int, n: int) -> Option<int>
    decreases n,
{
    if n <= 0 {
        None
    } else {
        let b = best_overlap(ds, x, y, w, h, n - 1);
        let best_area = match b {
            Some(j) => overlap(ds[j], x, y, w, h),
            None => 0,
        };
        if overlap(ds[n - 1], x, y, w, h) > best_area {
            Some(n - 1)
        } else {
            b
        }
    }
}

/// The monitor that a window occupies: the first holding its center,
/// otherwise the first with the largest overlap, otherwise none.
pub open spec fn affinity(ds: Seq<XDisplay>, x: int, y: int, w: int, h: int) -> Option<int> {
    match first_center(ds, x, y, w, h, ds.len() as int) {
        Some(i) => Some(i),
        None => best_overlap(ds, x, y, w, h, ds.len() as int),
    }
}

/// The name published for a window's monitor; empty where it is on none.
pub open spec fn affinity_name(ds: Seq<XDisplay>, x: int, y: int, w: int, h: int) -> Seq<char> {
    match affinity(ds, x, y, w, h) {
        Some(i) => ds[i].name@,
        None => Seq::empty(),
    }
}

proof fn lemma_first_center(ds: Seq<XDisplay>, x: int, y: int, w: int, h: int, n: int)
    requires
        0 <= n <= ds.len(),
    ensures
        match first_center(ds, x, y, w, h, n) {
            Some(i) => 0 <= i < n && center_on(ds[i], x, y, w, h) && forall|j: int|
                0 <= j < i ==> !center_on(#[trigger] ds[j], x, y, w, h),
            None => forall|j: int| 0 <= j < n ==> !center_on(#[trigger] ds[j], x, y, w, h),
        },
    decreases n,
{
    if n > 0 {
        lemma_first_center(ds, x, y, w, h, n - 1);
    }
}

proof fn lemma_first_center_stable(ds: Seq<XDisplay>, x: int, y: int, w: int, h: int, m: int, n: int)
    requires
        0 <= m <= n,
        first_center(ds, x, y, w, h, m) is Some,
    ensures
        first_center(ds, x, y, w, h, n) == first_center(ds, x, y, w, h, m),
    decreases n - m,
{
    if n > m {
        lemma_first_center_stable(ds, x, y, w, h, m, n - 1);
    }
}

proof fn lemma_best_overlap(ds: Seq<XDisplay>, x: int, y: int, w: int, h: int, n: int)
    requires
        0 <= n <= ds.len(),
    ensures
        match best_overlap(ds, x, y, w, h, n) {
            Some(i) => 0 <= i < n && overlap(ds[i], x, y, w, h) > 0 && (forall|j: int|
                0 <= j < n ==> overlap(#[trigger] ds[j], x, y, w, h) <= overlap(ds[i], x, y, w, h))
                && (forall|j: int|
                0 <= j < i ==> overlap(#[trigger] ds[j], x, y, w, h) < overlap(ds[i], x, y, w, h)),
            None => forall|j: int| 0 <= j < n ==> overlap(#[trigger] ds[j], x, y, w, h) <= 0,
        },
    decreases n,
{
    if n > 0 {
        lemma_best_overlap(ds, x, y, w, h, n - 1);
    }
}

proof fn lemma_overlap_nonneg(d: XDisplay, x: int, y: int, w: int, h: int)
    ensures
        overlap(d, x, y, w, h) >= 0,
{
    let x1 = max_of(x, d.x as int);
    let y1 = max_of(y, d.y as int);
    let x2 = min_of(x + w, d.x + d.w);
    let y2 = min_of(y + h, d.y + d.h);
    if x1 < x2 && y1 < y2 {
        assert((x2 - x1) * (y2 - y1) > 0) by (nonlinear_arith)
            requires
                x1 < x2,
                y1 < y2,
        ;
    }
}

/// Display affinity: a window whose center lies on a monitor is published
/// on the first such monitor; otherwise on the first monitor of largest
/// overlap; otherwise on none.
pub proof fn lemma_display_affinity(ds: Seq<XDisplay>, x: int, y: int, w: int, h: int)
    ensures
        match affinity(ds, x, y, w, h) {
            Some(i) => 0 <= i < ds.len() && ((center_on(ds[i], x, y, w, h) && forall|j: int|
                0 <= j < i ==> !center_on(#[trigger] ds[j], x, y, w, h)) || ((forall|j: int|
                0 <= j < ds.len() ==> !center_on(#[trigger] ds[j], x, y, w, h)) && overlap(
                ds[i],
                x,
                y,
                w,
                h,
            ) > 0 && (forall|j: int|
                0 <= j < ds.len() ==> overlap(#[trigger] ds[j], x, y, w, h) <= overlap(
                    ds[i],
                    x,
                    y,
                    w,
                    h,
                )) && (forall|j: int|
                0 <= j < i ==> overlap(#[trigger] ds[j], x, y, w, h) < overlap(ds[i], x, y, w, h)))),
            None => forall|j: int|
                0 <= j < ds.len() ==> !center_on(#[trigger] ds[j], x, y, w, h) && overlap(
                    ds[j],
                    x,
                    y,
                    w,
                    h,
                ) == 0,
        },
{
    let n = ds.len() as int;
    lemma_first_center(ds, x, y, w, h, n);
    lemma_best_overlap(ds, x, y, w, h, n);
    assert forall|j: int| 0 <= j < n implies overlap(#[trigger] ds[j], x, y, w, h) >= 0 by {
        lemma_overlap_nonneg(ds[j], x, y, w, h);
    }
}

fn center_on_exec(d: &XDisplay, x: i16, y: i16, w: u16, h: u16) -> (r: bool)
    ensures
        r == center_on(*d, x as int, y as int, w as int, h as int),
{
    let cx: i32 = x as i32 + (w as i32) / 2;
    let cy: i32 = y as i32 + (h as i32) / 2;
    d.x as i32 <= cx && cx < d.x as i32 + d.w as i32 && d.y as i32 <= cy && cy < d.y as i32
        + d.h as i32
}

fn overlap_exec(d: &XDisplay, x: i16, y: i16, w: u16, h: u16) -> (r: u64)
    ensures
        r == overlap(*d, x as int, y as int, w as int, h as int),
{
    let x1: i32 = if x as i32 >= d.x as i32 {
        x as i32
    } else {
        d.x as i32
    };
    let y1: i32 = if y as i32 >= d.y as i32 {
        y as i32
    } else {
        d.y as i32
    };
    let x2: i32 = if x as i32 + w as i32 <= d.x as i32 + d.w as i32 {
        x as i32 + w as i32
    } else {
        d.x as i32 + d.w as i32
    };
    let y2: i32 = if y as i32 + h as i32 <= d.y as i32 + d.h as i32 {
        y as i32 + h as i32
    } else {
        d.y as i32 + d.h as i32
    };
    if x1 < x2 && y1 < y2 {
        let dx: u64 = (x2 - x1) as u64;
        let dy: u64 = (y2 - y1) as u64;
        assert(dx <= 65535 && dy <= 65535);
        assert(dx * dy <= 65535 * 65535) by (nonlinear_arith)
            requires
                dx <= 65535,
                dy <= 65535,
        ;
        dx * dy
    } else {
        0
    }
}

/// The index of the monitor a window occupies (see `affinity`).
pub fn pick_display(displays: &Vec<XDisplay>, x: i16, y: i16, w: u16, h: u16) -> (r: Option<usize>)
    ensures
        r matches Some(i) ==> i < displays@.len(),
        r matches Some(i) ==> affinity(displays@, x as int, y as int, w as int, h as int) == Some(
            i as int,
        ),
        r is None ==> affinity(displays@, x as int, y as int, w as int, h as int) is None,
{
    let ghost ds = displays@;
    let n = displays.len();
    let mut i: usize = 0;
    while i < n
        invariant
            n == ds.len(),
            ds == displays@,
            i <= n,
            first_center(ds, x as int, y as int, w as int, h as int, i as int) is None,
        decreases n - i,
    {
        if center_on_exec(&displays[i], x, y, w, h) {
            proof {
                lemma_first_center_stable(ds, x as int, y as int, w as int, h as int, i + 1, n as int);
            }
            return Some(i);
        }
        i = i + 1;
    }
    let mut best: Option<usize> = None;
    let mut best_area: u64 = 0;
    let mut k: usize = 0;
    while k < n
        invariant
            n == ds.len(),
            ds == displays@,
            k <= n,
            first_center(ds, x as int, y as int, w as int, h as int, n as int) is None,
            match best {
                Some(j) => best_overlap(ds, x as int, y as int, w as int, h as int, k as int) == Some(
                    j as int,
                ) && j < k && best_area == overlap(ds[j as int], x as int, y as int, w as int, h as int),
                None => best_overlap(ds, x as int, y as int, w as int, h as int, k as int) is None
                    && best_area == 0,
            },
        decreases n - k,
    {
        let area = overlap_exec(&displays[k], x, y, w, h);
        if area > best_area {
            best = Some(k);
            best_area = area;
        }
        k = k + 1;
    }
    best
}

/// The name of the monitor a window occupies; empty where it is on none.
pub fn calc_window_display(displays: &Vec<XDisplay>, x: i16, y: i16, w: u16, h: u16) -> (r: String)
    ensures
        r@ == affinity_name(displays@, x as int, y as int, w as int, h as int),
{
    match pick_display(displays, x, y, w, h) {
        Some(i) => displays[i].name.clone(),
        None => String::new(),
    }
}

} // verus!
