//! The dB ruler drawn under the input level meter: tick labels from the
//! meter floor (-60 dBFS, left edge) to 0 dBFS (right edge).
use vstd::prelude::*;
use crate::text::push_char;

verus! {

/// The meter's floor, in dBFS: the left edge of the ruler.
pub const RULER_FLOOR_DB: i32 = -60;

/// How many tick labels the ruler tries to place.
pub const RULER_MARK_COUNT: usize = 6;

/// The dB value of tick `i`, quietest first: -60, -48, -36, -24, -12, 0.
pub open spec fn mark_db(i: int) -> int {
    -60 + 12 * i
}

/// The label of tick `i`.
pub open spec fn mark_label(i: int) -> Seq<char> {
    if i == 0 {
        seq!['-', '6', '0']
    } else if i == 1 {
        seq!['-', '4', '8']
    } else if i == 2 {
        seq!['-', '3', '6']
    } else if i == 3 {
        seq!['-', '2', '4']
    } else if i == 4 {
        seq!['-', '1', '2']
    } else {
        seq!['0']
    }
}

/// The column on which tick `i` is centred in a ruler `width` columns wide:
/// its share of the way from the floor to 0 dBFS, times the width, rounded
/// to the nearest column.
pub open spec fn mark_center(i: int, width: nat) -> int {
    ((mark_db(i) + 60) * width + 30) / 60
}

/// The first column of tick `i`'s label: centred on its column, but never
/// left of the ruler's start and, where the label would run past the right
/// edge (the 0 dBFS tick sits on it), moved left to end flush with it.
pub open spec fn mark_start(i: int, width: nat) -> int {
    let len = mark_label(i).len() as int;
    let s = mark_center(i, width) - len / 2;
    let s0 = if s < 0 {
        0
    } else {
        s
    };
    if s0 + len > width {
        width - len
    } else {
        s0
    }
}

/// The cells `[start, start + len)` of `buf` are all blank.
pub open spec fn cells_blank(buf: Seq<char>, start: int, len: int) -> bool {
    forall|j: int| start <= j < start + len ==> buf[j] == ' '
}

/// Tick `i` fits at its place in `buf`: the ruler is as wide as its label,
/// and the cells it takes are blank.
pub open spec fn mark_fits(buf: Seq<char>, i: int) -> bool {
    let start = mark_start(i, buf.len());
    let len = mark_label(i).len() as int;
    len <= buf.len() && cells_blank(buf, start, len)
}

/// `buf` with `label` written from column `start` on.
pub open spec fn write_label(buf: Seq<char>, start: int, label: Seq<char>) -> Seq<char> {
    Seq::new(
        buf.len(),
        |j: int|
            if start <= j < start + label.len() {
                label[j - start]
            } else {
                buf[j]
            },
    )
}

/// `buf` after trying to place tick `i`: written when it fits, else unchanged.
pub open spec fn place_mark(buf: Seq<char>, i: int) -> Seq<char> {
    if mark_fits(buf, i) {
        write_label(buf, mark_start(i, buf.len()), mark_label(i))
    } else {
        buf
    }
}

/// The ruler after trying the first `k` ticks, in order, on a blank line of
/// `width` columns.
pub open spec fn ruler_after(width: nat, k: nat) -> Seq<char>
    decreases k,
{
    if k == 0 {
        Seq::new(width, |j: int| ' ')
    } else {
        place_mark(ruler_after(width, (k - 1) as nat), k - 1)
    }
}

/// The whole ruler: every tick tried, quietest first.
pub open spec fn ruler_text(width: nat) -> Seq<char> {
    ruler_after(width, RULER_MARK_COUNT as nat)
}

/// The label of tick `i`, as characters.
fn mark_label_chars(i: usize) -> (r: Vec<char>)
    requires
        i < RULER_MARK_COUNT,
    ensures
        r@ == mark_label(i as int),
{
    let r = if i == 0 {
        vec!['-', '6', '0']
    } else if i == 1 {
        vec!['-', '4', '8']
    } else if i == 2 {
        vec!['-', '3', '6']
    } else if i == 3 {
        vec!['-', '2', '4']
    } else if i == 4 {
        vec!['-', '1', '2']
    } else {
        vec!['0']
    };
    assert(r@ =~= mark_label(i as int));
    r
}

/// The first column of tick `i`'s label in a ruler `width` columns wide.
fn label_start(i: usize, width: usize, len: usize) -> (r: u128)
    requires
        i < RULER_MARK_COUNT,
        len == mark_label(i as int).len(),
        len <= width,
    ensures
        r == mark_start(i as int, width as nat),
        r + len <= width,
{
    let a: u128 = 12 * (i as u128);
    let w: u128 = width as u128;
    assert(a * w <= 60 * 0xffff_ffff_ffff_ffffu128) by (nonlinear_arith)
        requires
            a <= 60,
            w <= 0xffff_ffff_ffff_ffffu128,
    ;
    let scaled: u128 = a * w + 30;
    let center: u128 = scaled / 60;
    let half: u128 = (len / 2) as u128;
    proof {
        assert((mark_db(i as int) + 60) * width == 12 * (i as int) * width);
    }
    let s0: u128 = if center < half {
        0
    } else {
        center - half
    };
    if s0 + (len as u128) > w {
        w - (len as u128)
    } else {
        s0
    }
}

/// Places tick `i` in `buf` when it fits.
fn place_mark_exec(buf: &mut Vec<char>, i: usize)
    requires
        i < RULER_MARK_COUNT,
    ensures
        final(buf)@ == place_mark(old(buf)@, i as int),
{
    let label = mark_label_chars(i);
    let width = buf.len();
    let len = label.len();
    if len > width {
        return;
    }
    let start = label_start(i, width, len);
    let s: usize = start as usize;
    let mut j: usize = 0;
    while j < len
        invariant
            s + len <= width,
            width == buf.len(),
            j <= len,
            buf@ == old(buf)@,
            s == mark_start(i as int, width as nat),
            len == mark_label(i as int).len(),
            forall|k: int| s <= k < s + j ==> buf@[k] == ' ',
        decreases len - j,
    {
        if buf[s + j] != ' ' {
            proof {
                assert(!cells_blank(buf@, s as int, len as int));
            }
            return;
        }
        j = j + 1;
    }
    let ghost before = buf@;
    let mut k: usize = 0;
    while k < len
        invariant
            s + len <= width,
            width == buf.len(),
            len == label.len(),
            k <= len,
            before.len() == width,
            forall|m: int|
                0 <= m < width ==> buf@[m] == (if s <= m < s + k {
                    label@[m - s]
                } else {
                    before[m]
                }),
        decreases len - k,
    {
        buf.set(s + k, label[k]);
        k = k + 1;
    }
    assert(buf@ =~= write_label(before, s as int, label@));
}

/// The dB ruler for a meter bar `inner_width` columns wide.
///
/// Each tick label is centred on its share of the way from -60 dBFS (left
/// edge) to 0 dBFS (right edge), kept inside the ruler (a label that would
/// run past the right edge ends flush with it); a label wider than the ruler
/// or over a label placed before is left out.
pub fn build_ruler(inner_width: usize) -> (r: String)
    ensures
        r@ == ruler_text(inner_width as nat),
        r@.len() == inner_width,
{
    let mut buf: Vec<char> = Vec::new();
    let mut n: usize = 0;
    while n < inner_width
        invariant
            n <= inner_width,
            buf@ =~= Seq::new(n as nat, |j: int| ' '),
        decreases inner_width - n,
    {
        buf.push(' ');
        n = n + 1;
    }
    assert(buf@ =~= ruler_after(inner_width as nat, 0));
    let mut i: usize = 0;
    while i < RULER_MARK_COUNT
        invariant
            i <= RULER_MARK_COUNT,
            buf@ == ruler_after(inner_width as nat, i as nat),
        decreases RULER_MARK_COUNT - i,
    {
        place_mark_exec(&mut buf, i);
        i = i + 1;
    }
    proof {
        lemma_ruler_width(inner_width as nat, RULER_MARK_COUNT as nat);
    }
    let mut r = String::new();
    let mut c: usize = 0;
    while c < buf.len()
        invariant
            c <= buf.len(),
            r@ =~= buf@.subrange(0, c as int),
        decreases buf.len() - c,
    {
        push_char(&mut r, buf[c]);
        c = c + 1;
    }
    assert(r@ =~= buf@);
    r
}

/// However many ticks have been tried, the ruler keeps its width.
pub proof fn lemma_ruler_width(width: nat, k: nat)
    ensures
        ruler_after(width, k).len() == width,
    decreases k,
{
    if k > 0 {
        lemma_ruler_width(width, (k - 1) as nat);
    }
}

} // verus!
