use vstd::prelude::*;

use crate::key::Key;
use crate::model::{App, KeyUI, KeyboardSize, VerticalKeyPart};

verus! {

/// Height of every row, in terminal cells.
pub const KEY_HEIGHT: u16 = 3;

/// The signed correction of a key cell, zero where it has none.
pub open spec fn correction(k: KeyUI) -> int {
    match k.size_correction {
        Some(c) => c as int,
        None => 0,
    }
}

/// Width of a key cell: the cells of its size plus its correction.
pub open spec fn key_width(k: KeyUI) -> int {
    k.size.cells() + correction(k)
}

/// Width of a key cell as drawn: `key_width`, or zero where that is negative.
pub open spec fn drawn_width(k: KeyUI) -> int {
    if key_width(k) < 0 {
        0
    } else {
        key_width(k)
    }
}

/// Width of a row: the sum of the widths of its keys.
pub open spec fn row_width(keys: Seq<KeyUI>) -> int
    decreases keys.len(),
{
    if keys.len() == 0 {
        0
    } else {
        row_width(keys.drop_last()) + key_width(keys.last())
    }
}

/// Width of a row as drawn: the sum of the drawn widths of its keys.
pub open spec fn drawn_row_width(keys: Seq<KeyUI>) -> int
    decreases keys.len(),
{
    if keys.len() == 0 {
        0
    } else {
        drawn_row_width(keys.drop_last()) + drawn_width(keys.last())
    }
}

/// Width of a layout: the width of its widest row, zero where it has no rows.
pub open spec fn max_row_width(rows: Seq<Seq<KeyUI>>) -> int
    decreases rows.len(),
{
    if rows.len() == 0 {
        0
    } else {
        let w = row_width(rows.last());
        let rest = max_row_width(rows.drop_last());
        if w > rest {
            w
        } else {
            rest
        }
    }
}

/// The rows of a table, each as a sequence of key cells.
pub open spec fn table_rows(rows: Seq<Vec<KeyUI>>) -> Seq<Seq<KeyUI>> {
    rows.map_values(|r: Vec<KeyUI>| r@)
}

/// Whether every row width of a table and the height of its layout fit in `u16`.
pub open spec fn table_in_bounds(rows: Seq<Seq<KeyUI>>) -> bool {
    &&& rows.len() * (KEY_HEIGHT as int) <= u16::MAX
    &&& forall|i: int| 0 <= i < rows.len() ==> 0 <= #[trigger] row_width(rows[i]) <= u16::MAX
}

/// A row of key cells with its width.
pub struct Row {
    pub keys: Vec<KeyUI>,
    pub width: u16,
}

/// The geometry of one form factor: its rows, total width and height.
pub struct KeyboardLayout {
    pub rows: Vec<Row>,
    pub height: u16,
    pub width: u16,
    pub rows_count: u16,
}

/// The prepared layouts of the three form factors.
pub struct KeyboardLayouts {
    pub layout_60: KeyboardLayout,
    pub layout_80: KeyboardLayout,
    pub layout_100: KeyboardLayout,
}

impl KeyboardLayout {
    /// The key cells of each row.
    pub open spec fn key_rows(&self) -> Seq<Seq<KeyUI>> {
        self.rows@.map_values(|r: Row| r.keys@)
    }

    /// Every row carries its own width, and the totals agree with the rows.
    pub open spec fn wf(&self) -> bool {
        &&& self.rows_count as int == self.rows@.len()
        &&& self.height as int == self.rows@.len() * (KEY_HEIGHT as int)
        &&& self.width as int == max_row_width(self.key_rows())
        &&& forall|i: int|
            0 <= i < self.rows@.len() ==> #[trigger] self.rows@[i].width as int == row_width(
                self.rows@[i].keys@,
            )
    }
}

proof fn lemma_row_width_bound(keys: Seq<KeyUI>)
    ensures
        -32768 * keys.len() <= row_width(keys) <= 32801 * keys.len(),
        0 <= drawn_row_width(keys) <= 32801 * keys.len(),
    decreases keys.len(),
{
    if keys.len() > 0 {
        lemma_row_width_bound(keys.drop_last());
    }
}

/// The width of two rows placed end to end is the sum of their widths.
pub proof fn lemma_row_width_concat(a: Seq<KeyUI>, b: Seq<KeyUI>)
    ensures
        row_width(a + b) == row_width(a) + row_width(b),
    decreases b.len(),
{
    if b.len() == 0 {
        assert(a + b == a);
    } else {
        assert((a + b).drop_last() == a + b.drop_last());
        lemma_row_width_concat(a, b.drop_last());
    }
}

/// Reordering the keys of a row does not change its width.
pub proof fn lemma_row_width_reorder(a: Seq<KeyUI>, b: Seq<KeyUI>)
    requires
        a.to_multiset() == b.to_multiset(),
    ensures
        row_width(a) == row_width(b),
    decreases a.len(),
{
    broadcast use vstd::seq_lib::group_to_multiset_ensures;

    if a.len() == 0 {
        assert(b.to_multiset().len() == 0);
        assert(b.len() == 0);
    } else {
        let x = a.last();
        assert(a == a.drop_last().push(x));
        assert(a.to_multiset().count(x) > 0);
        assert(b.to_multiset().count(x) > 0);
        assert(b.contains(x));
        let i = choose|i: int| 0 <= i < b.len() && b[i] == x;
        let b1 = b.subrange(0, i);
        let b2 = b.subrange(i + 1, b.len() as int);
        assert(b == b1 + seq![x] + b2);
        let rest = b1 + b2;
        assert(b.remove(i) == rest);
        assert(rest.to_multiset() == b.to_multiset().remove(x));
        assert(a.drop_last().to_multiset() == a.to_multiset().remove(x));
        lemma_row_width_reorder(a.drop_last(), rest);
        lemma_row_width_concat(b1, b2);
        lemma_row_width_concat(b1 + seq![x], b2);
        lemma_row_width_concat(b1, seq![x]);
        assert(seq![x].drop_last() == Seq::<KeyUI>::empty());
        assert(seq![x].last() == x);
        assert(row_width(Seq::<KeyUI>::empty()) == 0);
        assert(row_width(seq![x]) == key_width(x));
        assert(row_width(b) == row_width(b1) + key_width(x) + row_width(b2));
        assert(row_width(a) == row_width(a.drop_last()) + key_width(x));
    }
}

/// Exact width of a row, whatever its sign and size.
fn exact_row_width(row_keys: &[KeyUI]) -> (r: i128)
    ensures
        r as int == row_width(row_keys@),
{
    let mut sum: i128 = 0;
    let mut i: usize = 0;
    while i < row_keys.len()
        invariant
            i <= row_keys@.len(),
            sum as int == row_width(row_keys@.subrange(0, i as int)),
        decreases row_keys@.len() - i,
    {
        proof {
            lemma_row_width_bound(row_keys@.subrange(0, i as int));
            assert(row_keys@.subrange(0, i as int + 1).drop_last() == row_keys@.subrange(0, i as int));
        }
        let k = row_keys[i];
        let c: i16 = match k.size_correction {
            Some(c) => c,
            None => 0,
        };
        sum = sum + k.size.static_len() as i128 + c as i128;
        i = i + 1;
    }
    assert(row_keys@.subrange(0, row_keys@.len() as int) == row_keys@);
    sum
}

/// Width of a row: the sum over its keys of size plus correction.
pub fn calc_row_width(row_keys: &[KeyUI]) -> (r: u16)
    requires
        0 <= row_width(row_keys@) <= u16::MAX,
    ensures
        r as int == row_width(row_keys@),
{
    exact_row_width(row_keys) as u16
}

/// Whether a layout can be prepared from `rows`: its height and every row
/// width fit in `u16`.
pub fn rows_in_bounds(rows: &Vec<Vec<KeyUI>>) -> (r: bool)
    ensures
        r == table_in_bounds(table_rows(rows@)),
{
    if rows.len() > 21845 {
        return false;
    }
    let mut i: usize = 0;
    while i < rows.len()
        invariant
            i <= rows@.len(),
            rows@.len() <= 21845,
            forall|j: int| 0 <= j < i ==> 0 <= #[trigger] row_width(rows@[j]@) <= u16::MAX,
        decreases rows@.len() - i,
    {
        let w = exact_row_width(rows[i].as_slice());
        if w < 0 || w > 65535 {
            assert(table_rows(rows@)[i as int] == rows@[i as int]@);
            return false;
        }
        i = i + 1;
    }
    assert forall|j: int| 0 <= j < table_rows(rows@).len() implies 0 <= #[trigger] row_width(
        table_rows(rows@)[j],
    ) <= u16::MAX by {
        assert(table_rows(rows@)[j] == rows@[j]@);
    }
    true
}

/// Builds the geometry of a form factor from its row table: each row with its
/// width, the width of the widest row, and a height of `KEY_HEIGHT` per row.
pub fn prepare_layout(rows: Vec<Vec<KeyUI>>) -> (r: KeyboardLayout)
    requires
        table_in_bounds(table_rows(rows@)),
    ensures
        r.wf(),
        r.key_rows() == table_rows(rows@),
{
    let n = rows.len();
    let mut out: Vec<Row> = Vec::new();
    let mut width: u16 = 0;
    let mut i: usize = 0;
    while i < n
        invariant
            n == rows@.len(),
            i <= n,
            table_in_bounds(table_rows(rows@)),
            out@.len() == i,
            forall|j: int|
                0 <= j < i ==> (#[trigger] out@[j]).keys@ == rows@[j]@ && out@[j].width as int
                    == row_width(rows@[j]@),
            width as int == max_row_width(table_rows(rows@).subrange(0, i as int)),
        decreases n - i,
    {
        assert(table_rows(rows@)[i as int] == rows@[i as int]@);
        let w = calc_row_width(rows[i].as_slice());
        let keys = rows[i].clone();
        assert(keys@ == rows@[i as int]@);
        proof {
            let t = table_rows(rows@);
            assert(t.subrange(0, i as int + 1).drop_last() == t.subrange(0, i as int));
        }
        if w > width {
            width = w;
        }
        out.push(Row { keys, width: w });
        i = i + 1;
    }
    let r = KeyboardLayout { rows: out, height: n as u16 * KEY_HEIGHT, width, rows_count: n as u16 };
    assert(r.key_rows() =~= table_rows(rows@));
    assert(table_rows(rows@).subrange(0, n as int) == table_rows(rows@));
    r
}

/// Width of a row as drawn: the sum over its keys of size plus correction,
/// each key counted as zero where that is negative.
pub fn calc_static_row_len(row_keys: &[KeyUI]) -> (r: u16)
    requires
        drawn_row_width(row_keys@) <= u16::MAX,
    ensures
        r as int == drawn_row_width(row_keys@),
{
    let mut sum: i128 = 0;
    let mut i: usize = 0;
    while i < row_keys.len()
        invariant
            i <= row_keys@.len(),
            sum as int == drawn_row_width(row_keys@.subrange(0, i as int)),
        decreases row_keys@.len() - i,
    {
        proof {
            lemma_row_width_bound(row_keys@.subrange(0, i as int));
            assert(row_keys@.subrange(0, i as int + 1).drop_last() == row_keys@.subrange(0, i as int));
        }
        sum = sum + row_keys[i].cell_width() as i128;
        i = i + 1;
    }
    proof {
        lemma_row_width_bound(row_keys@);
    }
    assert(row_keys@.subrange(0, row_keys@.len() as int) == row_keys@);
    sum as u16
}

/// Whether a terminal can host a layout: it must be strictly wider and
/// strictly taller than the layout.
pub open spec fn fits(
    layout_width: int,
    layout_height: int,
    terminal_width: int,
    terminal_height: int,
) -> bool {
    terminal_width > layout_width && terminal_height > layout_height
}

/// The fit check is strict: a terminal no wider or no taller than a layout
/// cannot host it, and one strictly larger both ways can.
pub proof fn lemma_fit_is_strict(
    layout_width: int,
    layout_height: int,
    terminal_width: int,
    terminal_height: int,
)
    ensures
        terminal_width <= layout_width ==> !fits(
            layout_width,
            layout_height,
            terminal_width,
            terminal_height,
        ),
        terminal_height <= layout_height ==> !fits(
            layout_width,
            layout_height,
            terminal_width,
            terminal_height,
        ),
        terminal_width > layout_width && terminal_height > layout_height ==> fits(
            layout_width,
            layout_height,
            terminal_width,
            terminal_height,
        ),
{
}

/// Outcome of the fit check.
#[derive(Clone, Copy, Debug, PartialEq, Eq, Structural)]
pub enum SizeCheckResult {
    Fits,
    TooSmall,
}

impl App {
    /// The layout of the selected form factor.
    pub fn layout(&self) -> (r: &KeyboardLayout)
        ensures
            *r == self.spec_layout(),
    {
        match self.keyboard_size {
            KeyboardSize::Keyboard60 => &self.layouts.layout_60,
            KeyboardSize::Keyboard80 => &self.layouts.layout_80,
            KeyboardSize::Keyboard100 => &self.layouts.layout_100,
        }
    }
}

/// Whether a terminal of the given size can host the selected layout; where it
/// cannot, the caller shows a notice instead of the keyboard.
pub fn check_if_fits(terminal_width: u16, terminal_height: u16, state: &App) -> (r:
    SizeCheckResult)
    ensures
        r == (if fits(
            state.spec_layout().width as int,
            state.spec_layout().height as int,
            terminal_width as int,
            terminal_height as int,
        ) {
            SizeCheckResult::Fits
        } else {
            SizeCheckResult::TooSmall
        }),
{
    let layout = state.layout();
    if terminal_width > layout.width && terminal_height > layout.height {
        SizeCheckResult::Fits
    } else {
        SizeCheckResult::TooSmall
    }
}

/// Padding that centres content of one extent in a terminal extent.
pub fn centering_offset(terminal: u16, content: u16) -> (r: u16)
    requires
        content <= terminal,
    ensures
        r as int == (terminal - content) as int / 2,
{
    (terminal - content) / 2
}

/// A rectangle of terminal cells.
#[derive(Clone, Copy, Debug, PartialEq, Eq, Structural)]
pub struct CellRect {
    pub x: u16,
    pub y: u16,
    pub width: u16,
    pub height: u16,
}

/// Where row `i` of a layout stands when the layout is centred in a terminal.
pub open spec fn row_rect(
    layout: KeyboardLayout,
    terminal_width: int,
    terminal_height: int,
    i: int,
) -> CellRect {
    CellRect {
        x: ((terminal_width - layout.width) / 2) as u16,
        y: ((terminal_height - layout.height) / 2 + i * (KEY_HEIGHT as int)) as u16,
        width: layout.rows@[i].width,
        height: KEY_HEIGHT,
    }
}

/// The screen rectangle of every row of a layout centred in a terminal, or
/// `None` where the terminal is too small to host it.
pub fn place_rows(layout: &KeyboardLayout, terminal_width: u16, terminal_height: u16) -> (r:
    Option<Vec<CellRect>>)
    requires
        layout.wf(),
    ensures
        r is None <==> !fits(
            layout.width as int,
            layout.height as int,
            terminal_width as int,
            terminal_height as int,
        ),
        r matches Some(v) ==> v@.len() == layout.rows@.len() && forall|i: int|
            0 <= i < v@.len() ==> #[trigger] v@[i] == row_rect(
                *layout,
                terminal_width as int,
                terminal_height as int,
                i,
            ),
{
    if !(terminal_width > layout.width && terminal_height > layout.height) {
        return None;
    }
    let left = centering_offset(terminal_width, layout.width);
    let top = centering_offset(terminal_height, layout.height);
    let mut rects: Vec<CellRect> = Vec::new();
    let mut i: usize = 0;
    while i < layout.rows.len()
        invariant
            layout.wf(),
            terminal_width > layout.width,
            terminal_height > layout.height,
            left as int == (terminal_width - layout.width) as int / 2,
            top as int == (terminal_height - layout.height) as int / 2,
            i <= layout.rows@.len(),
            rects@.len() == i,
            forall|j: int|
                0 <= j < i ==> #[trigger] rects@[j] == row_rect(
                    *layout,
                    terminal_width as int,
                    terminal_height as int,
                    j,
                ),
        decreases layout.rows@.len() - i,
    {
        let y = top + KEY_HEIGHT * (i as u16);
        rects.push(CellRect { x: left, y, width: layout.rows[i].width, height: KEY_HEIGHT });
        i = i + 1;
    }
    Some(rects)
}

/// Which sides of a key cell carry a border.
#[derive(Clone, Copy, Debug, PartialEq, Eq, Structural)]
pub enum KeyBorders {
    /// No border: a gap in the row.
    Nothing,
    All,
    /// Left, right and top: the upper half of a tall key.
    OpenBelow,
    /// Left, right and bottom: the lower half of a tall key.
    OpenAbove,
}

impl KeyUI {
    /// A separator has no border, the halves of a tall key are open towards
    /// each other, and every other key is closed.
    pub open spec fn spec_borders(self) -> KeyBorders {
        if self.key == Key::Separator {
            KeyBorders::Nothing
        } else if self.vertical_key_part == Some(VerticalKeyPart::TOP) {
            KeyBorders::OpenBelow
        } else if self.vertical_key_part == Some(VerticalKeyPart::BOTTOM) {
            KeyBorders::OpenAbove
        } else {
            KeyBorders::All
        }
    }

    /// The borders this key cell is drawn with.
    pub fn borders(&self) -> (r: KeyBorders)
        ensures
            r == self.spec_borders(),
    {
        match (self.key, self.vertical_key_part) {
            (Key::Separator, _) => KeyBorders::Nothing,
            (_, Some(VerticalKeyPart::TOP)) => KeyBorders::OpenBelow,
            (_, Some(VerticalKeyPart::BOTTOM)) => KeyBorders::OpenAbove,
            _ => KeyBorders::All,
        }
    }

    /// The text inside this key cell: the key's label, except in the lower
    /// half of a tall key, which stays blank.
    pub fn caption(&self) -> (r: &'static str)
        ensures
            r@ == (if self.vertical_key_part == Some(VerticalKeyPart::BOTTOM) {
                ""@
            } else {
                self.key.spec_label()
            }),
    {
        match self.vertical_key_part {
            Some(VerticalKeyPart::BOTTOM) => "",
            _ => self.key.label(),
        }
    }

    /// Width of this key cell as drawn: size plus correction, or zero where
    /// that is negative.
    pub fn cell_width(&self) -> (r: u16)
        ensures
            r as int == drawn_width(*self),
    {
        let c: i16 = match self.size_correction {
            Some(c) => c,
            None => 0,
        };
        let w: i32 = self.size.static_len() as i32 + c as i32;
        if w < 0 {
            0
        } else {
            w as u16
        }
    }
}

} // verus!
