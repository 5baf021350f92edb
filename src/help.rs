//! The keybinds help modal: its rows, the widths of its two columns, and where
//! it is placed on screen.
use vstd::prelude::*;
use vstd::string::*;

verus! {

/// Separator between the keys of one row.
pub const KEY_SEPARATOR: &'static str = ", ";

/// One row of the help table: the keys, and what they do.
pub struct KeybindRow {
    pub keys: Vec<&'static str>,
    pub description: &'static str,
}

/// The rows of the help table, with the widths its columns need.
pub struct KeybindsHelp {
    pub rows: Vec<KeybindRow>,
    /// Width of the keys column.
    pub lhs_width: u16,
    /// Width of the description column.
    pub rhs_width: u16,
    /// Width of the whole table: both columns and one column of spacing.
    pub width: u16,
    /// One line per row.
    pub height: u16,
}

pub open spec fn row_view(row: KeybindRow) -> (Seq<Seq<char>>, Seq<char>) {
    (row.keys@.map_values(|k: &'static str| k@), row.description@)
}

/// Width of a row's keys when joined by the separator.
pub open spec fn keys_width(keys: Seq<Seq<char>>) -> int
    decreases keys.len(),
{
    if keys.len() == 0 {
        0
    } else if keys.len() == 1 {
        keys[0].len() as int
    } else {
        keys_width(keys.drop_last()) + KEY_SEPARATOR@.len() + keys.last().len()
    }
}

/// Widest keys of the rows.
pub open spec fn max_keys_width(rows: Seq<(Seq<Seq<char>>, Seq<char>)>) -> int
    decreases rows.len(),
{
    if rows.len() == 0 {
        0
    } else {
        let rest = max_keys_width(rows.drop_last());
        let w = keys_width(rows.last().0);
        if w > rest {
            w
        } else {
            rest
        }
    }
}

/// Widest description of the rows.
pub open spec fn max_description_width(rows: Seq<(Seq<Seq<char>>, Seq<char>)>) -> int
    decreases rows.len(),
{
    if rows.len() == 0 {
        0
    } else {
        let rest = max_description_width(rows.drop_last());
        let w = rows.last().1.len() as int;
        if w > rest {
            w
        } else {
            rest
        }
    }
}

/// The rows of the help table.
pub open spec fn keybind_rows() -> Seq<(Seq<Seq<char>>, Seq<char>)> {
    seq![
        (seq!["<?>"@], "Toggle this modal"@),
        (seq!["<Esc>"@], "Exit modal (in modal), focus menu (in content)"@),
        (seq!["<Left>"@, "<H>"@], "Focus menu"@),
        (seq!["<Right>"@, "<L>"@], "Focus content"@),
        (seq!["<Up>"@, "<K>"@], "Navigate up"@),
        (seq!["<Down>"@, "<J>"@], "Navigate down"@),
        (seq!["<Enter>"@], "Focus content (in menu), select button (in content)"@),
        (seq!["<Z>"@], "Suspend app"@),
        (seq!["<Q>"@], "Exit app"@),
    ]
}

proof fn lemma_keys_width_bound(keys: Seq<Seq<char>>)
    requires
        forall|k: int| 0 <= k < keys.len() ==> (#[trigger] keys[k]).len() <= 256,
    ensures
        0 <= keys_width(keys) <= 258 * keys.len(),
    decreases keys.len(),
{
    reveal_strlit(", ");
    if keys.len() > 1 {
        assert forall|k: int| 0 <= k < keys.len() - 1 implies (#[trigger] keys.drop_last()[k]).len() <= 256 by {
            assert(keys.drop_last()[k] == keys[k]);
        }
        lemma_keys_width_bound(keys.drop_last());
    }
}

fn row_keys_width(keys: &Vec<&'static str>) -> (r: usize)
    requires
        keys@.len() <= 16,
        forall|k: int| 0 <= k < keys@.len() ==> (#[trigger] keys@[k])@.len() <= 256,
    ensures
        r == keys_width(keys@.map_values(|k: &'static str| k@)),
        r <= 258 * 16,
{
    let ghost kv = keys@.map_values(|k: &'static str| k@);
    proof {
        lemma_keys_width_bound(kv);
        reveal_strlit(", ");
    }
    let sep = KEY_SEPARATOR.unicode_len();
    assert(sep == 2);
    let mut width: usize = 0;
    let mut i: usize = 0;
    while i < keys.len()
        invariant
            i <= keys@.len() <= 16,
            kv == keys@.map_values(|k: &'static str| k@),
            forall|k: int| 0 <= k < keys@.len() ==> (#[trigger] keys@[k])@.len() <= 256,
            width == keys_width(kv.subrange(0, i as int)),
            width <= 258 * i,
            sep == KEY_SEPARATOR@.len(),
            sep == 2,
        decreases keys@.len() - i,
    {
        assert(kv.subrange(0, i + 1).drop_last() =~= kv.subrange(0, i as int));
        let len = keys[i].unicode_len();
        if i == 0 {
            width = len;
        } else {
            width = width + sep + len;
        }
        i += 1;
    }
    assert(kv.subrange(0, keys@.len() as int) =~= kv);
    width
}

/// The widths of the two columns that `rows` need.
fn column_widths(rows: &Vec<KeybindRow>) -> (r: (usize, usize))
    requires
        rows@.len() <= 64,
        forall|i: int| 0 <= i < rows@.len() ==> (#[trigger] rows@[i]).keys@.len() <= 16,
        forall|i: int, k: int|
            0 <= i < rows@.len() && 0 <= k < rows@[i].keys@.len() ==> (#[trigger] rows@[i].keys@[k])@.len() <= 256,
        forall|i: int| 0 <= i < rows@.len() ==> (#[trigger] rows@[i]).description@.len() <= 256,
    ensures
        r.0 == max_keys_width(rows@.map_values(|row: KeybindRow| row_view(row))),
        r.1 == max_description_width(rows@.map_values(|row: KeybindRow| row_view(row))),
        r.0 <= 258 * 16,
        r.1 <= 256,
{
    let ghost rv = rows@.map_values(|row: KeybindRow| row_view(row));
    let mut lhs: usize = 0;
    let mut rhs: usize = 0;
    let mut i: usize = 0;
    while i < rows.len()
        invariant
            i <= rows@.len(),
            rv == rows@.map_values(|row: KeybindRow| row_view(row)),
            forall|j: int| 0 <= j < rows@.len() ==> (#[trigger] rows@[j]).keys@.len() <= 16,
            forall|j: int, k: int|
                0 <= j < rows@.len() && 0 <= k < rows@[j].keys@.len() ==> (#[trigger] rows@[j].keys@[k])@.len() <= 256,
            forall|j: int| 0 <= j < rows@.len() ==> (#[trigger] rows@[j]).description@.len() <= 256,
            lhs == max_keys_width(rv.subrange(0, i as int)),
            rhs == max_description_width(rv.subrange(0, i as int)),
            lhs <= 258 * 16,
            rhs <= 256,
        decreases rows@.len() - i,
    {
        assert(rv.subrange(0, i + 1).drop_last() =~= rv.subrange(0, i as int));
        let row = &rows[i];
        assert forall|k: int| 0 <= k < row.keys@.len() implies (#[trigger] row.keys@[k])@.len() <= 256 by {
            assert(rows@[i as int].keys@[k]@.len() <= 256);
        }
        let w = row_keys_width(&row.keys);
        if w > lhs {
            lhs = w;
        }
        let d = row.description.unicode_len();
        if d > rhs {
            rhs = d;
        }
        i += 1;
    }
    assert(rv.subrange(0, rows@.len() as int) =~= rv);
    (lhs, rhs)
}

fn row(keys: Vec<&'static str>, description: &'static str) -> (r: KeybindRow)
    ensures
        r.keys == keys,
        r.description == description,
{
    KeybindRow { keys, description }
}

/// The help table with the size it needs.
pub fn make_keybinds_help_table() -> (r: KeybindsHelp)
    ensures
        r.rows@.map_values(|row: KeybindRow| row_view(row)) == keybind_rows(),
        r.lhs_width == max_keys_width(keybind_rows()),
        r.rhs_width == max_description_width(keybind_rows()),
        r.width == r.lhs_width + 1 + r.rhs_width,
        r.height == keybind_rows().len(),
{
    let mut rows: Vec<KeybindRow> = Vec::new();
    rows.push(row(vec!["<?>"], "Toggle this modal"));
    rows.push(row(vec!["<Esc>"], "Exit modal (in modal), focus menu (in content)"));
    rows.push(row(vec!["<Left>", "<H>"], "Focus menu"));
    rows.push(row(vec!["<Right>", "<L>"], "Focus content"));
    rows.push(row(vec!["<Up>", "<K>"], "Navigate up"));
    rows.push(row(vec!["<Down>", "<J>"], "Navigate down"));
    rows.push(row(vec!["<Enter>"], "Focus content (in menu), select button (in content)"));
    rows.push(row(vec!["<Z>"], "Suspend app"));
    rows.push(row(vec!["<Q>"], "Exit app"));
    let ghost rv = rows@.map_values(|row: KeybindRow| row_view(row));
    proof {
        reveal_strlit("<?>");
        reveal_strlit("<Esc>");
        reveal_strlit("<Left>");
        reveal_strlit("<H>");
        reveal_strlit("<Right>");
        reveal_strlit("<L>");
        reveal_strlit("<Up>");
        reveal_strlit("<K>");
        reveal_strlit("<Down>");
        reveal_strlit("<J>");
        reveal_strlit("<Enter>");
        reveal_strlit("<Z>");
        reveal_strlit("<Q>");
        reveal_strlit("Toggle this modal");
        reveal_strlit("Exit modal (in modal), focus menu (in content)");
        reveal_strlit("Focus menu");
        reveal_strlit("Focus content");
        reveal_strlit("Navigate up");
        reveal_strlit("Navigate down");
        reveal_strlit("Focus content (in menu), select button (in content)");
        reveal_strlit("Suspend app");
        reveal_strlit("Exit app");
        assert(rv =~= keybind_rows()) by {
            assert(rv[2].0 =~= keybind_rows()[2].0);
            assert(rv[3].0 =~= keybind_rows()[3].0);
            assert(rv[4].0 =~= keybind_rows()[4].0);
            assert(rv[5].0 =~= keybind_rows()[5].0);
            assert(rv[0].0 =~= keybind_rows()[0].0);
            assert(rv[1].0 =~= keybind_rows()[1].0);
            assert(rv[6].0 =~= keybind_rows()[6].0);
            assert(rv[7].0 =~= keybind_rows()[7].0);
            assert(rv[8].0 =~= keybind_rows()[8].0);
        }
    }
    let (lhs, rhs) = column_widths(&rows);
    KeybindsHelp {
        rows,
        lhs_width: lhs as u16,
        rhs_width: rhs as u16,
        width: (lhs + 1 + rhs) as u16,
        height: 9,
    }
}

/// Where a modal of `width` by `height` stands inside the area at (`x`, `y`)
/// of `area_width` by `area_height`: centred, as `(x, y, width, height)`. It
/// is drawn only where it leaves a margin of at least three cells in each
/// direction; else `None`.
pub fn modal_area(x: u16, y: u16, area_width: u16, area_height: u16, width: u16, height: u16) -> (r: Option<(u16, u16, u16, u16)>)
    ensures
        match r {
            Some((mx, my, mw, mh)) => {
                &&& width + 3 <= area_width && height + 3 <= area_height
                &&& mx == x + (area_width - width) / 2
                &&& my == y + (area_height - height) / 2
                &&& mw == width && mh == height
            },
            None => !(width + 3 <= area_width && height + 3 <= area_height) || x + (area_width - width) / 2
                > u16::MAX || y + (area_height - height) / 2 > u16::MAX,
        },
{
    if area_width < 3 || area_height < 3 || width > area_width - 3 || height > area_height - 3 {
        return None;
    }
    let dx = (area_width - width) / 2;
    let dy = (area_height - height) / 2;
    if x > u16::MAX - dx || y > u16::MAX - dy {
        return None;
    }
    Some((x + dx, y + dy, width, height))
}

} // verus!
