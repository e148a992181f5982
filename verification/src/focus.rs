//! The keyboard focus ring: which controls Tab visits, in what order, and where
//! focus starts.
//!
//! The tab order is not a list maintained beside the layout, it is the layout,
//! read top to bottom: a control joins the ring by being drawn.

use crate::row::{rows_view, HotspotId, Row, RowView};
use crate::config::Switches;
use crate::settings::{
    button_row, dialog_rows, error_rows, head_rows, switch_row, switch_rows, switch_table,
    the_dialog_has_one_row_of_buttons, DraftView, HOT_CANCEL, HOT_INTERVAL, HOT_LANGUAGE,
    HOT_LOG_LEVEL, HOT_NOTIFICATIONS, HOT_OK, HOT_START_MINIMIZED, HOT_THEME,
};
use crate::color::Color;
use crate::lang::Locale;
use crate::strings::Language;
use crate::theme::Builtin;
use vstd::prelude::*;

verus! {

/// The ids a row contributes to the focus ring, left to right.
///
/// A disabled button is not a stop, and neither is anything that is not a
/// control.
pub open spec fn stops(row: RowView) -> Seq<HotspotId> {
    match row {
        RowView::Checkbox { id, .. } => seq![id],
        RowView::Dropdown { id, .. } => seq![id],
        RowView::Field { id, .. } => seq![id],
        RowView::TitleButton { id, .. } => seq![id],
        RowView::LabeledButton { id, enabled, .. } => if enabled {
            seq![id]
        } else {
            seq![]
        },
        RowView::Buttons { left_id, right_id, .. } => seq![left_id, right_id],
        _ => seq![],
    }
}

/// Every control in `rows` that can hold keyboard focus, top to bottom and left
/// before right.
pub open spec fn ring_of(rows: Seq<RowView>) -> Seq<HotspotId>
    decreases rows.len(),
{
    if rows.len() == 0 {
        seq![]
    } else {
        ring_of(rows.drop_last()) + stops(rows.last())
    }
}

/// The first row that draws control `id`, if any row does.
pub open spec fn owner_of(rows: Seq<RowView>, id: HotspotId) -> Option<RowView>
    decreases rows.len(),
{
    if rows.len() == 0 {
        None
    } else if stops(rows[0]).contains(id) {
        Some(rows[0])
    } else {
        owner_of(rows.skip(1), id)
    }
}

/// The position of `id` in a ring, if it is there.
pub open spec fn place_of(ring: Seq<HotspotId>, id: HotspotId) -> Option<int>
    decreases ring.len(),
{
    if ring.len() == 0 {
        None
    } else if ring[0] == id {
        Some(0)
    } else {
        match place_of(ring.skip(1), id) {
            Some(i) => Some(i + 1),
            None => None,
        }
    }
}

/// The position of the focused control in a ring, if there is one and it is
/// there.
pub open spec fn focus_place(ring: Seq<HotspotId>, current: Option<HotspotId>) -> Option<int> {
    match current {
        Some(id) => place_of(ring, id),
        None => None,
    }
}

/// Where a step lands on a ring: the neighbour on the side moved toward, past
/// an end the other end, and from nowhere the end the move comes in at.
pub open spec fn stepped(ring: Seq<HotspotId>, current: Option<HotspotId>, back: bool) -> Option<
    HotspotId,
> {
    if ring.len() == 0 {
        None
    } else {
        match focus_place(ring, current) {
            Some(i) => if back {
                Some(ring[if i > 0 { i - 1 } else { ring.len() - 1 }])
            } else {
                Some(ring[if i + 1 < ring.len() { i + 1 } else { 0 }])
            },
            None => if back {
                Some(ring.last())
            } else {
                Some(ring[0])
            },
        }
    }
}

/// The first row of buttons among `rows`, if there is one: its left and right
/// ids.
pub open spec fn button_pair(rows: Seq<RowView>) -> Option<(HotspotId, HotspotId)>
    decreases rows.len(),
{
    if rows.len() == 0 {
        None
    } else {
        match rows[0] {
            RowView::Buttons { left_id, right_id, .. } => Some((left_id, right_id)),
            _ => button_pair(rows.skip(1)),
        }
    }
}

/// The ids `row` contributes to the focus ring, in left-to-right order. A pair,
/// because no row draws more than two controls.
pub fn ids(row: &Row) -> (r: (Option<HotspotId>, Option<HotspotId>))
    ensures
        r.1 is Some ==> r.0 is Some,
        stops(row@) == (match r {
            (Some(a), Some(b)) => seq![a, b],
            (Some(a), None) => seq![a],
            _ => seq![],
        }),
{
    match row {
        Row::Checkbox { id, .. } => (Some(*id), None),
        Row::Dropdown { id, .. } => (Some(*id), None),
        Row::Field { id, .. } => (Some(*id), None),
        Row::TitleButton { id, .. } => (Some(*id), None),
        Row::LabeledButton { id, enabled, .. } => if *enabled {
            (Some(*id), None)
        } else {
            (None, None)
        },
        Row::Buttons { left_id, right_id, .. } => (Some(*left_id), Some(*right_id)),
        Row::Header(_)
        | Row::Pair { .. }
        | Row::Wrapped { .. }
        | Row::Notice { .. }
        | Row::Space(_) => (None, None),
    }
}

fn draws(row: &Row, id: HotspotId) -> (r: bool)
    ensures
        r == stops(row@).contains(id),
{
    let (first, second) = ids(row);
    let ghost all = stops(row@);
    match (first, second) {
        (Some(a), Some(b)) => {
            proof {
                assert(all[0] == a && all[1] == b);
            }
            a == id || b == id
        },
        (Some(a), None) => {
            proof {
                assert(all[0] == a);
            }
            a == id
        },
        _ => false,
    }
}

/// The row that draws control `id`, if any row does.
pub fn owner<'a>(rows: &'a [Row], id: HotspotId) -> (r: Option<&'a Row>)
    ensures
        r is Some == owner_of(rows_view(rows@), id) is Some,
        r matches Some(row) ==> owner_of(rows_view(rows@), id) == Some(row@),
{
    let ghost views = rows_view(rows@);
    let mut i: usize = 0;
    proof {
        assert(views.skip(0) =~= views);
    }
    while i < rows.len()
        invariant
            i <= rows@.len(),
            views == rows_view(rows@),
            owner_of(views, id) == owner_of(views.skip(i as int), id),
        decreases rows.len() - i,
    {
        proof {
            assert(views.skip(i as int)[0] == rows@[i as int]@);
            assert(views.skip(i as int).skip(1) =~= views.skip(i + 1));
        }
        if draws(&rows[i], id) {
            return Some(&rows[i]);
        }
        i = i + 1;
    }
    None
}

/// Every control in `rows` that can hold keyboard focus, in the order the eye
/// meets them.
pub fn ring(rows: &[Row]) -> (ring: Vec<HotspotId>)
    ensures
        ring@ == ring_of(rows_view(rows@)),
{
    let ghost views = rows_view(rows@);
    let mut ring: Vec<HotspotId> = Vec::new();
    let mut i: usize = 0;
    proof {
        assert(views.take(0) =~= seq![]);
        assert(ring@ =~= ring_of(views.take(0)));
    }
    while i < rows.len()
        invariant
            i <= rows@.len(),
            views == rows_view(rows@),
            ring@ == ring_of(views.take(i as int)),
        decreases rows.len() - i,
    {
        let ghost before = ring@;
        let (first, second) = ids(&rows[i]);
        match first {
            Some(id) => {
                ring.push(id);
            },
            None => {},
        }
        match second {
            Some(id) => {
                ring.push(id);
            },
            None => {},
        }
        proof {
            assert(views.take(i + 1).drop_last() =~= views.take(i as int));
            assert(views.take(i + 1).last() == rows@[i as int]@);
            assert(ring@ =~= before + stops(rows@[i as int]@));
        }
        i = i + 1;
    }
    proof {
        assert(views.take(i as int) =~= views);
    }
    ring
}

/// Whether `id` is a control the keyboard can reach in `rows`.
pub fn contains(rows: &[Row], id: HotspotId) -> (r: bool)
    ensures
        r == ring_of(rows_view(rows@)).contains(id),
{
    proof {
        an_owner_is_a_stop(rows_view(rows@), id);
    }
    owner(rows, id).is_some()
}

/// Whether `id` names a text field.
pub fn is_field(rows: &[Row], id: HotspotId) -> (r: bool)
    ensures
        r == (owner_of(rows_view(rows@), id) matches Some(row) && row is Field),
{
    match owner(rows, id) {
        Some(row) => matches!(row, Row::Field { .. }),
        None => false,
    }
}

/// Whether `id` names a dropdown.
pub fn is_dropdown(rows: &[Row], id: HotspotId) -> (r: bool)
    ensures
        r == (owner_of(rows_view(rows@), id) matches Some(row) && row is Dropdown),
{
    match owner(rows, id) {
        Some(row) => matches!(row, Row::Dropdown { .. }),
        None => false,
    }
}

/// Whether `id` names a button.
pub fn is_button(rows: &[Row], id: HotspotId) -> (r: bool)
    ensures
        r == (owner_of(rows_view(rows@), id) matches Some(row) && row.is_button()),
{
    match owner(rows, id) {
        Some(row) => row.is_button(),
        None => false,
    }
}

/// The control Tab moves to from `current`, or Shift+Tab when `back` is set.
///
/// The ring is closed: past the last control is the first. From nothing, or
/// from a control that is no longer there, it is the first control going
/// forward and the last going back.
pub fn step(rows: &[Row], current: Option<HotspotId>, back: bool) -> (r: Option<HotspotId>)
    ensures
        r == stepped(ring_of(rows_view(rows@)), current, back),
{
    let ring = ring(rows);
    let n: usize = ring.len();
    if n == 0 {
        return None;
    }
    match current {
        Some(id) => {
            let mut i: usize = 0;
            proof {
                assert(ring@.skip(0) =~= ring@);
            }
            while i < n
                invariant
                    i <= n,
                    n == ring@.len(),
                    n > 0,
                    ring@ == ring_of(rows_view(rows@)),
                    current == Some(id),
                    place_of(ring@, id) == (match place_of(ring@.skip(i as int), id) {
                        Some(j) => Some(i + j),
                        None => None,
                    }),
                decreases n - i,
            {
                proof {
                    assert(ring@.skip(i as int).skip(1) =~= ring@.skip(i + 1));
                    assert(ring@.skip(i as int)[0] == ring@[i as int]);
                }
                if ring[i] == id {
                    let to: usize = if back {
                        if i > 0 {
                            i - 1
                        } else {
                            n - 1
                        }
                    } else {
                        if n - i > 1 {
                            i + 1
                        } else {
                            0
                        }
                    };
                    return Some(ring[to]);
                }
                i = i + 1;
            }
        },
        None => {},
    }
    if back {
        Some(ring[n - 1])
    } else {
        Some(ring[0])
    }
}

fn pair_of(rows: &[Row]) -> (r: Option<(HotspotId, HotspotId)>)
    ensures
        r == button_pair(rows_view(rows@)),
{
    let ghost views = rows_view(rows@);
    let mut i: usize = 0;
    proof {
        assert(views.skip(0) =~= views);
    }
    while i < rows.len()
        invariant
            i <= rows@.len(),
            views == rows_view(rows@),
            button_pair(views) == button_pair(views.skip(i as int)),
        decreases rows.len() - i,
    {
        proof {
            assert(views.skip(i as int)[0] == rows@[i as int]@);
            assert(views.skip(i as int).skip(1) =~= views.skip(i + 1));
        }
        match &rows[i] {
            Row::Buttons { left_id, right_id, .. } => {
                return Some((*left_id, *right_id));
            },
            _ => {},
        }
        i = i + 1;
    }
    None
}

/// The control a window opens on: the right of its two buttons, the one that
/// changes nothing.
pub open spec fn opens_on(rows: Seq<RowView>) -> Option<HotspotId> {
    match button_pair(rows) {
        Some(pair) => Some(pair.1),
        None => None,
    }
}

/// The control Enter presses where none is focused: the left of the two
/// buttons.
pub open spec fn confirmed_by(rows: Seq<RowView>) -> Option<HotspotId> {
    match button_pair(rows) {
        Some(pair) => Some(pair.0),
        None => None,
    }
}

/// Where focus sits when a window opens, and where it returns when the control
/// holding it disappears: the dismissing button of a dialog, the right half of
/// its button row. A window without such a row opens with no focus.
pub fn initial(rows: &[Row]) -> (r: Option<HotspotId>)
    ensures
        r == (match button_pair(rows_view(rows@)) {
            Some(pair) => Some(pair.1),
            None => None,
        }),
        r == opens_on(rows_view(rows@)),
{
    match pair_of(rows) {
        Some((_, right)) => Some(right),
        None => None,
    }
}

/// The button Enter presses when focus is not itself on a button: the
/// confirming half of the dialog's button pair.
pub fn confirm(rows: &[Row]) -> (r: Option<HotspotId>)
    ensures
        r == (match button_pair(rows_view(rows@)) {
            Some(pair) => Some(pair.0),
            None => None,
        }),
        r == confirmed_by(rows_view(rows@)),
{
    match pair_of(rows) {
        Some((left, _)) => Some(left),
        None => None,
    }
}

/// A row draws a control exactly when the control is in the ring.
pub proof fn an_owner_is_a_stop(rows: Seq<RowView>, id: HotspotId)
    ensures
        owner_of(rows, id) is Some == ring_of(rows).contains(id),
        owner_of(rows, id) matches Some(row) ==> rows.contains(row) && stops(row).contains(id),
    decreases rows.len(),
{
    if rows.len() > 0 {
        let rest = rows.skip(1);
        an_owner_is_a_stop(rest, id);
        ring_from_the_front(rows);
        let front = stops(rows[0]);
        let tail = ring_of(rest);
        if front.contains(id) {
            let i = front.index_of(id);
            assert((front + tail)[i] == id);
            assert(rows.contains(rows[0]));
        } else {
            if tail.contains(id) {
                let i = tail.index_of(id);
                assert((front + tail)[front.len() + i] == id);
            }
            if (front + tail).contains(id) {
                let i = (front + tail).index_of(id);
                if i < front.len() {
                    assert(front[i] == id);
                } else {
                    assert(tail[i - front.len()] == id);
                }
            }
            if owner_of(rest, id) is Some {
                let row = owner_of(rest, id)->0;
                let i = rest.index_of(row);
                assert(rows[i + 1] == row);
            }
        }
    }
}

/// A ring read from the front is the first row's stops and then the rest.
proof fn ring_from_the_front(rows: Seq<RowView>)
    requires
        rows.len() > 0,
    ensures
        ring_of(rows) == stops(rows[0]) + ring_of(rows.skip(1)),
    decreases rows.len(),
{
    if rows.len() == 1 {
        assert(rows.drop_last() =~= seq![]);
        assert(rows.skip(1) =~= seq![]);
        reveal_with_fuel(ring_of, 2);
        assert(ring_of(rows) =~= stops(rows[0]) + ring_of(rows.skip(1)));
    } else {
        ring_from_the_front(rows.drop_last());
        assert(rows.drop_last().skip(1) =~= rows.skip(1).drop_last());
        assert(rows.skip(1).last() == rows.last());
        assert(ring_of(rows) =~= stops(rows[0]) + ring_of(rows.skip(1)));
    }
}

proof fn a_place_is_where_the_id_is(ring: Seq<HotspotId>, id: HotspotId)
    ensures
        place_of(ring, id) is Some == ring.contains(id),
        place_of(ring, id) matches Some(i) ==> 0 <= i < ring.len() && ring[i] == id,
    decreases ring.len(),
{
    if ring.len() > 0 {
        a_place_is_where_the_id_is(ring.skip(1), id);
        if ring[0] != id {
            if ring.skip(1).contains(id) {
                let i = ring.skip(1).index_of(id);
                assert(ring[i + 1] == id);
            }
            if ring.contains(id) {
                let i = ring.index_of(id);
                assert(ring.skip(1)[i - 1] == id);
            }
        }
    }
}

proof fn a_place_is_the_index(ring: Seq<HotspotId>, i: int)
    requires
        ring.no_duplicates(),
        0 <= i < ring.len(),
    ensures
        place_of(ring, ring[i]) == Some(i),
{
    a_place_is_where_the_id_is(ring, ring[i]);
    assert(ring.contains(ring[i]));
}

/// A step always lands on a control of the ring, and on none exactly when there
/// is none.
pub proof fn a_step_stays_on_the_ring(
    ring: Seq<HotspotId>,
    current: Option<HotspotId>,
    back: bool,
)
    ensures
        stepped(ring, current, back) is None == (ring.len() == 0),
        stepped(ring, current, back) matches Some(id) ==> ring.contains(id),
{
    if ring.len() > 0 {
        if current is Some {
            a_place_is_where_the_id_is(ring, current->0);
        }
        match focus_place(ring, current) {
            Some(i) => {
                let to = if back {
                    if i > 0 { i - 1 } else { ring.len() - 1 }
                } else {
                    if i + 1 < ring.len() { i + 1 } else { 0 }
                };
                assert(ring.contains(ring[to]));
            },
            None => {
                assert(ring.contains(ring[0]));
                assert(ring.contains(ring[ring.len() - 1]));
            },
        }
    }
}

/// Stepping forward and back, or back and forward, returns to the control it
/// started from, on a ring that names no control twice.
pub proof fn a_step_can_be_taken_back(ring: Seq<HotspotId>, i: int, back: bool)
    requires
        ring.no_duplicates(),
        0 <= i < ring.len(),
    ensures
        stepped(ring, stepped(ring, Some(ring[i]), back), !back) == Some(ring[i]),
{
    a_place_is_the_index(ring, i);
    let to = if back {
        if i > 0 { i - 1 } else { ring.len() - 1 }
    } else {
        if i + 1 < ring.len() { i + 1 } else { 0 }
    };
    a_place_is_the_index(ring, to);
}

/// Tab visits every control: from any control, as many steps as the next one is
/// along the ring away.
pub proof fn tab_follows_the_drawing_order(ring: Seq<HotspotId>, i: int)
    requires
        ring.no_duplicates(),
        0 <= i < ring.len(),
    ensures
        stepped(ring, Some(ring[i]), false) == Some(
            ring[if i + 1 < ring.len() { i + 1 } else { 0 }],
        ),
        stepped(ring, Some(ring[i]), true) == Some(
            ring[if i > 0 { i - 1 } else { ring.len() - 1 }],
        ),
{
    a_place_is_the_index(ring, i);
}

/// A control that is no longer drawn is as good as no focus at all.
pub proof fn a_vanished_control_does_not_trap_the_walk(
    ring: Seq<HotspotId>,
    gone: HotspotId,
    back: bool,
)
    requires
        !ring.contains(gone),
    ensures
        stepped(ring, Some(gone), back) == stepped(ring, None, back),
{
    a_place_is_where_the_id_is(ring, gone);
}

/// The pair of a window whose last row is its only row of buttons.
proof fn the_last_pair_is_the_pair(rows: Seq<RowView>)
    requires
        rows.len() > 0,
        rows.last() is Buttons,
        forall|i: int| 0 <= i < rows.len() - 1 ==> !((#[trigger] rows[i]) is Buttons),
    ensures
        button_pair(rows) == button_pair(seq![rows.last()]),
    decreases rows.len(),
{
    if rows.len() > 1 {
        assert(!(rows[0] is Buttons));
        let rest = rows.skip(1);
        assert(rest.last() == rows.last());
        assert forall|i: int| 0 <= i < rest.len() - 1 implies !((#[trigger] rest[i]) is Buttons) by {
            assert(rest[i] == rows[i + 1]);
        }
        the_last_pair_is_the_pair(rest);
    } else {
        assert(rows =~= seq![rows.last()]);
    }
}

/// The ring of two lists of rows is the ring of the one and then of the other.
proof fn rings_join(a: Seq<RowView>, b: Seq<RowView>)
    ensures
        ring_of(a + b) == ring_of(a) + ring_of(b),
    decreases b.len(),
{
    if b.len() == 0 {
        assert(a + b =~= a);
        assert(ring_of(a) + ring_of(b) =~= ring_of(a));
    } else {
        assert((a + b).drop_last() =~= a + b.drop_last());
        rings_join(a, b.drop_last());
        assert(ring_of(a + b) =~= ring_of(a) + ring_of(b));
    }
}

/// The ids of the per-event switches, in display order.
pub open spec fn switch_ids() -> Seq<HotspotId> {
    Seq::new(switch_table().len(), |i: int| switch_table()[i].1)
}

proof fn each_switch_is_a_stop(switches: Switches, locale: Locale, cut: int)
    requires
        0 <= cut <= switch_table().len(),
    ensures
        ring_of(switch_rows(switches, locale).take(cut)) == switch_ids().take(cut),
    decreases cut,
{
    let rows = switch_rows(switches, locale).take(cut);
    if cut == 0 {
        assert(rows =~= seq![]);
        assert(switch_ids().take(0) =~= seq![]);
    } else {
        each_switch_is_a_stop(switches, locale, cut - 1);
        assert(rows.drop_last() =~= switch_rows(switches, locale).take(cut - 1));
        assert(rows.last() == switch_row(switch_table()[cut - 1], switches, locale));
        assert(ring_of(rows) =~= switch_ids().take(cut));
    }
}

/// The controls of the settings dialog in the order Tab visits them.
pub open spec fn dialog_ring(notifications: bool) -> Seq<HotspotId> {
    seq![
        HotspotId(HOT_INTERVAL),
        HotspotId(HOT_LANGUAGE),
        HotspotId(HOT_THEME),
        HotspotId(HOT_LOG_LEVEL),
        HotspotId(HOT_START_MINIMIZED),
        HotspotId(HOT_NOTIFICATIONS),
    ] + (if notifications {
        switch_ids()
    } else {
        seq![]
    }) + seq![HotspotId(HOT_OK), HotspotId(HOT_CANCEL)]
}

/// Tab walks the settings dialog from the interval field down to Cancel, past
/// the per-event switches exactly while they are shown.
pub proof fn the_dialog_ring_follows_the_dialog(
    draft: DraftView,
    locale: Locale,
    critical: Color,
    themes: Seq<Builtin>,
    languages: Seq<Language>,
)
    ensures
        ring_of(dialog_rows(draft, locale, critical, themes, languages)) == dialog_ring(
            draft.switches.notifications_enabled,
        ),
{
    let head = head_rows(draft, locale, themes, languages);
    let switches = if draft.switches.notifications_enabled {
        switch_rows(draft.switches, locale)
    } else {
        seq![]
    };
    let warning = error_rows(draft.error, critical);
    let buttons = seq![button_row(locale)];
    rings_join(head + switches + warning, buttons);
    rings_join(head + switches, warning);
    rings_join(head, switches);
    assert(ring_of(head) =~= seq![
        HotspotId(HOT_INTERVAL),
        HotspotId(HOT_LANGUAGE),
        HotspotId(HOT_THEME),
        HotspotId(HOT_LOG_LEVEL),
        HotspotId(HOT_START_MINIMIZED),
        HotspotId(HOT_NOTIFICATIONS),
    ]) by {
        the_head_ring(head);
    }
    if draft.switches.notifications_enabled {
        let n = switch_table().len() as int;
        each_switch_is_a_stop(draft.switches, locale, n);
        assert(switch_rows(draft.switches, locale).take(n) =~= switches);
        assert(switch_ids().take(n) =~= switch_ids());
    }
    reveal_with_fuel(ring_of, 4);
    assert(ring_of(buttons) =~= seq![HotspotId(HOT_OK), HotspotId(HOT_CANCEL)]) by {
        assert(buttons.drop_last() =~= seq![]);
    }
    assert(ring_of(warning) =~= seq![]) by {
        if warning.len() > 0 {
            let two = warning.drop_last();
            let one = two.drop_last();
            assert(one.drop_last() =~= seq![]);
            assert(ring_of(one) =~= seq![]);
            assert(ring_of(two) =~= seq![]);
        }
    }
    assert(ring_of(dialog_rows(draft, locale, critical, themes, languages)) =~= dialog_ring(
        draft.switches.notifications_enabled,
    ));
}

/// The ring of a list of rows shaped like the top of the dialog.
proof fn the_head_ring(rows: Seq<RowView>)
    requires
        rows.len() == 10,
        stops(rows[0]) == Seq::<HotspotId>::empty(),
        stops(rows[1]) == Seq::<HotspotId>::empty(),
        stops(rows[6]) == Seq::<HotspotId>::empty(),
        stops(rows[8]) == Seq::<HotspotId>::empty(),
    ensures
        ring_of(rows) == stops(rows[2]) + stops(rows[3]) + stops(rows[4]) + stops(rows[5]) + stops(
            rows[7],
        ) + stops(rows[9]),
{
    let r9 = rows.drop_last();
    let r8 = r9.drop_last();
    let r7 = r8.drop_last();
    let r6 = r7.drop_last();
    let r5 = r6.drop_last();
    let r4 = r5.drop_last();
    let r3 = r4.drop_last();
    let r2 = r3.drop_last();
    let r1 = r2.drop_last();
    assert(r1.drop_last() =~= seq![]);
    assert(ring_of(r1.drop_last()) =~= seq![]);
    assert(ring_of(r1) =~= seq![]);
    assert(ring_of(r2) =~= seq![]);
    assert(ring_of(r3) =~= stops(rows[2]));
    assert(ring_of(r4) =~= stops(rows[2]) + stops(rows[3]));
    assert(ring_of(r5) =~= stops(rows[2]) + stops(rows[3]) + stops(rows[4]));
    assert(ring_of(r6) =~= stops(rows[2]) + stops(rows[3]) + stops(rows[4]) + stops(rows[5]));
    assert(ring_of(r7) =~= ring_of(r6));
    assert(ring_of(r8) =~= ring_of(r7) + stops(rows[7]));
    assert(ring_of(r9) =~= ring_of(r8));
    assert(ring_of(rows) =~= ring_of(r9) + stops(rows[9]));
}

/// No control of the dialog is in its ring twice.
pub proof fn the_dialog_ring_has_no_duplicates(notifications: bool)
    ensures
        dialog_ring(notifications).no_duplicates(),
{
    let ring = dialog_ring(notifications);
    assert(switch_table().len() == 12);
    assert forall|i: int, j: int| 0 <= i < ring.len() && 0 <= j < ring.len() && i != j implies ring[i]
        != ring[j] by {
        if notifications {
            if 6 <= i < 18 {
                assert(ring[i] == switch_table()[i - 6].1);
            }
            if 6 <= j < 18 {
                assert(ring[j] == switch_table()[j - 6].1);
            }
        }
    }
}

/// The settings dialog opens focused on Cancel, Enter in it confirms with OK,
/// and the first Tab reaches the interval field at the top.
pub proof fn the_dialog_opens_on_cancel(
    draft: DraftView,
    locale: Locale,
    critical: Color,
    themes: Seq<Builtin>,
    languages: Seq<Language>,
)
    ensures
        ({
            let rows = dialog_rows(draft, locale, critical, themes, languages);
            &&& button_pair(rows) == Some((HotspotId(HOT_OK), HotspotId(HOT_CANCEL)))
            &&& stepped(ring_of(rows), Some(HotspotId(HOT_CANCEL)), false) == Some(
                HotspotId(HOT_INTERVAL),
            )
        }),
{
    let rows = dialog_rows(draft, locale, critical, themes, languages);
    the_dialog_has_one_row_of_buttons(draft, locale, critical, themes, languages);
    the_last_pair_is_the_pair(rows);
    assert(button_pair(seq![button_row(locale)]) == Some(
        (HotspotId(HOT_OK), HotspotId(HOT_CANCEL)),
    ));
    let ring = dialog_ring(draft.switches.notifications_enabled);
    the_dialog_ring_follows_the_dialog(draft, locale, critical, themes, languages);
    the_dialog_ring_has_no_duplicates(draft.switches.notifications_enabled);
    a_place_is_the_index(ring, ring.len() - 1);
    assert(ring[ring.len() - 1] == HotspotId(HOT_CANCEL));
    assert(ring[0] == HotspotId(HOT_INTERVAL));
}

/// What the keyboard can reach on a row: a box, a list, a field or a title's
/// button once; two buttons, the left before the right; a value's button when
/// it can be pressed; and nothing on any other row.
pub proof fn the_keyboard_reaches_what_can_be_pressed(row: RowView)
    ensures
        match row {
            RowView::Checkbox { id, .. } => stops(row).len() == 1 && stops(row)[0] == id,
            RowView::Dropdown { id, .. } => stops(row).len() == 1 && stops(row)[0] == id,
            RowView::Field { id, .. } => stops(row).len() == 1 && stops(row)[0] == id,
            RowView::TitleButton { id, .. } => stops(row).len() == 1 && stops(row)[0] == id,
            RowView::LabeledButton { id, enabled, .. } => {
                &&& enabled ==> stops(row).len() == 1 && stops(row)[0] == id
                &&& !enabled ==> stops(row).len() == 0
            },
            RowView::Buttons { left_id, right_id, .. } => stops(row).len() == 2 && stops(row)[0]
                == left_id && stops(row)[1] == right_id,
            RowView::Header(_) => stops(row).len() == 0,
            RowView::Pair { .. } => stops(row).len() == 0,
            RowView::Wrapped { .. } => stops(row).len() == 0,
            RowView::Notice { .. } => stops(row).len() == 0,
            RowView::Space(_) => stops(row).len() == 0,
        },
{
}

/// The ring of two lists of rows, one under the other, is the ring of the first
/// and then the ring of the second; that of one row is what can be reached on
/// it.
pub proof fn the_ring_runs_down_the_rows(a: Seq<RowView>, b: Seq<RowView>, row: RowView)
    ensures
        ring_of(a + b) == ring_of(a) + ring_of(b),
        ring_of(seq![row]) == stops(row),
        ring_of(seq![]) == Seq::<HotspotId>::empty(),
{
    rings_join(a, b);
    assert(seq![row].drop_last() =~= seq![]);
    assert(ring_of(seq![row].drop_last()) =~= seq![]);
    assert(ring_of(seq![row]) =~= stops(row));
}

/// The owner of a control is the first row it can be reached on.
pub proof fn the_first_row_owns_a_control(rows: Seq<RowView>, id: HotspotId, i: int)
    requires
        0 <= i < rows.len(),
        stops(rows[i]).contains(id),
        forall|j: int| 0 <= j < i ==> !stops(#[trigger] rows[j]).contains(id),
    ensures
        owner_of(rows, id) == Some(rows[i]),
    decreases rows.len(),
{
    if i > 0 {
        assert(!stops(rows[0]).contains(id));
        let rest = rows.skip(1);
        assert forall|j: int| 0 <= j < i - 1 implies !stops(#[trigger] rest[j]).contains(id) by {
            assert(rest[j] == rows[j + 1]);
        }
        the_first_row_owns_a_control(rest, id, i - 1);
    }
}

/// With nothing focused Tab enters the ring at its start and Shift-Tab at its
/// end.
pub proof fn focus_enters_at_the_ends(ring: Seq<HotspotId>)
    requires
        ring.len() > 0,
    ensures
        stepped(ring, None, false) == Some(ring[0]),
        stepped(ring, None, true) == Some(ring[ring.len() - 1]),
{
}

/// The buttons of a window are those of its first row of two, the confirming
/// one on the left; a window without such a row has none.
pub proof fn the_first_two_buttons_are_the_windows(rows: Seq<RowView>, i: int)
    requires
        0 <= i <= rows.len(),
        forall|j: int| 0 <= j < i ==> !((#[trigger] rows[j]) is Buttons),
    ensures
        i == rows.len() ==> button_pair(rows) is None,
        i < rows.len() ==> (rows[i] matches RowView::Buttons { left_id, right_id, .. }
            ==> button_pair(rows) == Some((left_id, right_id))),
    decreases rows.len(),
{
    if i > 0 {
        assert(!(rows[0] is Buttons));
        let rest = rows.skip(1);
        assert forall|j: int| 0 <= j < i - 1 implies !((#[trigger] rest[j]) is Buttons) by {
            assert(rest[j] == rows[j + 1]);
        }
        the_first_two_buttons_are_the_windows(rest, i - 1);
    }
}

/// A window opens on the right of the buttons in its first row of two and is
/// confirmed by the left; one without such a row has neither.
pub proof fn a_window_opens_on_its_right_button(rows: Seq<RowView>, i: int)
    requires
        0 <= i <= rows.len(),
        forall|j: int| 0 <= j < i ==> !((#[trigger] rows[j]) is Buttons),
    ensures
        i == rows.len() ==> opens_on(rows) is None && confirmed_by(rows) is None,
        i < rows.len() ==> (rows[i] matches RowView::Buttons { left_id, right_id, .. }
            ==> opens_on(rows) == Some(right_id) && confirmed_by(rows) == Some(left_id)),
{
    the_first_two_buttons_are_the_windows(rows, i);
}

} // verus!
