//! Screen geometry and short labels: centering dialogs, the hint row under a dialog,
//! the queue pane, hit-testing chat rows, counts and truncation.

use vstd::prelude::*;
use crate::text::{chars_of, string_of, sub_chars, push_str, push_decimal, decimal};

verus! {

/// A rectangle of terminal cells.
#[derive(Debug, Clone, Copy, PartialEq, Eq, Structural, Default)]
pub struct Rect {
    pub x: u16,
    pub y: u16,
    pub width: u16,
    pub height: u16,
}

pub open spec fn sat_sub(a: u16, b: u16) -> u16 {
    if a >= b {
        (a - b) as u16
    } else {
        0
    }
}

pub open spec fn min16(a: u16, b: u16) -> u16 {
    if a <= b {
        a
    } else {
        b
    }
}

/// The rectangle at `(x, y)` with its size cut so that it ends by `u16::MAX`.
pub open spec fn rect_new_spec(x: u16, y: u16, width: u16, height: u16) -> Rect {
    Rect {
        x,
        y,
        width: min16(width, (u16::MAX - x) as u16),
        height: min16(height, (u16::MAX - y) as u16),
    }
}

impl Rect {
    /// The rectangle at `(x, y)` of the given size, cut so that it ends by `u16::MAX`.
    pub fn new(x: u16, y: u16, width: u16, height: u16) -> (r: Rect)
        ensures
            r == rect_new_spec(x, y, width, height),
    {
        let max_width = u16::MAX - x;
        let max_height = u16::MAX - y;
        Rect {
            x,
            y,
            width: if width > max_width {
                max_width
            } else {
                width
            },
            height: if height > max_height {
                max_height
            } else {
                height
            },
        }
    }

    /// Whether cell `(col, row)` lies inside (the right and bottom edges saturate at
    /// `u16::MAX`).
    pub open spec fn in_rect(self, col: u16, row: u16) -> bool {
        &&& self.x <= col
        &&& col < (if self.x + self.width > u16::MAX { u16::MAX as int } else { self.x + self.width })
        &&& self.y <= row
        &&& row < (if self.y + self.height > u16::MAX { u16::MAX as int } else { self.y + self.height })
    }

    /// Whether cell `(col, row)` lies inside.
    pub fn contains(&self, col: u16, row: u16) -> (b: bool)
        ensures
            b == self.in_rect(col, row),
    {
        let right: u16 = if self.width > u16::MAX - self.x { u16::MAX } else { self.x + self.width };
        let bottom: u16 = if self.height > u16::MAX - self.y { u16::MAX } else { self.y + self.height };
        self.x <= col && col < right && self.y <= row && row < bottom
    }

    /// It ends by `u16::MAX` in both directions.
    pub open spec fn fits(self) -> bool {
        self.x + self.width <= u16::MAX && self.y + self.height <= u16::MAX
    }
}

/// A `width` x `height` rectangle centered in `area` (cut to `area`'s size).
pub open spec fn centered_spec(width: u16, height: u16, area: Rect) -> Rect {
    rect_new_spec(
        (area.x + sat_sub(area.width, width) / 2) as u16,
        (area.y + sat_sub(area.height, height) / 2) as u16,
        min16(width, area.width),
        min16(height, area.height),
    )
}

/// A `width` x `height` rectangle centered in `area` (cut to `area`'s size).
pub fn centered_rect(width: u16, height: u16, area: Rect) -> (r: Rect)
    requires
        area.fits(),
    ensures
        r == centered_spec(width, height, area),
        r.x >= area.x && r.y >= area.y,
        r.x + r.width <= area.x + area.width,
        r.y + r.height <= area.y + area.height,
{
    let dx = if area.width >= width {
        area.width - width
    } else {
        0
    };
    let dy = if area.height >= height {
        area.height - height
    } else {
        0
    };
    let x = area.x + dx / 2;
    let y = area.y + dy / 2;
    let w = if width <= area.width {
        width
    } else {
        area.width
    };
    let h = if height <= area.height {
        height
    } else {
        area.height
    };
    Rect::new(x, y, w, h)
}

/// Where `count` hint lines go under `dialog` within `area`: right below the dialog,
/// as wide as it, when there is room for all of them; nowhere otherwise.
pub open spec fn hint_area_spec(dialog: Rect, area: Rect, count: u16) -> Option<Rect> {
    if count == 0 {
        None
    } else if (area.y + area.height) - (dialog.y + dialog.height) < count {
        None
    } else {
        Some(Rect { x: dialog.x, y: (dialog.y + dialog.height) as u16, width: dialog.width, height: count })
    }
}

/// Where the hint lines under a dialog go (see `hint_area_spec`).
pub fn hint_area(dialog: Rect, area: Rect, count: u16) -> (r: Option<Rect>)
    requires
        dialog.fits(),
        area.fits(),
    ensures
        r == hint_area_spec(dialog, area, count),
{
    if count == 0 {
        return None;
    }
    let area_end = area.y + area.height;
    let dialog_end = dialog.y + dialog.height;
    let space = if area_end >= dialog_end {
        area_end - dialog_end
    } else {
        0
    };
    if space < count {
        return None;
    }
    Some(Rect { x: dialog.x, y: dialog_end, width: dialog.width, height: count })
}

/// The body of a tabbed dialog drawn at `outer`: inside the border, below the tab bar
/// and the blank rows around it.
pub fn tab_body_rect(outer: Rect) -> (r: Rect)
    requires
        outer.fits(),
        outer.x < u16::MAX,
        outer.y + 4 <= u16::MAX,
    ensures
        r.x == outer.x + 1,
        r.y == outer.y + 4,
        r.width == sat_sub(outer.width, 2),
        r.height == sat_sub(outer.height, 5),
{
    Rect {
        x: outer.x + 1,
        y: outer.y + 4,
        width: if outer.width >= 2 {
            outer.width - 2
        } else {
            0
        },
        height: if outer.height >= 5 {
            outer.height - 5
        } else {
            0
        },
    }
}

/// How the chat area is shared with the pane of queued messages: `None` when there is
/// no queue, the area is under eight rows, or the pane would leave the messages under
/// five rows; else the heights of the messages part and of the pane (the queued text
/// plus its border, at least three rows and at most half the area).
pub open spec fn queue_split_spec(height: u16, queue_len: nat, content_rows: u16) -> Option<(u16, u16)> {
    if queue_len == 0 || height < 8 {
        None
    } else {
        let desired: int = if content_rows + 2 > u16::MAX { u16::MAX as int } else { content_rows + 2 };
        let half: int = if height / 2 >= 3 { (height / 2) as int } else { 3 };
        let capped: int = if desired <= half { desired } else { half };
        let q: int = if capped >= 3 { capped } else { 3 };
        if q + 5 > height {
            None
        } else {
            Some(((height - q) as u16, q as u16))
        }
    }
}

/// The name queued messages are shown under: the active persona's when a character
/// is loaded (names are substituted then), else "You".
pub fn queue_user_label(has_character: bool, persona_name: Option<&str>) -> (r: String)
    ensures
        r@ == (match persona_name {
            Some(p) => if has_character { p@ } else { "You"@ },
            None => "You"@,
        }),
{
    match persona_name {
        Some(p) => {
            if has_character {
                String::from_str(p)
            } else {
                String::from_str("You")
            }
        },
        None => String::from_str("You"),
    }
}

/// The hint under the input while it has the keyboard: how to edit the message under
/// the chat cursor, or how to recall and send.
pub fn input_hint(input_focused: bool, cursor_on_message: bool) -> (r: Option<&'static str>)
    ensures
        !input_focused ==> r is None,
        input_focused && cursor_on_message ==> (r matches Some(h) && h@ == " Enter to edit, Esc to cancel "@),
        input_focused && !cursor_on_message ==> (r matches Some(h) && h@
            == " Up arrow to edit, Enter to send "@),
{
    if !input_focused {
        None
    } else if cursor_on_message {
        Some(" Enter to edit, Esc to cancel ")
    } else {
        Some(" Up arrow to edit, Enter to send ")
    }
}

/// The chat's scroll position after drawing. `content` rows are drawn into
/// `visible` rows, so the scroll never passes `content - visible`. When the layout
/// changed (`dirty`): following the reply (`auto_scroll`) goes to the end; else, with
/// the cursor on a message whose wrapped rows run from `cursor.0` to `cursor.1`, a
/// message above the view is scrolled to (to the top when it lies within the first
/// screen) and one reaching below the view is scrolled to its start.
pub open spec fn chat_scroll_spec(
    scroll: u16,
    dirty: bool,
    auto_scroll: bool,
    cursor: Option<(u16, u16)>,
    visible: u16,
    content: u16,
) -> u16 {
    let max_scroll: u16 = if content >= visible { (content - visible) as u16 } else { 0 };
    let s: u16 = if !dirty {
        scroll
    } else if auto_scroll {
        max_scroll
    } else {
        match cursor {
            Some((off, end)) => if off < scroll {
                if off <= visible { 0 } else { off }
            } else if end > scroll + visible {
                off
            } else {
                scroll
            },
            None => scroll,
        }
    };
    if s < max_scroll { s } else { max_scroll }
}

/// The chat's scroll position after drawing (see `chat_scroll_spec`).
pub fn chat_scroll_after_render(
    scroll: u16,
    dirty: bool,
    auto_scroll: bool,
    cursor: Option<(u16, u16)>,
    visible: u16,
    content: u16,
) -> (r: u16)
    requires
        dirty && !auto_scroll && cursor is Some ==> scroll + visible <= u16::MAX,
    ensures
        r == chat_scroll_spec(scroll, dirty, auto_scroll, cursor, visible, content),
{
    let max_scroll: u16 = if content >= visible { content - visible } else { 0 };
    let s: u16 = if !dirty {
        scroll
    } else if auto_scroll {
        max_scroll
    } else {
        match cursor {
            Some((off, end)) => {
                if off < scroll {
                    if off <= visible { 0 } else { off }
                } else if end > scroll + visible {
                    off
                } else {
                    scroll
                }
            },
            None => scroll,
        }
    };
    if s < max_scroll { s } else { max_scroll }
}

/// Splits the chat area between the messages and the queue pane (see
/// `queue_split_spec`); `content_rows` is the wrapped height of the queued text.
pub fn split_chat_area_for_queue(chat_area: Rect, queue_len: usize, content_rows: u16) -> (r: (Rect, Option<Rect>))
    requires
        chat_area.fits(),
    ensures
        match queue_split_spec(chat_area.height, queue_len as nat, content_rows) {
            None => r.0 == chat_area && r.1 is None,
            Some((m, q)) => r.0 == (Rect { height: m, ..chat_area }) && r.1 == Some(
                Rect { x: chat_area.x, y: (chat_area.y + m) as u16, width: chat_area.width, height: q },
            ),
        },
{
    if queue_len == 0 || chat_area.height < 8 {
        return (chat_area, None);
    }
    let desired: u16 = if content_rows > u16::MAX - 2 {
        u16::MAX
    } else {
        content_rows + 2
    };
    let half: u16 = if chat_area.height / 2 >= 3 {
        chat_area.height / 2
    } else {
        3
    };
    let capped = if desired <= half {
        desired
    } else {
        half
    };
    let q = if capped >= 3 {
        capped
    } else {
        3
    };
    if q as u32 + 5 > chat_area.height as u32 {
        return (chat_area, None);
    }
    let m = chat_area.height - q;
    (
        Rect { height: m, ..chat_area },
        Some(Rect { x: chat_area.x, y: chat_area.y + m, width: chat_area.width, height: q }),
    )
}

/// Sum of the first `n` heights.
pub open spec fn height_sum(h: Seq<u16>, n: int) -> int
    decreases n,
{
    if n <= 0 {
        0
    } else {
        height_sum(h, n - 1) + h[n - 1]
    }
}

/// The message under screen row `row` of the chat, given each rendered message's
/// height and the scroll offset: `None` on the border rows and below the last message.
pub open spec fn hit_spec(heights: Seq<u16>, area: Rect, scroll: u16, row: u16) -> Option<int> {
    let top = area.y + 1;
    let bottom = area.y + sat_sub(area.height, 1);
    if row < top || row >= bottom {
        None
    } else {
        let content = row - top + scroll;
        if exists|i: int| 0 <= i < heights.len() && content < #[trigger] height_sum(heights, i + 1) {
            Some(choose|i: int| 0 <= i < heights.len() && content < #[trigger] height_sum(heights, i + 1)
                && (i == 0 || content >= height_sum(heights, i)))
        } else {
            None
        }
    }
}

proof fn lemma_height_sum_mono(h: Seq<u16>, a: int, b: int)
    requires
        0 <= a <= b <= h.len(),
    ensures
        height_sum(h, a) <= height_sum(h, b),
    decreases b - a,
{
    if a < b {
        lemma_height_sum_mono(h, a, b - 1);
    }
}

/// Index of the message under screen row `row`, if any (see `hit_spec`).
pub fn hit_test_chat_message(heights: &[u16], chat_area: Rect, chat_scroll: u16, screen_row: u16) -> (r: Option<usize>)
    requires
        chat_area.fits(),
        chat_area.y < u16::MAX,
    ensures
        match r {
            Some(i) => i < heights@.len() && ({
                let content = screen_row - (chat_area.y + 1) + chat_scroll;
                &&& content < height_sum(heights@, i + 1)
                &&& content >= height_sum(heights@, i as int)
            }),
            None => hit_spec(heights@, chat_area, chat_scroll, screen_row) is None,
        },
        r matches Some(i) ==> hit_spec(heights@, chat_area, chat_scroll, screen_row) == Some(i as int),
{
    let top = chat_area.y + 1;
    let bottom = chat_area.y + if chat_area.height >= 1 {
        chat_area.height - 1
    } else {
        0
    };
    if screen_row < top || screen_row >= bottom {
        return None;
    }
    let content: u32 = (screen_row - top) as u32 + chat_scroll as u32;
    let mut cumulative: u64 = 0;
    let mut i: usize = 0;
    while i < heights.len()
        invariant
            i <= heights.len(),
            cumulative == height_sum(heights@, i as int),
            content >= height_sum(heights@, i as int),
            content == screen_row - top + chat_scroll,
            top == chat_area.y + 1,
            screen_row >= chat_area.y + 1,
            screen_row < chat_area.y + sat_sub(chat_area.height, 1),
        decreases heights.len() - i,
    {
        cumulative = cumulative + heights[i] as u64;
        if (content as u64) < cumulative {
            proof {
                assert(content < height_sum(heights@, i + 1) && (i == 0 || content >= height_sum(heights@, i as int)));
                assert forall|j: int| 0 <= j < heights@.len() && content < #[trigger] height_sum(heights@, j + 1)
                    && (j == 0 || content >= height_sum(heights@, j)) implies j == i by {
                    if j < i {
                        lemma_height_sum_mono(heights@, j + 1, i as int);
                    } else if j > i {
                        lemma_height_sum_mono(heights@, i + 1, j);
                    }
                }
                let ghost cnt: int = screen_row - (chat_area.y + 1) + chat_scroll;
                assert(cnt == content);
                let c = choose|j: int| 0 <= j < heights@.len() && cnt < #[trigger] height_sum(heights@, j + 1)
                    && (j == 0 || cnt >= height_sum(heights@, j));
                assert(c == i);
            }
            return Some(i);
        }
        i = i + 1;
    }
    proof {
        assert forall|j: int| 0 <= j < heights@.len() implies !(content < #[trigger] height_sum(heights@, j + 1)) by {
            lemma_height_sum_mono(heights@, j + 1, heights@.len() as int);
        }
    }
    None
}

// ---------------------------------------------------------------------
// Labels
// ---------------------------------------------------------------------

/// `1 noun`, or `n nouns` for any other count.
pub open spec fn count_label(count: nat, noun: Seq<char>) -> Seq<char> {
    if count == 1 {
        "1 "@ + noun
    } else {
        decimal(count) + " "@ + noun + "s"@
    }
}

/// `1 noun`, or `n nouns` for any other count.
pub fn format_count(count: usize, noun: &str) -> (r: String)
    ensures
        r@ == count_label(count as nat, noun@),
{
    let mut v: Vec<char> = Vec::new();
    if count == 1 {
        push_str(&mut v, "1 ");
        push_str(&mut v, noun);
        assert(Seq::<char>::empty() + "1 "@ =~= "1 "@);
    } else {
        push_decimal(&mut v, count as u64);
        push_str(&mut v, " ");
        push_str(&mut v, noun);
        push_str(&mut v, "s");
        assert(Seq::<char>::empty() + decimal(count as nat) =~= decimal(count as nat));
    }
    string_of(v.as_slice())
}

/// `1 token`, or `n tokens` for any other count.
pub fn format_token_count(count: usize) -> (r: String)
    ensures
        r@ == count_label(count as nat, "token"@),
{
    format_count(count, "token")
}

/// `text` when it has at most `max_chars` characters; else its first `max_chars`
/// characters when the limit is three or less, or its first `max_chars - 3`
/// characters followed by `...`.
pub open spec fn truncated_spec(text: Seq<char>, max_chars: nat) -> Seq<char> {
    if text.len() <= max_chars {
        text
    } else if max_chars <= 3 {
        text.take(max_chars as int)
    } else {
        text.take(max_chars - 3) + "..."@
    }
}

/// Shortens `text` to `max_chars` characters (see `truncated_spec`).
pub fn truncate_with_ellipsis(text: &str, max_chars: usize) -> (r: String)
    ensures
        r@ == truncated_spec(text@, max_chars as nat),
{
    let v = chars_of(text);
    if v.len() <= max_chars {
        return string_of(v.as_slice());
    }
    if max_chars <= 3 {
        let t = sub_chars(v.as_slice(), 0, max_chars);
        assert(t@ =~= v@.take(max_chars as int));
        return string_of(t.as_slice());
    }
    let mut t = sub_chars(v.as_slice(), 0, max_chars - 3);
    assert(t@ =~= v@.take(max_chars - 3));
    push_str(&mut t, "...");
    string_of(t.as_slice())
}

} // verus!
