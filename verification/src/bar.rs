//! The status area of the Wayland bar: the texts it shows and in which order,
//! which block the pointer is over, and how hovering a block highlights it.
use vstd::prelude::*;

verus! {

/// One of the bar's four colors: the text and background colors of the
/// active and of the inactive scheme.
#[derive(Clone, Copy, Debug, PartialEq, Eq, Structural)]
pub enum BarColor {
    ActiveText,
    ActiveBackground,
    InactiveText,
    InactiveBackground,
}

/// One text of the status area and the color it is drawn in.
pub struct StatusItem {
    pub content: String,
    pub color: BarColor,
}

/// The texts and colors of status items.
pub open spec fn items_view(items: Seq<StatusItem>) -> Seq<(Seq<char>, BarColor)> {
    items.map_values(|i: StatusItem| (i.content@, i.color))
}

/// The status area, drawn from the right edge leftwards: each block's text
/// followed by the divider, then, when the clock is shown, the date, the
/// divider and the time. Everything is drawn in `color`.
pub open spec fn status_items_spec(
    blocks: Seq<Seq<char>>,
    clock: Option<(Seq<char>, Seq<char>)>,
    divider: Seq<char>,
    color: BarColor,
) -> Seq<(Seq<char>, BarColor)>
    decreases blocks.len(),
{
    if blocks.len() == 0 {
        match clock {
            Some((date, time)) => seq![(date, color), (divider, color), (time, color)],
            None => Seq::empty(),
        }
    } else {
        seq![(blocks[0], color), (divider, color)] + status_items_spec(
            blocks.drop_first(),
            clock,
            divider,
            color,
        )
    }
}

/// The block texts as text.
pub open spec fn texts_view(v: Seq<String>) -> Seq<Seq<char>> {
    v.map_values(|s: String| s@)
}

/// The texts of the blocks that are shown, in the order the status area
/// draws them from the right edge: media, network, each power source,
/// brightness. A block that is turned off (`None`) takes no place.
pub open spec fn shown_blocks_spec(
    media: Option<Seq<char>>,
    network: Option<Seq<char>>,
    power: Option<Seq<Seq<char>>>,
    brightness: Option<Seq<char>>,
) -> Seq<Seq<char>> {
    (match media {
        Some(t) => seq![t],
        None => Seq::empty(),
    }) + (match network {
        Some(t) => seq![t],
        None => Seq::empty(),
    }) + (match power {
        Some(ts) => ts,
        None => Seq::empty(),
    }) + (match brightness {
        Some(t) => seq![t],
        None => Seq::empty(),
    })
}

/// Text as a character sequence, if there is one.
pub open spec fn opt_text(t: Option<&str>) -> Option<Seq<char>> {
    match t {
        Some(t) => Some(t@),
        None => None,
    }
}

/// Collects the texts of the blocks that are shown in drawing order (see
/// `shown_blocks_spec`); these are the `blocks` of `status_items`.
pub fn shown_blocks(
    media: Option<&str>,
    network: Option<&str>,
    power: Option<&Vec<String>>,
    brightness: Option<&str>,
) -> (blocks: Vec<String>)
    ensures
        texts_view(blocks@) == shown_blocks_spec(
            opt_text(media),
            opt_text(network),
            match power {
                Some(ts) => Some(texts_view(ts@)),
                None => None,
            },
            opt_text(brightness),
        ),
{
    let mut blocks: Vec<String> = Vec::new();
    let ghost head = match opt_text(media) {
        Some(t) => seq![t],
        None => Seq::<Seq<char>>::empty(),
    };
    if let Some(t) = media {
        blocks.push(t.to_owned());
    }
    assert(texts_view(blocks@) =~= head);
    let ghost head2 = head + match opt_text(network) {
        Some(t) => seq![t],
        None => Seq::<Seq<char>>::empty(),
    };
    if let Some(t) = network {
        let ghost before = blocks@;
        blocks.push(t.to_owned());
        assert(texts_view(blocks@) =~= texts_view(before).push(t@));
    }
    assert(texts_view(blocks@) =~= head2);
    let ghost pv = match power {
        Some(ts) => Some(texts_view(ts@)),
        None => None::<Seq<Seq<char>>>,
    };
    let ghost head3 = head2 + match pv {
        Some(ts) => ts,
        None => Seq::<Seq<char>>::empty(),
    };
    if let Some(ts) = power {
        let mut i: usize = 0;
        while i < ts.len()
            invariant
                i <= ts.len(),
                texts_view(blocks@) == head2 + texts_view(ts@).take(i as int),
            decreases ts.len() - i,
        {
            let ghost before = blocks@;
            let c = ts[i].clone();
            blocks.push(c);
            assert(texts_view(blocks@) =~= texts_view(before).push(c@));
            assert(texts_view(ts@).take(i + 1) =~= texts_view(ts@).take(i as int).push(ts@[i as int]@));
            i = i + 1;
        }
        assert(texts_view(ts@).take(ts.len() as int) =~= texts_view(ts@));
    }
    assert(texts_view(blocks@) =~= head3);
    if let Some(t) = brightness {
        let ghost before = blocks@;
        blocks.push(t.to_owned());
        assert(texts_view(blocks@) =~= texts_view(before).push(t@));
    }
    assert(texts_view(blocks@) =~= shown_blocks_spec(opt_text(media), opt_text(network), pv, opt_text(brightness)));
    blocks
}

/// The items of the status area (see `status_items_spec`); `blocks` are the
/// texts of the media, network, power and brightness blocks that are shown,
/// in that order, and `clock` the date and time if the clock is shown.
pub fn status_items(blocks: &Vec<String>, clock: Option<(&str, &str)>, divider: &str, color: BarColor) -> (items: Vec<StatusItem>)
    ensures
        items_view(items@) == status_items_spec(
            texts_view(blocks@),
            match clock {
                Some((d, t)) => Some((d@, t@)),
                None => None,
            },
            divider@,
            color,
        ),
{
    let ghost clock_view = match clock {
        Some((d, t)) => Some((d@, t@)),
        None => None::<(Seq<char>, Seq<char>)>,
    };
    let ghost all = texts_view(blocks@);
    let mut items: Vec<StatusItem> = Vec::new();
    let mut i: usize = 0;
    assert(all.subrange(0, all.len() as int) =~= all);
    while i < blocks.len()
        invariant
            i <= blocks.len(),
            all == texts_view(blocks@),
            items_view(items@) + status_items_spec(all.subrange(i as int, all.len() as int), clock_view, divider@, color)
                == status_items_spec(all, clock_view, divider@, color),
        decreases blocks.len() - i,
    {
        let ghost rest = all.subrange(i as int, all.len() as int);
        let ghost before = items_view(items@);
        items.push(StatusItem { content: blocks[i].clone(), color });
        items.push(StatusItem { content: divider.to_owned(), color });
        proof {
            assert(rest[0] == blocks@[i as int]@);
            assert(rest.drop_first() =~= all.subrange(i + 1, all.len() as int));
            assert(items_view(items@) =~= before + seq![(rest[0], color), (divider@, color)]);
            assert(status_items_spec(rest, clock_view, divider@, color) == seq![(rest[0], color), (divider@, color)]
                + status_items_spec(rest.drop_first(), clock_view, divider@, color));
            assert(items_view(items@) + status_items_spec(rest.drop_first(), clock_view, divider@, color)
                =~= before + status_items_spec(rest, clock_view, divider@, color));
        }
        i = i + 1;
    }
    let ghost before = items_view(items@);
    assert(all.subrange(i as int, all.len() as int) =~= Seq::<Seq<char>>::empty());
    match clock {
        Some((date, time)) => {
            items.push(StatusItem { content: date.to_owned(), color });
            items.push(StatusItem { content: divider.to_owned(), color });
            items.push(StatusItem { content: time.to_owned(), color });
            assert(items_view(items@) =~= before + seq![(date@, color), (divider@, color), (time@, color)]);
        },
        None => {
            assert(before + Seq::<(Seq<char>, BarColor)>::empty() =~= before);
        },
    }
    items
}

/// The number that hovering gives the block at `position` (counted from the
/// right edge among the blocks shown). The media block is 0; every other
/// block counts as if the media block were shown, so without it the first
/// block is 2.
pub open spec fn block_id_spec(media_shown: bool, position: nat) -> nat {
    if media_shown {
        2 * position
    } else {
        2 * (position + 1)
    }
}

/// The number of the block at `position` (see `block_id_spec`); the date and
/// the time are two blocks.
pub fn block_id(media_shown: bool, position: usize) -> (id: usize)
    requires
        position < usize::MAX / 2 - 1,
    ensures
        id == block_id_spec(media_shown, position as nat),
{
    if media_shown {
        2 * position
    } else {
        2 * (position + 1)
    }
}

/// The items with the color at `i` replaced, if there is an item there.
pub open spec fn with_color(s: Seq<(Seq<char>, BarColor)>, i: int, c: BarColor) -> Seq<(Seq<char>, BarColor)> {
    if 0 <= i < s.len() {
        s.update(i, (s[i].0, c))
    } else {
        s
    }
}

/// The items with the text at `i` replaced, if there is an item there.
pub open spec fn with_text(s: Seq<(Seq<char>, BarColor)>, i: int, t: Seq<char>) -> Seq<(Seq<char>, BarColor)> {
    if 0 <= i < s.len() {
        s.update(i, (t, s[i].1))
    } else {
        s
    }
}

/// The status area after the highlight moves from block `previous` to block
/// `block` (each if any). The old block and the text after it go back to the
/// active text color and the dividers around it back to the plain divider;
/// then the new block's text takes the inactive background color, the text
/// after it the active background color, and the dividers around it become
/// the hard divider.
pub open spec fn select_block_spec(
    s: Seq<(Seq<char>, BarColor)>,
    previous: Option<usize>,
    block: Option<usize>,
    divider: Seq<char>,
    divider_hard: Seq<char>,
) -> Seq<(Seq<char>, BarColor)> {
    let cleared = match previous {
        Some(b) => with_text(
            with_text(
                with_color(with_color(s, b + 1, BarColor::ActiveText), b as int, BarColor::ActiveText),
                b - 1,
                divider,
            ),
            b + 1,
            divider,
        ),
        None => s,
    };
    match block {
        Some(k) => with_text(
            with_text(
                with_color(
                    with_color(cleared, k + 1, BarColor::ActiveBackground),
                    k as int,
                    BarColor::InactiveBackground,
                ),
                k - 1,
                divider_hard,
            ),
            k + 1,
            divider_hard,
        ),
        None => cleared,
    }
}

fn set_color(items: &mut Vec<StatusItem>, i: usize, c: BarColor)
    ensures
        items_view(final(items)@) == with_color(items_view(old(items)@), i as int, c),
{
    if i < items.len() {
        let ghost before = items_view(items@);
        let content = items[i].content.clone();
        items.set(i, StatusItem { content, color: c });
        assert(items_view(items@) =~= with_color(before, i as int, c));
    }
}

fn set_text(items: &mut Vec<StatusItem>, i: usize, t: &str)
    ensures
        items_view(final(items)@) == with_text(items_view(old(items)@), i as int, t@),
{
    if i < items.len() {
        let ghost before = items_view(items@);
        let color = items[i].color;
        items.set(i, StatusItem { content: t.to_owned(), color });
        assert(items_view(items@) =~= with_text(before, i as int, t@));
    }
}

/// Moves the highlight in the status area from block `previous` to block
/// `block` (see `select_block_spec`) and returns the block now selected.
pub fn select_block(
    items: &mut Vec<StatusItem>,
    previous: Option<usize>,
    block: Option<usize>,
    divider: &str,
    divider_hard: &str,
) -> (selected: Option<usize>)
    ensures
        selected == block,
        items_view(final(items)@) == select_block_spec(
            items_view(old(items)@),
            previous,
            block,
            divider@,
            divider_hard@,
        ),
{
    if let Some(b) = previous {
        if b < items.len() {
            set_color(items, b + 1, BarColor::ActiveText);
        }
        set_color(items, b, BarColor::ActiveText);
        if b >= 1 {
            set_text(items, b - 1, divider);
        }
        if b < items.len() {
            set_text(items, b + 1, divider);
        }
    }
    if let Some(k) = block {
        if k < items.len() {
            set_color(items, k + 1, BarColor::ActiveBackground);
        }
        set_color(items, k, BarColor::InactiveBackground);
        if k >= 1 {
            set_text(items, k - 1, divider_hard);
        }
        if k < items.len() {
            set_text(items, k + 1, divider_hard);
        }
    }
    block
}

/// In the status area every item has the drawing color, and every item at
/// an odd position is the divider.
proof fn lemma_status_items_shape(
    blocks: Seq<Seq<char>>,
    clock: Option<(Seq<char>, Seq<char>)>,
    divider: Seq<char>,
    color: BarColor,
)
    ensures
        forall|i: int|
            0 <= i < status_items_spec(blocks, clock, divider, color).len() ==> (#[trigger] status_items_spec(
                blocks,
                clock,
                divider,
                color,
            )[i]).1 == color && (i % 2 == 1 ==> status_items_spec(blocks, clock, divider, color)[i].0
                == divider),
    decreases blocks.len(),
{
    if blocks.len() > 0 {
        lemma_status_items_shape(blocks.drop_first(), clock, divider, color);
        let rest = status_items_spec(blocks.drop_first(), clock, divider, color);
        let s = status_items_spec(blocks, clock, divider, color);
        assert(s == seq![(blocks[0], color), (divider, color)] + rest);
        assert forall|i: int| 2 <= i < s.len() implies s[i] == rest[i - 2] && (i % 2 == (i - 2) % 2) by {}
    }
}

/// Hovering a block of the status area and then leaving it gives back the
/// status area exactly as it was drawn, when it was drawn in the active text
/// color (the bar of the selected monitor).
pub proof fn lemma_unhover_restores(
    blocks: Seq<Seq<char>>,
    clock: Option<(Seq<char>, Seq<char>)>,
    divider: Seq<char>,
    divider_hard: Seq<char>,
    block: usize,
)
    requires
        block % 2 == 0,
    ensures
        select_block_spec(
            select_block_spec(
                status_items_spec(blocks, clock, divider, BarColor::ActiveText),
                None,
                Some(block),
                divider,
                divider_hard,
            ),
            Some(block),
            None,
            divider,
            divider_hard,
        ) == status_items_spec(blocks, clock, divider, BarColor::ActiveText),
{
    let s = status_items_spec(blocks, clock, divider, BarColor::ActiveText);
    lemma_status_items_shape(blocks, clock, divider, BarColor::ActiveText);
    let t = select_block_spec(
        select_block_spec(s, None, Some(block), divider, divider_hard),
        Some(block),
        None,
        divider,
        divider_hard,
    );
    assert(t.len() == s.len());
    assert forall|i: int| 0 <= i < s.len() implies t[i] == s[i] by {
        assert(s[i].1 == BarColor::ActiveText);
        if i == block - 1 || i == block + 1 {
            assert(i % 2 == 1);
            assert(s[i].0 == divider);
        }
    }
    assert(t =~= s);
}

} // verus!
